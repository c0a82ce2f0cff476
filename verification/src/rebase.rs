//! Commit-by-commit rebase engine with conflict detection.
//!
//! Both public entry points share one replay loop, parameterized by what
//! to do when the index reports a conflict: the atomic variant aborts the
//! rebase and restores the repository, the tolerant variant stops and
//! leaves the rebase open on disk for interactive resolution.  What the
//! engine does with each outcome of the binding is decided by a small
//! verified function with an exact contract — `conflict_action`,
//! `conflict_failure`, `classify_completion`, `state_of_loop_end`,
//! `signature_fallback`, `progress_of` — so that only the binding calls
//! themselves are beyond Verus's reach.

use vstd::prelude::*;

use crate::error::Error;
use crate::git::{self, SignatureLookup};

verus! {

/// Identifier of one commit: an opaque fixed-size content hash, totally
/// ordered by its binary representation.
#[derive(Clone, Copy, Debug, PartialEq, Eq, PartialOrd, Ord, Hash)]
pub struct CommitId {
    /// The raw bytes of the hash.
    pub raw: [u8; 20],
}

/// Terminal classification of one tolerant rebase attempt.
#[derive(Debug, PartialEq, Eq, Structural)]
pub enum RebaseState {
    /// All steps were replayed and the rebase was finalized.
    Finished,
    /// A step hit an index conflict; the rebase is left open on disk.
    Conflicted,
}

/// Read-only snapshot of a rebase already open on disk.
#[derive(Debug, PartialEq, Eq, Structural)]
pub struct RebaseProgress {
    /// How many steps the rebase has in total.
    pub steps: usize,
    /// The index of the step being applied.
    pub current: usize,
}

/// What the shared replay loop does upon detecting an index conflict.
#[derive(Clone, Copy, Debug, PartialEq, Eq, Structural)]
pub enum ConflictPolicy {
    /// Abort the rebase, restore the repository, and fail.
    AbortAndFail,
    /// Stop and leave the rebase open on disk.
    KeepOpen,
}

/// How the shared replay loop ended when it did not fail.
#[derive(Clone, Copy, Debug)]
pub enum LoopEnd {
    /// Every step replayed cleanly; `last` is the last synthesized commit.
    Completed { last: Option<CommitId> },
    /// A conflict was met under the tolerant policy; the rebase is open.
    ConflictedOpen,
}

/// What the replay loop does after inspecting the index for one step.
#[derive(Clone, Copy, Debug, PartialEq, Eq, Structural)]
pub enum StepAction {
    /// No conflict: the replay goes on — the step is committed, or the
    /// replay is complete after the last one.
    Proceed,
    /// Conflict under the atomic policy: abort the rebase, then fail.
    AbortThenFail,
    /// Conflict under the tolerant policy: stop, leaving the rebase open.
    StopOpen,
}

/// The conflict-detection decision both variants share: a clean step is
/// committed; a conflicting step makes the atomic policy abort and fail,
/// and the tolerant policy stop with the rebase left open.
pub fn conflict_action(conflicted: bool, policy: ConflictPolicy) -> (a: StepAction)
    ensures
        a == (if conflicted {
            if policy == ConflictPolicy::AbortAndFail {
                StepAction::AbortThenFail
            } else {
                StepAction::StopOpen
            }
        } else {
            StepAction::Proceed
        }),
{
    if conflicted {
        match policy {
            ConflictPolicy::AbortAndFail => StepAction::AbortThenFail,
            ConflictPolicy::KeepOpen => StepAction::StopOpen,
        }
    } else {
        StepAction::Proceed
    }
}

/// The failure the atomic variant reports once a conflict made it abort:
/// the dedicated conflict error when the abort went through, the abort's
/// own failure otherwise.
pub fn conflict_failure(abort_result: Result<(), Error>) -> (e: Error)
    ensures
        abort_result matches Ok(_) ==> e matches Error::RebaseConflict,
        abort_result matches Err(g) ==> e == g,
{
    match abort_result {
        Ok(()) => Error::RebaseConflict,
        Err(g) => g,
    }
}

/// Classify a completed replay: the last synthesized commit is the
/// result, and a replay that synthesized none fails as an empty rebase.
pub fn classify_completion(last: Option<CommitId>) -> (r: Result<CommitId, Error>)
    ensures
        last matches Some(id) ==> r == Ok::<CommitId, Error>(id),
        last is None ==> (r matches Err(e) && e matches Error::Generic(m) && m@
            == "no commit rebased"@),
{
    match last {
        Some(id) => Ok(id),
        None => Err(Error::Generic(String::from_str("no commit rebased"))),
    }
}

/// The terminal classification each loop end maps to: a completed replay
/// has finished, a stop on conflict reports the open, conflicted rebase.
pub fn state_of_loop_end(end: LoopEnd) -> (s: RebaseState)
    ensures
        s == (match end {
            LoopEnd::Completed { last: _ } => RebaseState::Finished,
            LoopEnd::ConflictedOpen => RebaseState::Conflicted,
        }),
{
    match end {
        LoopEnd::Completed { last: _ } => RebaseState::Finished,
        LoopEnd::ConflictedOpen => RebaseState::Conflicted,
    }
}

/// What a failed committer lookup means for the rebase.
#[derive(Debug)]
pub enum SignatureDecision {
    /// No identity is configured: ask for the permissive placeholder.
    UsePlaceholder,
    /// The lookup failed outright: the rebase fails with this error.
    Fail(Error),
}

/// Decide the fallback from a failed signature lookup: only a missing
/// identity is forgiven; any other failure is final, carried as the
/// binding failure it was.
pub fn signature_fallback(lookup: SignatureLookup) -> (r: SignatureDecision)
    ensures
        lookup matches SignatureLookup::NotFound ==> r matches SignatureDecision::UsePlaceholder,
        lookup matches SignatureLookup::Other(m) ==> (r matches SignatureDecision::Fail(e)
            && e matches Error::Git(g) && g@ == m@),
{
    match lookup {
        SignatureLookup::NotFound => SignatureDecision::UsePlaceholder,
        SignatureLookup::Other(m) => SignatureDecision::Fail(Error::Git(m)),
    }
}

/// Whether the repository's index currently reports conflicts.
fn work_index_conflicted(repo: &git2::Repository) -> (r: Result<bool, Error>)
    ensures
        r matches Err(e) ==> e matches Error::Git(_),
{
    match git::repo_index(repo) {
        Ok(ix) => Ok(git::index_has_conflicts(&ix)),
        Err(e) => Err(e),
    }
}

/// The committer signature for replayed commits: the configured identity
/// of the repository, falling back to a permissive placeholder identity
/// when none is configured, as `signature_fallback` decides.
fn signature_allow_undefined_name(
    repo: &git2::Repository,
) -> (r: Result<git2::Signature<'static>, Error>)
    ensures
        r matches Err(e) ==> e matches Error::Git(_),
{
    match git::repo_signature(repo) {
        Ok(s) => Ok(s),
        Err(lookup) => {
            match signature_fallback(lookup) {
                SignatureDecision::UsePlaceholder => git::signature_now("unknown", "unknown"),
                SignatureDecision::Fail(e) => Err(e),
            }
        },
    }
}

/// Replay the pending steps of an open rebase one at a time.  After each
/// step the index is inspected; a conflict is handled as `policy` says.
/// The loop never finalizes the rebase: that is left to the caller, so
/// that both entry points share the identical conflict-detection core.
fn replay_steps<'r, 'a>(
    repo: &git2::Repository,
    rb: &mut git::OpenRebase<'r>,
    committer: &git2::Signature<'a>,
    policy: ConflictPolicy,
) -> (r: Result<LoopEnd, Error>)
    ensures
        policy == ConflictPolicy::AbortAndFail ==> !(r matches Ok(LoopEnd::ConflictedOpen)),
        r matches Err(e) ==> (e matches Error::Git(_) || (policy == ConflictPolicy::AbortAndFail
            && e matches Error::RebaseConflict)),
{
    let total = git::rebase_len(rb);
    let mut last: Option<CommitId> = None;
    let mut i: usize = 0;
    while i < total
        invariant
            i <= total,
        decreases total - i,
    {
        match git::rebase_next(rb) {
            None => {
                break;
            },
            Some(Err(e)) => {
                return Err(e);
            },
            Some(Ok(())) => {
                match work_index_conflicted(repo) {
                    Err(e) => {
                        return Err(e);
                    },
                    Ok(conflicted) => {
                        match conflict_action(conflicted, policy) {
                            StepAction::Proceed => {
                                match git::rebase_commit_step(rb, committer) {
                                    Ok(id) => {
                                        last = Some(id);
                                    },
                                    Err(e) => {
                                        return Err(e);
                                    },
                                }
                            },
                            StepAction::AbortThenFail => {
                                return Err(conflict_failure(git::rebase_abort(rb)));
                            },
                            StepAction::StopOpen => {
                                return Ok(LoopEnd::ConflictedOpen);
                            },
                        }
                    },
                }
            },
        }
        i = i + 1;
    }
    // A conflict introduced by the final step would otherwise slip through
    // to finalization: re-check before reporting completion.
    match work_index_conflicted(repo) {
        Err(e) => Err(e),
        Ok(conflicted) => {
            match conflict_action(conflicted, policy) {
                StepAction::Proceed => Ok(LoopEnd::Completed { last }),
                StepAction::AbortThenFail => Err(conflict_failure(git::rebase_abort(rb))),
                StepAction::StopOpen => Ok(LoopEnd::ConflictedOpen),
            }
        },
    }
}

/// Rebase attempt with all-or-nothing semantics: on the first index
/// conflict the rebase is aborted, the repository restored, and the call
/// fails with `RebaseConflict`.  On success the identifier of the last
/// synthesized commit is returned; an empty rebase fails with a generic
/// error, after finalizing.
pub fn conflict_free_rebase<'a>(
    repo: &git2::Repository,
    commit: &git2::AnnotatedCommit<'a>,
) -> (r: Result<CommitId, Error>)
    ensures
        r matches Err(e) ==> (e matches Error::RebaseConflict || e matches Error::Git(_) || (
        e matches Error::Generic(m) && m@ == "no commit rebased"@)),
{
    let mut rb = match git::begin_rebase(repo, commit) {
        Ok(rb) => rb,
        Err(e) => {
            return Err(e);
        },
    };
    let signature = match signature_allow_undefined_name(repo) {
        Ok(s) => s,
        Err(e) => {
            return Err(e);
        },
    };
    let last = match replay_steps(repo, &mut rb, &signature, ConflictPolicy::AbortAndFail) {
        Ok(LoopEnd::Completed { last }) => last,
        // Unreachable under the abort-and-fail policy, as the loop's
        // contract states.
        Ok(LoopEnd::ConflictedOpen) => unreached(),
        Err(e) => {
            return Err(e);
        },
    };
    match git::rebase_finish(&mut rb, &signature) {
        Ok(()) => {},
        Err(e) => {
            return Err(e);
        },
    }
    classify_completion(last)
}

/// Tolerant rebase attempt: the identical replay loop, but on detecting a
/// conflict it returns `Conflicted` and leaves the rebase open on disk so
/// that conflict resolution can be offered; `Finished` when every step
/// replayed cleanly and the rebase was finalized.  It never fails with
/// `RebaseConflict`.
pub fn rebase<'a>(
    repo: &git2::Repository,
    commit: &git2::AnnotatedCommit<'a>,
) -> (r: Result<RebaseState, Error>)
    ensures
        r matches Err(e) ==> e matches Error::Git(_),
{
    let mut rb = match git::begin_rebase(repo, commit) {
        Ok(rb) => rb,
        Err(e) => {
            return Err(e);
        },
    };
    let signature = match signature_allow_undefined_name(repo) {
        Ok(s) => s,
        Err(e) => {
            return Err(e);
        },
    };
    match replay_steps(repo, &mut rb, &signature, ConflictPolicy::KeepOpen) {
        Ok(end) => {
            if matches!(end, LoopEnd::Completed { last: _ }) {
                match git::rebase_finish(&mut rb, &signature) {
                    Ok(()) => {},
                    Err(e) => {
                        return Err(e);
                    },
                }
            }
            Ok(state_of_loop_end(end))
        },
        Err(e) => Err(e),
    }
}

/// Combine what the open rebase reports into a progress snapshot: the
/// step count as is, and the current operation index, zero when no
/// operation has been applied yet.
pub fn progress_of(steps: usize, current: Option<usize>) -> (p: RebaseProgress)
    ensures
        p.steps == steps,
        p.current == (match current {
            Some(c) => c,
            None => 0usize,
        }),
{
    RebaseProgress {
        steps,
        current: match current {
            Some(c) => c,
            None => 0,
        },
    }
}

/// Read step count and current step index from the rebase open on disk.
/// Fails when no rebase is open, since there is then nothing to read.
pub fn get_rebase_progress(repo: &git2::Repository) -> (r: Result<RebaseProgress, Error>)
    ensures
        r matches Err(e) ==> e matches Error::Git(_),
{
    match git::open_existing_rebase(repo) {
        Ok(mut rb) => {
            let steps = git::rebase_len(&rb);
            let current = git::rebase_operation_current(&mut rb);
            Ok(progress_of(steps, current))
        },
        Err(e) => Err(e),
    }
}

/// Abort the rebase open on disk, restoring the repository to its state
/// before the rebase began.  Fails when no rebase is open.
pub fn abort_rebase(repo: &git2::Repository) -> (r: Result<(), Error>)
    ensures
        r matches Err(e) ==> e matches Error::Git(_),
{
    match git::open_existing_rebase(repo) {
        Ok(mut rb) => {
            match git::rebase_abort(&mut rb) {
                Ok(()) => Ok(()),
                Err(e) => Err(e),
            }
        },
        Err(e) => Err(e),
    }
}

} // verus!
