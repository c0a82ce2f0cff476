//! The rebase engine's decision layer on plain values: what each outcome
//! of the binding is turned into.

use asyncgit::error::Error;
use asyncgit::git::SignatureLookup;
use asyncgit::rebase::{
    classify_completion, conflict_action, conflict_failure, signature_fallback, state_of_loop_end,
    CommitId, ConflictPolicy, LoopEnd, RebaseState, SignatureDecision, StepAction,
};

#[test]
fn clean_steps_proceed_under_both_policies() {
    assert_eq!(
        conflict_action(false, ConflictPolicy::AbortAndFail),
        StepAction::Proceed
    );
    assert_eq!(
        conflict_action(false, ConflictPolicy::KeepOpen),
        StepAction::Proceed
    );
}

#[test]
fn conflicts_split_by_policy() {
    assert_eq!(
        conflict_action(true, ConflictPolicy::AbortAndFail),
        StepAction::AbortThenFail
    );
    assert_eq!(
        conflict_action(true, ConflictPolicy::KeepOpen),
        StepAction::StopOpen
    );
}

#[test]
fn conflict_failure_reports_the_conflict_after_a_clean_abort() {
    assert!(matches!(conflict_failure(Ok(())), Error::RebaseConflict));
}

#[test]
fn conflict_failure_keeps_a_failed_aborts_own_error() {
    match conflict_failure(Err(Error::Git("abort refused".to_string()))) {
        Error::Git(m) => assert_eq!(m, "abort refused"),
        other => panic!("expected the abort's own failure, got {other:?}"),
    }
}

#[test]
fn classify_completion_returns_the_last_commit() {
    let id = CommitId { raw: [7u8; 20] };
    match classify_completion(Some(id)) {
        Ok(r) => assert_eq!(r.raw, [7u8; 20]),
        Err(e) => panic!("expected the commit back, got {e:?}"),
    }
}

#[test]
fn classify_completion_rejects_an_empty_replay() {
    match classify_completion(None) {
        Err(Error::Generic(m)) => assert_eq!(m, "no commit rebased"),
        other => panic!("expected the empty-rebase error, got {other:?}"),
    }
}

#[test]
fn loop_ends_map_to_their_states() {
    assert_eq!(
        state_of_loop_end(LoopEnd::Completed { last: None }),
        RebaseState::Finished
    );
    assert_eq!(
        state_of_loop_end(LoopEnd::Completed { last: Some(CommitId { raw: [1u8; 20] }) }),
        RebaseState::Finished
    );
    assert_eq!(
        state_of_loop_end(LoopEnd::ConflictedOpen),
        RebaseState::Conflicted
    );
}

#[test]
fn missing_identity_is_forgiven() {
    assert!(matches!(
        signature_fallback(SignatureLookup::NotFound),
        SignatureDecision::UsePlaceholder
    ));
}

#[test]
fn other_lookup_failures_are_final() {
    match signature_fallback(SignatureLookup::Other("config unreadable".to_string())) {
        SignatureDecision::Fail(Error::Git(m)) => assert_eq!(m, "config unreadable"),
        other => panic!("expected the lookup's failure to be final, got {other:?}"),
    }
}
