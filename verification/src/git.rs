//! Trusted boundary to the `git2` version-control binding.
//!
//! Every item here either declares a `git2` type so that it may stand in
//! signatures, or wraps exactly one `git2` call.  The results of these
//! calls depend on the repository on disk, so the wrappers promise nothing
//! about them beyond their shape; the verified callers state what holds
//! whatever comes back.  A failure of the binding is carried out as its
//! message, in the `Git` variant of the engine's error union.

use vstd::prelude::*;

use crate::error::Error;
use crate::rebase::CommitId;

verus! {

#[verifier::external_type_specification]
#[verifier::external_body]
pub struct ExRepository(git2::Repository);

#[verifier::external_type_specification]
#[verifier::external_body]
pub struct ExAnnotatedCommit<'repo>(git2::AnnotatedCommit<'repo>);

/// The rebase object open on disk: the collection of rebase operations
/// being applied, together with its cursor.  It is held opaquely in a
/// field, since declaring git2::Rebase itself would draw its Iterator
/// implementation, which speaks of types this crate leaves undeclared.
#[verifier::external_body]
pub struct OpenRebase<'repo> {
    rebase: git2::Rebase<'repo>,
}

#[verifier::external_type_specification]
#[verifier::external_body]
pub struct ExSignature<'a>(git2::Signature<'a>);

#[verifier::external_type_specification]
#[verifier::external_body]
pub struct ExIndex(git2::Index);

/// Why looking up the repository's configured signature failed: the
/// binding found no configured identity, or it failed otherwise, with its
/// message.
#[derive(Debug)]
pub enum SignatureLookup {
    /// No identity is configured for the repository.
    NotFound,
    /// Any other failure of the binding.
    Other(String),
}

/// Relies on git2::Repository::rebase: initializes a rebase of the
/// checked-out branch onto `upstream` and returns the open rebase object.
#[verifier::external_body]
pub(crate) fn begin_rebase<'r, 'a>(
    repo: &'r git2::Repository,
    upstream: &git2::AnnotatedCommit<'a>,
) -> (r: Result<OpenRebase<'r>, Error>)
    ensures
        r matches Err(e) ==> e matches Error::Git(_),
{
    match repo.rebase(None, Some(upstream), None, None) {
        Ok(rebase) => Ok(OpenRebase { rebase }),
        Err(e) => Err(Error::Git(e.message().to_string())),
    }
}

/// Relies on git2::Repository::open_rebase: opens the rebase already in
/// progress on disk, failing when none is open.
#[verifier::external_body]
pub(crate) fn open_existing_rebase<'r>(repo: &'r git2::Repository) -> (r: Result<
    OpenRebase<'r>,
    Error,
>)
    ensures
        r matches Err(e) ==> e matches Error::Git(_),
{
    match repo.open_rebase(None) {
        Ok(rebase) => Ok(OpenRebase { rebase }),
        Err(e) => Err(Error::Git(e.message().to_string())),
    }
}

/// Relies on Iterator::next for git2::Rebase: applies the next rebase
/// operation to the index and working directory; `None` when no step is
/// left.  The operation handle itself is dropped.
#[verifier::external_body]
pub(crate) fn rebase_next<'r>(rb: &mut OpenRebase<'r>) -> (r: Option<Result<(), Error>>)
    ensures
        r matches Some(Err(e)) ==> e matches Error::Git(_),
{
    match rb.rebase.next() {
        None => None,
        Some(Ok(_op)) => Some(Ok(())),
        Some(Err(e)) => Some(Err(Error::Git(e.message().to_string()))),
    }
}

/// Relies on git2::Rebase::len: the count of rebase operations to apply.
#[verifier::external_body]
pub(crate) fn rebase_len<'r>(rb: &OpenRebase<'r>) -> (r: usize) {
    rb.rebase.len()
}

/// Relies on git2::Rebase::operation_current: the index of the operation
/// being applied, `None` before the first step has been taken.
#[verifier::external_body]
pub(crate) fn rebase_operation_current<'r>(rb: &mut OpenRebase<'r>) -> (r: Option<usize>) {
    rb.rebase.operation_current()
}

/// Relies on git2::Rebase::commit: commits the current patch, keeping the
/// original author, with `committer` as the committer.  The produced
/// object identifier is copied out into a plain `CommitId`.
#[verifier::external_body]
pub(crate) fn rebase_commit_step<'r, 'a>(
    rb: &mut OpenRebase<'r>,
    committer: &git2::Signature<'a>,
) -> (r: Result<CommitId, Error>)
    ensures
        r matches Err(e) ==> e matches Error::Git(_),
{
    match rb.rebase.commit(None, committer, None) {
        Ok(id) => {
            let mut raw = [0u8; 20];
            raw.copy_from_slice(id.as_bytes());
            Ok(CommitId { raw })
        },
        Err(e) => Err(Error::Git(e.message().to_string())),
    }
}

/// Relies on git2::Rebase::abort: rolls the repository and working
/// directory back to their state before the rebase began.
#[verifier::external_body]
pub(crate) fn rebase_abort<'r>(rb: &mut OpenRebase<'r>) -> (r: Result<(), Error>)
    ensures
        r matches Err(e) ==> e matches Error::Git(_),
{
    rb.rebase.abort().map_err(|e| Error::Git(e.message().to_string()))
}

/// Relies on git2::Rebase::finish: finalizes a rebase once all patches
/// have been applied.
#[verifier::external_body]
pub(crate) fn rebase_finish<'r, 'a>(
    rb: &mut OpenRebase<'r>,
    sig: &git2::Signature<'a>,
) -> (r: Result<(), Error>)
    ensures
        r matches Err(e) ==> e matches Error::Git(_),
{
    rb.rebase.finish(Some(sig)).map_err(|e| Error::Git(e.message().to_string()))
}

/// Relies on git2::Repository::index: the index of the repository.
#[verifier::external_body]
pub(crate) fn repo_index(repo: &git2::Repository) -> (r: Result<git2::Index, Error>)
    ensures
        r matches Err(e) ==> e matches Error::Git(_),
{
    repo.index().map_err(|e| Error::Git(e.message().to_string()))
}

/// Relies on git2::Index::has_conflicts: whether the index holds
/// unresolved conflict entries.
#[verifier::external_body]
pub(crate) fn index_has_conflicts(ix: &git2::Index) -> (r: bool) {
    ix.has_conflicts()
}

/// Relies on git2::Repository::signature: the default signature of the
/// configured user.  A failure is told apart by git2::Error::code: the
/// not-found class against every other.
#[verifier::external_body]
pub(crate) fn repo_signature(repo: &git2::Repository) -> (r: Result<
    git2::Signature<'static>,
    SignatureLookup,
>) {
    match repo.signature() {
        Ok(s) => Ok(s),
        Err(e) if e.code() == git2::ErrorCode::NotFound => Err(SignatureLookup::NotFound),
        Err(e) => Err(SignatureLookup::Other(e.message().to_string())),
    }
}

/// Relies on git2::Signature::now: a signature with the given name and
/// email and the current time.
#[verifier::external_body]
pub(crate) fn signature_now(name: &str, email: &str) -> (r: Result<git2::Signature<'static>, Error>)
    ensures
        r matches Err(e) ==> e matches Error::Git(_),
{
    git2::Signature::now(name, email).map_err(|e| Error::Git(e.message().to_string()))
}

} // verus!
