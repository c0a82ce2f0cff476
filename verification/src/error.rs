//! The closed error union of the engine.
//!
//! Failures of the version-control binding and internal invariant
//! violations are captured as one tagged variant each, plus a catch-all
//! string variant; collaborator errors are brought in through explicit
//! mapping functions, never implicit coercions.

use vstd::prelude::*;

verus! {

/// One variant per failure kind of the engine and its collaborators.
#[derive(Debug)]
pub enum Error {
    /// Catch-all for internal invariant violations.
    Generic(String),
    /// The repository has no head.
    NoHead,
    /// An index conflict was detected mid-rebase.
    RebaseConflict,
    /// The remote url could not be resolved.
    UnknownRemote,
    /// No single default remote could be chosen.
    NoDefaultRemoteFound,
    /// The repository has no working directory.
    NoWorkDir,
    /// The working tree holds uncommitted changes.
    UncommittedChanges,
    /// A lower-level failure of the version-control binding.
    Git(String),
    /// A lower-level input/output failure.
    Io(String),
}

impl Error {
    /// The human-readable message of this error, as a sequence of
    /// characters; `message` returns exactly this.
    pub closed spec fn message_view(&self) -> Seq<char> {
        match self {
            Error::Generic(s) => "`"@ + s@ + "`"@,
            Error::NoHead => "git: no head found"@,
            Error::RebaseConflict => "git: conflict during rebase"@,
            Error::UnknownRemote => "git: remote url not found"@,
            Error::NoDefaultRemoteFound => "git: inconclusive remotes"@,
            Error::NoWorkDir => "git: work dir error"@,
            Error::UncommittedChanges => "git: uncommitted changes"@,
            Error::Git(s) => "git error:"@ + s@,
            Error::Io(s) => "io error:"@ + s@,
        }
    }

    /// Render the error as a human-readable message.
    pub fn message(&self) -> (r: String)
        ensures
            r@ == self.message_view(),
    {
        match self {
            Error::Generic(s) => {
                let mut m = String::from_str("`");
                m.append(s.as_str());
                m.append("`");
                m
            },
            Error::NoHead => String::from_str("git: no head found"),
            Error::RebaseConflict => String::from_str("git: conflict during rebase"),
            Error::UnknownRemote => String::from_str("git: remote url not found"),
            Error::NoDefaultRemoteFound => String::from_str("git: inconclusive remotes"),
            Error::NoWorkDir => String::from_str("git: work dir error"),
            Error::UncommittedChanges => String::from_str("git: uncommitted changes"),
            Error::Git(s) => {
                let mut m = String::from_str("git error:");
                m.append(s.as_str());
                m
            },
            Error::Io(s) => {
                let mut m = String::from_str("io error:");
                m.append(s.as_str());
                m
            },
        }
    }
}

/// An error always renders to a nonempty message: every variant either
/// carries a nonempty prefix or wraps its payload in quoting marks.
pub proof fn lemma_message_nonempty(e: &Error)
    ensures
        e.message_view().len() > 0,
{
    reveal_strlit("`");
    reveal_strlit("git: no head found");
    reveal_strlit("git: conflict during rebase");
    reveal_strlit("git: remote url not found");
    reveal_strlit("git: inconclusive remotes");
    reveal_strlit("git: work dir error");
    reveal_strlit("git: uncommitted changes");
    reveal_strlit("git error:");
    reveal_strlit("io error:");
}

} // verus!
