//! Progress events of a long-running remote operation.
//!
//! The worker thread streams `ProgressNotification` values while the
//! blocking call runs; the relay drains them into the controller's shared
//! slot.  The interface thread reads the slot translated into the
//! `RemoteProgress` snapshot shape.

use vstd::prelude::*;

verus! {

/// One discrete status update emitted during a long-running operation.
#[derive(Clone, Debug)]
pub enum ProgressNotification {
    /// Numeric progress: `current` of `total` units transferred.
    Transfer { current: usize, total: usize },
    /// A textual phase label.
    Status(String),
    /// Terminal sentinel: the operation is over and no further event
    /// follows.
    Done,
}

/// The snapshot shape the interface reads: a percentage and the textual
/// phase, if one was reported.
#[derive(Clone, Debug)]
pub struct RemoteProgress {
    /// Completed share of the operation, `0` to `100`.
    pub progress: u8,
    /// The textual phase label, when the latest event carried one.
    pub status: Option<String>,
}

/// The percentage that `current` of `total` units amounts to: zero of an
/// unknown total, full once `current` reaches `total`, and the integer
/// share otherwise.
pub open spec fn percent_spec(current: int, total: int) -> int {
    if total <= 0 {
        0
    } else if current >= total {
        100
    } else {
        current * 100 / total
    }
}

/// The percentage a translated event shows.
pub open spec fn percent_of_notification(ev: ProgressNotification) -> int {
    match ev {
        ProgressNotification::Transfer { current, total } => percent_spec(
            current as int,
            total as int,
        ),
        ProgressNotification::Status(_) => 0,
        ProgressNotification::Done => 100,
    }
}

/// The textual phase a translated event shows.
pub open spec fn status_of_notification(ev: ProgressNotification) -> Option<Seq<char>> {
    match ev {
        ProgressNotification::Status(s) => Some(s@),
        _ => None,
    }
}

/// The view of an optional textual phase.
pub open spec fn opt_string_view(s: Option<String>) -> Option<Seq<char>> {
    match s {
        Some(s) => Some(s@),
        None => None,
    }
}

/// Compute the integer percentage of `current` against `total`.
pub fn percent(current: usize, total: usize) -> (r: u8)
    ensures
        r as int == percent_spec(current as int, total as int),
        r <= 100,
{
    if total == 0 {
        0
    } else if current >= total {
        100
    } else {
        proof {
            assert((current as int) * 100 / (total as int) < 100) by (nonlinear_arith)
                requires
                    0 < total,
                    current < total,
            ;
        }
        ((current as u128) * 100 / (total as u128)) as u8
    }
}

impl ProgressNotification {
    /// Translate this wire-level event into the interface-facing snapshot.
    pub fn to_remote_progress(&self) -> (r: RemoteProgress)
        ensures
            r.progress as int == percent_of_notification(*self),
            opt_string_view(r.status) == status_of_notification(*self),
    {
        match self {
            ProgressNotification::Transfer { current, total } => RemoteProgress {
                progress: percent(*current, *total),
                status: None,
            },
            ProgressNotification::Status(s) => RemoteProgress {
                progress: 0,
                status: Some(s.clone()),
            },
            ProgressNotification::Done => RemoteProgress { progress: 100, status: None },
        }
    }
}

} // verus!
