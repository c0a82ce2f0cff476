//! Controller for a single in-flight background push.
//!
//! The controller is the synchronous core of the asynchronous pattern: it
//! owns the pending-request cell, the last-result cell and the shared
//! progress slot as one value, and every transition on them is a verified
//! method.  The surrounding process keeps the value behind a
//! mutual-exclusion guard, spawns the worker and relay threads, and drives
//! the controller: `request` decides whether a worker may be dispatched,
//! `relay_step` is one step of the relay thread, and the worker's
//! completion is `set_result` followed by `clear_request`.

use vstd::prelude::*;

use crate::error::Error;
use crate::progress::{
    opt_string_view,
    percent_of_notification,
    status_of_notification,
    ProgressNotification,
    RemoteProgress,
};

verus! {

/// Optional credential material for a push: a basic username/password
/// pair, either part of which may be absent.
#[derive(Debug)]
pub struct BasicAuthCredential {
    /// The user name, when one is known.
    pub username: Option<String>,
    /// The password, when one is known.
    pub password: Option<String>,
}

/// The mathematical value of a credential pair.
pub struct BasicAuthCredentialView {
    /// The user name, when one is known.
    pub username: Option<Seq<char>>,
    /// The password, when one is known.
    pub password: Option<Seq<char>>,
}

impl View for BasicAuthCredential {
    type V = BasicAuthCredentialView;

    closed spec fn view(&self) -> BasicAuthCredentialView {
        BasicAuthCredentialView {
            username: opt_string_view(self.username),
            password: opt_string_view(self.password),
        }
    }
}

/// Clone an optional string, keeping its characters.
fn clone_opt_string(s: &Option<String>) -> (r: Option<String>)
    ensures
        opt_string_view(r) == opt_string_view(*s),
{
    match s {
        None => None,
        Some(s) => Some(s.clone()),
    }
}

impl Clone for BasicAuthCredential {
    fn clone(&self) -> (r: Self)
        ensures
            r@ == self@,
    {
        BasicAuthCredential {
            username: clone_opt_string(&self.username),
            password: clone_opt_string(&self.password),
        }
    }
}

/// Parameters of one push: immutable once submitted, cloned into the
/// worker that performs the operation.
#[derive(Debug)]
pub struct PushRequest {
    /// Name of the remote to push to.
    pub remote: String,
    /// Name of the reference to push.
    pub branch: String,
    /// Whether to force-push.
    pub force: bool,
    /// Whether to delete the remote reference instead of updating it.
    pub delete: bool,
    /// Credential material, when the remote needs it.
    pub basic_credential: Option<BasicAuthCredential>,
}

/// The mathematical value of a push request.
pub struct PushRequestView {
    /// Name of the remote to push to.
    pub remote: Seq<char>,
    /// Name of the reference to push.
    pub branch: Seq<char>,
    /// Whether to force-push.
    pub force: bool,
    /// Whether to delete the remote reference instead of updating it.
    pub delete: bool,
    /// Credential material, when the remote needs it.
    pub basic_credential: Option<BasicAuthCredentialView>,
}

impl View for PushRequest {
    type V = PushRequestView;

    closed spec fn view(&self) -> PushRequestView {
        PushRequestView {
            remote: self.remote@,
            branch: self.branch@,
            force: self.force,
            delete: self.delete,
            basic_credential: match self.basic_credential {
                Some(c) => Some(c@),
                None => None,
            },
        }
    }
}

impl Clone for PushRequest {
    fn clone(&self) -> (r: Self)
        ensures
            r@ == self@,
    {
        PushRequest {
            remote: self.remote.clone(),
            branch: self.branch.clone(),
            force: self.force,
            delete: self.delete,
            basic_credential: match &self.basic_credential {
                None => None,
                Some(c) => Some(c.clone()),
            },
        }
    }
}

impl Default for PushRequest {
    /// The empty request: empty names, no flags, no credential.
    fn default() -> (r: Self)
        ensures
            r@ == (PushRequestView {
                remote: Seq::<char>::empty(),
                branch: Seq::<char>::empty(),
                force: false,
                delete: false,
                basic_credential: None,
            }),
    {
        PushRequest {
            remote: String::new(),
            branch: String::new(),
            force: false,
            delete: false,
            basic_credential: None,
        }
    }
}

/// The pending-request marker: exactly one request in flight.
#[derive(Debug)]
struct PushState {
    request: PushRequest,
}

/// The controller of one asynchronous push operation.
///
/// At most one operation is in flight at a time: a request is accepted
/// only while the pending-request cell is vacant, and any request
/// submitted while one is pending is silently dropped — intentional
/// coalescing, not an error.
#[derive(Debug)]
pub struct AsyncPush {
    state: Option<PushState>,
    last_result: Option<String>,
    progress: Option<ProgressNotification>,
}

/// Whether a submission dispatches a worker, given whether an operation
/// was already pending when it arrived.
pub open spec fn dispatches(pending_before: bool) -> bool {
    !pending_before
}

/// Whether an operation is pending after a submission: always, since a
/// submission either claims the vacant cell or finds it occupied.
pub open spec fn pending_after_request(pending_before: bool) -> bool {
    true
}

/// The last-result cell a completed operation leaves behind: vacant on
/// success, the failure's message otherwise.
pub open spec fn result_view_of(res: &Result<(), Error>) -> Option<Seq<char>> {
    match res {
        Ok(_) => None,
        Err(e) => Some(e.message_view()),
    }
}

impl AsyncPush {
    /// Whether an operation is currently in flight.
    pub closed spec fn spec_is_pending(&self) -> bool {
        self.state is Some
    }

    /// The request in flight, as a mathematical value.
    pub closed spec fn request_view(&self) -> Option<PushRequestView> {
        match self.state {
            Some(st) => Some(st.request@),
            None => None,
        }
    }

    /// The last-result cell, as a mathematical value.
    pub closed spec fn last_result_view(&self) -> Option<Seq<char>> {
        opt_string_view(self.last_result)
    }

    /// The shared progress slot.
    pub closed spec fn progress_slot(&self) -> Option<ProgressNotification> {
        self.progress
    }

    /// A fresh controller: idle, no result, no progress.
    pub fn new() -> (r: Self)
        ensures
            !r.spec_is_pending(),
            r.request_view() is None,
            r.last_result_view() is None,
            r.progress_slot() is None,
    {
        AsyncPush { state: None, last_result: None, progress: None }
    }

    /// True iff an operation is in flight.
    pub fn is_pending(&self) -> (r: bool)
        ensures
            r == self.spec_is_pending(),
    {
        self.state.is_some()
    }

    /// Snapshot of the last completed operation's result: `None` after a
    /// success or before any operation ran, the failure's message
    /// otherwise.  Side-effect-free.
    pub fn last_result(&self) -> (r: Option<String>)
        ensures
            opt_string_view(r) == self.last_result_view(),
    {
        clone_opt_string(&self.last_result)
    }

    /// Snapshot of the progress slot, translated into the
    /// interface-facing shape.
    pub fn progress(&self) -> (r: Option<RemoteProgress>)
        ensures
            r is Some <==> self.progress_slot() is Some,
            r matches Some(p) ==> (self.progress_slot() matches Some(ev) && p.progress as int
                == percent_of_notification(ev) && opt_string_view(p.status)
                == status_of_notification(ev)),
    {
        match &self.progress {
            None => None,
            Some(ev) => Some(ev.to_remote_progress()),
        }
    }

    /// Submit a push.  While an operation is pending the submission is
    /// dropped without side effects and `Ok(false)` is returned;
    /// otherwise the pending-request cell is claimed, the progress slot
    /// is reset, and `Ok(true)` tells the caller to dispatch exactly one
    /// worker for the claimed request.
    pub fn request(&mut self, params: PushRequest) -> (r: Result<bool, Error>)
        ensures
            r matches Ok(b) && b == dispatches(old(self).spec_is_pending()),
            final(self).spec_is_pending() == pending_after_request(old(self).spec_is_pending()),
            old(self).spec_is_pending() ==> *final(self) == *old(self),
            !old(self).spec_is_pending() ==> (final(self).request_view() == Some(params@)
                && final(self).progress_slot() is None && final(self).last_result_view() == old(
                self,
            ).last_result_view()),
    {
        if self.is_pending() {
            return Ok(false);
        }
        match self.set_request(&params) {
            Ok(()) => {},
            // Unreachable: this owner just saw the cell vacant, and the
            // cell is only reachable through it.
            Err(_) => {
                return unreached();
            },
        }
        self.progress = None;
        Ok(true)
    }

    /// Claim the pending-request cell for `params`.  Fails with the
    /// defensive "pending request" error iff the cell is occupied.
    fn set_request(&mut self, params: &PushRequest) -> (r: Result<(), Error>)
        ensures
            old(self).spec_is_pending() ==> (r matches Err(e) && e matches Error::Generic(m) && m@
                == "pending request"@ && *final(self) == *old(self)),
            !old(self).spec_is_pending() ==> (r matches Ok(_) && final(self).spec_is_pending()
                && final(self).request_view() == Some(params@) && final(self).last_result_view()
                == old(self).last_result_view() && final(self).progress_slot() == old(
                self,
            ).progress_slot()),
    {
        if self.state.is_some() {
            return Err(Error::Generic(String::from_str("pending request")));
        }
        self.state = Some(PushState { request: params.clone() });
        Ok(())
    }

    /// Vacate the pending-request cell: the worker's last state change.
    pub fn clear_request(&mut self)
        ensures
            !final(self).spec_is_pending(),
            final(self).request_view() is None,
            final(self).last_result_view() == old(self).last_result_view(),
            final(self).progress_slot() == old(self).progress_slot(),
    {
        self.state = None;
    }

    /// Record a completed operation's outcome, overwriting the previous
    /// one: the cell becomes vacant on success and holds the failure's
    /// message otherwise.
    pub fn set_result(&mut self, res: Result<(), Error>)
        ensures
            final(self).last_result_view() == result_view_of(&res),
            final(self).spec_is_pending() == old(self).spec_is_pending(),
            final(self).request_view() == old(self).request_view(),
            final(self).progress_slot() == old(self).progress_slot(),
    {
        self.last_result = match res {
            Ok(()) => None,
            Err(e) => Some(e.message()),
        };
    }

    /// One step of the relay: store the event into the shared progress
    /// slot, and say whether the relay is to keep running — it stops
    /// exactly upon the terminal sentinel.  The sentinel itself is stored
    /// on purpose: a poll after completion then reports the terminal
    /// state, a full percentage.
    pub fn relay_step(&mut self, ev: ProgressNotification) -> (cont: bool)
        ensures
            final(self).progress_slot() == Some(ev),
            cont == !(ev matches ProgressNotification::Done),
            final(self).spec_is_pending() == old(self).spec_is_pending(),
            final(self).request_view() == old(self).request_view(),
            final(self).last_result_view() == old(self).last_result_view(),
    {
        let done = matches!(ev, ProgressNotification::Done);
        self.progress = Some(ev);
        !done
    }
}

/// Whether an operation is pending after `n` submissions in a row, with
/// no completion in between, starting from pendingness `p0`.
pub open spec fn pending_after_requests(p0: bool, n: nat) -> bool
    decreases n,
{
    if n == 0 {
        p0
    } else {
        pending_after_request(pending_after_requests(p0, (n - 1) as nat))
    }
}

/// How many of `n` submissions in a row dispatch a worker, with no
/// completion in between, starting from pendingness `p0`.
pub open spec fn dispatch_count(p0: bool, n: nat) -> nat
    decreases n,
{
    if n == 0 {
        0
    } else {
        dispatch_count(p0, (n - 1) as nat) + if dispatches(pending_after_requests(p0, (n - 1) as nat)) {
            1nat
        } else {
            0nat
        }
    }
}

/// Law: a sequence of submissions issued while an operation is pending
/// dispatches no worker at all — no duplicate dispatch, however many
/// times the caller re-submits.
pub proof fn lemma_no_duplicate_dispatch(n: nat)
    ensures
        dispatch_count(true, n) == 0,
        pending_after_requests(true, n),
    decreases n,
{
    if n > 0 {
        lemma_no_duplicate_dispatch((n - 1) as nat);
    }
}

/// How many workers are alive after a submission: one more exactly when
/// the submission dispatched one.
pub open spec fn workers_after_request(pending: bool, workers: nat) -> nat {
    workers + if dispatches(pending) {
        1nat
    } else {
        0nat
    }
}

/// How many workers are alive after a completion: the completing worker
/// itself is gone.
pub open spec fn workers_after_completion(workers: nat) -> nat {
    (workers - 1) as nat
}

/// The tie between the pending-request cell and the worker threads: a
/// worker is alive exactly while an operation is pending.
pub open spec fn worker_invariant(pending: bool, workers: nat) -> bool {
    workers == if pending {
        1nat
    } else {
        0nat
    }
}

/// Law: at most one worker is ever alive per controller.  The tie holds
/// of a fresh controller, is preserved by every submission and by every
/// completion — the only transitions that touch the cell — and it bounds
/// the worker count by one.
pub proof fn lemma_at_most_one_worker(pending: bool, workers: nat)
    requires
        worker_invariant(pending, workers),
    ensures
        workers <= 1,
        worker_invariant(false, 0),
        worker_invariant(pending_after_request(pending), workers_after_request(pending, workers)),
        pending ==> worker_invariant(false, workers_after_completion(workers)),
{
}

/// Law: two submissions in immediate succession dispatch at most one
/// worker; when the controller is idle, the first one dispatches it and
/// the second is a no-op.
pub proof fn lemma_request_coalescing(p0: bool)
    ensures
        dispatch_count(p0, 2) <= 1,
        !p0 ==> dispatch_count(p0, 2) == 1,
{
    reveal_with_fuel(dispatch_count, 3);
    reveal_with_fuel(pending_after_requests, 3);
}

/// Law: a completed operation reports a vacant result cell exactly on
/// success, and a nonempty failure message otherwise.  Together with the
/// contracts of `set_result` and `clear_request` — the worker's two
/// completion steps — this pins what the interface observes after it is
/// notified: not pending, and this result.
pub proof fn lemma_completion_result(res: &Result<(), Error>)
    ensures
        res matches Ok(_) ==> result_view_of(res) is None,
        res matches Err(e) ==> (result_view_of(res) matches Some(m) && m.len() > 0),
{
    match res {
        Ok(_) => {},
        Err(e) => {
            crate::error::lemma_message_nonempty(e);
        },
    }
}

/// Law: what the interface observes once a completed operation has been
/// published.  The worker publishes by `set_result(res)` followed by
/// `clear_request()`; `mid` and `after` are any controller states
/// satisfying those two contracts in turn.  The observation is then:
/// no operation is pending any more, the result cell is vacant exactly
/// when the operation succeeded, and a failure left a nonempty message.
pub proof fn lemma_completion_observed(
    before: AsyncPush,
    mid: AsyncPush,
    after: AsyncPush,
    res: &Result<(), Error>,
)
    requires
        mid.last_result_view() == result_view_of(res),
        mid.spec_is_pending() == before.spec_is_pending(),
        !after.spec_is_pending(),
        after.last_result_view() == mid.last_result_view(),
    ensures
        !after.spec_is_pending(),
        res matches Ok(_) ==> after.last_result_view() is None,
        res matches Err(e) ==> (after.last_result_view() matches Some(m) && m.len() > 0),
{
    lemma_completion_result(res);
}

/// The progress slot after the relay has stored each event of `evs` in
/// order, starting from `slot0`.
pub open spec fn slot_after_relay(
    slot0: Option<ProgressNotification>,
    evs: Seq<ProgressNotification>,
) -> Option<ProgressNotification>
    decreases evs.len(),
{
    if evs.len() == 0 {
        slot0
    } else {
        slot_after_relay(Some(evs[0]), evs.drop_first())
    }
}

/// Law: once the worker's stream ends with the terminal sentinel, the
/// progress slot holds that sentinel — whose translation shows a full
/// percentage — so the interface's next poll reflects the terminal
/// state.
pub proof fn lemma_relay_reflects_terminal(
    slot0: Option<ProgressNotification>,
    evs: Seq<ProgressNotification>,
)
    requires
        evs.len() > 0,
        evs.last() matches ProgressNotification::Done,
    ensures
        slot_after_relay(slot0, evs) == Some(evs.last()),
        percent_of_notification(evs.last()) == 100,
    decreases evs.len(),
{
    reveal_with_fuel(slot_after_relay, 2);
    if evs.len() == 1 {
        assert(evs.last() == evs[0]);
    } else {
        assert(evs.drop_first().last() == evs.last());
        lemma_relay_reflects_terminal(Some(evs[0]), evs.drop_first());
    }
}

} // verus!
