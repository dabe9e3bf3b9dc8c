//! The pending response: a single-assignment cell observed by polling.
//!
//! A sent request hands the caller a handle onto a shared cell. Exactly one
//! background worker writes the cell — with the response on success, or with
//! an explicit failure so that pollers can tell "failed" from "still
//! running" — and exactly one consumption takes the response out. The cell
//! never reverts: once it polls `Ready` or `Failed` it keeps doing so.
//!
//! The cell here is the state machine itself; the sharing (a lock around it)
//! is the unverified caller's business, and every operation holds the lock
//! only for the duration of the call.

use vstd::prelude::*;
use crate::errors::HttpError;

verus! {

/// What a non-blocking poll reports.
#[derive(Clone, Copy, Debug, PartialEq, Eq, Structural)]
pub enum PollStatus {
    /// The background call has not finished yet.
    Pending,
    /// The response arrived (it may since have been consumed).
    Ready,
    /// The background call failed.
    Failed,
}

/// The states of the single-assignment cell.
pub enum CellState<T> {
    /// Nothing was written yet.
    Pending,
    /// The worker wrote a response that nobody has consumed.
    Ready(T),
    /// The worker's call failed, with its message.
    Failed(String),
    /// The response was consumed.
    Taken,
}

/// The events that can strike the cell: the worker fulfilling or failing it,
/// or a consumer taking the response out.
pub enum CellEvent<T> {
    Fulfill(T),
    Fail(String),
    Take,
}

/// How the cell moves: it is written at most once (a `Fulfill` or `Fail`
/// after the first write changes nothing), and only a `Ready` cell can be
/// taken.
pub open spec fn cell_step<T>(s: CellState<T>, e: CellEvent<T>) -> CellState<T> {
    match e {
        CellEvent::Fulfill(v) => if s is Pending {
            CellState::Ready(v)
        } else {
            s
        },
        CellEvent::Fail(m) => if s is Pending {
            CellState::Failed(m)
        } else {
            s
        },
        CellEvent::Take => if s is Ready {
            CellState::Taken
        } else {
            s
        },
    }
}

/// The cell after a whole sequence of events.
pub open spec fn cell_run<T>(s: CellState<T>, es: Seq<CellEvent<T>>) -> CellState<T>
    decreases es.len(),
{
    if es.len() == 0 {
        s
    } else {
        cell_run(cell_step(s, es[0]), es.skip(1))
    }
}

/// What a poll reports of each state. A consumed cell still reports `Ready`:
/// the response did arrive.
pub open spec fn poll_of<T>(s: CellState<T>) -> PollStatus {
    match s {
        CellState::Pending => PollStatus::Pending,
        CellState::Ready(_) => PollStatus::Ready,
        CellState::Failed(_) => PollStatus::Failed,
        CellState::Taken => PollStatus::Ready,
    }
}

/// Law: once the cell polls `Ready` or `Failed`, no single event changes
/// what a poll reports.
pub proof fn lemma_poll_monotonic<T>(s: CellState<T>, e: CellEvent<T>)
    ensures
        poll_of(s) != PollStatus::Pending ==> poll_of(cell_step(s, e)) == poll_of(s),
{
}

/// Law: once the cell polls `Ready` or `Failed`, no sequence of events, of
/// any length, changes what a poll reports.
pub proof fn lemma_poll_never_reverts<T>(s: CellState<T>, es: Seq<CellEvent<T>>)
    ensures
        poll_of(s) != PollStatus::Pending ==> poll_of(cell_run(s, es)) == poll_of(s),
    decreases es.len(),
{
    if es.len() > 0 {
        lemma_poll_monotonic(s, es[0]);
        lemma_poll_never_reverts(cell_step(s, es[0]), es.skip(1));
    }
}

/// Law: the cell is written at most once. After the first write, a further
/// fulfilment or failure leaves it exactly as it was.
pub proof fn lemma_single_assignment<T>(s: CellState<T>, e: CellEvent<T>)
    ensures
        !(s is Pending) && !(e is Take) ==> cell_step(s, e) == s,
{
}

/// The single-assignment response cell. Its model is a `CellState`.
pub struct ResponseCell<T> {
    state: CellState<T>,
}

impl<T> View for ResponseCell<T> {
    type V = CellState<T>;

    closed spec fn view(&self) -> CellState<T> {
        self.state
    }
}

impl<T> ResponseCell<T> {
    /// A fresh cell: nothing written, polls `Pending`.
    pub fn new() -> (c: Self)
        ensures
            c@ is Pending,
    {
        ResponseCell { state: CellState::Pending }
    }

    /// The worker's success write. Accepted only on the first write; a cell
    /// already written is left untouched.
    pub fn fulfill(&mut self, value: T) -> (accepted: bool)
        ensures
            final(self)@ == cell_step(old(self)@, CellEvent::Fulfill(value)),
            accepted == (old(self)@ is Pending),
    {
        match &self.state {
            CellState::Pending => {
                self.state = CellState::Ready(value);
                true
            },
            _ => false,
        }
    }

    /// The worker's failure write, with the transport error's message.
    /// Accepted only on the first write; a cell already written is left
    /// untouched.
    pub fn fail(&mut self, message: String) -> (accepted: bool)
        ensures
            final(self)@ == cell_step(old(self)@, CellEvent::Fail(message)),
            accepted == (old(self)@ is Pending),
    {
        match &self.state {
            CellState::Pending => {
                self.state = CellState::Failed(message);
                true
            },
            _ => false,
        }
    }

    /// Non-blocking progress report.
    pub fn poll(&self) -> (r: PollStatus)
        ensures
            r == poll_of(self@),
    {
        match &self.state {
            CellState::Pending => PollStatus::Pending,
            CellState::Ready(_) => PollStatus::Ready,
            CellState::Failed(_) => PollStatus::Failed,
            CellState::Taken => PollStatus::Ready,
        }
    }

    /// The one consumption: takes the response out of a `Ready` cell. Before
    /// the write it fails with `NotReadyError`, after a failure write with
    /// `TransportError`, and on every later call with `AlreadyConsumedError`
    /// — each a recoverable error, and none of them changes what a poll
    /// reports.
    pub fn take(&mut self) -> (r: Result<T, HttpError>)
        ensures
            final(self)@ == cell_step(old(self)@, CellEvent::Take),
            old(self)@ is Pending ==> r is Err && r->Err_0 == HttpError::NotReadyError,
            old(self)@ is Ready ==> r is Ok && r->Ok_0 == old(self)@->Ready_0,
            old(self)@ is Failed ==> r is Err && r->Err_0 == HttpError::TransportError,
            old(self)@ is Taken ==> r is Err && r->Err_0 == HttpError::AlreadyConsumedError,
    {
        let is_ready = match &self.state {
            CellState::Ready(_) => true,
            _ => false,
        };
        if is_ready {
            let mut taken = CellState::Taken;
            core::mem::swap(&mut self.state, &mut taken);
            match taken {
                CellState::Ready(v) => Ok(v),
                _ => Err(HttpError::NotReadyError),
            }
        } else {
            match &self.state {
                CellState::Pending => Err(HttpError::NotReadyError),
                CellState::Failed(_) => Err(HttpError::TransportError),
                _ => Err(HttpError::AlreadyConsumedError),
            }
        }
    }
}

} // verus!
