//! The read endpoint of a variable and the read operation it hands out: a state
//! machine that a cooperative scheduler polls, which requests a value from the
//! external process, suspends until it is serviced, completes, or is cancelled.
use vstd::prelude::*;

use crate::raw::{serve_step, ProcRecord, Variable, WakerId};

verus! {

/// Where a read operation stands.
#[derive(Clone, Copy, Debug, PartialEq, Eq, Structural)]
pub enum Phase {
    /// Not polled yet: nothing was asked of the external process.
    Unrequested,
    /// A request is in flight and a wake callback is armed.
    Requested,
    /// The value was handed out; the operation may not be polled again.
    Completed,
}

/// The state of a read operation: its phase and the wake callback it armed last.
pub struct BridgeView {
    pub phase: Phase,
    pub armed: Option<WakerId>,
}

/// What a poll reports to the scheduler.
pub enum ReadPoll<T> {
    Pending,
    Ready(T),
}

/// The state of a read operation that was just created.
pub open spec fn fresh_bridge() -> BridgeView {
    BridgeView { phase: Phase::Unrequested, armed: None }
}

/// One poll of a read operation in state `b` on the record `r`, with wake callback `w`:
/// the operation's next state, the record afterwards, and what is reported.
/// Where the flag is clear the callback is (re-)armed, a request is issued on the
/// first poll only, and the scheduler is told to wait. Where it is set the buffer is
/// read, completion is acknowledged, and the value is reported.
pub open spec fn poll_step<T>(b: BridgeView, r: ProcRecord<T>, w: WakerId) -> (BridgeView, ProcRecord<T>, ReadPoll<T>) {
    if !r.processing {
        let armed = ProcRecord { waker: Some(w), ..r };
        let after = if b.phase is Unrequested {
            ProcRecord { requested: true, requests: r.requests + 1, ..armed }
        } else {
            armed
        };
        (BridgeView { phase: Phase::Requested, armed: Some(w) }, after, ReadPoll::Pending)
    } else {
        (
            BridgeView { phase: Phase::Completed, armed: b.armed },
            ProcRecord { processing: false, acks: r.acks + 1, ..r },
            ReadPoll::Ready(r.data),
        )
    }
}

/// The record after a read operation in state `b` is abandoned: an operation that did
/// not complete takes its own wake callback out of the slot; nothing else changes.
pub open spec fn cancel_step<T>(b: BridgeView, r: ProcRecord<T>) -> ProcRecord<T> {
    if !(b.phase is Completed) && b.armed is Some && r.waker == b.armed {
        ProcRecord { waker: None, ..r }
    } else {
        r
    }
}

/// The first poll of a fresh operation on a record whose flag is clear arms the
/// given wake callback, issues exactly one request, acknowledges nothing, and
/// reports that the value is not ready.
pub proof fn lemma_first_poll_requests<T>(r: ProcRecord<T>, w: WakerId)
    requires
        !r.processing,
    ensures
        ({
            let (b1, r1, p) = poll_step(fresh_bridge(), r, w);
            &&& p is Pending
            &&& r1.waker == Some(w)
            &&& r1.requests == r.requests + 1
            &&& r1.requested
            &&& r1.acks == r.acks
            &&& r1.data == r.data
            &&& !r1.processing
            &&& b1.phase is Requested
        }),
{
}

/// Polling again before the request is serviced issues no second request: it only
/// re-arms the wake callback and reports that the value is not ready.
pub proof fn lemma_repoll_no_request<T>(r: ProcRecord<T>, w1: WakerId, w2: WakerId)
    requires
        !r.processing,
    ensures
        ({
            let (b1, r1, _) = poll_step(fresh_bridge(), r, w1);
            let (b2, r2, p) = poll_step(b1, r1, w2);
            &&& p is Pending
            &&& r2.requests == r.requests + 1
            &&& r2.acks == r.acks
            &&& r2.waker == Some(w2)
            &&& b2.phase is Requested
        }),
{
}

/// Once the external process services the request with `v`, the next poll reports
/// `v`, acknowledges completion exactly once, clears the flag, and leaves the
/// operation completed, which no further poll may be made on.
pub proof fn lemma_serviced_poll_completes<T>(r: ProcRecord<T>, w1: WakerId, w2: WakerId, v: T)
    requires
        !r.processing,
    ensures
        ({
            let (b1, r1, _) = poll_step(fresh_bridge(), r, w1);
            let (b2, r2, p) = poll_step(b1, serve_step(r1, v), w2);
            &&& p == ReadPoll::Ready(v)
            &&& r2.acks == r.acks + 1
            &&& r2.requests == r.requests + 1
            &&& !r2.processing
            &&& b2.phase is Completed
        }),
{
}

/// Abandoning an operation after its first poll, whether or not the external
/// process has serviced the request since, empties the wake callback slot and
/// acknowledges nothing.
pub proof fn lemma_cancel_after_first_poll<T>(r: ProcRecord<T>, w: WakerId, serviced: bool, v: T)
    requires
        !r.processing,
    ensures
        ({
            let (b1, r1, _) = poll_step(fresh_bridge(), r, w);
            let r2 = if serviced { serve_step(r1, v) } else { r1 };
            let r3 = cancel_step(b1, r2);
            &&& r3.waker is None
            &&& r3.acks == r.acks
            &&& r3.requests == r.requests + 1
            &&& r3.processing == serviced
        }),
{
}

/// Abandoning an operation that has completed leaves the record as it is.
pub proof fn lemma_cancel_completed_noop<T>(b: BridgeView, r: ProcRecord<T>)
    requires
        b.phase is Completed,
    ensures
        cancel_step(b, r) == r,
{
}

/// A read endpoint: the record of one variable whose values are read as `T`.
pub struct ReadVariable<T> {
    raw: Variable<T>,
}

impl<T> View for ReadVariable<T> {
    type V = ProcRecord<T>;

    closed spec fn view(&self) -> ProcRecord<T> {
        self.raw@
    }
}

impl<T: Copy> ReadVariable<T> {
    pub fn from_raw(raw: Variable<T>) -> (r: ReadVariable<T>)
        ensures
            r@ == raw@,
    {
        ReadVariable { raw }
    }

    /// The variable's record, for inspection.
    pub fn raw(&self) -> (r: &Variable<T>)
        ensures
            r@ == self@,
    {
        &self.raw
    }

    /// The variable's record, for the external process to service.
    pub fn raw_mut(&mut self) -> (r: &mut Variable<T>)
        ensures
            r@ == old(self)@,
            final(self)@ == final(r)@,
    {
        &mut self.raw
    }

    /// Starts a read: an operation that has asked nothing of the external process yet.
    pub fn read(&mut self) -> (r: ReadFuture)
        ensures
            r@ == fresh_bridge(),
            final(self)@ == old(self)@,
    {
        ReadFuture { phase: Phase::Unrequested, armed: None }
    }
}

/// One read operation on a variable. At most one may be outstanding per variable.
pub struct ReadFuture {
    phase: Phase,
    armed: Option<WakerId>,
}

impl View for ReadFuture {
    type V = BridgeView;

    closed spec fn view(&self) -> BridgeView {
        BridgeView { phase: self.phase, armed: self.armed }
    }
}

impl ReadFuture {
    /// The operation has handed out its value.
    pub fn is_complete(&self) -> (r: bool)
        ensures
            r == (self@.phase is Completed),
    {
        match self.phase {
            Phase::Completed => true,
            _ => false,
        }
    }

    /// Polls the operation against the variable's record, arming `waker` to be woken.
    /// Polling after completion is a contract violation.
    pub fn poll<T: Copy>(&mut self, owner: &mut ReadVariable<T>, waker: WakerId) -> (p: ReadPoll<T>)
        requires
            !(old(self)@.phase is Completed),
        ensures
            (final(self)@, final(owner)@, p) == poll_step(old(self)@, old(owner)@, waker),
    {
        let raw = &mut owner.raw;
        if !raw.processing() {
            raw.set_waker(waker);
            if let Phase::Unrequested = self.phase {
                raw.request_proc();
            }
            self.phase = Phase::Requested;
            self.armed = Some(waker);
            return ReadPoll::Pending;
        }
        let val = raw.data();
        raw.complete_proc();
        self.phase = Phase::Completed;
        ReadPoll::Ready(val)
    }

    /// Abandons the operation: where it did not complete and its wake callback is
    /// still armed, the slot is emptied. Nothing is acknowledged.
    pub fn cancel<T: Copy>(self, owner: &mut ReadVariable<T>)
        ensures
            final(owner)@ == cancel_step(self@, old(owner)@),
    {
        let raw = &mut owner.raw;
        let incomplete = match self.phase {
            Phase::Completed => false,
            _ => true,
        };
        if incomplete {
            match self.armed {
                Some(w) => {
                    if raw.waker() == Some(w) {
                        raw.clean_waker();
                    }
                },
                None => {},
            }
        }
    }
}

} // verus!
