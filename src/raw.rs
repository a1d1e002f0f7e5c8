//! What the external process hands out: variable descriptors as tags and bounds.
use vstd::prelude::*;

verus! {

/// Direction tag of an external variable descriptor.
#[derive(Clone, Copy, Debug, PartialEq, Eq, Structural)]
pub enum Dir {
    Read,
    Write,
}

/// Scalar-kind tag of an external variable descriptor; `NoKind` marks a missing kind.
#[derive(Clone, Copy, Debug, PartialEq, Eq, Structural)]
pub enum ScalarKind {
    NoKind,
    U8,
    I8,
    U16,
    I16,
    U32,
    I32,
    U64,
    I64,
    F32,
    F64,
}

/// Shape tag of an external variable descriptor.
#[derive(Clone, Copy, Debug, PartialEq, Eq, Structural)]
pub enum Kind {
    Scalar,
    Array,
}

/// An external type descriptor: shape, scalar kind and, for arrays, the element bound.
#[derive(Clone, Copy, Debug, PartialEq, Eq, Structural)]
pub struct TypeDesc {
    pub kind: Kind,
    pub scalar_type: ScalarKind,
    pub array_max_len: usize,
}

/// Identity of a wake callback, as the scheduler hands it out.
pub type WakerId = u64;

/// What the lock-guarded record of an external variable holds, with counts of the
/// processing requests and completion acknowledgements that it has received.
pub struct ProcRecord<T> {
    /// The external process has serviced the last request and the data is ready.
    pub processing: bool,
    /// A request was issued and the external process has not serviced it yet.
    pub requested: bool,
    /// The wake callback last armed, if any.
    pub waker: Option<WakerId>,
    /// The data buffer.
    pub data: T,
    /// Processing requests issued so far.
    pub requests: nat,
    /// Completion acknowledgements sent so far.
    pub acks: nat,
}

/// The record after the external process has serviced a request with `value`.
pub open spec fn serve_step<T>(r: ProcRecord<T>, value: T) -> ProcRecord<T> {
    ProcRecord { processing: true, requested: false, data: value, ..r }
}

/// The lock-guarded record of an external variable: its processing flag, its wake
/// callback slot and its data buffer. Holding `&mut` to it is holding its lock.
pub struct Variable<T> {
    processing: bool,
    requested: bool,
    waker: Option<WakerId>,
    data: T,
    requests: Ghost<nat>,
    acks: Ghost<nat>,
}

impl<T> View for Variable<T> {
    type V = ProcRecord<T>;

    closed spec fn view(&self) -> ProcRecord<T> {
        ProcRecord {
            processing: self.processing,
            requested: self.requested,
            waker: self.waker,
            data: self.data,
            requests: self.requests@,
            acks: self.acks@,
        }
    }
}

impl<T: Copy> Variable<T> {
    /// An idle record whose buffer holds `data`.
    pub fn new(data: T) -> (r: Variable<T>)
        ensures
            r@ == (ProcRecord {
                processing: false,
                requested: false,
                waker: None,
                data,
                requests: 0,
                acks: 0,
            }),
    {
        Variable {
            processing: false,
            requested: false,
            waker: None,
            data,
            requests: Ghost(0),
            acks: Ghost(0),
        }
    }

    pub fn processing(&self) -> (r: bool)
        ensures
            r == self@.processing,
    {
        self.processing
    }

    pub fn requested(&self) -> (r: bool)
        ensures
            r == self@.requested,
    {
        self.requested
    }

    pub fn waker(&self) -> (r: Option<WakerId>)
        ensures
            r == self@.waker,
    {
        self.waker
    }

    /// Arms `w` as the wake callback, replacing any other.
    pub fn set_waker(&mut self, w: WakerId)
        ensures
            final(self)@ == (ProcRecord { waker: Some(w), ..old(self)@ }),
    {
        self.waker = Some(w);
    }

    /// Empties the wake callback slot.
    pub fn clean_waker(&mut self)
        ensures
            final(self)@ == (ProcRecord { waker: None, ..old(self)@ }),
    {
        self.waker = None;
    }

    /// Asks the external process to service this variable.
    pub fn request_proc(&mut self)
        requires
            !old(self)@.processing,
        ensures
            final(self)@ == (ProcRecord {
                requested: true,
                requests: old(self)@.requests + 1,
                ..old(self)@
            }),
    {
        self.requested = true;
        self.requests = Ghost(self.requests@ + 1);
    }

    /// Acknowledges that the serviced value was consumed, clearing the processing flag.
    pub fn complete_proc(&mut self)
        requires
            old(self)@.processing,
        ensures
            final(self)@ == (ProcRecord {
                processing: false,
                acks: old(self)@.acks + 1,
                ..old(self)@
            }),
    {
        self.processing = false;
        self.acks = Ghost(self.acks@ + 1);
    }

    /// The serviced value; the buffer is only meaningful while the flag is set.
    pub fn data(&self) -> (r: T)
        requires
            self@.processing,
        ensures
            r == self@.data,
    {
        self.data
    }

    /// The external process's side: services the pending request with `value`, and
    /// hands back the wake callback to invoke.
    pub fn serve(&mut self, value: T) -> (woken: Option<WakerId>)
        requires
            old(self)@.requested,
        ensures
            final(self)@ == serve_step(old(self)@, value),
            woken == old(self)@.waker,
    {
        self.processing = true;
        self.requested = false;
        self.data = value;
        self.waker
    }
}

} // verus!
