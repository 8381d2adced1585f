//! The life of one asynchronous request, and the object that owns what was
//! moved into it.

use vstd::prelude::*;
use crate::addr::{Address, AddressView};
use crate::platform::Backend;

verus! {

/// Where a request stands.
#[derive(Clone, Copy, Debug, PartialEq, Eq, Structural)]
pub enum Phase {
    /// The resource was moved in; nothing was handed to the system yet.
    Constructed,
    /// The system has the request; the issuing task is suspended.
    Submitted,
    /// The system reported an outcome and the resource went back.
    Completed,
    /// The issuing task was dropped before an outcome was seen.
    Cancelled,
}

/// What can happen to a request.
#[derive(Clone, Copy, Debug, PartialEq, Eq, Structural)]
pub enum Signal {
    /// The runtime handed the request to the system.
    Submit,
    /// The system reported an outcome.
    Complete,
    /// The task that awaits the request was dropped.
    Abandon,
}

impl Phase {
    /// The phase that follows `self` on `signal`, or nothing where the
    /// signal does not apply. A request that is not cancellable ignores
    /// being abandoned and goes on; a cancelled one swallows a late outcome.
    pub open spec fn after(self, signal: Signal, cancellable: bool) -> Option<Phase> {
        match (self, signal) {
            (Phase::Constructed, Signal::Submit) => Some(Phase::Submitted),
            (Phase::Submitted, Signal::Complete) => Some(Phase::Completed),
            (Phase::Cancelled, Signal::Complete) => Some(Phase::Cancelled),
            (Phase::Constructed, Signal::Abandon) | (Phase::Submitted, Signal::Abandon) => if cancellable {
                Some(Phase::Cancelled)
            } else {
                Some(self)
            },
            _ => None,
        }
    }

    /// Whether the caller sees an outcome when `signal` arrives in `self`.
    pub open spec fn delivers(self, signal: Signal) -> bool {
        self is Submitted && signal is Complete
    }

    /// Computes [`Phase::after`].
    pub fn step(self, signal: Signal, cancellable: bool) -> (r: Option<Phase>)
        ensures
            r == self.after(signal, cancellable),
    {
        match (self, signal) {
            (Phase::Constructed, Signal::Submit) => Some(Phase::Submitted),
            (Phase::Submitted, Signal::Complete) => Some(Phase::Completed),
            (Phase::Cancelled, Signal::Complete) => Some(Phase::Cancelled),
            (Phase::Constructed, Signal::Abandon) => if cancellable {
                Some(Phase::Cancelled)
            } else {
                Some(Phase::Constructed)
            },
            (Phase::Submitted, Signal::Abandon) => if cancellable {
                Some(Phase::Cancelled)
            } else {
                Some(Phase::Submitted)
            },
            _ => None,
        }
    }
}

/// What an [`Operation`] stands for.
pub struct OperationView<R> {
    pub fd: i32,
    pub backend: Backend,
    pub phase: Phase,
    pub cancellable: bool,
    pub peer: Option<AddressView>,
    pub resource: R,
}

impl<R> OperationView<R> {
    /// The same request in another phase.
    pub open spec fn in_phase(self, phase: Phase) -> OperationView<R> {
        OperationView {
            fd: self.fd,
            backend: self.backend,
            phase,
            cancellable: self.cancellable,
            peer: self.peer,
            resource: self.resource,
        }
    }
}

/// A fresh request on descriptor `fd` that owns `resource`.
pub open spec fn constructed<R>(
    fd: i32,
    backend: Backend,
    cancellable: bool,
    peer: Option<AddressView>,
    resource: R,
) -> OperationView<R> {
    OperationView { fd, backend, phase: Phase::Constructed, cancellable, peer, resource }
}

/// One asynchronous request. It owns the descriptor value it targets and
/// the resource that was moved into it, until it completes.
#[derive(Debug)]
pub struct Operation<R> {
    fd: i32,
    backend: Backend,
    phase: Phase,
    cancellable: bool,
    peer: Option<Address>,
    resource: R,
}

impl<R> View for Operation<R> {
    type V = OperationView<R>;

    closed spec fn view(&self) -> OperationView<R> {
        OperationView {
            fd: self.fd,
            backend: self.backend,
            phase: self.phase,
            cancellable: self.cancellable,
            peer: match self.peer {
                Some(a) => Some(a@),
                None => None,
            },
            resource: self.resource,
        }
    }
}

impl<R> Operation<R> {
    /// Moves `resource` into a new request.
    pub fn new(fd: i32, backend: Backend, cancellable: bool, peer: Option<Address>, resource: R) -> (r:
        Self)
        ensures
            r@ == constructed(
                fd,
                backend,
                cancellable,
                match peer {
                    Some(a) => Some(a@),
                    None => None,
                },
                resource,
            ),
    {
        Operation { fd, backend, phase: Phase::Constructed, cancellable, peer, resource }
    }

    /// The descriptor the request targets.
    pub fn fd(&self) -> (r: i32)
        ensures
            r == self@.fd,
    {
        self.fd
    }

    /// The backend that drives the request.
    pub fn backend(&self) -> (r: Backend)
        ensures
            r == self@.backend,
    {
        self.backend
    }

    /// Where the request stands.
    pub fn phase(&self) -> (r: Phase)
        ensures
            r == self@.phase,
    {
        self.phase
    }

    /// Whether dropping the awaiting task cancels the request.
    pub fn is_cancellable(&self) -> (r: bool)
        ensures
            r == self@.cancellable,
    {
        self.cancellable
    }

    /// The address the request is aimed at, where it has one.
    pub fn peer(&self) -> (r: Option<&Address>)
        ensures
            match r {
                Some(a) => self@.peer == Some(a@),
                None => self@.peer is None,
            },
    {
        match &self.peer {
            Some(a) => Some(a),
            None => None,
        }
    }

    /// A look at the resource, for the one who submits the request.
    pub fn resource(&self) -> (r: &R)
        ensures
            *r == self@.resource,
    {
        &self.resource
    }

    /// Applies `signal`. Returns whether it applied; where it did not, the
    /// request is as before. The resource is never touched.
    pub fn signal(&mut self, signal: Signal) -> (r: bool)
        ensures
            r == old(self)@.phase.after(signal, old(self)@.cancellable) is Some,
            final(self)@ == match old(self)@.phase.after(signal, old(self)@.cancellable) {
                Some(p) => old(self)@.in_phase(p),
                None => old(self)@,
            },
    {
        match self.phase.step(signal, self.cancellable) {
            Some(p) => {
                self.phase = p;
                true
            },
            None => false,
        }
    }

    /// Records that the runtime handed the request to the system.
    pub fn submit(&mut self) -> (r: bool)
        ensures
            r == (old(self)@.phase is Constructed),
            final(self)@ == (if r {
                old(self)@.in_phase(Phase::Submitted)
            } else {
                old(self)@
            }),
    {
        self.signal(Signal::Submit)
    }

    /// Records that the awaiting task was dropped.
    pub fn abandon(&mut self) -> (r: bool)
        ensures
            r == (old(self)@.phase is Constructed || old(self)@.phase is Submitted),
            final(self)@ == (if r && old(self)@.cancellable {
                old(self)@.in_phase(Phase::Cancelled)
            } else {
                old(self)@
            }),
    {
        self.signal(Signal::Abandon)
    }

    /// Ends the request on the system's report and hands the resource back.
    /// Only a submitted request has an outcome to show: in any other phase,
    /// a cancelled request among them, nothing comes back.
    pub fn complete(self) -> (r: Option<R>)
        ensures
            r == (if self@.phase.delivers(Signal::Complete) {
                Some(self@.resource)
            } else {
                None
            }),
    {
        match self.phase {
            Phase::Submitted => Some(self.resource),
            _ => None,
        }
    }
}

} // verus!
