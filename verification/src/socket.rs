//! The socket handle: one native socket, and the requests made on it.
//!
//! Nothing here performs a system call. A method that rests on one takes
//! the call's outcome as an argument; a method that starts an asynchronous
//! request returns the [`Operation`] to submit.

use vstd::prelude::*;
use crate::addr::Address;
use crate::buf::Buffer;
use crate::error::{from_os, os_result, BufResult, SocketError};
use crate::op::{constructed, Operation};
use crate::platform::Backend;

verus! {

/// How a socket transfers data.
#[derive(Clone, Copy, Debug, PartialEq, Eq, Structural)]
pub enum Kind {
    Stream,
    Datagram,
}

/// What a [`Socket`] stands for.
pub struct SocketView {
    /// The native descriptor, while the handle owns one.
    pub fd: Option<i32>,
    pub family: u16,
    pub kind: Kind,
    pub protocol: Option<i32>,
    pub backend: Backend,
    /// The runtime instance the handle is attached to, if any.
    pub runtime: Option<u64>,
}

impl SocketView {
    /// A handle that owns `fd` and is attached to nothing.
    pub open spec fn fresh(
        fd: i32,
        family: u16,
        kind: Kind,
        protocol: Option<i32>,
        backend: Backend,
    ) -> SocketView {
        SocketView { fd: Some(fd), family, kind, protocol, backend, runtime: None }
    }

    /// The same handle without its descriptor.
    pub open spec fn emptied(self) -> SocketView {
        SocketView {
            fd: None,
            family: self.family,
            kind: self.kind,
            protocol: self.protocol,
            backend: self.backend,
            runtime: self.runtime,
        }
    }

    /// The same handle attached to `runtime`.
    pub open spec fn attached_to(self, runtime: u64) -> SocketView {
        SocketView {
            fd: self.fd,
            family: self.family,
            kind: self.kind,
            protocol: self.protocol,
            backend: self.backend,
            runtime: Some(runtime),
        }
    }
}

/// The outcome of making a socket: the creation may fail, and so may the
/// switch to non-blocking mode where the backend asks for it.
pub open spec fn creation(
    family: u16,
    kind: Kind,
    protocol: Option<i32>,
    backend: Backend,
    created: Result<i32, i32>,
    nonblocking: Result<(), i32>,
) -> Result<SocketView, SocketError> {
    match created {
        Err(code) => Err(SocketError::Os(code)),
        Ok(fd) => if backend.wants_nonblocking() && nonblocking is Err {
            Err(SocketError::Os(nonblocking->Err_0))
        } else {
            Ok(SocketView::fresh(fd, family, kind, protocol, backend))
        },
    }
}

/// What a handle answers to a synchronous call whose system outcome is
/// `outcome`: without a descriptor the call is never made.
pub open spec fn gated<T>(socket: SocketView, outcome: Result<T, i32>) -> Result<T, SocketError> {
    if socket.fd is Some {
        os_result(outcome)
    } else {
        Err(SocketError::Detached)
    }
}

/// What starting a request on a handle gives: the request that owns
/// `resource`, or the resource back at once with the reason.
pub open spec fn started<T, R>(
    socket: SocketView,
    peer: Option<crate::addr::AddressView>,
    resource: R,
    r: Result<Operation<R>, BufResult<T, R>>,
) -> bool {
    match socket.fd {
        Some(fd) => r matches Ok(op) && op@ == constructed(fd, socket.backend, true, peer, resource),
        None => r == Err::<Operation<R>, BufResult<T, R>>(
            BufResult(Err(SocketError::Detached), resource),
        ),
    }
}

/// A handle on one native socket.
#[derive(Debug)]
pub struct Socket {
    fd: Option<i32>,
    family: u16,
    kind: Kind,
    protocol: Option<i32>,
    backend: Backend,
    runtime: Option<u64>,
}

impl View for Socket {
    type V = SocketView;

    closed spec fn view(&self) -> SocketView {
        SocketView {
            fd: self.fd,
            family: self.family,
            kind: self.kind,
            protocol: self.protocol,
            backend: self.backend,
            runtime: self.runtime,
        }
    }
}

impl Socket {
    /// Wraps an existing native socket.
    pub fn from_socket2(fd: i32, family: u16, kind: Kind, protocol: Option<i32>, backend: Backend) -> (r:
        Self)
        ensures
            r@ == SocketView::fresh(fd, family, kind, protocol, backend),
    {
        Socket { fd: Some(fd), family, kind, protocol, backend, runtime: None }
    }

    /// The descriptor, while the handle owns one.
    pub fn try_get(&self) -> (r: Result<i32, SocketError>)
        ensures
            r == match self@.fd {
                Some(fd) => Ok::<i32, SocketError>(fd),
                None => Err(SocketError::Detached),
            },
    {
        match self.fd {
            Some(fd) => Ok(fd),
            None => Err(SocketError::Detached),
        }
    }

    /// The address family of the socket.
    pub fn family(&self) -> (r: u16)
        ensures
            r == self@.family,
    {
        self.family
    }

    /// How the socket transfers data.
    pub fn kind(&self) -> (r: Kind)
        ensures
            r == self@.kind,
    {
        self.kind
    }

    /// The protocol the socket was made with, if one was named.
    pub fn protocol(&self) -> (r: Option<i32>)
        ensures
            r == self@.protocol,
    {
        self.protocol
    }

    /// The backend that drives the socket.
    pub fn backend(&self) -> (r: Backend)
        ensures
            r == self@.backend,
    {
        self.backend
    }

    /// The runtime instance the handle is attached to.
    pub fn runtime(&self) -> (r: Option<u64>)
        ensures
            r == self@.runtime,
    {
        self.runtime
    }

    /// Attaches the handle to `runtime`. A handle belongs to one runtime
    /// instance at most: attaching again to the same one changes nothing,
    /// attaching to another is refused.
    pub fn attach(&mut self, runtime: u64) -> (r: bool)
        ensures
            r == (old(self)@.runtime is None || old(self)@.runtime == Some(runtime)),
            final(self)@ == (if r {
                old(self)@.attached_to(runtime)
            } else {
                old(self)@
            }),
    {
        match self.runtime {
            None => {
                self.runtime = Some(runtime);
                true
            },
            Some(current) => current == runtime,
        }
    }

    /// A second handle on the same system object, from the outcome of
    /// duplicating the descriptor. The new handle is attached to nothing.
    pub fn try_clone(&self, duplicated: Result<i32, i32>) -> (r: Result<Self, SocketError>)
        ensures
            r is Ok <==> self@.fd is Some && duplicated is Ok,
            r matches Ok(s) ==> s@ == SocketView::fresh(
                duplicated->Ok_0,
                self@.family,
                self@.kind,
                self@.protocol,
                self@.backend,
            ),
            r matches Err(e) ==> Err::<i32, SocketError>(e) == gated(self@, duplicated),
    {
        if self.fd.is_none() {
            return Err(SocketError::Detached);
        }
        match duplicated {
            Ok(fd) => Ok(Socket::from_socket2(fd, self.family, self.kind, self.protocol, self.backend)),
            Err(code) => Err(SocketError::Os(code)),
        }
    }

    /// The address of the peer, from the system's answer.
    pub fn peer_addr(&self, reported: Result<Address, i32>) -> (r: Result<Address, SocketError>)
        ensures
            r == gated(self@, reported),
    {
        self.gate(reported)
    }

    /// The address the socket is bound to, from the system's answer.
    pub fn local_addr(&self, reported: Result<Address, i32>) -> (r: Result<Address, SocketError>)
        ensures
            r == gated(self@, reported),
    {
        self.gate(reported)
    }

    /// A handle on a freshly made native socket. `created` is the outcome
    /// of making it; `nonblocking` is the outcome of switching it to
    /// non-blocking mode, and counts only where the backend asks for that
    /// mode.
    pub fn new(
        family: u16,
        kind: Kind,
        protocol: Option<i32>,
        backend: Backend,
        created: Result<i32, i32>,
        nonblocking: Result<(), i32>,
    ) -> (r: Result<Self, SocketError>)
        ensures
            viewed(r) == creation(family, kind, protocol, backend, created, nonblocking),
    {
        match created {
            Err(code) => Err(SocketError::Os(code)),
            Ok(fd) => {
                if backend.needs_nonblocking() {
                    match nonblocking {
                        Err(code) => {
                            return Err(SocketError::Os(code));
                        },
                        Ok(_) => {},
                    }
                }
                Ok(Socket::from_socket2(fd, family, kind, protocol, backend))
            },
        }
    }

    /// A handle on a new socket of the address's family, bound to it.
    /// `bound` is the outcome of binding and counts only where the socket
    /// was made.
    pub fn bind(
        addr: &Address,
        kind: Kind,
        protocol: Option<i32>,
        backend: Backend,
        created: Result<i32, i32>,
        nonblocking: Result<(), i32>,
        bound: Result<(), i32>,
    ) -> (r: Result<Self, SocketError>)
        ensures
            viewed(r) == match creation(
                addr@.family,
                kind,
                protocol,
                backend,
                created,
                nonblocking,
            ) {
                Err(e) => Err(e),
                Ok(s) => match bound {
                    Err(code) => Err(SocketError::Os(code)),
                    Ok(_) => Ok(s),
                },
            },
    {
        match Socket::new(addr.family(), kind, protocol, backend, created, nonblocking) {
            Err(e) => Err(e),
            Ok(socket) => match bound {
                Err(code) => Err(SocketError::Os(code)),
                Ok(_) => Ok(socket),
            },
        }
    }

    /// The result of marking the socket as listening.
    pub fn listen(&self, outcome: Result<(), i32>) -> (r: Result<(), SocketError>)
        ensures
            r == gated(self@, outcome),
    {
        self.gate(outcome)
    }

    /// The result of a connect that the caller made without suspending.
    pub fn connect(&self, outcome: Result<(), i32>) -> (r: Result<(), SocketError>)
        ensures
            r == gated(self@, outcome),
    {
        self.gate(outcome)
    }

    /// Starts a connect to `addr`. The request owns a copy of the address.
    pub fn connect_async(&self, addr: &Address) -> (r: Result<Operation<()>, SocketError>)
        ensures
            match self@.fd {
                Some(fd) => r matches Ok(op) && op@ == constructed(
                    fd,
                    self@.backend,
                    true,
                    Some(addr@),
                    (),
                ),
                None => r == Err::<Operation<()>, SocketError>(SocketError::Detached),
            },
    {
        match self.fd {
            Some(fd) => Ok(Operation::new(fd, self.backend, true, Some(addr.clone()), ())),
            None => Err(SocketError::Detached),
        }
    }

    /// Starts an accept. A backend that accepts into a socket made ahead
    /// takes it from `prepared`, the outcome of making one of the
    /// listener's family, kind and protocol; another backend ignores
    /// `prepared`.
    pub fn accept(&self, prepared: Result<i32, i32>) -> (r: Result<Operation<Accepting>, SocketError>)
        ensures
            match self@.fd {
                None => r == Err::<Operation<Accepting>, SocketError>(SocketError::Detached),
                Some(fd) => if self@.backend.wants_preallocated_accept() && prepared is Err {
                    r == Err::<Operation<Accepting>, SocketError>(
                        SocketError::Os(prepared->Err_0),
                    )
                } else {
                    r matches Ok(op) && op@ == constructed(
                        fd,
                        self@.backend,
                        true,
                        None,
                        accepting(self@, prepared),
                    )
                },
            },
    {
        let fd: i32 = match self.fd {
            Some(fd) => fd,
            None => {
                return Err(SocketError::Detached);
            },
        };
        let prepared: Option<i32> = if self.backend.needs_preallocated_accept() {
            match prepared {
                Ok(p) => Some(p),
                Err(code) => {
                    return Err(SocketError::Os(code));
                },
            }
        } else {
            None
        };
        let resource = Accepting {
            family: self.family,
            kind: self.kind,
            protocol: self.protocol,
            prepared,
        };
        Ok(Operation::new(fd, self.backend, true, None, resource))
    }

    /// Starts the close. The descriptor moves into the request, which
    /// cannot be cancelled; what is left of the handle rides along as a
    /// guard that owns nothing, so that dropping it releases nothing.
    pub fn close(self) -> (r: Result<Operation<Socket>, SocketError>)
        ensures
            match self@.fd {
                Some(fd) => r matches Ok(op) && op@ == constructed(
                    fd,
                    self@.backend,
                    false,
                    None,
                    op@.resource,
                ) && op@.resource@ == self@.emptied(),
                None => r is Err && r->Err_0 == SocketError::Detached,
            },
    {
        match self.fd {
            Some(fd) => {
                let backend = self.backend;
                let mut guard = self;
                guard.fd = None;
                Ok(Operation::new(fd, backend, false, None, guard))
            },
            None => Err(SocketError::Detached),
        }
    }

    /// The ordinary end of a handle: gives up the descriptor for the caller
    /// to release at once. A handle that owns none gives nothing.
    pub fn release(&mut self) -> (r: Option<i32>)
        ensures
            r == old(self)@.fd,
            final(self)@ == old(self)@.emptied(),
    {
        let fd = self.fd;
        self.fd = None;
        fd
    }

    /// Starts the half-close of the write side.
    pub fn shutdown(&self) -> (r: Result<Operation<()>, SocketError>)
        ensures
            match self@.fd {
                Some(fd) => r matches Ok(op) && op@ == constructed(fd, self@.backend, true, None, ()),
                None => r == Err::<Operation<()>, SocketError>(SocketError::Detached),
            },
    {
        match self.fd {
            Some(fd) => Ok(Operation::new(fd, self.backend, true, None, ())),
            None => Err(SocketError::Detached),
        }
    }

    /// Starts a receive into the room of `buffer`.
    pub fn recv(&self, buffer: Buffer) -> (r: Result<Operation<Buffer>, BufResult<usize, Buffer>>)
        ensures
            started(self@, None, buffer, r),
    {
        self.start(buffer, None)
    }

    /// Starts a receive into the room of the regions, in order.
    pub fn recv_vectored(&self, buffer: Vec<Buffer>) -> (r: Result<
        Operation<Vec<Buffer>>,
        BufResult<usize, Vec<Buffer>>,
    >)
        ensures
            started(self@, None, buffer, r),
    {
        self.start(buffer, None)
    }

    /// Starts a send of the bytes from the cursor of `buffer` on.
    pub fn send(&self, buffer: Buffer) -> (r: Result<Operation<Buffer>, BufResult<usize, Buffer>>)
        ensures
            started(self@, None, buffer, r),
    {
        self.start(buffer, None)
    }

    /// Starts a send of what the regions hold from their cursors on.
    pub fn send_vectored(&self, buffer: Vec<Buffer>) -> (r: Result<
        Operation<Vec<Buffer>>,
        BufResult<usize, Vec<Buffer>>,
    >)
        ensures
            started(self@, None, buffer, r),
    {
        self.start(buffer, None)
    }

    /// Starts a receive that also reports the sender.
    pub fn recv_from(&self, buffer: Buffer) -> (r: Result<
        Operation<Buffer>,
        BufResult<(usize, Address), Buffer>,
    >)
        ensures
            started(self@, None, buffer, r),
    {
        self.start(buffer, None)
    }

    /// Starts a receive into the regions that also reports the sender.
    pub fn recv_from_vectored(&self, buffer: Vec<Buffer>) -> (r: Result<
        Operation<Vec<Buffer>>,
        BufResult<(usize, Address), Vec<Buffer>>,
    >)
        ensures
            started(self@, None, buffer, r),
    {
        self.start(buffer, None)
    }

    /// Starts a send to `addr`; no connection is needed.
    pub fn send_to(&self, buffer: Buffer, addr: &Address) -> (r: Result<
        Operation<Buffer>,
        BufResult<usize, Buffer>,
    >)
        ensures
            started(self@, Some(addr@), buffer, r),
    {
        self.start(buffer, Some(addr))
    }

    /// Starts a send of the regions to `addr`.
    pub fn send_to_vectored(&self, buffer: Vec<Buffer>, addr: &Address) -> (r: Result<
        Operation<Vec<Buffer>>,
        BufResult<usize, Vec<Buffer>>,
    >)
        ensures
            started(self@, Some(addr@), buffer, r),
    {
        self.start(buffer, Some(addr))
    }

    fn gate<T>(&self, outcome: Result<T, i32>) -> (r: Result<T, SocketError>)
        ensures
            r == gated(self@, outcome),
    {
        match self.fd {
            Some(_) => from_os(outcome),
            None => Err(SocketError::Detached),
        }
    }

    fn start<T, R>(&self, resource: R, peer: Option<&Address>) -> (r: Result<
        Operation<R>,
        BufResult<T, R>,
    >)
        ensures
            started(
                self@,
                match peer {
                    Some(a) => Some(a@),
                    None => None,
                },
                resource,
                r,
            ),
    {
        match self.fd {
            Some(fd) => {
                let target = match peer {
                    Some(a) => Some(a.clone()),
                    None => None,
                };
                Ok(Operation::new(fd, self.backend, true, target, resource))
            },
            None => Err(BufResult(Err(SocketError::Detached), resource)),
        }
    }
}

/// What an accept request carries: the listener's family, kind and
/// protocol, and the descriptor of the socket made ahead, where the backend
/// accepts into one.
#[derive(Clone, Copy, Debug)]
pub struct Accepting {
    pub family: u16,
    pub kind: Kind,
    pub protocol: Option<i32>,
    pub prepared: Option<i32>,
}

/// What an accept on `socket` carries, given the outcome of making a socket
/// ahead.
pub open spec fn accepting(socket: SocketView, prepared: Result<i32, i32>) -> Accepting {
    Accepting {
        family: socket.family,
        kind: socket.kind,
        protocol: socket.protocol,
        prepared: if socket.backend.wants_preallocated_accept() && prepared is Ok {
            Some(prepared->Ok_0)
        } else {
            None
        },
    }
}

/// A result with its handle seen as what it stands for.
pub open spec fn viewed(r: Result<Socket, SocketError>) -> Result<SocketView, SocketError> {
    match r {
        Ok(s) => Ok(s@),
        Err(e) => Err(e),
    }
}

} // verus!
