//! What a request hands back when the system reports its outcome.
//!
//! Each function takes the request and the raw outcome. A request that was
//! submitted gives the outcome and its resource back; one in any other
//! phase, a cancelled one among them, gives nothing: a late outcome is not
//! for the caller to see.

use vstd::prelude::*;
use crate::addr::Address;
use crate::buf::{advance_run, advance_vectored, fill_run, fill_vectored, total_room, views, Buffer};
use crate::error::{from_os, os_result, BufResult, SocketError};
use crate::op::Operation;
use crate::platform::Backend;
use crate::socket::{Accepting, Socket, SocketView};

verus! {

/// The outcome of a request that may need its context finalized: a raw
/// failure stands as it is; after a raw success, a backend that finalizes
/// fails with the finalization's failure.
pub open spec fn finalized(backend: Backend, raw: Result<(), i32>, finalize: Result<(), i32>) -> Result<
    (),
    SocketError,
> {
    match raw {
        Err(code) => Err(SocketError::Os(code)),
        Ok(_) => if backend.wants_finalize() && finalize is Err {
            Err(SocketError::Finalize(finalize->Err_0))
        } else {
            Ok(())
        },
    }
}

/// Ends a connect. `finalize` is the outcome of the context finalization
/// and counts only on a backend that needs it, after a raw success.
pub fn finish_connect(op: Operation<()>, raw: Result<(), i32>, finalize: Result<(), i32>) -> (r: Option<
    Result<(), SocketError>,
>)
    ensures
        r == (if op@.phase is Submitted {
            Some(finalized(op@.backend, raw, finalize))
        } else {
            None
        }),
{
    let backend = op.backend();
    match op.complete() {
        None => None,
        Some(_) => match raw {
            Err(code) => Some(Err(SocketError::Os(code))),
            Ok(_) => {
                if backend.needs_finalize() {
                    match finalize {
                        Err(code) => {
                            return Some(Err(SocketError::Finalize(code)));
                        },
                        Ok(_) => {},
                    }
                }
                Some(Ok(()))
            },
        },
    }
}

/// Ends a shutdown of the write side.
pub fn finish_shutdown(op: Operation<()>, raw: Result<(), i32>) -> (r: Option<Result<(), SocketError>>)
    ensures
        r == (if op@.phase is Submitted {
            Some(os_result(raw))
        } else {
            None
        }),
{
    match op.complete() {
        None => None,
        Some(_) => Some(from_os(raw)),
    }
}

/// Ends a close. The system released the descriptor; the guard that rode
/// along owns nothing and is dropped.
pub fn finish_close(op: Operation<Socket>, raw: Result<(), i32>) -> (r: Option<Result<(), SocketError>>)
    ensures
        r == (if op@.phase is Submitted {
            Some(os_result(raw))
        } else {
            None
        }),
{
    match op.complete() {
        None => None,
        Some(_) => Some(from_os(raw)),
    }
}

/// Why an accept failed, and the descriptor that the failure left without
/// an owner, for the caller to release.
#[derive(Clone, Copy, Debug)]
pub struct AcceptFailure {
    pub error: SocketError,
    pub release: Option<i32>,
}

/// The outcome of an accept.
///
/// With a socket made ahead, the new handle is that socket; the request
/// fails on a raw failure, then on a failed context finalization where the
/// backend needs one, then on a failure to read the peer's address, and
/// each failure gives the socket made ahead up for release. Without one,
/// the raw success holds the new descriptor; the request fails on a raw
/// failure, then on a failed switch to non-blocking mode where the backend
/// asks for that mode, then on the peer's address, and a failure after the
/// raw success gives the new descriptor up for release.
pub open spec fn accept_outcome(
    backend: Backend,
    listener: Accepting,
    raw: Result<i32, i32>,
    nonblocking: Result<(), i32>,
    finalize: Result<(), i32>,
    peer: Result<Address, i32>,
) -> Result<(SocketView, Address), AcceptFailure> {
    match listener.prepared {
        Some(fd) => if raw is Err {
            Err(AcceptFailure { error: SocketError::Os(raw->Err_0), release: Some(fd) })
        } else if backend.wants_finalize() && finalize is Err {
            Err(AcceptFailure { error: SocketError::Finalize(finalize->Err_0), release: Some(fd) })
        } else if peer is Err {
            Err(AcceptFailure { error: SocketError::Os(peer->Err_0), release: Some(fd) })
        } else {
            Ok(
                (
                    SocketView::fresh(fd, listener.family, listener.kind, listener.protocol, backend),
                    peer->Ok_0,
                ),
            )
        },
        None => if raw is Err {
            Err(AcceptFailure { error: SocketError::Os(raw->Err_0), release: None })
        } else if backend.wants_nonblocking() && nonblocking is Err {
            Err(AcceptFailure { error: SocketError::Os(nonblocking->Err_0), release: Some(raw->Ok_0) })
        } else if peer is Err {
            Err(AcceptFailure { error: SocketError::Os(peer->Err_0), release: Some(raw->Ok_0) })
        } else {
            Ok(
                (
                    SocketView::fresh(
                        raw->Ok_0,
                        listener.family,
                        listener.kind,
                        listener.protocol,
                        backend,
                    ),
                    peer->Ok_0,
                ),
            )
        },
    }
}

/// An accept's result with its handle seen as what it stands for.
pub open spec fn accept_viewed(r: Result<(Socket, Address), AcceptFailure>) -> Result<
    (SocketView, Address),
    AcceptFailure,
> {
    match r {
        Ok((s, a)) => Ok((s@, a)),
        Err(e) => Err(e),
    }
}

/// Ends an accept: see [`accept_outcome`]. `raw` holds the new descriptor
/// where the backend accepts into a fresh one; `peer` is the peer's address
/// as the system gave it.
pub fn finish_accept(
    op: Operation<Accepting>,
    raw: Result<i32, i32>,
    nonblocking: Result<(), i32>,
    finalize: Result<(), i32>,
    peer: Result<Address, i32>,
) -> (r: Option<Result<(Socket, Address), AcceptFailure>>)
    ensures
        r is Some <==> op@.phase is Submitted,
        r matches Some(x) ==> accept_viewed(x) == accept_outcome(
            op@.backend,
            op@.resource,
            raw,
            nonblocking,
            finalize,
            peer,
        ),
{
    let backend = op.backend();
    let listener = match op.complete() {
        None => {
            return None;
        },
        Some(listener) => listener,
    };
    let fd: i32 = match listener.prepared {
        Some(fd) => {
            match raw {
                Err(code) => {
                    return Some(
                        Err(AcceptFailure { error: SocketError::Os(code), release: Some(fd) }),
                    );
                },
                Ok(_) => {},
            }
            if backend.needs_finalize() {
                match finalize {
                    Err(code) => {
                        return Some(
                            Err(
                                AcceptFailure {
                                    error: SocketError::Finalize(code),
                                    release: Some(fd),
                                },
                            ),
                        );
                    },
                    Ok(_) => {},
                }
            }
            fd
        },
        None => {
            let fd: i32 = match raw {
                Err(code) => {
                    return Some(Err(AcceptFailure { error: SocketError::Os(code), release: None }));
                },
                Ok(fd) => fd,
            };
            if backend.needs_nonblocking() {
                match nonblocking {
                    Err(code) => {
                        return Some(
                            Err(AcceptFailure { error: SocketError::Os(code), release: Some(fd) }),
                        );
                    },
                    Ok(_) => {},
                }
            }
            fd
        },
    };
    match peer {
        Err(code) => Some(Err(AcceptFailure { error: SocketError::Os(code), release: Some(fd) })),
        Ok(addr) => {
            let socket = Socket::from_socket2(
                fd,
                listener.family,
                listener.kind,
                listener.protocol,
                backend,
            );
            Some(Ok((socket, addr)))
        },
    }
}

/// Ends a receive. On success `raw` holds the bytes that arrived: they are
/// written at the buffer's cursor, the cursor moves past them, and their
/// number is the count. On failure the buffer comes back as it went in.
pub fn finish_recv(op: Operation<Buffer>, raw: Result<Vec<u8>, i32>) -> (r: Option<
    BufResult<usize, Buffer>,
>)
    requires
        raw matches Ok(data) ==> data@.len() <= op@.resource@.room(),
    ensures
        r is Some <==> op@.phase is Submitted,
        r matches Some(pair) ==> match raw {
            Ok(data) => pair.0 == Ok::<usize, SocketError>(data@.len() as usize) && pair.1@
                == op@.resource@.fill(data@),
            Err(code) => pair.0 == Err::<usize, SocketError>(SocketError::Os(code)) && pair.1
                == op@.resource,
        },
{
    match op.complete() {
        None => None,
        Some(buffer) => match raw {
            Ok(data) => {
                let mut buffer = buffer;
                buffer.fill(&data);
                Some(BufResult(Ok(data.len()), buffer))
            },
            Err(code) => Some(BufResult(Err(SocketError::Os(code)), buffer)),
        },
    }
}

/// Ends a receive that reports the sender: as [`finish_recv`], and the
/// sender's address is handed on as the system gave it.
pub fn finish_recv_from(op: Operation<Buffer>, raw: Result<(Vec<u8>, Address), i32>) -> (r: Option<
    BufResult<(usize, Address), Buffer>,
>)
    requires
        raw matches Ok(got) ==> got.0@.len() <= op@.resource@.room(),
    ensures
        r is Some <==> op@.phase is Submitted,
        r matches Some(pair) ==> match raw {
            Ok(got) => pair.0 == Ok::<(usize, Address), SocketError>(
                (got.0@.len() as usize, got.1),
            ) && pair.1@ == op@.resource@.fill(got.0@),
            Err(code) => pair.0 == Err::<(usize, Address), SocketError>(SocketError::Os(code))
                && pair.1 == op@.resource,
        },
{
    match op.complete() {
        None => None,
        Some(buffer) => match raw {
            Ok((data, addr)) => {
                let mut buffer = buffer;
                buffer.fill(&data);
                Some(BufResult(Ok((data.len(), addr)), buffer))
            },
            Err(code) => Some(BufResult(Err(SocketError::Os(code)), buffer)),
        },
    }
}

/// Ends a send, with or without a target address. On success `raw` holds
/// the number of bytes that left: the cursor moves on by that number and
/// the bytes stay. On failure the buffer comes back as it went in.
pub fn finish_send(op: Operation<Buffer>, raw: Result<usize, i32>) -> (r: Option<
    BufResult<usize, Buffer>,
>)
    requires
        raw matches Ok(n) ==> n <= op@.resource@.room(),
    ensures
        r is Some <==> op@.phase is Submitted,
        r matches Some(pair) ==> match raw {
            Ok(n) => pair.0 == Ok::<usize, SocketError>(n) && pair.1@ == op@.resource@.advance(
                n as nat,
            ),
            Err(code) => pair.0 == Err::<usize, SocketError>(SocketError::Os(code)) && pair.1
                == op@.resource,
        },
{
    match op.complete() {
        None => None,
        Some(buffer) => match raw {
            Ok(n) => {
                let mut buffer = buffer;
                buffer.advance(n);
                Some(BufResult(Ok(n), buffer))
            },
            Err(code) => Some(BufResult(Err(SocketError::Os(code)), buffer)),
        },
    }
}

/// Ends a receive into regions: the bytes that arrived fill the regions in
/// order, each from its cursor.
pub fn finish_recv_vectored(op: Operation<Vec<Buffer>>, raw: Result<Vec<u8>, i32>) -> (r: Option<
    BufResult<usize, Vec<Buffer>>,
>)
    requires
        raw matches Ok(data) ==> data@.len() <= total_room(views(op@.resource@)),
    ensures
        r is Some <==> op@.phase is Submitted,
        r matches Some(pair) ==> match raw {
            Ok(data) => pair.0 == Ok::<usize, SocketError>(data@.len() as usize) && views(pair.1@)
                == fill_run(views(op@.resource@), data@),
            Err(code) => pair.0 == Err::<usize, SocketError>(SocketError::Os(code)) && pair.1
                == op@.resource,
        },
{
    match op.complete() {
        None => None,
        Some(buffers) => match raw {
            Ok(data) => {
                let mut buffers = buffers;
                fill_vectored(&mut buffers, &data);
                Some(BufResult(Ok(data.len()), buffers))
            },
            Err(code) => Some(BufResult(Err(SocketError::Os(code)), buffers)),
        },
    }
}

/// Ends a receive into regions that reports the sender.
pub fn finish_recv_from_vectored(
    op: Operation<Vec<Buffer>>,
    raw: Result<(Vec<u8>, Address), i32>,
) -> (r: Option<BufResult<(usize, Address), Vec<Buffer>>>)
    requires
        raw matches Ok(got) ==> got.0@.len() <= total_room(views(op@.resource@)),
    ensures
        r is Some <==> op@.phase is Submitted,
        r matches Some(pair) ==> match raw {
            Ok(got) => pair.0 == Ok::<(usize, Address), SocketError>(
                (got.0@.len() as usize, got.1),
            ) && views(pair.1@) == fill_run(views(op@.resource@), got.0@),
            Err(code) => pair.0 == Err::<(usize, Address), SocketError>(SocketError::Os(code))
                && pair.1 == op@.resource,
        },
{
    match op.complete() {
        None => None,
        Some(buffers) => match raw {
            Ok((data, addr)) => {
                let mut buffers = buffers;
                fill_vectored(&mut buffers, &data);
                Some(BufResult(Ok((data.len(), addr)), buffers))
            },
            Err(code) => Some(BufResult(Err(SocketError::Os(code)), buffers)),
        },
    }
}

/// Ends a send of regions, with or without a target address: the cursors
/// move on by the number of bytes that left, region by region in order.
pub fn finish_send_vectored(op: Operation<Vec<Buffer>>, raw: Result<usize, i32>) -> (r: Option<
    BufResult<usize, Vec<Buffer>>,
>)
    requires
        raw matches Ok(n) ==> n <= total_room(views(op@.resource@)),
    ensures
        r is Some <==> op@.phase is Submitted,
        r matches Some(pair) ==> match raw {
            Ok(n) => pair.0 == Ok::<usize, SocketError>(n) && views(pair.1@) == advance_run(
                views(op@.resource@),
                n as nat,
            ),
            Err(code) => pair.0 == Err::<usize, SocketError>(SocketError::Os(code)) && pair.1
                == op@.resource,
        },
{
    match op.complete() {
        None => None,
        Some(buffers) => match raw {
            Ok(n) => {
                let mut buffers = buffers;
                advance_vectored(&mut buffers, n);
                Some(BufResult(Ok(n), buffers))
            },
            Err(code) => Some(BufResult(Err(SocketError::Os(code)), buffers)),
        },
    }
}

} // verus!
