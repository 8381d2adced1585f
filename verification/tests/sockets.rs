use compio_net::addr::{Address, AF_INET, AF_INET6};
use compio_net::buf::Buffer;
use compio_net::completion::{
    finish_accept, finish_close, finish_connect, finish_recv, finish_recv_from,
    finish_recv_from_vectored, finish_recv_vectored, finish_send, finish_send_vectored,
    finish_shutdown,
};
use compio_net::error::{from_os, BufResult, SocketError};
use compio_net::op::Phase;
use compio_net::platform::Backend;
use compio_net::socket::{Kind, Socket};

fn v4(port: u8) -> Address {
    let mut bytes = vec![0u8; 16];
    bytes[0] = 2;
    bytes[3] = port;
    bytes[4] = 127;
    bytes[7] = 1;
    Address::from_raw(AF_INET, bytes).unwrap()
}

fn stream(fd: i32, backend: Backend) -> Socket {
    Socket::from_socket2(fd, AF_INET, Kind::Stream, Some(6), backend)
}

#[test]
fn native_outcome_keeps_its_code() {
    assert_eq!(from_os(Ok::<u8, i32>(3)), Ok(3));
    assert_eq!(from_os(Err::<u8, i32>(98)), Err(SocketError::Os(98)));
}

#[test]
fn wrapped_socket_owns_its_descriptor() {
    let s = Socket::from_socket2(5, AF_INET6, Kind::Datagram, None, Backend::Polling);
    assert_eq!(s.try_get(), Ok(5));
    assert_eq!(s.family(), AF_INET6);
    assert_eq!(s.kind(), Kind::Datagram);
    assert_eq!(s.protocol(), None);
    assert_eq!(s.backend(), Backend::Polling);
    assert_eq!(s.runtime(), None);
}

#[test]
fn new_socket_fails_as_the_system_does() {
    let r = Socket::new(AF_INET, Kind::Stream, None, Backend::IoUring, Err(24), Ok(()));
    assert_eq!(r.unwrap_err(), SocketError::Os(24));
    let r = Socket::new(AF_INET, Kind::Stream, None, Backend::Polling, Ok(3), Err(9));
    assert_eq!(r.unwrap_err(), SocketError::Os(9));
}

#[test]
fn new_socket_ignores_mode_where_backend_does_not_ask() {
    let s = Socket::new(AF_INET, Kind::Stream, Some(6), Backend::IoUring, Ok(3), Err(9)).unwrap();
    assert_eq!(s.try_get(), Ok(3));
    assert_eq!(s.protocol(), Some(6));
    let s = Socket::new(AF_INET, Kind::Stream, None, Backend::CompletionPort, Ok(4), Err(9)).unwrap();
    assert_eq!(s.try_get(), Ok(4));
    let s = Socket::new(AF_INET, Kind::Stream, None, Backend::Polling, Ok(5), Ok(())).unwrap();
    assert_eq!(s.try_get(), Ok(5));
    assert_eq!(s.runtime(), None);
}

#[test]
fn bind_takes_the_family_of_the_address() {
    let addr = v4(80);
    let s = Socket::bind(&addr, Kind::Datagram, None, Backend::IoUring, Ok(8), Ok(()), Ok(())).unwrap();
    assert_eq!(s.family(), AF_INET);
    assert_eq!(s.kind(), Kind::Datagram);
    assert_eq!(s.try_get(), Ok(8));
}

#[test]
fn bind_fails_on_each_step() {
    let addr = v4(80);
    let r = Socket::bind(&addr, Kind::Stream, None, Backend::Polling, Err(1), Err(2), Err(3));
    assert_eq!(r.unwrap_err(), SocketError::Os(1));
    let r = Socket::bind(&addr, Kind::Stream, None, Backend::Polling, Ok(8), Err(2), Err(3));
    assert_eq!(r.unwrap_err(), SocketError::Os(2));
    let r = Socket::bind(&addr, Kind::Stream, None, Backend::Polling, Ok(8), Ok(()), Err(98));
    assert_eq!(r.unwrap_err(), SocketError::Os(98));
    let r = Socket::bind(&addr, Kind::Stream, None, Backend::IoUring, Ok(8), Err(2), Err(98));
    assert_eq!(r.unwrap_err(), SocketError::Os(98));
}

#[test]
fn synchronous_calls_pass_the_system_outcome() {
    let s = stream(3, Backend::IoUring);
    assert_eq!(s.listen(Ok(())), Ok(()));
    assert_eq!(s.listen(Err(98)), Err(SocketError::Os(98)));
    assert_eq!(s.connect(Ok(())), Ok(()));
    assert_eq!(s.connect(Err(111)), Err(SocketError::Os(111)));
    assert!(s.local_addr(Ok(v4(1))).unwrap() == v4(1));
    assert_eq!(s.local_addr(Err(9)).unwrap_err(), SocketError::Os(9));
    assert!(s.peer_addr(Ok(v4(2))).unwrap() == v4(2));
    assert_eq!(s.peer_addr(Err(107)).unwrap_err(), SocketError::Os(107));
}

#[test]
fn released_handle_reports_detachment() {
    let mut s = stream(3, Backend::IoUring);
    assert_eq!(s.release(), Some(3));
    assert_eq!(s.release(), None);
    assert_eq!(s.try_get(), Err(SocketError::Detached));
    assert_eq!(s.listen(Ok(())), Err(SocketError::Detached));
    assert_eq!(s.connect(Ok(())), Err(SocketError::Detached));
    assert_eq!(s.local_addr(Ok(v4(1))).unwrap_err(), SocketError::Detached);
    assert_eq!(s.peer_addr(Ok(v4(1))).unwrap_err(), SocketError::Detached);
    assert_eq!(s.try_clone(Ok(4)).unwrap_err(), SocketError::Detached);
    assert_eq!(s.connect_async(&v4(1)).unwrap_err(), SocketError::Detached);
    assert_eq!(s.accept(Ok(4)).unwrap_err(), SocketError::Detached);
    assert_eq!(s.shutdown().unwrap_err(), SocketError::Detached);
    assert_eq!(s.close().unwrap_err(), SocketError::Detached);
}

#[test]
fn released_handle_hands_the_buffer_back() {
    let mut s = stream(3, Backend::IoUring);
    s.release();
    let BufResult(res, buffer) = s.recv(Buffer::new(vec![1, 2])).unwrap_err();
    assert_eq!(res, Err(SocketError::Detached));
    assert_eq!(buffer.into_parts(), (vec![1, 2], 0));
    let BufResult(res, buffer) = s.send(Buffer::new(vec![3])).unwrap_err();
    assert_eq!(res, Err(SocketError::Detached));
    assert_eq!(buffer.into_parts(), (vec![3], 0));
    let BufResult(res, buffer) = s.send_to(Buffer::new(vec![4]), &v4(1)).unwrap_err();
    assert_eq!(res, Err(SocketError::Detached));
    assert_eq!(buffer.into_parts(), (vec![4], 0));
    let BufResult(res, buffer) = s.recv_from(Buffer::new(vec![5])).unwrap_err();
    assert!(matches!(res, Err(SocketError::Detached)));
    assert_eq!(buffer.into_parts(), (vec![5], 0));
    let BufResult(res, regions) = s.recv_vectored(vec![Buffer::new(vec![6])]).unwrap_err();
    assert_eq!(res, Err(SocketError::Detached));
    assert_eq!(regions.len(), 1);
    let BufResult(res, regions) = s.send_vectored(vec![Buffer::new(vec![6])]).unwrap_err();
    assert_eq!(res, Err(SocketError::Detached));
    assert_eq!(regions[0].as_bytes(), &vec![6]);
    let BufResult(res, regions) = s.recv_from_vectored(Vec::new()).unwrap_err();
    assert!(matches!(res, Err(SocketError::Detached)));
    assert!(regions.is_empty());
    let BufResult(res, regions) = s.send_to_vectored(Vec::new(), &v4(1)).unwrap_err();
    assert_eq!(res, Err(SocketError::Detached));
    assert!(regions.is_empty());
}

#[test]
fn handle_attaches_to_one_runtime() {
    let mut s = stream(3, Backend::IoUring);
    assert!(s.attach(1));
    assert_eq!(s.runtime(), Some(1));
    assert!(s.attach(1));
    assert!(!s.attach(2));
    assert_eq!(s.runtime(), Some(1));
}

#[test]
fn clone_is_a_separate_unattached_handle() {
    let mut s = stream(3, Backend::Polling);
    assert!(s.attach(1));
    let mut c = s.try_clone(Ok(9)).unwrap();
    assert_eq!(c.try_get(), Ok(9));
    assert_eq!(c.family(), AF_INET);
    assert_eq!(c.kind(), Kind::Stream);
    assert_eq!(c.protocol(), Some(6));
    assert_eq!(c.backend(), Backend::Polling);
    assert_eq!(c.runtime(), None);
    assert!(c.attach(2));
    assert_eq!(s.runtime(), Some(1));
    assert_eq!(s.try_clone(Err(24)).unwrap_err(), SocketError::Os(24));
}

#[test]
fn clones_send_and_receive_independently() {
    let s = stream(3, Backend::IoUring);
    let c = s.try_clone(Ok(4)).unwrap();
    let mut sending = s.send(Buffer::new(vec![1, 2, 3])).unwrap();
    let mut receiving = c.recv(Buffer::with_capacity(4)).unwrap();
    assert!(sending.submit());
    assert!(receiving.submit());
    assert_eq!(sending.fd(), 3);
    assert_eq!(receiving.fd(), 4);
    let BufResult(got, filled) = finish_recv(receiving, Ok(vec![1, 2, 3])).unwrap();
    assert_eq!(sending.phase(), Phase::Submitted);
    let BufResult(sent, rest) = finish_send(sending, Ok(3)).unwrap();
    assert_eq!(got, Ok(3));
    assert_eq!(sent, Ok(3));
    assert_eq!(filled.into_parts(), (vec![1, 2, 3, 0], 3));
    assert_eq!(rest.into_parts(), (vec![1, 2, 3], 3));
}

#[test]
fn receive_advances_by_the_count() {
    let s = stream(3, Backend::IoUring);
    let mut buffer = Buffer::with_capacity(8);
    buffer.fill(&vec![1]);
    let mut op = s.recv(buffer).unwrap();
    assert_eq!(op.phase(), Phase::Constructed);
    assert_eq!(op.fd(), 3);
    assert!(op.is_cancellable());
    assert!(op.submit());
    let BufResult(res, buffer) = finish_recv(op, Ok(vec![7, 8, 9])).unwrap();
    assert_eq!(res, Ok(3));
    assert_eq!(buffer.position(), 4);
    assert_eq!(buffer.as_bytes(), &vec![1, 7, 8, 9, 0, 0, 0, 0]);
}

#[test]
fn failed_transfer_returns_buffer_unchanged() {
    let s = stream(3, Backend::IoUring);
    let mut buffer = Buffer::new(vec![1, 2, 3, 4]);
    buffer.advance(1);
    let mut op = s.recv(buffer).unwrap();
    op.submit();
    let BufResult(res, buffer) = finish_recv(op, Err(104)).unwrap();
    assert_eq!(res, Err(SocketError::Os(104)));
    assert_eq!(buffer.into_parts(), (vec![1, 2, 3, 4], 1));

    let mut op = s.send(Buffer::new(vec![5, 6])).unwrap();
    op.submit();
    let BufResult(res, buffer) = finish_send(op, Err(32)).unwrap();
    assert_eq!(res, Err(SocketError::Os(32)));
    assert_eq!(buffer.into_parts(), (vec![5, 6], 0));

    let mut op = s.recv_from(Buffer::new(vec![5, 6])).unwrap();
    op.submit();
    let BufResult(res, buffer) = finish_recv_from(op, Err(11)).unwrap();
    assert!(matches!(res, Err(SocketError::Os(11))));
    assert_eq!(buffer.into_parts(), (vec![5, 6], 0));
}

#[test]
fn partial_send_leaves_the_rest_pending() {
    let s = stream(3, Backend::IoUring);
    let mut op = s.send(Buffer::new(vec![1, 2, 3, 4, 5])).unwrap();
    op.submit();
    let BufResult(res, buffer) = finish_send(op, Ok(2)).unwrap();
    assert_eq!(res, Ok(2));
    assert_eq!(buffer.position(), 2);
    assert_eq!(buffer.pending(), vec![3, 4, 5]);
    assert_eq!(buffer.as_bytes(), &vec![1, 2, 3, 4, 5]);
}

#[test]
fn vectored_transfers_move_the_regions_in_order() {
    let s = stream(3, Backend::IoUring);
    let mut op = s.recv_vectored(vec![Buffer::with_capacity(2), Buffer::with_capacity(2)]).unwrap();
    op.submit();
    let BufResult(res, regions) = finish_recv_vectored(op, Ok(vec![1, 2, 3])).unwrap();
    assert_eq!(res, Ok(3));
    assert_eq!(regions[0].as_bytes(), &vec![1, 2]);
    assert_eq!(regions[1].as_bytes(), &vec![3, 0]);
    assert_eq!(regions[1].position(), 1);

    let mut op = s.send_vectored(regions).unwrap();
    op.submit();
    let BufResult(res, regions) = finish_send_vectored(op, Ok(1)).unwrap();
    assert_eq!(res, Ok(1));
    assert_eq!(regions[0].position(), 2);
    assert_eq!(regions[1].position(), 2);

    let mut op = s.send_to_vectored(vec![Buffer::new(vec![1])], &v4(7)).unwrap();
    assert!(op.peer().unwrap() == &v4(7));
    op.submit();
    let BufResult(res, regions) = finish_send_vectored(op, Err(90)).unwrap();
    assert_eq!(res, Err(SocketError::Os(90)));
    assert_eq!(regions[0].position(), 0);

    let mut op = s.recv_from_vectored(vec![Buffer::with_capacity(1), Buffer::with_capacity(3)]).unwrap();
    op.submit();
    let BufResult(res, regions) = finish_recv_from_vectored(op, Ok((vec![5, 6], v4(9)))).unwrap();
    let (count, from) = res.unwrap();
    assert_eq!(count, 2);
    assert!(from == v4(9));
    assert_eq!(regions[0].as_bytes(), &vec![5]);
    assert_eq!(regions[1].as_bytes(), &vec![6, 0, 0]);

    let mut op = s.recv_from_vectored(vec![Buffer::with_capacity(1)]).unwrap();
    op.submit();
    let BufResult(res, regions) = finish_recv_from_vectored(op, Err(4)).unwrap();
    assert!(matches!(res, Err(SocketError::Os(4))));
    assert_eq!(regions[0].position(), 0);
    let mut op = s.recv_vectored(vec![Buffer::with_capacity(1)]).unwrap();
    op.submit();
    let BufResult(res, _) = finish_recv_vectored(op, Err(4)).unwrap();
    assert_eq!(res, Err(SocketError::Os(4)));
}

#[test]
fn abandoned_receive_shows_no_late_outcome() {
    let s = stream(3, Backend::IoUring);
    let mut op = s.recv(Buffer::with_capacity(4)).unwrap();
    op.submit();
    assert!(op.abandon());
    assert_eq!(op.resource().as_bytes(), &vec![0, 0, 0, 0]);
    assert!(finish_recv(op, Ok(vec![1, 2])).is_none());
    let op = s.send(Buffer::new(vec![1])).unwrap();
    assert!(finish_send(op, Ok(1)).is_none());
}

#[test]
fn connect_finalizes_on_completion_ports_only() {
    let s = stream(3, Backend::CompletionPort);
    let mut op = s.connect_async(&v4(80)).unwrap();
    assert!(op.peer().unwrap() == &v4(80));
    op.submit();
    assert_eq!(finish_connect(op, Ok(()), Err(5)), Some(Err(SocketError::Finalize(5))));
    let mut op = s.connect_async(&v4(80)).unwrap();
    op.submit();
    assert_eq!(finish_connect(op, Err(111), Err(5)), Some(Err(SocketError::Os(111))));
    let mut op = s.connect_async(&v4(80)).unwrap();
    op.submit();
    assert_eq!(finish_connect(op, Ok(()), Ok(())), Some(Ok(())));
    let s = stream(3, Backend::IoUring);
    let mut op = s.connect_async(&v4(80)).unwrap();
    op.submit();
    assert_eq!(finish_connect(op, Ok(()), Err(5)), Some(Ok(())));
    let op = s.connect_async(&v4(80)).unwrap();
    assert_eq!(finish_connect(op, Ok(()), Ok(())), None);
}

#[test]
fn shutdown_keeps_the_handle() {
    let s = stream(3, Backend::Polling);
    let mut op = s.shutdown().unwrap();
    assert_eq!(op.fd(), 3);
    op.submit();
    assert_eq!(finish_shutdown(op, Ok(())), Some(Ok(())));
    let mut op = s.shutdown().unwrap();
    op.submit();
    assert_eq!(finish_shutdown(op, Err(107)), Some(Err(SocketError::Os(107))));
    assert_eq!(s.try_get(), Ok(3));
}

#[test]
fn close_cannot_be_cancelled() {
    let s = stream(3, Backend::IoUring);
    let mut op = s.close().unwrap();
    assert_eq!(op.fd(), 3);
    assert!(!op.is_cancellable());
    assert_eq!(op.resource().try_get(), Err(SocketError::Detached));
    assert!(op.abandon());
    assert_eq!(op.phase(), Phase::Constructed);
    assert!(op.submit());
    assert!(op.abandon());
    assert_eq!(op.phase(), Phase::Submitted);
    assert_eq!(finish_close(op, Ok(())), Some(Ok(())));
    let mut op = stream(4, Backend::IoUring).close().unwrap();
    op.submit();
    assert_eq!(finish_close(op, Err(9)), Some(Err(SocketError::Os(9))));
}

#[test]
fn accept_into_a_fresh_descriptor() {
    let listener = stream(3, Backend::Polling);
    let mut op = listener.accept(Err(1)).unwrap();
    assert_eq!(op.resource().prepared, None);
    op.submit();
    let (peer_socket, peer) = finish_accept(op, Ok(12), Ok(()), Err(1), Ok(v4(44))).unwrap().unwrap();
    assert_eq!(peer_socket.try_get(), Ok(12));
    assert_eq!(peer_socket.family(), AF_INET);
    assert_eq!(peer_socket.kind(), Kind::Stream);
    assert_eq!(peer_socket.protocol(), Some(6));
    assert_eq!(peer_socket.runtime(), None);
    assert!(peer == v4(44));
    assert!(peer_socket.send(Buffer::new(vec![1])).is_ok());
    assert!(peer_socket.recv(Buffer::with_capacity(1)).is_ok());
}

#[test]
fn failed_accept_gives_up_the_new_descriptor() {
    let listener = stream(3, Backend::Polling);
    let mut op = listener.accept(Ok(0)).unwrap();
    op.submit();
    let failure = finish_accept(op, Err(24), Ok(()), Ok(()), Ok(v4(1))).unwrap().unwrap_err();
    assert_eq!(failure.error, SocketError::Os(24));
    assert_eq!(failure.release, None);
    let mut op = listener.accept(Ok(0)).unwrap();
    op.submit();
    let failure = finish_accept(op, Ok(12), Err(9), Ok(()), Ok(v4(1))).unwrap().unwrap_err();
    assert_eq!(failure.error, SocketError::Os(9));
    assert_eq!(failure.release, Some(12));
    let mut op = listener.accept(Ok(0)).unwrap();
    op.submit();
    let failure = finish_accept(op, Ok(12), Ok(()), Ok(()), Err(22)).unwrap().unwrap_err();
    assert_eq!(failure.error, SocketError::Os(22));
    assert_eq!(failure.release, Some(12));
    let uring = stream(3, Backend::IoUring);
    let mut op = uring.accept(Ok(0)).unwrap();
    op.submit();
    let (s, _) = finish_accept(op, Ok(12), Err(9), Err(9), Ok(v4(1))).unwrap().unwrap();
    assert_eq!(s.try_get(), Ok(12));
    let op = uring.accept(Ok(0)).unwrap();
    assert!(finish_accept(op, Ok(12), Ok(()), Ok(()), Ok(v4(1))).is_none());
}

#[test]
fn accept_into_a_socket_made_ahead() {
    let listener = stream(3, Backend::CompletionPort);
    assert_eq!(listener.accept(Err(24)).unwrap_err(), SocketError::Os(24));
    let mut op = listener.accept(Ok(20)).unwrap();
    assert_eq!(op.resource().prepared, Some(20));
    assert_eq!(op.resource().family, AF_INET);
    op.submit();
    let (s, peer) = finish_accept(op, Ok(0), Err(1), Ok(()), Ok(v4(5))).unwrap().unwrap();
    assert_eq!(s.try_get(), Ok(20));
    assert_eq!(s.family(), AF_INET);
    assert_eq!(s.backend(), Backend::CompletionPort);
    assert!(peer == v4(5));

    let mut op = listener.accept(Ok(20)).unwrap();
    op.submit();
    let failure = finish_accept(op, Err(10054), Ok(()), Ok(()), Ok(v4(5))).unwrap().unwrap_err();
    assert_eq!(failure.error, SocketError::Os(10054));
    assert_eq!(failure.release, Some(20));
    let mut op = listener.accept(Ok(20)).unwrap();
    op.submit();
    let failure = finish_accept(op, Ok(0), Ok(()), Err(6), Ok(v4(5))).unwrap().unwrap_err();
    assert_eq!(failure.error, SocketError::Finalize(6));
    assert_eq!(failure.release, Some(20));
    let mut op = listener.accept(Ok(20)).unwrap();
    op.submit();
    let failure = finish_accept(op, Ok(0), Ok(()), Ok(()), Err(7)).unwrap().unwrap_err();
    assert_eq!(failure.error, SocketError::Os(7));
    assert_eq!(failure.release, Some(20));
}

#[test]
fn datagram_sent_to_itself_comes_back_from_the_local_address() {
    let local = v4(53);
    let socket = Socket::bind(&local, Kind::Datagram, None, Backend::IoUring, Ok(6), Ok(()), Ok(())).unwrap();
    let bound = socket.local_addr(Ok(local.clone())).unwrap();

    let mut sending = socket.send_to(Buffer::new(vec![b'h', b'e', b'l', b'l', b'o']), &bound).unwrap();
    assert!(sending.submit());
    let wire = sending.resource().pending();
    let target = sending.peer().unwrap().clone();
    let BufResult(sent, _) = finish_send(sending, Ok(wire.len())).unwrap();
    assert_eq!(sent, Ok(5));

    let mut receiving = socket.recv_from(Buffer::with_capacity(16)).unwrap();
    assert!(receiving.submit());
    assert!(target == bound);
    let BufResult(got, buffer) = finish_recv_from(receiving, Ok((wire, bound.clone()))).unwrap();
    let (count, from) = got.unwrap();
    assert_eq!(count, 5);
    assert!(from == local);
    assert_eq!(buffer.position(), 5);
    assert_eq!(&buffer.as_bytes()[..5], b"hello");
}

#[test]
fn accepted_and_connected_handles_exchange_a_byte() {
    let address = v4(90);
    let listener = Socket::bind(&address, Kind::Stream, None, Backend::Polling, Ok(3), Ok(()), Ok(())).unwrap();
    assert_eq!(listener.listen(Ok(())), Ok(()));
    let client = Socket::new(AF_INET, Kind::Stream, None, Backend::Polling, Ok(4), Ok(())).unwrap();

    let mut accepting = listener.accept(Err(0)).unwrap();
    let mut connecting = client.connect_async(&listener.local_addr(Ok(address.clone())).unwrap()).unwrap();
    assert!(accepting.submit());
    assert!(connecting.submit());
    assert_eq!(finish_connect(connecting, Ok(()), Ok(())), Some(Ok(())));
    let (server, peer) = finish_accept(accepting, Ok(5), Ok(()), Ok(()), Ok(v4(91))).unwrap().unwrap();
    assert_eq!(peer.family(), listener.family());
    assert_eq!(server.family(), listener.family());

    let mut up = client.send(Buffer::new(vec![42])).unwrap();
    let mut down = server.recv(Buffer::with_capacity(1)).unwrap();
    up.submit();
    down.submit();
    let wire = up.resource().pending();
    assert_eq!(finish_send(up, Ok(1)).unwrap().0, Ok(1));
    let BufResult(got, buffer) = finish_recv(down, Ok(wire)).unwrap();
    assert_eq!(got, Ok(1));
    assert_eq!(buffer.as_bytes(), &vec![42]);

    let mut back = server.send(Buffer::new(vec![24])).unwrap();
    let mut home = client.recv(Buffer::with_capacity(1)).unwrap();
    back.submit();
    home.submit();
    let wire = back.resource().pending();
    assert_eq!(finish_send(back, Ok(1)).unwrap().0, Ok(1));
    let BufResult(got, buffer) = finish_recv(home, Ok(wire)).unwrap();
    assert_eq!(got, Ok(1));
    assert_eq!(buffer.as_bytes(), &vec![24]);
}
