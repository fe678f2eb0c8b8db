use std::collections::BTreeMap;
use std::sync::atomic::{AtomicUsize, Ordering};
use std::sync::Arc;
use std::task::{Wake, Waker};

use smoltcp::iface::{EthernetInterface, EthernetInterfaceBuilder, NeighborCache};
use smoltcp::phy::Loopback;
use smoltcp::socket::{Socket, SocketHandle, SocketSet, TcpSocket, TcpSocketBuffer};
use smoltcp::time::Instant;
use smoltcp::wire::{EthernetAddress, IpAddress, IpCidr};

use ustunet::{
    AddrPair, Close, HalfClose, IoError, Poll, QueueRequest, SharedState, SocketAddr, SocketAddrV4,
    TcpConnection, TcpStream, WriteStep,
};

struct Counter(AtomicUsize);

impl Wake for Counter {
    fn wake(self: Arc<Self>) {
        self.0.fetch_add(1, Ordering::SeqCst);
    }
}

fn counter() -> (Arc<Counter>, Waker) {
    let counter = Arc::new(Counter(AtomicUsize::new(0)));
    (counter.clone(), Waker::from(counter))
}

fn addr() -> AddrPair {
    AddrPair {
        peer: SocketAddr::V4(SocketAddrV4 { ip: [127, 0, 0, 1], port: 65000 }),
        local: SocketAddr::V4(SocketAddrV4 { ip: [127, 0, 0, 1], port: 1234 }),
    }
}

fn tcp_socket(capacity: usize) -> TcpSocket<'static> {
    TcpSocket::new(
        TcpSocketBuffer::new(vec![0u8; capacity]),
        TcpSocketBuffer::new(vec![0u8; capacity]),
    )
}

struct Network {
    interface: EthernetInterface<'static, Loopback>,
    sockets: SocketSet<'static>,
    now: i64,
}

impl Network {
    fn new() -> Network {
        Network {
            interface: EthernetInterfaceBuilder::new(Loopback::new())
                .ethernet_addr(EthernetAddress::default())
                .neighbor_cache(NeighborCache::new(BTreeMap::new()))
                .ip_addrs(vec![IpCidr::new(IpAddress::v4(127, 0, 0, 1), 8)])
                .finalize(),
            sockets: SocketSet::new(vec![]),
            now: 0,
        }
    }

    fn run(&mut self) {
        for _ in 0..200 {
            let _ = self.interface.poll(&mut self.sockets, Instant::from_millis(self.now));
            self.now += 5;
        }
    }

    fn take(&mut self, handle: SocketHandle) -> TcpSocket<'static> {
        match self.sockets.remove(handle) {
            Socket::Tcp(socket) => socket,
            _ => panic!("not a TCP socket"),
        }
    }
}

/// A network, the handle of the client and the socket of the server, connected.
fn connected(capacity: usize) -> (Network, SocketHandle, TcpSocket<'static>) {
    let mut network = Network::new();
    let mut server = tcp_socket(capacity);
    server.listen(1234).unwrap();
    let mut client = tcp_socket(1024);
    client.connect((IpAddress::v4(127, 0, 0, 1), 1234), 65000).unwrap();
    let server = network.sockets.add(server);
    let client = network.sockets.add(client);
    network.run();
    let server = network.take(server);
    assert_eq!(server.state(), smoltcp::socket::TcpState::Established);
    (network, client, server)
}

/// Lets the network run with the stream's socket in it.
fn run_with(network: &mut Network, connection: TcpConnection) -> TcpConnection {
    let TcpConnection { mut inner, addr, read_readiness, write_readiness } = connection;
    let handle = network.sockets.add(inner.tcp);
    network.run();
    inner.tcp = network.take(handle);
    TcpConnection { inner, addr, read_readiness, write_readiness }
}

fn client_sends(network: &mut Network, client: SocketHandle, data: &[u8]) {
    let n = network.sockets.get::<TcpSocket>(client).send_slice(data).unwrap();
    assert_eq!(n, data.len());
}

fn read(stream: &mut TcpStream, c: &mut TcpConnection, room: usize) -> (Poll<Result<usize, IoError>>, Vec<u8>) {
    let mut buf = vec![0xffu8; room];
    let (_, waker) = counter();
    let poll = stream.reader().poll_read_inner(&mut c.inner, &mut c.read_readiness, waker, &mut buf);
    (poll, buf)
}

fn write(stream: &mut TcpStream, c: &mut TcpConnection, data: &[u8]) -> WriteStep {
    let (_, waker) = counter();
    stream.writer().poll_write_inner(&mut c.inner, &mut c.write_readiness, waker, data)
}

#[test]
fn t1() {}

#[test]
fn new_stream_starts_clean() {
    let (stream, connection) = TcpStream::new(tcp_socket(16), addr());
    assert_eq!(stream.local_addr(), addr().local);
    assert_eq!(stream.peer_addr(), addr().peer);
    assert!(!connection.inner.polling_active);
    assert_eq!(connection.addr, addr());
    assert!(connection.read_readiness.waker.is_none());
    assert!(connection.write_readiness.waker.is_none());
    let (reader, writer) = stream.split();
    assert_eq!(reader.shutdown_notice(), HalfClose { handle: addr(), close: Close::Read });
    assert_eq!(writer.shutdown_notice(), HalfClose { handle: addr(), close: Close::Write });
    assert_eq!(writer.handle(), addr());
}

#[test]
fn reads_come_in_order() {
    let (mut network, client, server) = connected(64);
    let (mut stream, connection) = TcpStream::new(server, addr());
    client_sends(&mut network, client, b"hello world");
    let mut c = run_with(&mut network, connection);
    let (poll, buf) = read(&mut stream, &mut c, 4);
    assert_eq!(poll, Poll::Ready(Ok(4)));
    assert_eq!(&buf, b"hell");
    let (poll, buf) = read(&mut stream, &mut c, 10);
    assert_eq!(poll, Poll::Ready(Ok(7)));
    assert_eq!(&buf[..7], b"o world");
    assert_eq!(&buf[7..], [0xffu8; 3]);
    assert!(c.read_readiness.waker.is_none());
    let (poll, buf) = read(&mut stream, &mut c, 3);
    assert_eq!(poll, Poll::Pending);
    assert_eq!(buf, vec![0xffu8; 3]);
    assert!(c.read_readiness.waker.is_some());
}

#[test]
fn read_wraps_around_the_ring() {
    let (mut network, client, server) = connected(8);
    let (mut stream, connection) = TcpStream::new(server, addr());
    client_sends(&mut network, client, b"abcdef");
    let mut c = run_with(&mut network, connection);
    assert_eq!(read(&mut stream, &mut c, 5), (Poll::Ready(Ok(5)), b"abcde".to_vec()));
    client_sends(&mut network, client, b"ghijklm");
    let mut c = run_with(&mut network, c);
    assert_eq!(read(&mut stream, &mut c, 8), (Poll::Ready(Ok(8)), b"fghijklm".to_vec()));
}

#[test]
fn read_without_room_waits() {
    let (mut network, client, server) = connected(64);
    let (mut stream, connection) = TcpStream::new(server, addr());
    client_sends(&mut network, client, b"x");
    let mut c = run_with(&mut network, connection);
    assert_eq!(read(&mut stream, &mut c, 0).0, Poll::Pending);
    assert_eq!(read(&mut stream, &mut c, 1), (Poll::Ready(Ok(1)), b"x".to_vec()));
}

#[test]
fn end_is_reported_once() {
    let (mut network, client, server) = connected(64);
    let (mut stream, connection) = TcpStream::new(server, addr());
    client_sends(&mut network, client, b"bye");
    network.sockets.get::<TcpSocket>(client).close();
    let mut c = run_with(&mut network, connection);
    assert_eq!(c.inner.tcp.state(), smoltcp::socket::TcpState::CloseWait);
    assert_eq!(read(&mut stream, &mut c, 8).0, Poll::Ready(Ok(3)));
    assert_eq!(read(&mut stream, &mut c, 8).0, Poll::Ready(Ok(0)));
    assert_eq!(read(&mut stream, &mut c, 8).0, Poll::Ready(Err(IoError::ConnectionAborted)));
    assert_eq!(read(&mut stream, &mut c, 8).0, Poll::Ready(Err(IoError::ConnectionAborted)));
    // The writing half is still open.
    assert_eq!(write(&mut stream, &mut c, b"late").poll, Poll::Ready(Ok(4)));
}

#[test]
fn writes_go_out_in_order() {
    let (mut network, client, server) = connected(8);
    let (mut stream, mut c) = TcpStream::new(server, addr());
    let request = Some(QueueRequest { handle: addr() });
    assert_eq!(write(&mut stream, &mut c, b"abcde"), WriteStep { poll: Poll::Ready(Ok(5)), request });
    assert_eq!(write(&mut stream, &mut c, b"fghij"), WriteStep { poll: Poll::Ready(Ok(3)), request });
    assert!(c.write_readiness.waker.is_none());
    assert_eq!(write(&mut stream, &mut c, b"ij"), WriteStep { poll: Poll::Pending, request });
    assert!(c.write_readiness.waker.is_some());
    let _c = run_with(&mut network, c);
    let mut got = [0u8; 16];
    let n = network.sockets.get::<TcpSocket>(client).recv_slice(&mut got).unwrap();
    assert_eq!(&got[..n], b"abcdefgh");
}

#[test]
fn empty_write_waits() {
    let (_network, _client, server) = connected(8);
    let (mut stream, mut c) = TcpStream::new(server, addr());
    assert_eq!(write(&mut stream, &mut c, b"").poll, Poll::Pending);
}

#[test]
fn queue_is_told_only_while_inactive() {
    let (_network, _client, server) = connected(8);
    let (mut stream, mut c) = TcpStream::new(server, addr());
    c.inner.polling_active = true;
    assert_eq!(write(&mut stream, &mut c, b"a"), WriteStep { poll: Poll::Ready(Ok(1)), request: None });
    assert_eq!(stream.close(&mut c.inner), None);
    c.inner.polling_active = false;
    assert_eq!(stream.close(&mut c.inner), Some(QueueRequest { handle: addr() }));
}

#[test]
fn close_ends_writing_and_keeps_reading() {
    let (mut network, client, server) = connected(64);
    let (mut stream, connection) = TcpStream::new(server, addr());
    client_sends(&mut network, client, b"still here");
    let mut c = run_with(&mut network, connection);
    assert_eq!(write(&mut stream, &mut c, b"last").poll, Poll::Ready(Ok(4)));
    assert_eq!(stream.writer().close(&mut c.inner), Some(QueueRequest { handle: addr() }));
    assert_eq!(c.inner.tcp.state(), smoltcp::socket::TcpState::FinWait1);
    assert_eq!(c.inner.tcp.send_queue(), 4);
    assert_eq!(
        write(&mut stream, &mut c, b"more"),
        WriteStep {
            poll: Poll::Ready(Err(IoError::ConnectionAborted)),
            request: Some(QueueRequest { handle: addr() }),
        }
    );
    assert_eq!(read(&mut stream, &mut c, 5), (Poll::Ready(Ok(5)), b"still".to_vec()));
    assert_eq!(stream.close(&mut c.inner), Some(QueueRequest { handle: addr() }));
    assert_eq!(c.inner.tcp.state(), smoltcp::socket::TcpState::FinWait1);
    assert_eq!(read(&mut stream, &mut c, 5), (Poll::Ready(Ok(5)), b" here".to_vec()));
    assert_eq!(read(&mut stream, &mut c, 5).0, Poll::Pending);
    let mut c = run_with(&mut network, c);
    assert_eq!(c.inner.tcp.state(), smoltcp::socket::TcpState::FinWait2);
    assert_eq!(read(&mut stream, &mut c, 5).0, Poll::Pending);
}

#[test]
fn closing_a_listener_closes_it() {
    let mut listening = tcp_socket(8);
    listening.listen(1234).unwrap();
    let (mut stream, mut c) = TcpStream::new(listening, addr());
    stream.close(&mut c.inner);
    assert_eq!(c.inner.tcp.state(), smoltcp::socket::TcpState::Closed);
}

#[test]
fn closed_socket_reads_end_and_refuses_writes() {
    let (mut stream, mut c) = TcpStream::new(tcp_socket(8), addr());
    assert_eq!(write(&mut stream, &mut c, b"a").poll, Poll::Ready(Err(IoError::ConnectionAborted)));
    assert_eq!(read(&mut stream, &mut c, 1).0, Poll::Ready(Ok(0)));
    assert_eq!(read(&mut stream, &mut c, 1).0, Poll::Ready(Err(IoError::ConnectionAborted)));
}

#[test]
fn wake_once_wakes_the_waiting_task_once() {
    let (_network, _client, server) = connected(8);
    let (mut stream, mut c) = TcpStream::new(server, addr());
    let (count, waker) = counter();
    let mut buf = [0u8; 4];
    let poll =
        stream.reader().poll_read_inner(&mut c.inner, &mut c.read_readiness, waker, &mut buf);
    assert_eq!(poll, Poll::Pending);
    assert_eq!(count.0.load(Ordering::SeqCst), 0);
    assert!(c.read_readiness.wake_once().is_some());
    assert_eq!(count.0.load(Ordering::SeqCst), 1);
    assert!(c.read_readiness.waker.is_none());
    assert!(c.read_readiness.wake_once().is_none());
    assert_eq!(count.0.load(Ordering::SeqCst), 1);
    assert!(SharedState { waker: None }.wake_once().is_none());
}

#[test]
fn only_the_last_waiting_task_is_woken() {
    let (_network, _client, server) = connected(8);
    let (mut stream, mut c) = TcpStream::new(server, addr());
    let (first, first_waker) = counter();
    let (last, last_waker) = counter();
    let mut buf = [0u8; 4];
    for waker in [first_waker, last_waker] {
        let poll =
            stream.reader().poll_read_inner(&mut c.inner, &mut c.read_readiness, waker, &mut buf);
        assert_eq!(poll, Poll::Pending);
    }
    assert!(c.read_readiness.wake_once().is_some());
    assert_eq!(first.0.load(Ordering::SeqCst), 0);
    assert_eq!(last.0.load(Ordering::SeqCst), 1);
    assert!(c.read_readiness.wake_once().is_none());
    assert_eq!(last.0.load(Ordering::SeqCst), 1);
}

#[test]
fn stream_is_shown_with_its_addresses() {
    let (stream, _c) = TcpStream::new(tcp_socket(8), addr());
    assert_eq!(stream.fmt("here"), "UsTcpStream(here)");
}

#[test]
fn halves_do_not_disturb_each_other() {
    let (mut network, client, server) = connected(16);
    let (mut stream, connection) = TcpStream::new(server, addr());
    client_sends(&mut network, client, b"0123456789");
    let mut c = run_with(&mut network, connection);
    assert_eq!(read(&mut stream, &mut c, 3), (Poll::Ready(Ok(3)), b"012".to_vec()));
    assert_eq!(write(&mut stream, &mut c, b"ab").poll, Poll::Ready(Ok(2)));
    assert_eq!(read(&mut stream, &mut c, 3), (Poll::Ready(Ok(3)), b"345".to_vec()));
    assert_eq!(write(&mut stream, &mut c, b"cd").poll, Poll::Ready(Ok(2)));
    stream.close(&mut c.inner);
    assert_eq!(read(&mut stream, &mut c, 3), (Poll::Ready(Ok(3)), b"678".to_vec()));
    assert_eq!(write(&mut stream, &mut c, b"ef").poll, Poll::Ready(Err(IoError::ConnectionAborted)));
    let mut c = run_with(&mut network, c);
    assert_eq!(read(&mut stream, &mut c, 3).0, Poll::Ready(Ok(1)));
    let mut got = [0u8; 16];
    let n = network.sockets.get::<TcpSocket>(client).recv_slice(&mut got).unwrap();
    assert_eq!(&got[..n], b"abcd");
}
