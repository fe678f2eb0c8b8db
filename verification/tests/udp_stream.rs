use std::collections::BTreeMap;
use std::sync::Arc;
use std::task::{Wake, Waker};

use smoltcp::iface::{EthernetInterfaceBuilder, NeighborCache};
use smoltcp::phy::Loopback;
use smoltcp::socket::{Socket, SocketSet, UdpPacketMetadata, UdpSocket, UdpSocketBuffer};
use smoltcp::time::Instant;
use smoltcp::wire::{EthernetAddress, IpAddress, IpCidr};

use ustunet::{
    AddrPair, Close, HalfClose, IoError, Poll, QueueRequest, SocketAddr, SocketAddrV6, SocketError,
    UdpConnection, UdpStream, WriteStep,
};

struct Nobody;

impl Wake for Nobody {
    fn wake(self: Arc<Self>) {}
}

fn waker() -> Waker {
    Waker::from(Arc::new(Nobody))
}

fn addr() -> AddrPair {
    AddrPair {
        peer: SocketAddr::V6(SocketAddrV6 { ip: [7; 16], port: 9, flowinfo: 1, scope_id: 2 }),
        local: SocketAddr::V6(SocketAddrV6 { ip: [8; 16], port: 10, flowinfo: 3, scope_id: 4 }),
    }
}

fn buffer(packets: usize, octets: usize) -> UdpSocketBuffer<'static> {
    UdpSocketBuffer::new(vec![UdpPacketMetadata::EMPTY; packets], vec![0u8; octets])
}

fn udp_socket(packets: usize, octets: usize) -> UdpSocket<'static> {
    UdpSocket::new(buffer(packets, octets), buffer(packets, octets))
}

fn bound(packets: usize, octets: usize) -> UdpSocket<'static> {
    let mut socket = udp_socket(packets, octets);
    socket.bind((IpAddress::v4(127, 0, 0, 1), 7000)).unwrap();
    socket
}

fn read(stream: &mut UdpStream, c: &mut UdpConnection, room: usize) -> (Poll<Result<usize, IoError>>, Vec<u8>) {
    let mut buf = vec![0xffu8; room];
    let poll = stream.reader().poll_read_inner(&mut c.inner, &mut buf);
    (poll, buf)
}

fn write(stream: &mut UdpStream, c: &mut UdpConnection, data: &[u8]) -> WriteStep {
    stream.writer().poll_write_inner(&mut c.inner, &mut c.write_readiness, waker(), data)
}

/// Lets what the socket holds for its own endpoint come back to it.
fn run_with(connection: UdpConnection) -> UdpConnection {
    let UdpConnection { mut inner, addr, read_readiness, write_readiness } = connection;
    let mut interface = EthernetInterfaceBuilder::new(Loopback::new())
        .ethernet_addr(EthernetAddress::default())
        .neighbor_cache(NeighborCache::new(BTreeMap::new()))
        .ip_addrs(vec![IpCidr::new(IpAddress::v4(127, 0, 0, 1), 8)])
        .finalize();
    let mut sockets = SocketSet::new(vec![]);
    let handle = sockets.add(inner.udp);
    for now in 0..400 {
        let _ = interface.poll(&mut sockets, Instant::from_millis(now * 5));
    }
    inner.udp = match sockets.remove(handle) {
        Socket::Udp(socket) => socket,
        _ => panic!("not a UDP socket"),
    };
    UdpConnection { inner, addr, read_readiness, write_readiness }
}

#[test]
fn new_udp_stream_starts_clean() {
    let (stream, connection) = UdpStream::new(udp_socket(2, 16), addr());
    assert_eq!(stream.local_addr(), addr().local);
    assert_eq!(stream.peer_addr(), addr().peer);
    assert!(!connection.inner.polling_active);
    assert_eq!(connection.addr, addr());
    assert!(connection.read_readiness.waker.is_none());
    assert!(connection.write_readiness.waker.is_none());
    let (reader, writer) = stream.split();
    assert_eq!(reader.shutdown_notice(), HalfClose { handle: addr(), close: Close::Read });
    assert_eq!(writer.shutdown_notice(), HalfClose { handle: addr(), close: Close::Write });
    assert_eq!(writer.handle(), addr());
}

#[test]
fn datagrams_are_read_one_by_one() {
    let (mut stream, mut c) = UdpStream::new(bound(4, 64), addr());
    let request = Some(QueueRequest { handle: addr() });
    assert_eq!(write(&mut stream, &mut c, b"first"), WriteStep { poll: Poll::Ready(Ok(1)), request });
    assert_eq!(write(&mut stream, &mut c, b"second"), WriteStep { poll: Poll::Ready(Ok(1)), request });
    assert_eq!(write(&mut stream, &mut c, b""), WriteStep { poll: Poll::Ready(Ok(1)), request });
    let mut c = run_with(c);
    assert_eq!(read(&mut stream, &mut c, 3), (Poll::Ready(Ok(3)), b"fir".to_vec()));
    let (poll, buf) = read(&mut stream, &mut c, 8);
    assert_eq!(poll, Poll::Ready(Ok(6)));
    assert_eq!(&buf[..6], b"second");
    assert_eq!(&buf[6..], [0xffu8; 2]);
    assert!(c.inner.udp.can_recv());
    assert_eq!(read(&mut stream, &mut c, 8), (Poll::Ready(Ok(0)), vec![0xffu8; 8]));
    assert!(!c.inner.udp.can_recv());
    assert_eq!(read(&mut stream, &mut c, 8).0, Poll::Ready(Ok(0)));
}

#[test]
fn datagram_goes_to_the_bound_endpoint() {
    let (mut stream, mut c) = UdpStream::new(bound(4, 64), addr());
    write(&mut stream, &mut c, b"me");
    let mut c = run_with(c);
    let (payload, sender) = c.inner.udp.recv().unwrap();
    assert_eq!(payload, b"me");
    assert_eq!(sender.port, 7000);
    assert_eq!(sender.addr, IpAddress::v4(127, 0, 0, 1));
}

#[test]
fn full_udp_socket_makes_the_writer_wait() {
    let (mut stream, mut c) = UdpStream::new(bound(1, 64), addr());
    assert_eq!(write(&mut stream, &mut c, b"a").poll, Poll::Ready(Ok(1)));
    assert!(c.write_readiness.waker.is_none());
    let step = write(&mut stream, &mut c, b"b");
    assert_eq!(step, WriteStep { poll: Poll::Pending, request: Some(QueueRequest { handle: addr() }) });
    assert!(c.write_readiness.waker.is_some());
    c.inner.polling_active = true;
    assert_eq!(write(&mut stream, &mut c, b"b"), WriteStep { poll: Poll::Pending, request: None });
}

#[test]
fn refused_datagrams_report_why_and_do_not_tell_the_queue() {
    let (mut stream, mut c) = UdpStream::new(bound(4, 4), addr());
    assert_eq!(
        write(&mut stream, &mut c, b"12345"),
        WriteStep { poll: Poll::Ready(Err(IoError::Other(SocketError::Truncated))), request: None }
    );
    assert_eq!(write(&mut stream, &mut c, b"123").poll, Poll::Ready(Ok(1)));
    assert_eq!(
        write(&mut stream, &mut c, b"12"),
        WriteStep { poll: Poll::Ready(Err(IoError::Other(SocketError::Exhausted))), request: None }
    );
}

#[test]
fn unaddressable_sockets_refuse_to_write() {
    let refused =
        WriteStep { poll: Poll::Ready(Err(IoError::Other(SocketError::Unaddressable))), request: None };
    let (mut stream, mut c) = UdpStream::new(udp_socket(4, 4), addr());
    assert_eq!(write(&mut stream, &mut c, b"1"), refused);
    let mut socket = udp_socket(4, 4);
    socket.bind(7000).unwrap();
    let (mut stream, mut c) = UdpStream::new(socket, addr());
    assert_eq!(write(&mut stream, &mut c, b"1"), refused);
    let mut socket = udp_socket(4, 4);
    socket.bind((IpAddress::v4(0, 1, 2, 3), 7000)).unwrap();
    let (mut stream, mut c) = UdpStream::new(socket, addr());
    assert_eq!(write(&mut stream, &mut c, b"1"), refused);
    let mut socket = udp_socket(4, 4);
    socket.bind((IpAddress::v6(0, 0, 0, 0, 0, 0, 0, 0), 7000)).unwrap();
    let (mut stream, mut c) = UdpStream::new(socket, addr());
    assert_eq!(write(&mut stream, &mut c, b"1"), refused);
    let mut socket = udp_socket(4, 4);
    socket.bind((IpAddress::v6(0, 0, 0, 0, 0, 0, 0, 1), 7000)).unwrap();
    let (mut stream, mut c) = UdpStream::new(socket, addr());
    assert_eq!(write(&mut stream, &mut c, b"1").poll, Poll::Ready(Ok(1)));
}

#[test]
fn udp_close_ends_writing_and_keeps_what_was_written() {
    let (mut stream, mut c) = UdpStream::new(bound(4, 64), addr());
    assert_eq!(write(&mut stream, &mut c, b"a").poll, Poll::Ready(Ok(1)));
    assert_eq!(stream.close(&c.inner), Some(QueueRequest { handle: addr() }));
    let gone = Poll::Ready(Err(IoError::ConnectionAborted));
    assert_eq!(
        write(&mut stream, &mut c, b"b"),
        WriteStep { poll: gone, request: Some(QueueRequest { handle: addr() }) }
    );
    c.inner.polling_active = true;
    assert_eq!(stream.writer().close(&c.inner), None);
    assert_eq!(write(&mut stream, &mut c, b"").poll, Poll::Ready(Err(IoError::ConnectionAborted)));
    assert!(c.write_readiness.waker.is_none());
    let mut c = run_with(c);
    assert_eq!(read(&mut stream, &mut c, 1), (Poll::Ready(Ok(1)), b"a".to_vec()));
    assert_eq!(read(&mut stream, &mut c, 1).0, Poll::Ready(Ok(0)));
}

#[test]
fn closed_udp_writer_is_refused_where_an_open_one_waits() {
    let (mut stream, mut c) = UdpStream::new(bound(1, 64), addr());
    assert_eq!(write(&mut stream, &mut c, b"a").poll, Poll::Ready(Ok(1)));
    assert_eq!(write(&mut stream, &mut c, b"b").poll, Poll::Pending);
    stream.writer().close(&c.inner);
    assert_eq!(write(&mut stream, &mut c, b"b").poll, Poll::Ready(Err(IoError::ConnectionAborted)));
}

#[test]
fn refused_datagram_is_refused_again() {
    let (mut stream, mut c) = UdpStream::new(bound(4, 8), addr());
    for _ in 0..2 {
        let too_large = Poll::Ready(Err(IoError::Other(SocketError::Truncated)));
        assert_eq!(
            write(&mut stream, &mut c, b"123456789"),
            WriteStep { poll: too_large, request: None }
        );
        assert!(c.inner.udp.can_send());
    }
    assert_eq!(write(&mut stream, &mut c, b"12345678").poll, Poll::Ready(Ok(1)));
    let (mut stream, mut c) = UdpStream::new(udp_socket(4, 8), addr());
    for _ in 0..2 {
        assert_eq!(
            write(&mut stream, &mut c, b"1").poll,
            Poll::Ready(Err(IoError::Other(SocketError::Unaddressable)))
        );
    }
}

#[test]
fn udp_stream_is_shown_with_its_addresses() {
    let (stream, _c) = UdpStream::new(udp_socket(1, 1), addr());
    assert_eq!(stream.fmt("here"), "UsUdpSteam(here)");
}

#[test]
fn filler_without_a_datagram_is_an_error_once() {
    let mut socket = UdpSocket::new(buffer(1, 10), buffer(4, 64));
    socket.bind((IpAddress::v4(127, 0, 0, 1), 7000)).unwrap();
    let (mut stream, mut c) = UdpStream::new(socket, addr());
    write(&mut stream, &mut c, b"123456");
    let mut c = run_with(c);
    assert_eq!(read(&mut stream, &mut c, 10).0, Poll::Ready(Ok(6)));
    // It would have to start over at the front, and filler takes the one place.
    write(&mut stream, &mut c, b"12345");
    let mut c = run_with(c);
    assert!(c.inner.udp.can_recv());
    assert_eq!(
        read(&mut stream, &mut c, 2),
        (Poll::Ready(Err(IoError::Other(SocketError::Exhausted))), vec![0xffu8; 2])
    );
    assert_eq!(read(&mut stream, &mut c, 2).0, Poll::Ready(Ok(0)));
}
