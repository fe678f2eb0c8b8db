use smoltcp::socket::{UdpPacketMetadata, UdpSocket, UdpSocketBuffer};

use ustunet::dispatch::queue_request;
use ustunet::{
    AddrPair, Close, HalfClose, IoError, Poll, PollAt, QueueRequest, QueueUpdate, SocketAddr,
    SocketAddrV4, SocketError, TcpListener, TcpReadHalf, TcpState, TcpWriteHalf, TunError,
    UdpInner, UdpReadHalf, UdpWriteHalf, WriteStep,
};

fn addr() -> AddrPair {
    AddrPair {
        peer: SocketAddr::V4(SocketAddrV4 { ip: [10, 0, 0, 2], port: 5 }),
        local: SocketAddr::V4(SocketAddrV4 { ip: [10, 0, 0, 1], port: 6 }),
    }
}

fn reader() -> TcpReadHalf {
    TcpReadHalf::new(HalfClose { handle: addr(), close: Close::Read }).0
}

fn writer() -> TcpWriteHalf {
    TcpWriteHalf::new(addr(), HalfClose { handle: addr(), close: Close::Write }).0
}

#[test]
fn reader_waits_before_the_handshake_is_finished() {
    let mut half = reader();
    assert_eq!(half.answer(None, false, TcpState::SynReceived), Poll::Pending);
    assert_eq!(half.answer(None, false, TcpState::Closed), Poll::Ready(Ok(0)));
}

#[test]
fn reader_passes_on_what_receiving_gave() {
    let mut half = reader();
    assert_eq!(half.answer(Some(Ok(3)), false, TcpState::CloseWait), Poll::Ready(Ok(3)));
    assert_eq!(
        half.answer(Some(Err(SocketError::Illegal)), true, TcpState::Established),
        Poll::Ready(Err(IoError::Other(SocketError::Illegal)))
    );
    assert_eq!(half.answer(Some(Ok(0)), true, TcpState::Established), Poll::Pending);
    assert_eq!(half.answer(None, false, TcpState::Closed), Poll::Ready(Ok(0)));
}

#[test]
fn reader_reports_the_end_once_in_every_closed_state() {
    for state in [
        TcpState::Closed,
        TcpState::Listen,
        TcpState::SynSent,
        TcpState::CloseWait,
        TcpState::Closing,
        TcpState::LastAck,
        TcpState::TimeWait,
    ] {
        let mut half = reader();
        assert_eq!(half.answer(None, false, state), Poll::Ready(Ok(0)));
            assert_eq!(half.answer(None, false, state), Poll::Ready(Err(IoError::ConnectionAborted)));
    }
}

#[test]
fn writer_answers_by_what_sending_gave() {
    let half = writer();
    let request = Some(QueueRequest { handle: addr() });
    assert_eq!(
        half.answer(Some(Ok(2)), true, false),
        WriteStep { poll: Poll::Ready(Ok(2)), request }
    );
    assert_eq!(half.answer(Some(Ok(0)), true, true), WriteStep { poll: Poll::Pending, request: None });
    assert_eq!(
        half.answer(None, false, false),
        WriteStep { poll: Poll::Ready(Err(IoError::ConnectionAborted)), request }
    );
    assert_eq!(
        half.answer(Some(Err(SocketError::Illegal)), false, false),
        WriteStep { poll: Poll::Ready(Err(IoError::Other(SocketError::Illegal))), request: None }
    );
}

#[test]
fn udp_halves_answer_by_what_the_socket_gave() {
    let (reader, _) = UdpReadHalf::new(HalfClose { handle: addr(), close: Close::Read });
    assert_eq!(reader.answer(None), Poll::Ready(Ok(0)));
    assert_eq!(reader.answer(Some(Ok(7))), Poll::Ready(Ok(7)));
    assert_eq!(
        reader.answer(Some(Err(SocketError::Exhausted))),
        Poll::Ready(Err(IoError::Other(SocketError::Exhausted)))
    );
    let (mut writer, _) = UdpWriteHalf::new(addr(), HalfClose { handle: addr(), close: Close::Write });
    let request = Some(QueueRequest { handle: addr() });
    assert_eq!(
        writer.answer(Some(Ok(())), false),
        WriteStep { poll: Poll::Ready(Ok(1)), request }
    );
    assert_eq!(writer.answer(None, false), WriteStep { poll: Poll::Pending, request });
    assert_eq!(
        writer.answer(Some(Err(SocketError::Truncated)), false),
        WriteStep { poll: Poll::Ready(Err(IoError::Other(SocketError::Truncated))), request: None }
    );
    let buffer = || UdpSocketBuffer::new(vec![UdpPacketMetadata::EMPTY], vec![0u8; 8]);
    let inner = UdpInner { udp: UdpSocket::new(buffer(), buffer()), polling_active: true };
    assert_eq!(writer.close(&inner), None);
    assert_eq!(
        writer.answer(None, false),
        WriteStep { poll: Poll::Ready(Err(IoError::ConnectionAborted)), request }
    );
}

#[test]
fn queue_request_depends_on_polling() {
    assert_eq!(queue_request(addr(), true), None);
    assert_eq!(queue_request(addr(), false), Some(QueueRequest { handle: addr() }));
}

#[test]
fn queue_message_carries_the_socket_and_when_it_is_due() {
    let request = queue_request(addr(), false).unwrap();
    for poll_at in [PollAt::Now, PollAt::Time(1200), PollAt::Ingress] {
        assert_eq!(request.due(poll_at), QueueUpdate { handle: addr(), poll_at });
    }
}

#[test]
fn socket_errors_have_their_texts() {
    let texts = [
        (SocketError::Exhausted, "buffer space exhausted"),
        (SocketError::Illegal, "illegal operation"),
        (SocketError::Unaddressable, "unaddressable destination"),
        (SocketError::Finished, "operation finished"),
        (SocketError::Truncated, "truncated packet"),
        (SocketError::Checksum, "checksum error"),
        (SocketError::Unrecognized, "unrecognized packet"),
        (SocketError::Fragmented, "fragmented packet"),
        (SocketError::Malformed, "malformed packet"),
        (SocketError::Dropped, "dropped by socket"),
    ];
    for (error, text) in texts {
        assert_eq!(error.to_text(), text);
    }
}

#[test]
fn bind_reports_the_mtu_or_the_reason() {
    assert_eq!(TcpListener::bind("tuna", Ok(Ok(1500))).unwrap().max_transmission_unit, 1500);
    assert_eq!(TcpListener::bind("tuna", Ok(Ok(-1))).unwrap().max_transmission_unit, usize::MAX);
    for device in [Err("no such device".to_string()), Ok(Err("no such device".to_string()))] {
        let error = TcpListener::bind("tuna", device).unwrap_err();
        assert_eq!(error.message(), "Unable to open tun device tuna: no such device");
        let TunError::Tun { source, name } = error;
        assert_eq!(source, "no such device");
        assert_eq!(name, "tuna");
    }
}
