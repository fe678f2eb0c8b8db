//! What a call of a stream does, told by what went into it and what came out,
//! and how calls that follow one another are related.
use smoltcp::socket::{TcpSocket, UdpSocket};
use std::task::Waker;
use vstd::prelude::*;

use crate::address::{AddrPair, SocketAddr};
use crate::dispatch;
use crate::dispatch::{Close, HalfClose, PollAt, QueueRequest, QueueUpdate, SocketHandle};
use crate::listener::{TcpListener, TunError};
use crate::poll::{IoError, Poll, SharedState};
use crate::socket::tcp;
use crate::socket::udp;
use crate::socket::{IpAddress, SocketError, TcpState};
use crate::stream::{
    TcpConnection, TcpInner, TcpReadHalf, TcpStream, TcpWriteHalf, UdpConnection, UdpInner,
    UdpReadHalf, UdpStream, UdpWriteHalf, WriteStep,
};
use crate::wake::Woken;

verus! {

/// A TCP read waits, with its task left to be woken, wherever nothing has come
/// and the peer may still send: in every such state, with any room and whether
/// or not an end has been reported.
pub proof fn law_tcp_read_waits_for_the_peer(
    half: &mut TcpReadHalf,
    inner: &mut TcpInner,
    slot: &mut SharedState,
    waker: Waker,
    buf: &mut [u8],
    poll: Poll<Result<usize, IoError>>,
)
    requires
        call_ensures(TcpReadHalf::poll_read_inner, (half, inner, slot, waker, buf), poll),
        tcp::tcp_received(old(inner).tcp).len() == 0,
        tcp::tcp_state(old(inner).tcp) == TcpState::Established || tcp::tcp_state(old(inner).tcp)
            == TcpState::FinWait1 || tcp::tcp_state(old(inner).tcp) == TcpState::FinWait2
            || tcp::tcp_state(old(inner).tcp) == TcpState::SynReceived,
    ensures
        poll is Pending,
        final(slot).waker == Some(waker),
        final(half).eof_reached() == old(half).eof_reached(),
        final(buf)@ == old(buf)@,
{
}

/// A TCP read with room takes as many octets as wait and have room, the oldest
/// first: they are the front of the buffer, the rest of the buffer stays, and
/// those that it did not take still wait.
pub proof fn law_tcp_read_takes_the_oldest(
    half: &mut TcpReadHalf,
    inner: &mut TcpInner,
    slot: &mut SharedState,
    waker: Waker,
    buf: &mut [u8],
    poll: Poll<Result<usize, IoError>>,
)
    requires
        call_ensures(TcpReadHalf::poll_read_inner, (half, inner, slot, waker, buf), poll),
        tcp::tcp_received(old(inner).tcp).len() > 0,
        old(buf)@.len() > 0,
    ensures
        poll matches Poll::Ready(Ok(n)) && {
            &&& 0 < n <= old(buf)@.len()
            &&& n < old(buf)@.len() ==> tcp::tcp_received(final(inner).tcp).len() == 0
            &&& final(buf)@.take(n as int) + tcp::tcp_received(final(inner).tcp)
                == tcp::tcp_received(old(inner).tcp)
            &&& forall|i: int| n <= i < old(buf)@.len() ==> final(buf)@[i] == old(buf)@[i]
        },
        final(buf)@.len() == old(buf)@.len(),
        final(slot).waker == old(slot).waker,
        final(half).eof_reached() == old(half).eof_reached(),
{
    if let Poll::Ready(Ok(n)) = poll {
        let waiting = tcp::tcp_received(old(inner).tcp);
        let front = final(buf)@.take(n as int);
        assert(waiting.len() == front.len() + tcp::tcp_received(final(inner).tcp).len());
        assert forall|i: int| n <= i < old(buf)@.len() implies final(buf)@[i] == old(buf)@[i] by {
            assert(final(buf)@.skip(n as int)[i - n] == old(buf)@.skip(n as int)[i - n]);
        }
    }
}

/// Two TCP reads of an otherwise quiet socket hand out what waits without gap
/// or repetition.
pub proof fn law_tcp_reads_continue(
    half: &mut TcpReadHalf,
    inner: &mut TcpInner,
    slot: &mut SharedState,
    waker: Waker,
    buf: &mut [u8],
    n: usize,
    next_half: &mut TcpReadHalf,
    next_inner: &mut TcpInner,
    next_slot: &mut SharedState,
    next_waker: Waker,
    next_buf: &mut [u8],
    m: usize,
)
    requires
        call_ensures(
            TcpReadHalf::poll_read_inner,
            (half, inner, slot, waker, buf),
            Poll::Ready(Ok(n)),
        ),
        call_ensures(
            TcpReadHalf::poll_read_inner,
            (next_half, next_inner, next_slot, next_waker, next_buf),
            Poll::Ready(Ok(m)),
        ),
        *old(next_inner) == *final(inner),
    ensures
        tcp::tcp_received(old(inner).tcp) == final(buf)@.take(n as int) + final(next_buf)@.take(
            m as int,
        ) + tcp::tcp_received(final(next_inner).tcp),
{
}

/// At the end of what the peer sent a TCP read answers zero where no read has
/// yet, and that the connection is gone where one has. Nothing else gives
/// either answer.
pub proof fn law_tcp_read_reports_the_end(
    half: &mut TcpReadHalf,
    inner: &mut TcpInner,
    slot: &mut SharedState,
    waker: Waker,
    buf: &mut [u8],
    poll: Poll<Result<usize, IoError>>,
)
    requires
        call_ensures(TcpReadHalf::poll_read_inner, (half, inner, slot, waker, buf), poll),
    ensures
        ({
            let state = tcp::tcp_state(old(inner).tcp);
            let end = tcp::tcp_received(old(inner).tcp).len() == 0 && (state == TcpState::Closed
                || state == TcpState::Listen || state == TcpState::SynSent || state
                == TcpState::CloseWait || state == TcpState::Closing || state == TcpState::LastAck
                || state == TcpState::TimeWait);
            &&& (poll matches Poll::Ready(Ok(n)) && n == 0) <==> end && !old(half).eof_reached()
            &&& (poll matches Poll::Ready(Err(_))) <==> end && old(half).eof_reached()
        }),
        poll matches Poll::Ready(Err(e)) ==> e == IoError::ConnectionAborted,
        final(half).eof_reached() <==> old(half).eof_reached() || (
        poll matches Poll::Ready(Ok(n)) && n == 0),
{
}

/// A reader that has answered zero answers, the next time it finds the end, that
/// the connection is gone, whatever has happened to the socket meanwhile.
pub proof fn law_tcp_reader_answers_zero_once(
    half: &mut TcpReadHalf,
    inner: &mut TcpInner,
    slot: &mut SharedState,
    waker: Waker,
    buf: &mut [u8],
    next_half: &mut TcpReadHalf,
    next_inner: &mut TcpInner,
    next_slot: &mut SharedState,
    next_waker: Waker,
    next_buf: &mut [u8],
    next: Poll<Result<usize, IoError>>,
)
    requires
        call_ensures(
            TcpReadHalf::poll_read_inner,
            (half, inner, slot, waker, buf),
            Poll::Ready(Ok(0)),
        ),
        call_ensures(
            TcpReadHalf::poll_read_inner,
            (next_half, next_inner, next_slot, next_waker, next_buf),
            next,
        ),
        *old(next_half) == *final(half),
    ensures
        next != Poll::Ready(Ok::<usize, IoError>(0)),
        *old(next_inner) == *final(inner) ==> next == Poll::Ready(
            Err::<usize, IoError>(IoError::ConnectionAborted),
        ),
        final(next_half).eof_reached(),
{
    let zero: Poll<Result<usize, IoError>> = Poll::Ready(Ok(0));
    law_tcp_read_reports_the_end(half, inner, slot, waker, buf, zero);
    law_tcp_read_reports_the_end(next_half, next_inner, next_slot, next_waker, next_buf, next);
}

/// A TCP read changes nothing that the writer or the peer sees.
pub proof fn law_tcp_read_leaves_the_rest(
    half: &mut TcpReadHalf,
    inner: &mut TcpInner,
    slot: &mut SharedState,
    waker: Waker,
    buf: &mut [u8],
    poll: Poll<Result<usize, IoError>>,
)
    requires
        call_ensures(TcpReadHalf::poll_read_inner, (half, inner, slot, waker, buf), poll),
    ensures
        tcp::tcp_state(final(inner).tcp) == tcp::tcp_state(old(inner).tcp),
        tcp::tcp_outgoing(final(inner).tcp) == tcp::tcp_outgoing(old(inner).tcp),
        tcp::tcp_send_capacity(final(inner).tcp) == tcp::tcp_send_capacity(old(inner).tcp),
        tcp::tcp_fin_received(final(inner).tcp) == tcp::tcp_fin_received(old(inner).tcp),
        final(inner).polling_active == old(inner).polling_active,
        final(half).notice() == old(half).notice(),
        !(poll is Pending) ==> final(slot).waker == old(slot).waker,
        !(poll matches Poll::Ready(Ok(_))) ==> final(buf)@ == old(buf)@
            && tcp::tcp_received(final(inner).tcp) == tcp::tcp_received(old(inner).tcp),
{
}

/// What a TCP reader decides where receiving gave something: it passes it on.
/// Where it gave nothing the reader waits while more may come.
pub proof fn law_tcp_reader_decides(
    half: &mut TcpReadHalf,
    received: Option<Result<usize, SocketError>>,
    may_recv: bool,
    state: TcpState,
    poll: Poll<Result<usize, IoError>>,
)
    requires
        call_ensures(TcpReadHalf::answer, (half, received, may_recv, state), poll),
    ensures
        forall|n: usize|
            n > 0 && received == Some(Ok::<usize, SocketError>(n)) ==> poll == Poll::Ready(
                Ok::<usize, IoError>(n),
            ),
        forall|e: SocketError|
            received == Some(Err::<usize, SocketError>(e)) ==> poll == Poll::Ready(
                Err::<usize, IoError>(IoError::Other(e)),
            ),
        received is None || received == Some(Ok::<usize, SocketError>(0)) ==> {
            &&& poll is Pending <==> may_recv || state == TcpState::SynReceived
            &&& poll is Ready ==> poll == (if old(half).eof_reached() {
                Poll::Ready(Err::<usize, IoError>(IoError::ConnectionAborted))
            } else {
                Poll::Ready(Ok::<usize, IoError>(0))
            })
        },
        final(half).eof_reached() <==> old(half).eof_reached() || poll == Poll::Ready(
            Ok::<usize, IoError>(0),
        ),
        final(half).notice() == old(half).notice(),
{
}

/// The count that a TCP write answers is the count of octets that the socket
/// took: what it holds has grown by exactly that front of the offer. It took
/// all, or it is full.
pub proof fn law_tcp_write_counts_what_is_taken(
    half: &TcpWriteHalf,
    inner: &mut TcpInner,
    slot: &mut SharedState,
    waker: Waker,
    buf: &[u8],
    step: WriteStep,
)
    requires
        call_ensures(TcpWriteHalf::poll_write_inner, (half, inner, slot, waker, buf), step),
    ensures
        ({
            let grown = tcp::tcp_outgoing(final(inner).tcp).len() - tcp::tcp_outgoing(
                old(inner).tcp,
            ).len();
            &&& tcp::tcp_outgoing(final(inner).tcp) == tcp::tcp_outgoing(old(inner).tcp)
                + buf@.take(grown)
            &&& 0 <= grown <= buf@.len()
            &&& (step.poll matches Poll::Ready(Ok(n))) <==> grown > 0
            &&& step.poll matches Poll::Ready(Ok(n)) ==> {
                &&& n == grown
                &&& n < buf@.len() ==> tcp::tcp_outgoing(final(inner).tcp).len()
                    == tcp::tcp_send_capacity(old(inner).tcp)
                &&& tcp::tcp_outgoing(final(inner).tcp).len() <= tcp::tcp_send_capacity(
                    old(inner).tcp,
                )
            }
        }),
{
    assert(buf@.take(0) =~= Seq::<u8>::empty());
    assert(tcp::tcp_outgoing(old(inner).tcp) + Seq::<u8>::empty() =~= tcp::tcp_outgoing(
        old(inner).tcp,
    ));
}

/// A TCP write succeeds wherever the sending side is open, something is offered
/// and there is room for an octet; without room, or with nothing offered, it
/// waits; where the side is not open it answers that the connection is gone.
pub proof fn law_tcp_write_answers(
    half: &TcpWriteHalf,
    inner: &mut TcpInner,
    slot: &mut SharedState,
    waker: Waker,
    buf: &[u8],
    step: WriteStep,
)
    requires
        call_ensures(TcpWriteHalf::poll_write_inner, (half, inner, slot, waker, buf), step),
    ensures
        ({
            let open = tcp::tcp_state(old(inner).tcp) == TcpState::Established || tcp::tcp_state(
                old(inner).tcp,
            ) == TcpState::CloseWait;
            let room = tcp::tcp_outgoing(old(inner).tcp).len() < tcp::tcp_send_capacity(
                old(inner).tcp,
            );
            &&& (step.poll matches Poll::Ready(Ok(_))) <==> open && room && buf@.len() > 0
            &&& step.poll is Pending <==> open && (!room || buf@.len() == 0)
            &&& (step.poll matches Poll::Ready(Err(_))) <==> !open
        }),
        step.poll matches Poll::Ready(Err(e)) ==> e == IoError::ConnectionAborted,
        step.poll is Pending ==> final(slot).waker == Some(waker),
        step.poll is Ready ==> final(slot).waker == old(slot).waker,
{
    if let Poll::Ready(Ok(n)) = step.poll {
        assert(tcp::tcp_outgoing(final(inner).tcp).len() == tcp::tcp_outgoing(old(inner).tcp).len()
            + n);
    }
}

/// Two TCP writes put what they count one behind the other.
pub proof fn law_tcp_writes_continue(
    half: &TcpWriteHalf,
    inner: &mut TcpInner,
    slot: &mut SharedState,
    waker: Waker,
    buf: &[u8],
    step: WriteStep,
    next_half: &TcpWriteHalf,
    next_inner: &mut TcpInner,
    next_slot: &mut SharedState,
    next_waker: Waker,
    next_buf: &[u8],
    next: WriteStep,
)
    requires
        call_ensures(TcpWriteHalf::poll_write_inner, (half, inner, slot, waker, buf), step),
        call_ensures(
            TcpWriteHalf::poll_write_inner,
            (next_half, next_inner, next_slot, next_waker, next_buf),
            next,
        ),
        *old(next_inner) == *final(inner),
    ensures
        step.poll matches Poll::Ready(Ok(n)) ==> next.poll matches Poll::Ready(Ok(m))
            ==> tcp::tcp_outgoing(final(next_inner).tcp) == tcp::tcp_outgoing(old(inner).tcp)
            + buf@.take(n as int) + next_buf@.take(m as int),
{
}

/// A TCP write changes nothing that the reader sees, nor the state of the
/// connection.
pub proof fn law_tcp_write_leaves_the_rest(
    half: &TcpWriteHalf,
    inner: &mut TcpInner,
    slot: &mut SharedState,
    waker: Waker,
    buf: &[u8],
    step: WriteStep,
)
    requires
        call_ensures(TcpWriteHalf::poll_write_inner, (half, inner, slot, waker, buf), step),
    ensures
        tcp::tcp_state(final(inner).tcp) == tcp::tcp_state(old(inner).tcp),
        tcp::tcp_received(final(inner).tcp) == tcp::tcp_received(old(inner).tcp),
        tcp::tcp_send_capacity(final(inner).tcp) == tcp::tcp_send_capacity(old(inner).tcp),
        tcp::tcp_fin_received(final(inner).tcp) == tcp::tcp_fin_received(old(inner).tcp),
        final(inner).polling_active == old(inner).polling_active,
{
}

/// What a TCP writer decides: it passes on what sending gave; where that is
/// nothing it waits while the sending side is open. The queue is told unless
/// sending failed or the socket is in it.
pub proof fn law_tcp_writer_decides(
    half: &TcpWriteHalf,
    sent: Option<Result<usize, SocketError>>,
    may_send: bool,
    polling_active: bool,
    step: WriteStep,
)
    requires
        call_ensures(TcpWriteHalf::answer, (half, sent, may_send, polling_active), step),
    ensures
        forall|n: usize|
            n > 0 && sent == Some(Ok::<usize, SocketError>(n)) ==> step.poll == Poll::Ready(
                Ok::<usize, IoError>(n),
            ),
        forall|e: SocketError|
            sent == Some(Err::<usize, SocketError>(e)) ==> step.poll == Poll::Ready(
                Err::<usize, IoError>(IoError::Other(e)),
            ) && step.request is None,
        sent is None || sent == Some(Ok::<usize, SocketError>(0)) ==> {
            &&& step.poll is Pending <==> may_send
            &&& step.poll is Ready ==> step.poll == Poll::Ready(
                Err::<usize, IoError>(IoError::ConnectionAborted),
            )
        },
        !(sent matches Some(Err(_))) ==> (step.request is Some <==> !polling_active),
        step.request matches Some(request) ==> request.handle == half.name(),
{
}

/// A TCP write, whatever it answers, asks that its socket be put into the queue
/// exactly where it is not in it.
pub proof fn law_tcp_write_tells_the_queue(
    half: &TcpWriteHalf,
    inner: &mut TcpInner,
    slot: &mut SharedState,
    waker: Waker,
    buf: &[u8],
    step: WriteStep,
)
    requires
        call_ensures(TcpWriteHalf::poll_write_inner, (half, inner, slot, waker, buf), step),
    ensures
        old(inner).polling_active ==> step.request is None,
        !old(inner).polling_active ==> (step.request matches Some(request) && request.handle
            == half.name()),
{
}

/// Closing a TCP writer asks that its socket be put into the queue exactly where
/// it is not in it, whatever the addresses. Afterwards the sending side is not
/// open; what was received and what waits to be sent stays.
pub proof fn law_tcp_close_tells_the_queue(
    half: &mut TcpWriteHalf,
    inner: &mut TcpInner,
    request: Option<QueueRequest>,
)
    requires
        call_ensures(TcpWriteHalf::close, (half, inner), request),
    ensures
        old(inner).polling_active ==> request is None,
        !old(inner).polling_active ==> (request matches Some(made) && made.handle
            == old(half).name()),
        tcp::tcp_state(final(inner).tcp) != TcpState::Established,
        tcp::tcp_state(final(inner).tcp) != TcpState::CloseWait,
        tcp::tcp_received(final(inner).tcp) == tcp::tcp_received(old(inner).tcp),
        tcp::tcp_outgoing(final(inner).tcp) == tcp::tcp_outgoing(old(inner).tcp),
        final(inner).polling_active == old(inner).polling_active,
        *final(half) == *old(half),
{
}

/// Polling a TCP writer to close does what closing it does.
pub proof fn law_tcp_poll_close_tells_the_queue(
    half: &TcpWriteHalf,
    inner: &mut TcpInner,
    request: Option<QueueRequest>,
)
    requires
        call_ensures(TcpWriteHalf::poll_close_inner, (half, inner), request),
    ensures
        old(inner).polling_active ==> request is None,
        !old(inner).polling_active ==> (request matches Some(made) && made.handle == half.name()),
        tcp::tcp_state(final(inner).tcp) != TcpState::Established,
        tcp::tcp_state(final(inner).tcp) != TcpState::CloseWait,
        tcp::tcp_received(final(inner).tcp) == tcp::tcp_received(old(inner).tcp),
        tcp::tcp_outgoing(final(inner).tcp) == tcp::tcp_outgoing(old(inner).tcp),
        final(inner).polling_active == old(inner).polling_active,
{
}

/// Closing a TCP connection that can still send leaves it in the state in which
/// the peer is told; one that has nobody to tell is closed; in every other
/// state closing does nothing.
pub proof fn law_tcp_close_moves_the_state(
    stream: &mut TcpStream,
    inner: &mut TcpInner,
    request: Option<QueueRequest>,
)
    requires
        call_ensures(TcpStream::close, (stream, inner), request),
    ensures
        ({
            let before = tcp::tcp_state(old(inner).tcp);
            let after = tcp::tcp_state(final(inner).tcp);
            &&& before == TcpState::Established || before == TcpState::SynReceived ==> after
                == TcpState::FinWait1
            &&& before == TcpState::CloseWait ==> after == TcpState::LastAck
            &&& before == TcpState::Listen || before == TcpState::SynSent ==> after
                == TcpState::Closed
            &&& before == TcpState::Closed || before == TcpState::FinWait1 || before
                == TcpState::FinWait2 || before == TcpState::Closing || before == TcpState::LastAck
                || before == TcpState::TimeWait ==> after == before
        }),
        old(inner).polling_active ==> request is None,
        !old(inner).polling_active ==> (request matches Some(made) && made.handle == old(
            stream,
        ).writer.name()),
        tcp::tcp_received(final(inner).tcp) == tcp::tcp_received(old(inner).tcp),
        tcp::tcp_outgoing(final(inner).tcp) == tcp::tcp_outgoing(old(inner).tcp),
        tcp::tcp_send_capacity(final(inner).tcp) == tcp::tcp_send_capacity(old(inner).tcp),
        *final(stream) == *old(stream),
{
}

/// After a TCP stream is closed a write answers that the connection is gone, and
/// nothing is taken.
pub proof fn law_tcp_write_after_close(
    stream: &mut TcpStream,
    inner: &mut TcpInner,
    request: Option<QueueRequest>,
    half: &TcpWriteHalf,
    next_inner: &mut TcpInner,
    slot: &mut SharedState,
    waker: Waker,
    buf: &[u8],
    step: WriteStep,
)
    requires
        call_ensures(TcpStream::close, (stream, inner), request),
        call_ensures(TcpWriteHalf::poll_write_inner, (half, next_inner, slot, waker, buf), step),
        *old(next_inner) == *final(inner),
    ensures
        step.poll == Poll::Ready(Err::<usize, IoError>(IoError::ConnectionAborted)),
        tcp::tcp_outgoing(final(next_inner).tcp) == tcp::tcp_outgoing(old(inner).tcp),
{
}

/// After a TCP stream is closed a read still hands out what waits, and where
/// nothing does but the peer may still send, it waits.
pub proof fn law_tcp_read_after_close(
    stream: &mut TcpStream,
    inner: &mut TcpInner,
    request: Option<QueueRequest>,
    half: &mut TcpReadHalf,
    next_inner: &mut TcpInner,
    slot: &mut SharedState,
    waker: Waker,
    buf: &mut [u8],
    poll: Poll<Result<usize, IoError>>,
)
    requires
        call_ensures(TcpStream::close, (stream, inner), request),
        call_ensures(TcpReadHalf::poll_read_inner, (half, next_inner, slot, waker, buf), poll),
        *old(next_inner) == *final(inner),
        old(buf)@.len() > 0,
    ensures
        ({
            let waiting = tcp::tcp_received(old(inner).tcp);
            &&& waiting.len() > 0 ==> (poll matches Poll::Ready(Ok(n)) && n > 0
                && final(buf)@.take(n as int) == waiting.take(n as int))
            &&& waiting.len() == 0 && tcp::tcp_state(old(inner).tcp) == TcpState::Established
                ==> poll is Pending
        }),
{
    if tcp::tcp_received(old(inner).tcp).len() > 0 {
        law_tcp_read_takes_the_oldest(half, next_inner, slot, waker, buf, poll);
        if let Poll::Ready(Ok(n)) = poll {
            let front = final(buf)@.take(n as int);
            assert((front + tcp::tcp_received(final(next_inner).tcp)).take(n as int) =~= front);
        }
    }
}

/// A UDP read takes the oldest datagram and answers how many octets of it the
/// buffer got: all, or as many as there was room for. The rest of the buffer
/// stays, and the other datagrams still wait.
pub proof fn law_udp_read_counts_the_datagram(
    half: &mut UdpReadHalf,
    inner: &mut UdpInner,
    buf: &mut [u8],
    poll: Poll<Result<usize, IoError>>,
    datagram: Seq<u8>,
    others: Seq<Seq<u8>>,
)
    requires
        call_ensures(UdpReadHalf::poll_read_inner, (half, inner, buf), poll),
        udp::udp_received(old(inner).udp) == seq![datagram] + others,
    ensures
        poll matches Poll::Ready(Ok(n)) && {
            &&& n <= datagram.len() && n <= old(buf)@.len()
            &&& n < datagram.len() ==> n == old(buf)@.len()
            &&& datagram.len() <= old(buf)@.len() ==> n == datagram.len()
            &&& forall|i: int| 0 <= i < n ==> final(buf)@[i] == datagram[i]
            &&& forall|i: int| n <= i < old(buf)@.len() ==> final(buf)@[i] == old(buf)@[i]
        },
        final(buf)@.len() == old(buf)@.len(),
        udp::udp_received(final(inner).udp) == others,
{
    let waiting = udp::udp_received(old(inner).udp);
    assert(waiting[0] == datagram);
    assert(waiting.skip(1) =~= others);
    assert((seq![datagram] + udp::udp_received(final(inner).udp)).skip(1) =~= udp::udp_received(
        final(inner).udp,
    ));
    if let Poll::Ready(Ok(n)) = poll {
        assert forall|i: int| 0 <= i < n implies final(buf)@[i] == datagram[i] by {
            assert(final(buf)@.take(n as int)[i] == datagram.take(n as int)[i]);
        }
        assert forall|i: int| n <= i < old(buf)@.len() implies final(buf)@[i] == old(buf)@[i] by {
            assert(final(buf)@.skip(n as int)[i - n] == old(buf)@.skip(n as int)[i - n]);
        }
    }
}

/// A UDP read that finds no datagram leaves the buffer. It answers zero, or,
/// where the receiving side holds filler, that it is exhausted; after that it
/// holds nothing.
pub proof fn law_udp_read_without_a_datagram(
    half: &mut UdpReadHalf,
    inner: &mut UdpInner,
    buf: &mut [u8],
    poll: Poll<Result<usize, IoError>>,
)
    requires
        call_ensures(UdpReadHalf::poll_read_inner, (half, inner, buf), poll),
        udp::udp_received(old(inner).udp).len() == 0,
    ensures
        udp::udp_readable(old(inner).udp) ==> poll == Poll::Ready(
            Err::<usize, IoError>(IoError::Other(SocketError::Exhausted)),
        ),
        !udp::udp_readable(old(inner).udp) ==> poll == Poll::Ready(Ok::<usize, IoError>(0)),
        !udp::udp_readable(final(inner).udp),
        udp::udp_received(final(inner).udp).len() == 0,
        final(buf)@ == old(buf)@,
{
}

/// A UDP read changes nothing that the writer sees.
pub proof fn law_udp_read_leaves_the_rest(
    half: &mut UdpReadHalf,
    inner: &mut UdpInner,
    buf: &mut [u8],
    poll: Poll<Result<usize, IoError>>,
)
    requires
        call_ensures(UdpReadHalf::poll_read_inner, (half, inner, buf), poll),
    ensures
        udp::udp_outgoing(final(inner).udp) == udp::udp_outgoing(old(inner).udp),
        udp::udp_writable(final(inner).udp) == udp::udp_writable(old(inner).udp),
        udp::udp_endpoint(final(inner).udp) == udp::udp_endpoint(old(inner).udp),
        udp::udp_send_capacity(final(inner).udp) == udp::udp_send_capacity(old(inner).udp),
        forall|size: nat|
            udp::udp_has_room(final(inner).udp, size) == udp::udp_has_room(old(inner).udp, size),
        final(inner).polling_active == old(inner).polling_active,
        *final(half) == *old(half),
{
}

/// Two UDP reads take two datagrams, one each, however long they are.
pub proof fn law_udp_reads_continue(
    half: &mut UdpReadHalf,
    inner: &mut UdpInner,
    buf: &mut [u8],
    poll: Poll<Result<usize, IoError>>,
    next_half: &mut UdpReadHalf,
    next_inner: &mut UdpInner,
    next_buf: &mut [u8],
    next: Poll<Result<usize, IoError>>,
    first: Seq<u8>,
    second: Seq<u8>,
    others: Seq<Seq<u8>>,
)
    requires
        call_ensures(UdpReadHalf::poll_read_inner, (half, inner, buf), poll),
        call_ensures(UdpReadHalf::poll_read_inner, (next_half, next_inner, next_buf), next),
        *old(next_inner) == *final(inner),
        udp::udp_received(old(inner).udp) == seq![first, second] + others,
        first.len() <= old(buf)@.len(),
        second.len() <= old(next_buf)@.len(),
    ensures
        poll matches Poll::Ready(Ok(n)) && n == first.len() && final(buf)@.take(n as int) == first,
        next matches Poll::Ready(Ok(m)) && m == second.len() && final(next_buf)@.take(m as int)
            == second,
        udp::udp_received(final(next_inner).udp) == others,
{
    assert(seq![first, second] + others =~= seq![first] + (seq![second] + others));
    law_udp_read_counts_the_datagram(half, inner, buf, poll, first, seq![second] + others);
    law_udp_read_counts_the_datagram(next_half, next_inner, next_buf, next, second, others);
    assert(final(buf)@.take(first.len() as int) =~= first);
    assert(final(next_buf)@.take(second.len() as int) =~= second);
}

/// What a UDP reader decides: it passes on what receiving gave, and answers zero
/// where it was not tried.
pub proof fn law_udp_reader_decides(
    half: &UdpReadHalf,
    received: Option<Result<usize, SocketError>>,
    poll: Poll<Result<usize, IoError>>,
)
    requires
        call_ensures(UdpReadHalf::answer, (half, received), poll),
    ensures
        forall|n: usize|
            received == Some(Ok::<usize, SocketError>(n)) ==> poll == Poll::Ready(
                Ok::<usize, IoError>(n),
            ),
        forall|e: SocketError|
            received == Some(Err::<usize, SocketError>(e)) ==> poll == Poll::Ready(
                Err::<usize, IoError>(IoError::Other(e)),
            ),
        received is None ==> poll == Poll::Ready(Ok::<usize, IoError>(0)),
{
}

/// A UDP write through an open half is taken wherever the socket has a place
/// and room for the datagram, however long it is, and is bound to an address
/// and port that can be written to: the datagram is the last of those that the
/// socket holds, addressed to where it is bound.
pub proof fn law_udp_write_is_taken(
    half: &UdpWriteHalf,
    inner: &mut UdpInner,
    slot: &mut SharedState,
    waker: Waker,
    buf: &[u8],
    step: WriteStep,
)
    requires
        call_ensures(UdpWriteHalf::poll_write_inner, (half, inner, slot, waker, buf), step),
        !half.is_closed(),
        udp::udp_writable(old(inner).udp),
        buf@.len() <= udp::udp_send_capacity(old(inner).udp),
        udp::udp_has_room(old(inner).udp, buf@.len()),
        udp::udp_endpoint(old(inner).udp).port != 0,
        match udp::udp_endpoint(old(inner).udp).addr {
            IpAddress::Unspecified => false,
            IpAddress::Ipv4(octets) => octets@[0] != 0,
            IpAddress::Ipv6(octets) => exists|i: int| 0 <= i < 16 && octets@[i] != 0,
        },
    ensures
        step.poll == Poll::Ready(Ok::<usize, IoError>(1)),
        udp::udp_outgoing(final(inner).udp) == udp::udp_outgoing(old(inner).udp) + seq![
            (buf@, udp::udp_endpoint(old(inner).udp)),
        ],
        final(slot).waker == old(slot).waker,
{
    assert(udp::udp_outgoing(old(inner).udp).push((buf@, udp::udp_endpoint(old(inner).udp)))
        =~= udp::udp_outgoing(old(inner).udp) + seq![(buf@, udp::udp_endpoint(old(inner).udp))]);
}

/// A UDP write waits exactly where the half is open and the socket has no place
/// for a datagram; its task is then left to be woken, and the socket stays.
pub proof fn law_udp_write_waits_for_a_place(
    half: &UdpWriteHalf,
    inner: &mut UdpInner,
    slot: &mut SharedState,
    waker: Waker,
    buf: &[u8],
    step: WriteStep,
)
    requires
        call_ensures(UdpWriteHalf::poll_write_inner, (half, inner, slot, waker, buf), step),
    ensures
        step.poll is Pending <==> !half.is_closed() && !udp::udp_writable(old(inner).udp),
        step.poll is Pending ==> final(slot).waker == Some(waker) && final(inner).udp
            == old(inner).udp,
        step.poll is Ready ==> final(slot).waker == old(slot).waker,
{
}

/// A UDP write through an open half of a socket with a place for it is refused
/// for one of three reasons, the first that holds: the socket is not bound to
/// an address and port that can be written to, the datagram is larger than all
/// that the socket can hold, or there is no room for it now. What the socket
/// holds then stays.
pub proof fn law_udp_write_is_refused(
    half: &UdpWriteHalf,
    inner: &mut UdpInner,
    slot: &mut SharedState,
    waker: Waker,
    buf: &[u8],
    step: WriteStep,
)
    requires
        call_ensures(UdpWriteHalf::poll_write_inner, (half, inner, slot, waker, buf), step),
        !half.is_closed(),
        udp::udp_writable(old(inner).udp),
    ensures
        ({
            let to = udp::udp_endpoint(old(inner).udp);
            let nowhere = to.port == 0 || to.addr == IpAddress::Unspecified || (
            to.addr matches IpAddress::Ipv4(octets) && octets@[0] == 0) || (
            to.addr matches IpAddress::Ipv6(octets) && forall|i: int|
                0 <= i < 16 ==> octets@[i] == 0);
            let large = buf@.len() > udp::udp_send_capacity(old(inner).udp);
            let full = !udp::udp_has_room(old(inner).udp, buf@.len());
            &&& step.poll == Poll::Ready(
                Err::<usize, IoError>(IoError::Other(SocketError::Unaddressable)),
            ) <==> nowhere
            &&& step.poll == Poll::Ready(
                Err::<usize, IoError>(IoError::Other(SocketError::Truncated)),
            ) <==> !nowhere && large
            &&& step.poll == Poll::Ready(
                Err::<usize, IoError>(IoError::Other(SocketError::Exhausted)),
            ) <==> !nowhere && !large && full
            &&& step.poll == Poll::Ready(Ok::<usize, IoError>(1)) <==> !nowhere && !large && !full
        }),
        !(step.poll matches Poll::Ready(Ok(_))) ==> udp::udp_outgoing(final(inner).udp)
            == udp::udp_outgoing(old(inner).udp),
{
}

/// A UDP write through a closed half answers that the connection is gone, and
/// the socket stays.
pub proof fn law_udp_write_through_a_closed_half(
    half: &UdpWriteHalf,
    inner: &mut UdpInner,
    slot: &mut SharedState,
    waker: Waker,
    buf: &[u8],
    step: WriteStep,
)
    requires
        call_ensures(UdpWriteHalf::poll_write_inner, (half, inner, slot, waker, buf), step),
    ensures
        step.poll == Poll::Ready(Err::<usize, IoError>(IoError::ConnectionAborted))
            <==> half.is_closed(),
        half.is_closed() ==> final(inner).udp == old(inner).udp,
{
}

/// A UDP write changes nothing that the reader sees, nor where the socket is
/// bound.
pub proof fn law_udp_write_leaves_the_rest(
    half: &UdpWriteHalf,
    inner: &mut UdpInner,
    slot: &mut SharedState,
    waker: Waker,
    buf: &[u8],
    step: WriteStep,
)
    requires
        call_ensures(UdpWriteHalf::poll_write_inner, (half, inner, slot, waker, buf), step),
    ensures
        udp::udp_received(final(inner).udp) == udp::udp_received(old(inner).udp),
        udp::udp_readable(final(inner).udp) == udp::udp_readable(old(inner).udp),
        udp::udp_endpoint(final(inner).udp) == udp::udp_endpoint(old(inner).udp),
        udp::udp_send_capacity(final(inner).udp) == udp::udp_send_capacity(old(inner).udp),
        final(inner).polling_active == old(inner).polling_active,
{
}

/// A UDP datagram that was refused as unaddressable or as too large is refused
/// again in the same way when nothing has happened to the socket.
pub proof fn law_udp_refusal_lasts(
    half: &UdpWriteHalf,
    inner: &mut UdpInner,
    slot: &mut SharedState,
    waker: Waker,
    buf: &[u8],
    step: WriteStep,
    next_inner: &mut UdpInner,
    next_slot: &mut SharedState,
    next_waker: Waker,
    next: WriteStep,
)
    requires
        call_ensures(UdpWriteHalf::poll_write_inner, (half, inner, slot, waker, buf), step),
        call_ensures(
            UdpWriteHalf::poll_write_inner,
            (half, next_inner, next_slot, next_waker, buf),
            next,
        ),
        *old(next_inner) == *final(inner),
        step.poll == Poll::Ready(
            Err::<usize, IoError>(IoError::Other(SocketError::Unaddressable)),
        ) || step.poll == Poll::Ready(
            Err::<usize, IoError>(IoError::Other(SocketError::Truncated)),
        ),
    ensures
        next == step,
{
    law_udp_write_through_a_closed_half(half, inner, slot, waker, buf, step);
    law_udp_write_through_a_closed_half(half, next_inner, next_slot, next_waker, buf, next);
}

/// What a UDP writer decides: a datagram that was sent counts as one, an error
/// is passed on, and where sending was not tried an open half waits while a
/// closed one answers that the connection is gone. The queue is told unless
/// sending failed or the socket is in it.
pub proof fn law_udp_writer_decides(
    half: &UdpWriteHalf,
    sent: Option<Result<(), SocketError>>,
    polling_active: bool,
    step: WriteStep,
)
    requires
        call_ensures(UdpWriteHalf::answer, (half, sent, polling_active), step),
    ensures
        sent == Some(Ok::<(), SocketError>(())) ==> step.poll == Poll::Ready(
            Ok::<usize, IoError>(1),
        ),
        forall|e: SocketError|
            sent == Some(Err::<(), SocketError>(e)) ==> step.poll == Poll::Ready(
                Err::<usize, IoError>(IoError::Other(e)),
            ) && step.request is None,
        sent is None ==> {
            &&& step.poll is Pending <==> !half.is_closed()
            &&& step.poll is Ready ==> step.poll == Poll::Ready(
                Err::<usize, IoError>(IoError::ConnectionAborted),
            )
        },
        !(sent matches Some(Err(_))) ==> (step.request is Some <==> !polling_active),
        step.request matches Some(request) ==> request.handle == half.name(),
{
}

/// A UDP write that the socket did not refuse asks that the socket be put into
/// the queue exactly where it is not in it.
pub proof fn law_udp_write_tells_the_queue(
    half: &UdpWriteHalf,
    inner: &mut UdpInner,
    slot: &mut SharedState,
    waker: Waker,
    buf: &[u8],
    step: WriteStep,
)
    requires
        call_ensures(UdpWriteHalf::poll_write_inner, (half, inner, slot, waker, buf), step),
    ensures
        old(inner).polling_active || (step.poll matches Poll::Ready(Err(IoError::Other(_))))
            ==> step.request is None,
        !old(inner).polling_active && !(step.poll matches Poll::Ready(Err(IoError::Other(_))))
            ==> (step.request matches Some(request) && request.handle == half.name()),
{
}

/// Closing a UDP writer asks that its socket be put into the queue exactly where
/// it is not in it, whatever the addresses, and leaves the half closed.
pub proof fn law_udp_close_tells_the_queue(
    half: &mut UdpWriteHalf,
    inner: &UdpInner,
    request: Option<QueueRequest>,
)
    requires
        call_ensures(UdpWriteHalf::close, (half, inner), request) || call_ensures(
            UdpWriteHalf::poll_close_inner,
            (half, inner),
            request,
        ),
    ensures
        inner.polling_active ==> request is None,
        !inner.polling_active ==> (request matches Some(made) && made.handle == old(half).name()),
        final(half).is_closed(),
        final(half).name() == old(half).name(),
        final(half).notice() == old(half).notice(),
{
}

/// Closing a UDP stream closes its writer, and leaves its reader and addresses.
pub proof fn law_udp_stream_close_tells_the_queue(
    stream: &mut UdpStream,
    inner: &UdpInner,
    request: Option<QueueRequest>,
)
    requires
        call_ensures(UdpStream::close, (stream, inner), request),
    ensures
        inner.polling_active ==> request is None,
        !inner.polling_active ==> (request matches Some(made) && made.handle == old(
            stream,
        ).writer.name()),
        final(stream).writer.is_closed(),
        final(stream).writer.name() == old(stream).writer.name(),
        final(stream).writer.notice() == old(stream).writer.notice(),
        final(stream).reader == old(stream).reader,
        final(stream).addr == old(stream).addr,
{
}

/// After a UDP stream is closed its writer answers every write that the
/// connection is gone, whatever has happened to the socket meanwhile.
pub proof fn law_udp_write_after_close(
    stream: &mut UdpStream,
    inner: &UdpInner,
    request: Option<QueueRequest>,
    next_inner: &mut UdpInner,
    slot: &mut SharedState,
    waker: Waker,
    buf: &[u8],
    step: WriteStep,
)
    requires
        call_ensures(UdpStream::close, (stream, inner), request),
        call_ensures(
            UdpWriteHalf::poll_write_inner,
            (&final(stream).writer, next_inner, slot, waker, buf),
            step,
        ),
    ensures
        step.poll == Poll::Ready(Err::<usize, IoError>(IoError::ConnectionAborted)),
        final(next_inner).udp == old(next_inner).udp,
{
}

/// The queue is asked for a socket exactly where it is not in it, by the
/// socket's own name, whatever its addresses and ports.
pub proof fn law_queue_is_asked_for_idle_sockets(
    handle: SocketHandle,
    polling_active: bool,
    request: Option<QueueRequest>,
)
    requires
        call_ensures(dispatch::queue_request, (handle, polling_active), request),
    ensures
        polling_active ==> request is None,
        !polling_active ==> (request matches Some(made) && made.handle == handle),
{
}

/// The message to the queue names the socket that the request was for, and
/// carries the time that it is due.
pub proof fn law_queue_message(
    handle: SocketHandle,
    request: Option<QueueRequest>,
    poll_at: PollAt,
    update: QueueUpdate,
)
    requires
        call_ensures(dispatch::queue_request, (handle, false), request),
        call_ensures(QueueRequest::due, (request->Some_0, poll_at), update),
    ensures
        update.handle == handle,
        update.poll_at == poll_at,
{
}

/// A new TCP stream that is closed asks for its socket by the stream's own
/// addresses, and its halves report the end of their own sides.
pub proof fn law_new_tcp_stream(
    socket: TcpSocket<'static>,
    addr: AddrPair,
    made: (TcpStream, TcpConnection),
    stream: &mut TcpStream,
    inner: &mut TcpInner,
    request: Option<QueueRequest>,
    read_notice: HalfClose,
    write_notice: HalfClose,
    local: SocketAddr,
    peer: SocketAddr,
)
    requires
        call_ensures(TcpStream::new, (socket, addr), made),
        call_ensures(TcpStream::close, (stream, inner), request),
        call_ensures(TcpReadHalf::shutdown_notice, (&made.0.reader,), read_notice),
        call_ensures(TcpWriteHalf::shutdown_notice, (&made.0.writer,), write_notice),
        call_ensures(TcpStream::local_addr, (&made.0,), local),
        call_ensures(TcpStream::peer_addr, (&made.0,), peer),
        *old(stream) == made.0,
        *old(inner) == made.1.inner,
    ensures
        request matches Some(asked) && asked.handle == addr,
        read_notice.handle == addr && read_notice.close == Close::Read,
        write_notice.handle == addr && write_notice.close == Close::Write,
        local == addr.local,
        peer == addr.peer,
        made.1.inner.tcp == socket,
        made.1.addr == addr,
        made.1.read_readiness.waker is None,
        made.1.write_readiness.waker is None,
        !made.0.reader.eof_reached(),
{
}

/// A new UDP stream that is closed asks for its socket by the stream's own
/// addresses, and its halves report the end of their own sides.
pub proof fn law_new_udp_stream(
    socket: UdpSocket<'static>,
    addr: AddrPair,
    made: (UdpStream, UdpConnection),
    stream: &mut UdpStream,
    request: Option<QueueRequest>,
    read_notice: HalfClose,
    write_notice: HalfClose,
    local: SocketAddr,
    peer: SocketAddr,
)
    requires
        call_ensures(UdpStream::new, (socket, addr), made),
        call_ensures(UdpStream::close, (stream, &made.1.inner), request),
        call_ensures(UdpReadHalf::shutdown_notice, (&made.0.reader,), read_notice),
        call_ensures(UdpWriteHalf::shutdown_notice, (&made.0.writer,), write_notice),
        call_ensures(UdpStream::local_addr, (&made.0,), local),
        call_ensures(UdpStream::peer_addr, (&made.0,), peer),
        *old(stream) == made.0,
    ensures
        request matches Some(asked) && asked.handle == addr,
        read_notice.handle == addr && read_notice.close == Close::Read,
        write_notice.handle == addr && write_notice.close == Close::Write,
        local == addr.local,
        peer == addr.peer,
        made.1.inner.udp == socket,
        made.1.addr == addr,
        made.1.read_readiness.waker is None,
        made.1.write_readiness.waker is None,
        !made.0.writer.is_closed(),
{
}

/// Waking once after a TCP read that had to wait wakes the task that read.
pub proof fn law_waiting_tcp_reader_is_woken(
    half: &mut TcpReadHalf,
    inner: &mut TcpInner,
    slot: &mut SharedState,
    waker: Waker,
    buf: &mut [u8],
    next_slot: &mut SharedState,
    woken: Option<Woken>,
)
    requires
        call_ensures(
            TcpReadHalf::poll_read_inner,
            (half, inner, slot, waker, buf),
            Poll::<Result<usize, IoError>>::Pending,
        ),
        call_ensures(SharedState::wake_once, (next_slot,), woken),
        *old(next_slot) == *final(slot),
    ensures
        woken matches Some(record) && record.waker() == waker,
        final(next_slot).waker is None,
{
}

/// Waking once wakes the task in the slot, and nobody where there is none; the
/// slot is empty afterwards.
pub proof fn law_waking_once(slot: &mut SharedState, woken: Option<Woken>)
    requires
        call_ensures(SharedState::wake_once, (slot,), woken),
    ensures
        old(slot).waker is None ==> woken is None,
        old(slot).waker matches Some(waker) ==> (woken matches Some(record) && record.waker()
            == waker),
        final(slot).waker is None,
{
}

/// Binding succeeds exactly where the device was opened and its MTU read, which
/// is then the listener's. A negative one wraps around: with its opposite it
/// makes up the whole range.
pub proof fn law_bind_takes_the_mtu(
    name: &str,
    device: Result<Result<i32, String>, String>,
    bound: Result<TcpListener, TunError>,
)
    requires
        call_ensures(TcpListener::bind, (name, device), bound),
    ensures
        bound is Ok <==> device is Ok && device->Ok_0 is Ok,
        bound matches Ok(listener) ==> device matches Ok(Ok(mtu)) ==> {
            &&& mtu >= 0 ==> listener.max_transmission_unit == mtu
            &&& mtu < 0 ==> listener.max_transmission_unit + (0 - mtu) == usize::MAX + 1
        },
{
}

/// Where the device could not be opened, or its MTU not be read, the error says
/// which device it was and why.
pub proof fn law_bind_error_says_what_failed(
    name: &str,
    device: Result<Result<i32, String>, String>,
    error: TunError,
    text: String,
)
    requires
        call_ensures(
            TcpListener::bind,
            (name, device),
            Err::<TcpListener, TunError>(error),
        ),
        call_ensures(TunError::message, (&error,), text),
    ensures
        device matches Err(reason) ==> text@ == "Unable to open tun device "@ + name@ + ": "@
            + reason@,
        device matches Ok(Err(reason)) ==> text@ == "Unable to open tun device "@ + name@ + ": "@
            + reason@,
{
}

} // verus!
