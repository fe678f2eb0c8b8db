//! What holds of streams across several calls.
use smoltcp::socket::UdpSocket;
use std::task::Waker;
use vstd::prelude::*;

use crate::poll;
use crate::poll::{IoError, Poll};
use crate::socket;
use crate::socket::tcp::TcpModel;
use crate::socket::{SocketError, TcpState};
use crate::stream;
use crate::stream::{TcpStream, UdpStream, UdpWriteHalf};
use crate::wake::Woken;

verus! {

/// A call by one of the halves of a TCP stream.
pub enum Call {
    /// A read with room for so many octets.
    Read(nat),
    /// A write that offers these octets.
    Write(Seq<u8>),
    /// Closing the sending side.
    Close,
}

/// The model after `call`.
pub open spec fn after_call(model: TcpModel, call: Call) -> TcpModel {
    match call {
        Call::Read(room) => model.after_read(room),
        Call::Write(data) => model.after_write(data),
        Call::Close => model.after_close(),
    }
}

/// The model after `calls`, one after the other, when the network is still.
pub open spec fn after_calls(model: TcpModel, calls: Seq<Call>) -> TcpModel
    decreases calls.len(),
{
    if calls.len() == 0 {
        model
    } else {
        after_calls(after_call(model, calls[0]), calls.drop_first())
    }
}

/// What the reads among `calls` hand out, put together.
pub open spec fn handed_out(model: TcpModel, calls: Seq<Call>) -> Seq<u8>
    decreases calls.len(),
{
    if calls.len() == 0 {
        Seq::empty()
    } else {
        let rest = handed_out(after_call(model, calls[0]), calls.drop_first());
        match calls[0] {
            Call::Read(room) => model.received.take(model.read_size(room) as int) + rest,
            _ => rest,
        }
    }
}

/// How much room the reads among `calls` have in all.
pub open spec fn total_room(calls: Seq<Call>) -> nat
    decreases calls.len(),
{
    if calls.len() == 0 {
        0
    } else {
        let rest = total_room(calls.drop_first());
        match calls[0] {
            Call::Read(room) => room + rest,
            _ => rest,
        }
    }
}

/// What the writes among `calls` offer before the sending side is closed, put
/// together.
pub open spec fn offered(calls: Seq<Call>) -> Seq<u8>
    decreases calls.len(),
{
    if calls.len() == 0 {
        Seq::empty()
    } else {
        match calls[0] {
            Call::Read(_) => offered(calls.drop_first()),
            Call::Write(data) => data + offered(calls.drop_first()),
            Call::Close => Seq::empty(),
        }
    }
}

/// Reads hand out what waits in order, without gaps or repetitions, however
/// the room is divided among them, and whatever is written or closed in
/// between.
pub proof fn law_reads_in_order(model: TcpModel, calls: Seq<Call>)
    ensures
        handed_out(model, calls) == model.received.take(model.read_size(total_room(calls)) as int),
        after_calls(model, calls).received == model.received.skip(
            model.read_size(total_room(calls)) as int,
        ),
    decreases calls.len(),
{
    if calls.len() == 0 {
        assert(model.received.take(0) =~= Seq::<u8>::empty());
        assert(model.received.skip(0) =~= model.received);
    } else {
        let next = after_call(model, calls[0]);
        law_reads_in_order(next, calls.drop_first());
        if let Call::Read(room) = calls[0] {
            let n = model.read_size(room) as int;
            let m = next.read_size(total_room(calls.drop_first())) as int;
            assert(n + m == model.read_size(total_room(calls)));
            assert(model.received.take(n) + model.received.skip(n).take(m)
                =~= model.received.take(n + m));
            assert(model.received.skip(n).skip(m) =~= model.received.skip(n + m));
        }
    }
}

/// Writes take in what is offered in order, without gaps or repetitions, up to
/// what the socket was made for, however it is divided among them and whatever
/// is read in between; what is offered after closing is not taken.
pub proof fn law_writes_in_order(model: TcpModel, calls: Seq<Call>)
    requires
        model.may_send(),
    ensures
        after_calls(model, calls).outgoing == model.outgoing + offered(calls).take(
            model.write_size(offered(calls).len()) as int,
        ),
        model.outgoing.len() <= model.capacity ==> after_calls(model, calls).outgoing.len()
            <= model.capacity,
    decreases calls.len(),
{
    if calls.len() == 0 {
        assert(model.outgoing + Seq::<u8>::empty().take(0) =~= model.outgoing);
    } else {
        let next = after_call(model, calls[0]);
        let rest = calls.drop_first();
        match calls[0] {
            Call::Read(_) => {
                law_writes_in_order(next, rest);
            },
            Call::Write(data) => {
                law_writes_in_order(next, rest);
                let n = model.write_size(data.len()) as int;
                let m = next.write_size(offered(rest).len()) as int;
                assert(n + m == model.write_size(offered(calls).len()));
                assert(model.outgoing + data.take(n) + offered(rest).take(m) =~= model.outgoing
                    + (data + offered(rest)).take(n + m));
            },
            Call::Close => {
                law_closed_side_takes_nothing(next, rest);
                assert(model.outgoing + Seq::<u8>::empty().take(0) =~= model.outgoing);
            },
        }
    }
}

/// While the sending side is not open, whatever is called, nothing is taken
/// in, and the side is not opened.
pub proof fn law_closed_side_takes_nothing(model: TcpModel, calls: Seq<Call>)
    requires
        !model.may_send(),
    ensures
        after_calls(model, calls).outgoing == model.outgoing,
        !after_calls(model, calls).may_send(),
    decreases calls.len(),
{
    if calls.len() > 0 {
        law_closed_side_takes_nothing(after_call(model, calls[0]), calls.drop_first());
    }
}

/// After closing, whatever has been called since, a write answers that the
/// connection is gone.
pub proof fn law_close_ends_writing(model: TcpModel, calls: Seq<Call>, size: nat)
    ensures
        stream::tcp::write_answer(after_calls(model.after_close(), calls), size) == Poll::Ready(
            Err::<usize, IoError>(IoError::ConnectionAborted),
        ),
{
    law_closed_side_takes_nothing(model.after_close(), calls);
}

/// Closing the sending side leaves the reader what it had: every read answers
/// as it would have.
pub proof fn law_close_keeps_reader(model: TcpModel, room: nat, eof: bool)
    ensures
        stream::tcp::read_answer(model.after_close(), room, eof) == stream::tcp::read_answer(
            model,
            room,
            eof,
        ),
{
}

/// Closing twice is closing once.
pub proof fn law_close_twice_is_once(model: TcpModel)
    ensures
        model.after_close().after_close() == model.after_close(),
{
}

/// Writing leaves the reader what it had: every read answers as it would have.
pub proof fn law_write_keeps_reader(model: TcpModel, data: Seq<u8>, room: nat, eof: bool)
    ensures
        stream::tcp::read_answer(model.after_write(data), room, eof) == stream::tcp::read_answer(
            model,
            room,
            eof,
        ),
{
}

/// Reading leaves the writer what it had: every write answers as it would
/// have.
pub proof fn law_read_keeps_writer(model: TcpModel, room: nat, size: nat)
    ensures
        stream::tcp::write_answer(model.after_read(room), size) == stream::tcp::write_answer(
            model,
            size,
        ),
{
}

/// Octets that wait are handed out in every state, also when the peer has
/// closed its side or the end has been reported.
pub proof fn law_waiting_octets_are_read(model: TcpModel, room: nat, eof: bool)
    requires
        model.received.len() > 0,
        0 < room <= usize::MAX,
    ensures
        stream::tcp::read_answer(model, room, eof) matches Poll::Ready(Ok(n)) && n > 0 && n
            == socket::moved(model.received.len(), room),
{
}

/// A read answers zero exactly at the end of what the peer sent, and only
/// where the end has not been reported.
pub proof fn law_zero_is_the_end(model: TcpModel, room: nat, eof: bool)
    requires
        room <= usize::MAX,
    ensures
        stream::tcp::read_answer(model, room, eof) == Poll::Ready(Ok::<usize, IoError>(0)) <==> {
            &&& !model.may_recv()
            &&& model.state != TcpState::SynReceived
            &&& !eof
        },
{
}

/// Whether the end has been reported before the read number `k` of `reads`,
/// where `eof` says whether it had been before them. Each read finds the socket
/// as its model says, and has so much room; what happens to the socket in
/// between is left open.
pub open spec fn eof_before(reads: Seq<(TcpModel, nat)>, eof: bool, k: nat) -> bool
    decreases k,
{
    if k == 0 {
        eof
    } else {
        let before = eof_before(reads, eof, (k - 1) as nat);
        let (model, room) = reads[k - 1];
        stream::tcp::eof_after(before, stream::tcp::read_answer(model, room, before))
    }
}

/// What the read number `k` of `reads` answers.
pub open spec fn answer_of(reads: Seq<(TcpModel, nat)>, eof: bool, k: nat) -> Poll<
    Result<usize, IoError>,
> {
    stream::tcp::read_answer(reads[k as int].0, reads[k as int].1, eof_before(reads, eof, k))
}

/// Once the end has been reported it stays so.
proof fn lemma_eof_stays(reads: Seq<(TcpModel, nat)>, eof: bool, i: nat, j: nat)
    requires
        i <= j,
        eof_before(reads, eof, i),
    ensures
        eof_before(reads, eof, j),
    decreases j,
{
    if i < j {
        lemma_eof_stays(reads, eof, i, (j - 1) as nat);
    }
}

/// In every row of reads, whatever happens to the socket in between, zero is
/// answered at most once: a read after that which finds the end answers that
/// the connection is gone.
pub proof fn law_end_is_reported_once(reads: Seq<(TcpModel, nat)>, eof: bool, i: nat, j: nat)
    requires
        i < j < reads.len(),
        reads[j as int].1 <= usize::MAX,
        answer_of(reads, eof, i) == Poll::Ready(Ok::<usize, IoError>(0)),
    ensures
        answer_of(reads, eof, j) != Poll::Ready(Ok::<usize, IoError>(0)),
        !reads[j as int].0.may_recv() && reads[j as int].0.state != TcpState::SynReceived
            ==> answer_of(reads, eof, j) == Poll::Ready(
            Err::<usize, IoError>(IoError::ConnectionAborted),
        ),
{
    assert(eof_before(reads, eof, i + 1));
    lemma_eof_stays(reads, eof, i + 1, j);
    law_zero_is_the_end(reads[j as int].0, reads[j as int].1, eof_before(reads, eof, j));
}

/// In every row of reads, whatever happens to the socket in between, the first
/// that finds the end answers zero, unless the end had been reported before.
pub proof fn law_end_is_reported(reads: Seq<(TcpModel, nat)>, k: nat)
    requires
        k < reads.len(),
        !reads[k as int].0.may_recv(),
        reads[k as int].0.state != TcpState::SynReceived,
        forall|i: nat|
            i < k ==> #[trigger] answer_of(reads, false, i) != Poll::Ready(
                Ok::<usize, IoError>(0),
            ),
    ensures
        answer_of(reads, false, k) == Poll::Ready(Ok::<usize, IoError>(0)),
{
    lemma_no_zero_no_eof(reads, k);
}

/// Where no read answered zero the end has not been reported.
proof fn lemma_no_zero_no_eof(reads: Seq<(TcpModel, nat)>, k: nat)
    requires
        forall|i: nat|
            i < k ==> #[trigger] answer_of(reads, false, i) != Poll::Ready(
                Ok::<usize, IoError>(0),
            ),
    ensures
        !eof_before(reads, false, k),
    decreases k,
{
    if k > 0 {
        lemma_no_zero_no_eof(reads, (k - 1) as nat);
        assert(answer_of(reads, false, (k - 1) as nat) != Poll::Ready(Ok::<usize, IoError>(0)));
    }
}

/// A reader that is used before the handshake is finished waits.
pub proof fn law_reader_waits_for_handshake(model: TcpModel, room: nat, eof: bool)
    requires
        model.state == TcpState::SynReceived,
        model.received.len() == 0,
    ensures
        stream::tcp::read_answer(model, room, eof) is Pending,
{
}

/// A read without room waits while octets wait.
pub proof fn law_read_without_room_waits(model: TcpModel, eof: bool)
    requires
        model.received.len() > 0,
    ensures
        stream::tcp::read_answer(model, 0, eof) is Pending,
{
}

/// A writer waits exactly while the sending side is open and there is no room,
/// or nothing is offered.
pub proof fn law_writer_waits_for_room(model: TcpModel, size: nat)
    ensures
        stream::tcp::write_answer(model, size) is Pending <==> {
            &&& model.may_send()
            &&& model.outgoing.len() >= model.capacity || size == 0
        },
{
}

/// What a row of UDP reads hands out, when the datagrams in `waiting` wait and
/// the reads have room for `rooms`.
pub open spec fn datagrams_read(waiting: Seq<Seq<u8>>, rooms: Seq<nat>) -> Seq<Seq<u8>>
    decreases rooms.len(),
{
    if rooms.len() == 0 || waiting.len() == 0 {
        Seq::empty()
    } else {
        seq![waiting[0].take(socket::moved(waiting[0].len(), rooms[0]) as int)] + datagrams_read(
            waiting.drop_first(),
            rooms.drop_first(),
        )
    }
}

/// UDP reads take one datagram each, in order: none is joined with another, and
/// what a read has no room for does not turn up in the next one.
pub proof fn law_datagrams_are_not_joined(waiting: Seq<Seq<u8>>, rooms: Seq<nat>)
    ensures
        datagrams_read(waiting, rooms).len() == socket::moved(waiting.len(), rooms.len()),
        forall|k: int|
            0 <= k < datagrams_read(waiting, rooms).len() ==> #[trigger] datagrams_read(
                waiting,
                rooms,
            )[k] == waiting[k].take(socket::moved(waiting[k].len(), rooms[k]) as int),
    decreases rooms.len(),
{
    if rooms.len() > 0 && waiting.len() > 0 {
        law_datagrams_are_not_joined(waiting.drop_first(), rooms.drop_first());
    }
}

/// A UDP read never waits.
pub proof fn law_datagram_reads_do_not_wait(readable: bool, waiting: Seq<Seq<u8>>, room: nat)
    ensures
        stream::udp::udp_read_answer(readable, waiting, room) is Ready,
{
}

/// Through a socket that is not bound to a full endpoint nothing is written: a
/// write waits or is refused.
pub proof fn law_unbound_socket_sends_nothing(udp: UdpSocket<'static>, size: nat)
    requires
        !socket::udp::udp_endpoint(udp).is_specified(),
    ensures
        stream::udp::udp_write_answer(false, stream::udp::udp_sending(false, udp, size)) == (
        if socket::udp::udp_writable(udp) {
            Poll::Ready(Err::<usize, IoError>(IoError::Other(SocketError::Unaddressable)))
        } else {
            Poll::Pending
        }),
{
}

/// Through a closed writing half of a UDP stream no write is taken, whatever
/// state the socket is in: none is tried, and every one answers that the
/// connection is gone.
pub proof fn law_udp_close_ends_writing(half: UdpWriteHalf, udp: UdpSocket<'static>, size: nat)
    requires
        half.is_closed(),
    ensures
        stream::udp::udp_sending(half.is_closed(), udp, size) is None,
        stream::udp::udp_write_answer(
            half.is_closed(),
            stream::udp::udp_sending(half.is_closed(), udp, size),
        ) == Poll::Ready(Err::<usize, IoError>(IoError::ConnectionAborted)),
{
}

/// Where nothing about sending has changed, a UDP write is answered as it was. A
/// write that is refused for another reason than want of room leaves the sending
/// side so: it is refused again.
pub proof fn law_unchanged_socket_answers_writes_alike(
    before: UdpSocket<'static>,
    after: UdpSocket<'static>,
    closed: bool,
    size: nat,
)
    requires
        socket::udp::same_sending_side(after, before),
        socket::udp::udp_endpoint(after) == socket::udp::udp_endpoint(before),
        socket::udp::udp_send_capacity(after) == socket::udp::udp_send_capacity(before),
    ensures
        stream::udp::udp_sending(closed, after, size) == stream::udp::udp_sending(
            closed,
            before,
            size,
        ),
{
}

/// What the slot of a half holds after a row of polls, of each of which it is
/// known whether it has to wait and by which handle its task is woken.
pub open spec fn slot_after_polls(slot: Option<Waker>, polls: Seq<(bool, Waker)>) -> Option<Waker>
    decreases polls.len(),
{
    if polls.len() == 0 {
        slot
    } else {
        let (pending, waker) = polls.last();
        poll::slot_after_poll(slot_after_polls(slot, polls.drop_last()), pending, waker)
    }
}

/// After a row of polls, waking once wakes the task of the last one that had to
/// wait, and nobody else; waking once more before the next poll wakes nobody.
/// Where no poll had to wait, the task that waited before them is woken, if
/// there is one.
///
/// `woken` is the record of the first time, which leaves the slot empty, and
/// `again` that of the second.
pub proof fn law_last_waiting_task_is_woken(
    slot: Option<Waker>,
    polls: Seq<(bool, Waker)>,
    woken: Option<Woken>,
    again: Option<Woken>,
)
    requires
        poll::wakes(slot_after_polls(slot, polls), woken),
        poll::wakes(None, again),
    ensures
        again is None,
        forall|k: int|
            #![trigger polls[k]]
            0 <= k < polls.len() && polls[k].0 && (forall|l: int|
                k < l < polls.len() ==> !(#[trigger] polls[l]).0) ==> (woken matches Some(record)
                && record.waker() == polls[k].1),
        (forall|k: int| 0 <= k < polls.len() ==> !(#[trigger] polls[k]).0) ==> poll::wakes(
            slot,
            woken,
        ),
    decreases polls.len(),
{
    if polls.len() > 0 {
        let front = polls.drop_last();
        if !polls.last().0 {
            law_last_waiting_task_is_woken(slot, front, woken, again);
            assert forall|k: int|
                #![trigger polls[k]]
                0 <= k < polls.len() && polls[k].0 && (forall|l: int|
                    k < l < polls.len() ==> !(#[trigger] polls[l]).0) implies (
            woken matches Some(record) && record.waker() == polls[k].1) by {
                assert(front[k] == polls[k]);
                assert forall|l: int| k < l < front.len() implies !(#[trigger] front[l]).0 by {
                    assert(front[l] == polls[l]);
                }
            }
            if forall|k: int| 0 <= k < polls.len() ==> !(#[trigger] polls[k]).0 {
                assert forall|k: int| 0 <= k < front.len() implies !(#[trigger] front[k]).0 by {
                    assert(front[k] == polls[k]);
                }
            }
        } else {
            assert(polls[polls.len() - 1].0);
        }
    }
}

/// A stream stays tied to its socket, each half reporting the end of its own
/// side, through every call that leaves its address, the name that its writing
/// half uses and both notices: reading, writing and closing do.
pub proof fn law_calls_keep_streams_whole(
    tcp: TcpStream,
    tcp_after: TcpStream,
    udp: UdpStream,
    udp_after: UdpStream,
)
    requires
        tcp.wf(),
        tcp_after.addr == tcp.addr,
        tcp_after.writer.name() == tcp.writer.name(),
        tcp_after.writer.notice() == tcp.writer.notice(),
        tcp_after.reader.notice() == tcp.reader.notice(),
        udp.wf(),
        udp_after.addr == udp.addr,
        udp_after.writer.name() == udp.writer.name(),
        udp_after.writer.notice() == udp.writer.notice(),
        udp_after.reader.notice() == udp.reader.notice(),
    ensures
        tcp_after.wf(),
        udp_after.wf(),
{
}

} // verus!
