//! The TCP socket: the model of its state, and its operations.
use smoltcp::socket::TcpSocket;
use vstd::prelude::*;

use crate::socket;
use crate::socket::error;
use crate::socket::error::SocketError;

verus! {

/// The TCP socket of the network stack.
#[verifier::external_type_specification]
#[verifier::external_body]
pub struct ExTcpSocket<'a>(TcpSocket<'a>);

/// The state of a TCP connection.
#[derive(Clone, Copy, Debug, PartialEq, Eq, Structural)]
pub enum TcpState {
    Closed,
    Listen,
    SynSent,
    SynReceived,
    Established,
    FinWait1,
    FinWait2,
    CloseWait,
    Closing,
    LastAck,
    TimeWait,
}

/// The state of the connection of `socket`.
pub uninterp spec fn tcp_state(socket: TcpSocket<'static>) -> TcpState;

/// The octets that `socket` has received and nobody has read, oldest first.
pub uninterp spec fn tcp_received(socket: TcpSocket<'static>) -> Seq<u8>;

/// The octets that `socket` holds for its peer, oldest first.
pub uninterp spec fn tcp_outgoing(socket: TcpSocket<'static>) -> Seq<u8>;

/// How many octets for its peer `socket` was made to hold.
pub uninterp spec fn tcp_send_capacity(socket: TcpSocket<'static>) -> nat;

/// Whether the peer of `socket` has closed its side.
pub uninterp spec fn tcp_fin_received(socket: TcpSocket<'static>) -> bool;

/// What is known of a TCP socket.
#[verifier::ext_equal]
pub struct TcpModel {
    /// The state of the connection.
    pub state: TcpState,
    /// The octets received and not read, oldest first.
    pub received: Seq<u8>,
    /// The octets held for the peer, oldest first.
    pub outgoing: Seq<u8>,
    /// How many octets for the peer can be held.
    pub capacity: nat,
    /// Whether the peer has closed its side.
    pub fin_received: bool,
}

/// The model of `socket`.
pub open spec fn tcp_model(socket: TcpSocket<'static>) -> TcpModel {
    TcpModel {
        state: tcp_state(socket),
        received: tcp_received(socket),
        outgoing: tcp_outgoing(socket),
        capacity: tcp_send_capacity(socket),
        fin_received: tcp_fin_received(socket),
    }
}

impl TcpModel {
    /// Whether the receiving side is open or has octets left.
    pub open spec fn may_recv(self) -> bool {
        tcp_may_recv(self.state, self.received.len())
    }

    /// Whether the sending side is open.
    pub open spec fn may_send(self) -> bool {
        tcp_may_send(self.state)
    }

    /// How many octets a read with room for `room` takes.
    pub open spec fn read_size(self, room: nat) -> nat {
        socket::moved(self.received.len(), room)
    }

    /// How many octets of an offer of `size` the socket takes while its sending
    /// side is open.
    pub open spec fn write_size(self, size: nat) -> nat {
        socket::moved(size, socket::room_left(self.outgoing.len(), self.capacity))
    }

    /// The model after a read with room for `room`.
    pub open spec fn after_read(self, room: nat) -> TcpModel {
        TcpModel { received: self.received.skip(self.read_size(room) as int), ..self }
    }

    /// The model after `data` was offered.
    pub open spec fn after_write(self, data: Seq<u8>) -> TcpModel {
        if self.may_send() {
            TcpModel {
                outgoing: self.outgoing + data.take(self.write_size(data.len()) as int),
                ..self
            }
        } else {
            self
        }
    }

    /// The model after the sending side was closed.
    pub open spec fn after_close(self) -> TcpModel {
        TcpModel { state: tcp_closed(self.state), ..self }
    }
}

/// Calls `TcpSocket::state`.
///
/// Trusted: the answer is the connection's state, variant by variant.
#[verifier::external_body]
pub(crate) fn state(socket: &TcpSocket<'static>) -> (state: TcpState)
    ensures
        state == tcp_state(*socket),
{
    match socket.state() {
        smoltcp::socket::TcpState::Closed => TcpState::Closed,
        smoltcp::socket::TcpState::Listen => TcpState::Listen,
        smoltcp::socket::TcpState::SynSent => TcpState::SynSent,
        smoltcp::socket::TcpState::SynReceived => TcpState::SynReceived,
        smoltcp::socket::TcpState::Established => TcpState::Established,
        smoltcp::socket::TcpState::FinWait1 => TcpState::FinWait1,
        smoltcp::socket::TcpState::FinWait2 => TcpState::FinWait2,
        smoltcp::socket::TcpState::CloseWait => TcpState::CloseWait,
        smoltcp::socket::TcpState::Closing => TcpState::Closing,
        smoltcp::socket::TcpState::LastAck => TcpState::LastAck,
        smoltcp::socket::TcpState::TimeWait => TcpState::TimeWait,
    }
}

/// Whether the receiving side of a connection in `state` is open, or has
/// octets left, when `waiting` octets wait to be read.
pub open spec fn tcp_may_recv(state: TcpState, waiting: nat) -> bool {
    ||| state == TcpState::Established
    ||| state == TcpState::FinWait1
    ||| state == TcpState::FinWait2
    ||| waiting > 0
}

/// Whether the sending side of a connection in `state` is open.
pub open spec fn tcp_may_send(state: TcpState) -> bool {
    state == TcpState::Established || state == TcpState::CloseWait
}

/// The state in which closing the sending side leaves a connection.
pub open spec fn tcp_closed(state: TcpState) -> TcpState {
    match state {
        TcpState::Listen | TcpState::SynSent => TcpState::Closed,
        TcpState::SynReceived | TcpState::Established => TcpState::FinWait1,
        TcpState::CloseWait => TcpState::LastAck,
        _ => state,
    }
}

/// Calls `TcpSocket::can_recv`.
///
/// Trusted: the answer is whether an octet waits to be read.
#[verifier::external_body]
pub(crate) fn can_recv(socket: &TcpSocket<'static>) -> (can: bool)
    ensures
        can == (tcp_received(*socket).len() > 0),
{
    socket.can_recv()
}

/// Calls `TcpSocket::may_recv`.
///
/// Trusted: the answer depends on the state and on whether an octet waits, as
/// `tcp_may_recv` says.
#[verifier::external_body]
pub(crate) fn may_recv(socket: &TcpSocket<'static>) -> (may: bool)
    ensures
        may == tcp_model(*socket).may_recv(),
{
    socket.may_recv()
}

/// Calls `TcpSocket::recv_slice`.
///
/// Trusted: it fails where the receiving side is neither open nor has octets
/// left, with `Finished` where the peer has closed its side and `Illegal` where
/// it has not, and then changes nothing. Otherwise it moves the oldest octets,
/// as many as wait and `data` has room for, to the front of `data`. Nothing
/// else of the socket changes.
#[verifier::external_body]
pub(crate) fn recv_slice(socket: &mut TcpSocket<'static>, data: &mut [u8]) -> (received: Result<
    usize,
    smoltcp::Error,
>)
    ensures
        received is Ok <==> tcp_model(*old(socket)).may_recv(),
        received matches Ok(n) ==> {
            &&& n == tcp_model(*old(socket)).read_size(old(data)@.len())
            &&& tcp_model(*final(socket)) == tcp_model(*old(socket)).after_read(old(data)@.len())
            &&& final(data)@ == tcp_received(*old(socket)).take(n as int) + old(data)@.skip(
                n as int,
            )
        },
        received matches Err(e) ==> {
            &&& error::error_kind(e) == (if tcp_fin_received(*old(socket)) {
                SocketError::Finished
            } else {
                SocketError::Illegal
            })
            &&& tcp_model(*final(socket)) == tcp_model(*old(socket))
            &&& final(data)@ == old(data)@
        },
{
    socket.recv_slice(data)
}

/// Calls `TcpSocket::can_send`.
///
/// Trusted: the answer is whether the sending side is open and the socket can
/// hold one more octet for its peer.
#[verifier::external_body]
pub(crate) fn can_send(socket: &TcpSocket<'static>) -> (can: bool)
    ensures
        can == (tcp_model(*socket).may_send() && tcp_outgoing(*socket).len() < tcp_send_capacity(
            *socket,
        )),
{
    socket.can_send()
}

/// Calls `TcpSocket::may_send`.
///
/// Trusted: the answer is whether the sending side is open.
#[verifier::external_body]
pub(crate) fn may_send(socket: &TcpSocket<'static>) -> (may: bool)
    ensures
        may == tcp_model(*socket).may_send(),
{
    socket.may_send()
}

/// Calls `TcpSocket::send_slice`.
///
/// Trusted: it fails with `Illegal` where the sending side is not open, and
/// then changes nothing. Otherwise it appends the front of `data`, as much as
/// the socket has room for, to what it holds for its peer. Nothing else of
/// the socket changes.
#[verifier::external_body]
pub(crate) fn send_slice(socket: &mut TcpSocket<'static>, data: &[u8]) -> (sent: Result<
    usize,
    smoltcp::Error,
>)
    ensures
        sent is Ok <==> tcp_model(*old(socket)).may_send(),
        sent matches Ok(n) ==> n == tcp_model(*old(socket)).write_size(data@.len()),
        sent matches Err(e) ==> error::error_kind(e) == SocketError::Illegal,
        tcp_model(*final(socket)) == tcp_model(*old(socket)).after_write(data@),
{
    socket.send_slice(data)
}

/// Calls `TcpSocket::close`.
///
/// Trusted: the state changes as `tcp_closed` says, and what the socket has
/// received and what it holds for its peer stay.
#[verifier::external_body]
pub(crate) fn close(socket: &mut TcpSocket<'static>)
    ensures
        tcp_model(*final(socket)) == tcp_model(*old(socket)).after_close(),
{
    socket.close()
}

} // verus!
