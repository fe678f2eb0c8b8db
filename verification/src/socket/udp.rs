//! The UDP socket: the model of its state, and its operations.
use smoltcp::socket::UdpSocket;
use vstd::prelude::*;

use crate::socket;
use crate::socket::error;
use crate::socket::error::SocketError;

verus! {

/// The UDP socket of the network stack.
#[verifier::external_type_specification]
#[verifier::external_body]
pub struct ExUdpSocket<'a>(UdpSocket<'a>);

/// An internet address, or none yet.
#[derive(Clone, Copy, Debug, PartialEq, Eq)]
pub enum IpAddress {
    Unspecified,
    Ipv4([u8; 4]),
    Ipv6([u8; 16]),
}

/// An internet address with a port.
#[derive(Clone, Copy, Debug, PartialEq, Eq)]
pub struct IpEndpoint {
    pub addr: IpAddress,
    pub port: u16,
}

impl IpAddress {
    /// Whether nothing can be addressed by it. Of an IPv4 address the first
    /// octet alone decides.
    pub open spec fn is_unspecified(self) -> bool {
        match self {
            IpAddress::Unspecified => true,
            IpAddress::Ipv4(octets) => octets@[0] == 0,
            IpAddress::Ipv6(octets) => forall|i: int| 0 <= i < 16 ==> octets@[i] == 0,
        }
    }
}

impl IpEndpoint {
    /// Whether a datagram can be addressed to it.
    pub open spec fn is_specified(self) -> bool {
        !self.addr.is_unspecified() && self.port != 0
    }
}

/// The datagrams that `socket` has received and nobody has read, oldest first.
pub uninterp spec fn udp_received(socket: UdpSocket<'static>) -> Seq<Seq<u8>>;

/// The datagrams that `socket` holds for others, oldest first, each with the
/// endpoint that it is addressed to.
pub uninterp spec fn udp_outgoing(socket: UdpSocket<'static>) -> Seq<(Seq<u8>, IpEndpoint)>;

/// The endpoint that `socket` is bound to.
pub uninterp spec fn udp_endpoint(socket: UdpSocket<'static>) -> IpEndpoint;

/// Whether the receiving side of `socket` holds anything: a datagram, or the
/// filler that is left where one did not fit.
pub uninterp spec fn udp_readable(socket: UdpSocket<'static>) -> bool;

/// Whether the sending side of `socket` has a place for one more datagram.
pub uninterp spec fn udp_writable(socket: UdpSocket<'static>) -> bool;

/// How many octets of payload the sending side of `socket` was made to hold.
pub uninterp spec fn udp_send_capacity(socket: UdpSocket<'static>) -> nat;

/// Whether the sending side of `socket` can take a datagram of `size` octets
/// now. It holds a datagram in one piece, so that this depends on where in its
/// ring the free space lies.
pub uninterp spec fn udp_has_room(socket: UdpSocket<'static>, size: nat) -> bool;

/// What sending a datagram of `size` octets to `to` answers on a socket bound
/// to `from` that was made for `capacity` octets, where `has_room` says whether
/// it can take the datagram now.
pub open spec fn udp_send_result(
    from: IpEndpoint,
    to: IpEndpoint,
    size: nat,
    capacity: nat,
    has_room: bool,
) -> Result<(), SocketError> {
    if from.port == 0 || !to.is_specified() {
        Err(SocketError::Unaddressable)
    } else if size > capacity {
        Err(SocketError::Truncated)
    } else if !has_room {
        Err(SocketError::Exhausted)
    } else {
        Ok(())
    }
}

/// Whether `a` and `b` agree on everything about receiving.
pub open spec fn same_receiving_side(a: UdpSocket<'static>, b: UdpSocket<'static>) -> bool {
    &&& udp_received(a) == udp_received(b)
    &&& udp_readable(a) == udp_readable(b)
}

/// Whether `a` and `b` agree on everything about sending.
pub open spec fn same_sending_side(a: UdpSocket<'static>, b: UdpSocket<'static>) -> bool {
    &&& udp_outgoing(a) == udp_outgoing(b)
    &&& udp_writable(a) == udp_writable(b)
    &&& forall|size: nat| udp_has_room(a, size) == udp_has_room(b, size)
}

/// Calls `UdpSocket::endpoint`.
///
/// Trusted: the answer is the endpoint that the socket is bound to.
#[verifier::external_body]
pub(crate) fn endpoint(socket: &UdpSocket<'static>) -> (bound: IpEndpoint)
    ensures
        bound == udp_endpoint(*socket),
{
    let bound = socket.endpoint();
    let addr = match bound.addr {
        smoltcp::wire::IpAddress::Ipv4(addr) => IpAddress::Ipv4(addr.0),
        smoltcp::wire::IpAddress::Ipv6(addr) => IpAddress::Ipv6(addr.0),
        _ => IpAddress::Unspecified,
    };
    IpEndpoint { addr, port: bound.port }
}

/// Calls `UdpSocket::can_recv`.
///
/// Trusted: the answer is whether the receiving side holds anything, which it
/// does where it holds a datagram.
#[verifier::external_body]
pub(crate) fn can_recv(socket: &UdpSocket<'static>) -> (can: bool)
    ensures
        can == udp_readable(*socket),
        udp_received(*socket).len() > 0 ==> can,
{
    socket.can_recv()
}

/// Calls `UdpSocket::recv_slice`.
///
/// Trusted: it fails with `Exhausted` where no datagram waits; `data` then
/// stays, and the receiving side holds nothing any more. Otherwise it takes the oldest datagram and moves as much of it as
/// there is room for to the front of `data`; the rest of the datagram is lost.
/// Nothing about sending changes. The sender, which it answers too, is left
/// out.
#[verifier::external_body]
pub(crate) fn recv_slice(socket: &mut UdpSocket<'static>, data: &mut [u8]) -> (received: Result<
    usize,
    smoltcp::Error,
>)
    ensures
        received is Ok <==> udp_received(*old(socket)).len() > 0,
        received matches Ok(n) ==> {
            &&& n == socket::moved(udp_received(*old(socket))[0].len(), old(data)@.len())
            &&& udp_received(*final(socket)) == udp_received(*old(socket)).drop_first()
            &&& final(data)@ == udp_received(*old(socket))[0].take(n as int) + old(data)@.skip(
                n as int,
            )
        },
        received matches Err(e) ==> {
            &&& error::error_kind(e) == SocketError::Exhausted
            &&& udp_received(*final(socket)) == udp_received(*old(socket))
            &&& !udp_readable(*final(socket))
            &&& final(data)@ == old(data)@
        },
        udp_endpoint(*final(socket)) == udp_endpoint(*old(socket)),
        udp_send_capacity(*final(socket)) == udp_send_capacity(*old(socket)),
        same_sending_side(*final(socket), *old(socket)),
{
    socket.recv_slice(data).map(|(n, _sender)| n)
}

/// Calls `UdpSocket::can_send`.
///
/// Trusted: the answer is whether the sending side has a place for one more
/// datagram; where it has, an empty one fits.
#[verifier::external_body]
pub(crate) fn can_send(socket: &UdpSocket<'static>) -> (can: bool)
    ensures
        can == udp_writable(*socket),
        can ==> udp_has_room(*socket, 0),
{
    socket.can_send()
}

/// Calls `UdpSocket::send_slice`.
///
/// Trusted: it answers as `udp_send_result` says. Where it succeeds, `data` is
/// appended to what the socket holds for others, addressed to `to`; where it
/// fails, that stays, and unless the error is `Exhausted` so does everything
/// else about sending. Nothing about receiving changes. Whether there is room
/// after a success, or after `Exhausted`, is not said.
#[verifier::external_body]
pub(crate) fn send_slice(socket: &mut UdpSocket<'static>, data: &[u8], to: IpEndpoint) -> (sent:
    Result<(), smoltcp::Error>)
    ensures
        ({
            let result = udp_send_result(
                udp_endpoint(*old(socket)),
                to,
                data@.len(),
                udp_send_capacity(*old(socket)),
                udp_has_room(*old(socket), data@.len()),
            );
            match sent {
                Ok(()) => result is Ok,
                Err(e) => result == Err::<(), SocketError>(error::error_kind(e)),
            }
        }),
        udp_outgoing(*final(socket)) == (if sent is Ok {
            udp_outgoing(*old(socket)).push((data@, to))
        } else {
            udp_outgoing(*old(socket))
        }),
        sent matches Err(e) && error::error_kind(e) != SocketError::Exhausted ==> same_sending_side(
            *final(socket),
            *old(socket),
        ),
        udp_endpoint(*final(socket)) == udp_endpoint(*old(socket)),
        udp_send_capacity(*final(socket)) == udp_send_capacity(*old(socket)),
        same_receiving_side(*final(socket), *old(socket)),
{
    let addr = match to.addr {
        IpAddress::Unspecified => smoltcp::wire::IpAddress::Unspecified,
        IpAddress::Ipv4(addr) => smoltcp::wire::Ipv4Address(addr).into(),
        IpAddress::Ipv6(addr) => smoltcp::wire::Ipv6Address(addr).into(),
    };
    socket.send_slice(data, smoltcp::wire::IpEndpoint { addr, port: to.port })
}

} // verus!
