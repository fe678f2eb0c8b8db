//! UDP streams.
use smoltcp::socket::UdpSocket;
use std::task::Waker;
use vstd::prelude::*;

use crate::address::{AddrPair, SocketAddr};
use crate::dispatch;
use crate::dispatch::{Close, HalfClose, QueueRequest, SocketHandle};
use crate::poll;
use crate::poll::{IoError, Poll, SharedState};
use crate::socket;
use crate::socket::error;
use crate::socket::udp;
use crate::socket::{IpEndpoint, SocketError};
use crate::stream::WriteStep;

verus! {

/// A socket and what its users have to know about the dispatch queue.
pub struct UdpInner {
    pub udp: UdpSocket<'static>,
    /// Whether the connection is in the queue to be dispatched. If it is, what
    /// is written to the socket will be sent out; if it is not, the queue has
    /// to be told after writing.
    pub polling_active: bool,
}

/// The reading half of a UDP stream.
#[derive(Debug)]
pub struct UdpReadHalf {
    /// Whether the end of what the peer sent has been reported. Datagrams have
    /// no end, so it stays as it was made.
    eof_reached: bool,
    /// What is sent to the dispatch side when the half is dropped.
    shutdown_notice: HalfClose,
}

/// The writing half of a UDP stream.
#[derive(Debug)]
pub struct UdpWriteHalf {
    /// The name of the socket.
    handle: SocketHandle,
    /// Whether the half has been closed.
    closed: bool,
    /// What is sent to the dispatch side when the half is dropped.
    shutdown_notice: HalfClose,
}

/// A UDP stream.
#[derive(Debug)]
pub struct UdpStream {
    pub writer: UdpWriteHalf,
    pub reader: UdpReadHalf,
    /// Local and peer address.
    pub addr: AddrPair,
}

/// What the two halves of a UDP stream share with the dispatch side.
pub struct UdpConnection {
    pub inner: UdpInner,
    pub addr: AddrPair,
    /// The task that waits for something to read.
    pub read_readiness: SharedState,
    /// The task that waits for room to write.
    pub write_readiness: SharedState,
}

/// What a reader answers when the datagrams in `waiting` have come, where
/// `readable` says whether the socket holds anything and `room` is there for
/// one datagram.
pub open spec fn udp_read_answer(readable: bool, waiting: Seq<Seq<u8>>, room: nat) -> Poll<
    Result<usize, IoError>,
> {
    if !readable {
        Poll::Ready(Ok(0))
    } else if waiting.len() == 0 {
        Poll::Ready(Err(IoError::Other(SocketError::Exhausted)))
    } else {
        Poll::Ready(Ok(socket::moved(waiting[0].len(), room) as usize))
    }
}

/// What a writer answers when sending gave `sent`, or was not tried: a closed
/// one that the connection is gone.
pub open spec fn udp_write_answer(closed: bool, sent: Option<Result<(), SocketError>>) -> Poll<
    Result<usize, IoError>,
> {
    match sent {
        Some(Ok(())) => Poll::Ready(Ok(1)),
        Some(Err(e)) => Poll::Ready(Err(IoError::Other(e))),
        None => if closed {
            Poll::Ready(Err(IoError::ConnectionAborted))
        } else {
            Poll::Pending
        },
    }
}

/// What sending gives when a writer tries to send `size` octets through `udp`,
/// which a closed one does not: the datagram goes to the endpoint that the
/// socket is bound to.
pub open spec fn udp_sending(closed: bool, udp: UdpSocket<'static>, size: nat) -> Option<
    Result<(), SocketError>,
> {
    if !closed && udp::udp_writable(udp) {
        Some(
            udp::udp_send_result(
                udp::udp_endpoint(udp),
                udp::udp_endpoint(udp),
                size,
                udp::udp_send_capacity(udp),
                udp::udp_has_room(udp, size),
            ),
        )
    } else {
        None
    }
}

impl UdpReadHalf {
    /// Whether the end of what the peer sent has been reported.
    pub closed spec fn eof_reached(&self) -> bool {
        self.eof_reached
    }

    /// What is sent to the dispatch side when the half is dropped.
    pub closed spec fn notice(&self) -> HalfClose {
        self.shutdown_notice
    }

    /// Makes a half, and its empty waker slot.
    pub fn new(shutdown_notice: HalfClose) -> (made: (Self, SharedState))
        ensures
            !made.0.eof_reached(),
            made.0.notice() == shutdown_notice,
            made.1.waker is None,
    {
        (UdpReadHalf { eof_reached: false, shutdown_notice }, SharedState { waker: None })
    }

    /// What is sent to the dispatch side when the half is dropped.
    pub fn shutdown_notice(&self) -> (notice: HalfClose)
        ensures
            notice == self.notice(),
    {
        self.shutdown_notice
    }

    /// Decides what a poll answers when receiving gave `received`, if it was
    /// tried.
    pub fn answer(&self, received: Option<Result<usize, SocketError>>) -> (poll: Poll<
        Result<usize, IoError>,
    >)
        ensures
            poll == (match received {
                Some(Err(e)) => Poll::Ready(Err(IoError::Other(e))),
                Some(Ok(n)) => Poll::Ready(Ok(n)),
                None => Poll::Ready(Ok(0)),
            }),
    {
        match received {
            Some(Ok(n)) => {
                if n > 0 {
                    return Poll::Ready(Ok(n));
                }
            },
            Some(Err(e)) => {
                return Poll::Ready(Err(IoError::Other(e)));
            },
            None => {},
        }
        Poll::Ready(Ok(0))
    }

    /// Reads one datagram from the socket into `buf`. What `buf` has no room
    /// for is lost.
    ///
    /// It never waits: where there is nothing to read it answers zero.
    pub fn poll_read_inner(&mut self, inner: &mut UdpInner, buf: &mut [u8]) -> (poll: Poll<
        Result<usize, IoError>,
    >)
        ensures
            poll == udp_read_answer(
                udp::udp_readable(old(inner).udp),
                udp::udp_received(old(inner).udp),
                old(buf)@.len(),
            ),
            udp::udp_received(old(inner).udp).len() > 0 ==> udp::udp_readable(old(inner).udp),
            poll matches Poll::Ready(Ok(n)) ==> n <= old(buf)@.len(),
            udp::udp_received(old(inner).udp).len() > 0 ==> {
                let datagram = udp::udp_received(old(inner).udp)[0];
                &&& poll matches Poll::Ready(Ok(n)) && {
                    &&& n == datagram.len() || n == old(buf)@.len()
                    &&& n <= datagram.len()
                    &&& final(buf)@.take(n as int) == datagram.take(n as int)
                    &&& final(buf)@.skip(n as int) == old(buf)@.skip(n as int)
                }
                &&& udp::udp_received(old(inner).udp) == seq![datagram] + udp::udp_received(
                    final(inner).udp,
                )
            },
            udp::udp_received(old(inner).udp).len() == 0 ==> {
                &&& poll == (if udp::udp_readable(old(inner).udp) {
                    Poll::Ready(Err::<usize, IoError>(IoError::Other(SocketError::Exhausted)))
                } else {
                    Poll::Ready(Ok(0))
                })
                &&& final(buf)@ == old(buf)@
                &&& udp::udp_received(final(inner).udp).len() == 0
            },
            final(buf)@.len() == old(buf)@.len(),
            udp::udp_outgoing(final(inner).udp) == udp::udp_outgoing(old(inner).udp),
            udp::udp_writable(final(inner).udp) == udp::udp_writable(old(inner).udp),
            ({
                let waiting = udp::udp_received(old(inner).udp);
                if waiting.len() > 0 {
                    let n = socket::moved(waiting[0].len(), old(buf)@.len()) as int;
                    &&& final(buf)@ == waiting[0].take(n) + old(buf)@.skip(n)
                    &&& udp::udp_received(final(inner).udp) == waiting.drop_first()
                } else {
                    &&& final(buf)@ == old(buf)@
                    &&& udp::udp_readable(old(inner).udp) || final(inner).udp == old(inner).udp
                    &&& !udp::udp_readable(final(inner).udp)
                    &&& udp::udp_received(final(inner).udp) == waiting
                }
            }),
            udp::udp_endpoint(final(inner).udp) == udp::udp_endpoint(old(inner).udp),
            udp::udp_send_capacity(final(inner).udp) == udp::udp_send_capacity(old(inner).udp),
            udp::same_sending_side(final(inner).udp, old(inner).udp),
            final(inner).polling_active == old(inner).polling_active,
            *final(self) == *old(self),
    {
        let received = if udp::can_recv(&inner.udp) {
            match udp::recv_slice(&mut inner.udp, buf) {
                Ok(n) => Some(Ok(n)),
                Err(e) => Some(Err(error::classify(e))),
            }
        } else {
            None
        };
        self.answer(received)
    }
}

impl UdpWriteHalf {
    /// The name of the socket.
    pub closed spec fn name(&self) -> SocketHandle {
        self.handle
    }

    /// What is sent to the dispatch side when the half is dropped.
    pub closed spec fn notice(&self) -> HalfClose {
        self.shutdown_notice
    }

    /// Whether the half has been closed.
    pub closed spec fn is_closed(&self) -> bool {
        self.closed
    }

    /// Makes an open half that writes to the socket `handle`, and its empty
    /// waker slot.
    pub fn new(handle: SocketHandle, shutdown_notice: HalfClose) -> (made: (Self, SharedState))
        ensures
            made.0.name() == handle,
            !made.0.is_closed(),
            made.0.notice() == shutdown_notice,
            made.1.waker is None,
    {
        (UdpWriteHalf { handle, closed: false, shutdown_notice }, SharedState { waker: None })
    }

    /// The name of the socket.
    pub fn handle(&self) -> (handle: SocketHandle)
        ensures
            handle == self.name(),
    {
        self.handle
    }

    /// What is sent to the dispatch side when the half is dropped.
    pub fn shutdown_notice(&self) -> (notice: HalfClose)
        ensures
            notice == self.notice(),
    {
        self.shutdown_notice
    }

    /// Decides what a poll answers and what it asks of the dispatch side when
    /// sending gave `sent`, if it was tried.
    ///
    /// A datagram that was sent counts as one.
    pub fn answer(&self, sent: Option<Result<(), SocketError>>, polling_active: bool) -> (step:
        WriteStep)
        ensures
            step.poll == udp_write_answer(self.is_closed(), sent),
            sent matches Some(Ok(_)) ==> step.poll == Poll::Ready(Ok::<usize, IoError>(1)),
            sent matches Some(Err(e)) ==> step.poll == Poll::Ready(
                Err::<usize, IoError>(IoError::Other(e)),
            ),
            sent is None && self.is_closed() ==> step.poll == Poll::Ready(
                Err::<usize, IoError>(IoError::ConnectionAborted),
            ),
            sent is None && !self.is_closed() ==> step.poll is Pending,
            step.request == (if sent matches Some(Err(_)) {
                None
            } else {
                dispatch::request_for(self.name(), polling_active)
            }),
            step.request is Some <==> !polling_active && !(sent matches Some(Err(_))),
            step.request matches Some(request) ==> request.handle == self.name(),
    {
        let poll = match sent {
            Some(Ok(())) => Poll::Ready(Ok(1)),
            Some(Err(e)) => {
                return WriteStep { poll: Poll::Ready(Err(IoError::Other(e))), request: None };
            },
            None => if self.closed {
                Poll::Ready(Err(IoError::ConnectionAborted))
            } else {
                Poll::Pending
            },
        };
        let request = dispatch::queue_request(self.handle, polling_active);
        WriteStep { poll, request }
    }

    /// Writes `buf` to the socket as one datagram, addressed to the endpoint
    /// that the socket is bound to. Once the half is closed nothing is written.
    ///
    /// Where the answer is `Pending`, `waker` is left in `shared_state`.
    pub fn poll_write_inner(
        &self,
        inner: &mut UdpInner,
        shared_state: &mut SharedState,
        waker: Waker,
        buf: &[u8],
    ) -> (step: WriteStep)
        ensures
            step.poll == udp_write_answer(
                self.is_closed(),
                udp_sending(self.is_closed(), old(inner).udp, buf@.len()),
            ),
            self.is_closed() ==> step.poll == Poll::Ready(
                Err::<usize, IoError>(IoError::ConnectionAborted),
            ),
            !self.is_closed() && buf@.len() == 0 && udp::udp_writable(old(inner).udp)
                && udp::udp_endpoint(old(inner).udp).is_specified() ==> step.poll == Poll::Ready(
                Ok::<usize, IoError>(1),
            ),
            ({
                let to = udp::udp_endpoint(old(inner).udp);
                let size = buf@.len();
                let fits = size <= udp::udp_send_capacity(old(inner).udp);
                let room = udp::udp_has_room(old(inner).udp, size);
                match step.poll {
                    Poll::Ready(Ok(n)) => {
                        &&& n == 1
                        &&& !self.is_closed() && udp::udp_writable(old(inner).udp)
                        &&& to.is_specified() && fits && room
                    },
                    Poll::Ready(Err(IoError::ConnectionAborted)) => self.is_closed(),
                    Poll::Ready(Err(IoError::Other(e))) => {
                        &&& !self.is_closed() && udp::udp_writable(old(inner).udp)
                        &&& !to.is_specified() || !fits || !room
                        &&& e == (if !to.is_specified() {
                            SocketError::Unaddressable
                        } else if !fits {
                            SocketError::Truncated
                        } else {
                            SocketError::Exhausted
                        })
                    },
                    Poll::Pending => !self.is_closed() && !udp::udp_writable(old(inner).udp),
                }
            }),
            step.request is Some <==> !old(inner).polling_active && !(
            step.poll matches Poll::Ready(Err(IoError::Other(_)))),
            step.request matches Some(request) ==> request.handle == self.name(),
            step.poll is Pending ==> final(shared_state).waker == Some(waker),
            step.poll is Ready ==> final(shared_state).waker == old(shared_state).waker,
            udp::udp_received(final(inner).udp) == udp::udp_received(old(inner).udp),
            udp::udp_readable(final(inner).udp) == udp::udp_readable(old(inner).udp),
            step.request == (if step.poll matches Poll::Ready(Err(IoError::Other(_))) {
                None
            } else {
                dispatch::request_for(self.name(), old(inner).polling_active)
            }),
            udp::udp_outgoing(final(inner).udp) == (if step.poll matches Poll::Ready(Ok(_)) {
                udp::udp_outgoing(old(inner).udp).push(
                    (buf@, udp::udp_endpoint(old(inner).udp)),
                )
            } else {
                udp::udp_outgoing(old(inner).udp)
            }),
            self.is_closed() || step.poll is Pending ==> final(inner).udp == old(inner).udp,
            step.poll matches Poll::Ready(Err(IoError::Other(e))) && e != SocketError::Exhausted
                ==> udp::same_sending_side(final(inner).udp, old(inner).udp),
            udp::udp_endpoint(final(inner).udp) == udp::udp_endpoint(old(inner).udp),
            udp::udp_send_capacity(final(inner).udp) == udp::udp_send_capacity(old(inner).udp),
            udp::same_receiving_side(final(inner).udp, old(inner).udp),
            final(inner).polling_active == old(inner).polling_active,
            final(shared_state).waker == poll::slot_after_poll(
                old(shared_state).waker,
                step.poll is Pending,
                waker,
            ),
    {
        let sent = if !self.closed && udp::can_send(&inner.udp) {
            let to: IpEndpoint = udp::endpoint(&inner.udp);
            match udp::send_slice(&mut inner.udp, buf, to) {
                Ok(()) => Some(Ok(())),
                Err(e) => Some(Err(error::classify(e))),
            }
        } else {
            None
        };
        let step = self.answer(sent, inner.polling_active);
        if let Poll::Pending = step.poll {
            shared_state.waker = Some(waker);
        }
        step
    }

    /// Closes the half and has the dispatch side visit the socket. The socket
    /// itself stays as it is: what it holds for others is still sent.
    pub fn poll_close_inner(&mut self, inner: &UdpInner) -> (request: Option<QueueRequest>)
        ensures
            request == dispatch::request_for(old(self).name(), inner.polling_active),
            request is Some <==> !inner.polling_active,
            request matches Some(request) ==> request.handle == old(self).name(),
            final(self).is_closed(),
            final(self).name() == old(self).name(),
            final(self).notice() == old(self).notice(),
    {
        self.closed = true;
        dispatch::queue_request(self.handle, inner.polling_active)
    }

    /// Closes the transmit half of the full-duplex connection.
    pub fn close(&mut self, inner: &UdpInner) -> (request: Option<QueueRequest>)
        ensures
            request == dispatch::request_for(old(self).name(), inner.polling_active),
            request is Some <==> !inner.polling_active,
            request matches Some(request) ==> request.handle == old(self).name(),
            final(self).is_closed(),
            final(self).name() == old(self).name(),
            final(self).notice() == old(self).notice(),
    {
        self.poll_close_inner(inner)
    }
}

impl UdpStream {
    /// Whether both halves belong to the stream's socket and report the end of
    /// their own side.
    pub open spec fn wf(&self) -> bool {
        &&& self.writer.name() == self.addr
        &&& self.writer.notice() == (HalfClose { handle: self.addr, close: Close::Write })
        &&& self.reader.notice() == (HalfClose { handle: self.addr, close: Close::Read })
    }

    /// Makes a stream over `udp`, and what it shares with the dispatch side.
    pub fn new(udp: UdpSocket<'static>, addr: AddrPair) -> (made: (UdpStream, UdpConnection))
        ensures
            made.0.wf(),
            made.0.addr == addr,
            made.0.writer.name() == addr,
            made.0.writer.notice() == (HalfClose { handle: addr, close: Close::Write }),
            made.0.reader.notice() == (HalfClose { handle: addr, close: Close::Read }),
            !made.0.reader.eof_reached(),
            !made.0.writer.is_closed(),
            made.1.inner.udp == udp,
            !made.1.inner.polling_active,
            made.1.addr == addr,
            made.1.read_readiness.waker is None,
            made.1.write_readiness.waker is None,
    {
        let inner = UdpInner { udp, polling_active: false };
        let (reader, read_readiness) = UdpReadHalf::new(
            HalfClose { handle: addr, close: Close::Read },
        );
        let (writer, write_readiness) = UdpWriteHalf::new(
            addr,
            HalfClose { handle: addr, close: Close::Write },
        );
        let stream = UdpStream { reader, writer, addr };
        let connection = UdpConnection { inner, addr, read_readiness, write_readiness };
        (stream, connection)
    }

    /// The reading half.
    pub fn reader(&mut self) -> (half: &mut UdpReadHalf)
        ensures
            *half == old(self).reader,
            *final(self) == (UdpStream { reader: *final(half), ..*old(self) }),
    {
        &mut self.reader
    }

    /// The writing half.
    pub fn writer(&mut self) -> (half: &mut UdpWriteHalf)
        ensures
            *half == old(self).writer,
            *final(self) == (UdpStream { writer: *final(half), ..*old(self) }),
    {
        &mut self.writer
    }

    /// Returns the local address that this stream is bound to.
    pub fn local_addr(&self) -> (addr: SocketAddr)
        ensures
            addr == self.addr.local,
    {
        self.addr.local
    }

    /// Returns the remote address that this stream is connected to.
    pub fn peer_addr(&self) -> (addr: SocketAddr)
        ensures
            addr == self.addr.peer,
    {
        self.addr.peer
    }

    /// Parts the stream into its halves.
    pub fn split(self) -> (halves: (UdpReadHalf, UdpWriteHalf))
        ensures
            halves.0 == self.reader,
            halves.1 == self.writer,
    {
        (self.reader, self.writer)
    }

    /// Closes the transmit half of the full-duplex connection.
    pub fn close(&mut self, inner: &UdpInner) -> (request: Option<QueueRequest>)
        ensures
            request == dispatch::request_for(old(self).writer.name(), inner.polling_active),
            request is Some <==> !inner.polling_active,
            request matches Some(request) ==> request.handle == old(self).writer.name(),
            final(self).writer.is_closed(),
            final(self).writer.name() == old(self).writer.name(),
            final(self).writer.notice() == old(self).writer.notice(),
            final(self).reader == old(self).reader,
            final(self).addr == old(self).addr,
    {
        self.writer.close(inner)
    }

    /// The text by which the stream is shown, where `addr` is the one by which
    /// its addresses are.
    pub fn fmt(&self, addr: &str) -> (text: String)
        ensures
            text@ == "UsUdpSteam("@ + addr@ + ")"@,
    {
        let mut text = "UsUdpSteam(".to_owned();
        text.append(addr);
        text.append(")");
        text
    }
}

} // verus!
