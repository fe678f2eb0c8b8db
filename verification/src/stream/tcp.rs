//! TCP streams.
use smoltcp::socket::TcpSocket;
use std::task::Waker;
use vstd::prelude::*;

use crate::address::{AddrPair, SocketAddr};
use crate::dispatch;
use crate::dispatch::{Close, HalfClose, QueueRequest, SocketHandle};
use crate::poll;
use crate::poll::{IoError, Poll, SharedState};
use crate::socket::error;
use crate::socket::tcp;
use crate::socket::tcp::TcpModel;
use crate::socket::{SocketError, TcpState};
use crate::stream::WriteStep;

verus! {

/// A socket and what its users have to know about the dispatch queue.
pub struct TcpInner {
    pub tcp: TcpSocket<'static>,
    /// Whether the connection is in the queue to be dispatched. If it is, what
    /// is written to the socket will be sent out; if it is not, the queue has
    /// to be told after writing.
    pub polling_active: bool,
}

/// The reading half of a TCP stream.
#[derive(Debug)]
pub struct TcpReadHalf {
    /// Whether the end of what the peer sent has been reported.
    eof_reached: bool,
    /// What is sent to the dispatch side when the half is dropped.
    shutdown_notice: HalfClose,
}

/// The writing half of a TCP stream.
#[derive(Debug)]
pub struct TcpWriteHalf {
    /// The name of the socket.
    handle: SocketHandle,
    /// What is sent to the dispatch side when the half is dropped.
    shutdown_notice: HalfClose,
}

/// A TCP stream.
#[derive(Debug)]
pub struct TcpStream {
    pub writer: TcpWriteHalf,
    pub reader: TcpReadHalf,
    /// Local and peer address.
    pub addr: AddrPair,
}

/// What the two halves of a TCP stream share with the dispatch side.
pub struct TcpConnection {
    pub inner: TcpInner,
    pub addr: AddrPair,
    /// The task that waits for something to read.
    pub read_readiness: SharedState,
    /// The task that waits for room to write.
    pub write_readiness: SharedState,
}

/// What a reader answers once nothing could be read: it waits while the peer
/// may still send or the handshake is not finished; then it reports the end
/// once, and after that that the connection is gone.
pub open spec fn nothing_to_read(may_recv: bool, state: TcpState, eof_reached: bool) -> Poll<
    Result<usize, IoError>,
> {
    if may_recv || state == TcpState::SynReceived {
        Poll::Pending
    } else if eof_reached {
        Poll::Ready(Err(IoError::ConnectionAborted))
    } else {
        Poll::Ready(Ok(0))
    }
}

/// Whether the end has been reported after a read answered `poll`.
pub open spec fn eof_after(eof_reached: bool, poll: Poll<Result<usize, IoError>>) -> bool {
    eof_reached || poll == Poll::Ready(Ok::<usize, IoError>(0))
}

/// What a reader answers when there is room for `room` octets.
pub open spec fn read_answer(model: TcpModel, room: nat, eof_reached: bool) -> Poll<
    Result<usize, IoError>,
> {
    if model.received.len() > 0 && room > 0 {
        Poll::Ready(Ok(model.read_size(room) as usize))
    } else {
        nothing_to_read(model.may_recv(), model.state, eof_reached)
    }
}

/// What a writer answers when `size` octets are offered.
pub open spec fn write_answer(model: TcpModel, size: nat) -> Poll<Result<usize, IoError>> {
    if !model.may_send() {
        Poll::Ready(Err(IoError::ConnectionAborted))
    } else if model.write_size(size) > 0 {
        Poll::Ready(Ok(model.write_size(size) as usize))
    } else {
        Poll::Pending
    }
}

impl TcpReadHalf {
    /// Whether the end of what the peer sent has been reported.
    pub closed spec fn eof_reached(&self) -> bool {
        self.eof_reached
    }

    /// What is sent to the dispatch side when the half is dropped.
    pub closed spec fn notice(&self) -> HalfClose {
        self.shutdown_notice
    }

    /// Makes a half that has reported nothing yet, and its empty waker slot.
    pub fn new(shutdown_notice: HalfClose) -> (made: (Self, SharedState))
        ensures
            !made.0.eof_reached(),
            made.0.notice() == shutdown_notice,
            made.1.waker is None,
    {
        (TcpReadHalf { eof_reached: false, shutdown_notice }, SharedState { waker: None })
    }

    /// What is sent to the dispatch side when the half is dropped.
    pub fn shutdown_notice(&self) -> (notice: HalfClose)
        ensures
            notice == self.notice(),
    {
        self.shutdown_notice
    }

    /// Decides what a poll answers.
    ///
    /// `received` is what receiving gave, if it was tried; `may_recv` and
    /// `state` are read off the socket afterwards.
    pub fn answer(
        &mut self,
        received: Option<Result<usize, SocketError>>,
        may_recv: bool,
        state: TcpState,
    ) -> (poll: Poll<Result<usize, IoError>>)
        ensures
            poll == (match received {
                Some(Err(e)) => Poll::Ready(Err(IoError::Other(e))),
                Some(Ok(n)) if n > 0 => Poll::Ready(Ok(n)),
                _ => nothing_to_read(may_recv, state, old(self).eof_reached()),
            }),
            !(received matches Some(Err(_))) && !(received matches Some(Ok(n)) && n > 0) ==> {
                let more = may_recv || state == TcpState::SynReceived;
                &&& poll is Pending <==> more
                &&& poll == Poll::Ready(Ok::<usize, IoError>(0)) <==> !more && !old(
                    self,
                ).eof_reached()
                &&& poll == Poll::Ready(Err::<usize, IoError>(IoError::ConnectionAborted)) <==> !more
                    && old(self).eof_reached()
            },
            final(self).eof_reached() <==> old(self).eof_reached() || poll == Poll::Ready(
                Ok::<usize, IoError>(0),
            ),
            final(self).eof_reached() == eof_after(old(self).eof_reached(), poll),
            final(self).notice() == old(self).notice(),
    {
        match received {
            Some(Ok(n)) => {
                if n > 0 {
                    return Poll::Ready(Ok(n));
                }
            },
            Some(Err(e)) => {
                return Poll::Ready(Err(IoError::Other(e)));
            },
            None => {},
        }
        // The reader may be used before the handshake is finished.
        if may_recv || state == TcpState::SynReceived {
            return Poll::Pending;
        }
        if self.eof_reached {
            return Poll::Ready(Err(IoError::ConnectionAborted));
        }
        self.eof_reached = true;
        Poll::Ready(Ok(0))
    }

    /// Reads from the socket into `buf`.
    ///
    /// Where the answer is `Pending`, `waker` is left in `shared_state`.
    pub fn poll_read_inner(
        &mut self,
        inner: &mut TcpInner,
        shared_state: &mut SharedState,
        waker: Waker,
        buf: &mut [u8],
    ) -> (poll: Poll<Result<usize, IoError>>)
        ensures
            poll == read_answer(
                tcp::tcp_model(old(inner).tcp),
                old(buf)@.len(),
                old(self).eof_reached(),
            ),
            poll matches Poll::Ready(Ok(n)) ==> n <= old(buf)@.len(),
            ({
                let waiting = tcp::tcp_received(old(inner).tcp);
                let state = tcp::tcp_state(old(inner).tcp);
                let more = state == TcpState::SynReceived || state == TcpState::Established || state
                    == TcpState::FinWait1 || state == TcpState::FinWait2;
                match poll {
                    Poll::Ready(Ok(n)) => {
                        &&& n == waiting.len() || n == old(buf)@.len()
                        &&& waiting == final(buf)@.take(n as int) + tcp::tcp_received(
                            final(inner).tcp,
                        )
                        &&& final(buf)@.skip(n as int) == old(buf)@.skip(n as int)
                        &&& n == 0 ==> waiting.len() == 0 && !more && !old(self).eof_reached()
                    },
                    Poll::Ready(Err(e)) => {
                        &&& e == IoError::ConnectionAborted
                        &&& waiting.len() == 0 && !more && old(self).eof_reached()
                        &&& final(buf)@ == old(buf)@
                        &&& tcp::tcp_received(final(inner).tcp) == waiting
                    },
                    Poll::Pending => {
                        &&& if waiting.len() == 0 {
                            more
                        } else {
                            old(buf)@.len() == 0
                        }
                        &&& final(buf)@ == old(buf)@
                        &&& tcp::tcp_received(final(inner).tcp) == waiting
                    },
                }
            }),
            final(buf)@.len() == old(buf)@.len(),
            tcp::tcp_state(final(inner).tcp) == tcp::tcp_state(old(inner).tcp),
            tcp::tcp_outgoing(final(inner).tcp) == tcp::tcp_outgoing(old(inner).tcp),
            tcp::tcp_send_capacity(final(inner).tcp) == tcp::tcp_send_capacity(old(inner).tcp),
            tcp::tcp_fin_received(final(inner).tcp) == tcp::tcp_fin_received(old(inner).tcp),
            poll is Pending ==> final(shared_state).waker == Some(waker),
            poll is Ready ==> final(shared_state).waker == old(shared_state).waker,
            final(self).eof_reached() <==> old(self).eof_reached() || poll == Poll::Ready(
                Ok::<usize, IoError>(0),
            ),
            ({
                let model = tcp::tcp_model(old(inner).tcp);
                let n = model.read_size(old(buf)@.len()) as int;
                final(buf)@ == model.received.take(n) + old(buf)@.skip(n)
            }),
            tcp::tcp_model(final(inner).tcp) == tcp::tcp_model(old(inner).tcp).after_read(
                old(buf)@.len(),
            ),
            final(inner).polling_active == old(inner).polling_active,
            final(shared_state).waker == poll::slot_after_poll(
                old(shared_state).waker,
                poll is Pending,
                waker,
            ),
            final(self).eof_reached() == eof_after(old(self).eof_reached(), poll),
            final(self).notice() == old(self).notice(),
    {
        let received = if tcp::can_recv(&inner.tcp) {
            match tcp::recv_slice(&mut inner.tcp, buf) {
                Ok(n) => Some(Ok(n)),
                Err(e) => Some(Err(error::classify(e))),
            }
        } else {
            None
        };
        let may_recv = tcp::may_recv(&inner.tcp);
        let state = tcp::state(&inner.tcp);
        let poll = self.answer(received, may_recv, state);
        if let Poll::Pending = poll {
            shared_state.waker = Some(waker);
        }
        proof {
            let model = tcp::tcp_model(old(inner).tcp);
            assert(model.received.len() == 0 ==> model.after_read(old(buf)@.len()) =~= model);
        }
        poll
    }
}

impl TcpWriteHalf {
    /// The name of the socket.
    pub closed spec fn name(&self) -> SocketHandle {
        self.handle
    }

    /// What is sent to the dispatch side when the half is dropped.
    pub closed spec fn notice(&self) -> HalfClose {
        self.shutdown_notice
    }

    /// Makes a half that writes to the socket `handle`, and its empty waker
    /// slot.
    pub fn new(handle: SocketHandle, shutdown_notice: HalfClose) -> (made: (Self, SharedState))
        ensures
            made.0.name() == handle,
            made.0.notice() == shutdown_notice,
            made.1.waker is None,
    {
        (TcpWriteHalf { handle, shutdown_notice }, SharedState { waker: None })
    }

    /// The name of the socket.
    pub fn handle(&self) -> (handle: SocketHandle)
        ensures
            handle == self.name(),
    {
        self.handle
    }

    /// What is sent to the dispatch side when the half is dropped.
    pub fn shutdown_notice(&self) -> (notice: HalfClose)
        ensures
            notice == self.notice(),
    {
        self.shutdown_notice
    }

    /// Decides what a poll answers and what it asks of the dispatch side.
    ///
    /// `sent` is what sending gave, if it was tried; `may_send` is read off the
    /// socket afterwards.
    pub fn answer(
        &self,
        sent: Option<Result<usize, SocketError>>,
        may_send: bool,
        polling_active: bool,
    ) -> (step: WriteStep)
        ensures
            step.poll == (match sent {
                Some(Err(e)) => Poll::Ready(Err(IoError::Other(e))),
                Some(Ok(n)) if n > 0 => Poll::Ready(Ok(n)),
                _ => if may_send {
                    Poll::Pending
                } else {
                    Poll::Ready(Err(IoError::ConnectionAborted))
                },
            }),
            step.request == (if sent matches Some(Err(_)) {
                None
            } else {
                dispatch::request_for(self.name(), polling_active)
            }),
            step.request is Some <==> !polling_active && !(sent matches Some(Err(_))),
            step.request matches Some(request) ==> request.handle == self.name(),
    {
        let n = match sent {
            Some(Ok(n)) => n,
            Some(Err(e)) => {
                return WriteStep { poll: Poll::Ready(Err(IoError::Other(e))), request: None };
            },
            None => 0,
        };
        let request = dispatch::queue_request(self.handle, polling_active);
        let poll = if n > 0 {
            Poll::Ready(Ok(n))
        } else if !may_send {
            Poll::Ready(Err(IoError::ConnectionAborted))
        } else {
            Poll::Pending
        };
        WriteStep { poll, request }
    }

    /// Writes the front of `buf` to the socket.
    ///
    /// Where the answer is `Pending`, `waker` is left in `shared_state`.
    pub fn poll_write_inner(
        &self,
        inner: &mut TcpInner,
        shared_state: &mut SharedState,
        waker: Waker,
        buf: &[u8],
    ) -> (step: WriteStep)
        ensures
            step.poll == write_answer(tcp::tcp_model(old(inner).tcp), buf@.len()),
            step.poll matches Poll::Ready(Ok(n)) ==> 0 < n <= buf@.len(),
            ({
                let held = tcp::tcp_outgoing(old(inner).tcp);
                let holds = tcp::tcp_outgoing(final(inner).tcp);
                let capacity = tcp::tcp_send_capacity(old(inner).tcp);
                let state = tcp::tcp_state(old(inner).tcp);
                let open = state == TcpState::Established || state == TcpState::CloseWait;
                match step.poll {
                    Poll::Ready(Ok(n)) => {
                        &&& open
                        &&& holds == held + buf@.take(n as int)
                        &&& holds.len() <= capacity
                        &&& n == buf@.len() || holds.len() == capacity
                    },
                    Poll::Ready(Err(e)) => e == IoError::ConnectionAborted && !open && holds
                        == held,
                    Poll::Pending => open && (held.len() >= capacity || buf@.len() == 0) && holds
                        == held,
                }
            }),
            tcp::tcp_state(final(inner).tcp) == tcp::tcp_state(old(inner).tcp),
            tcp::tcp_received(final(inner).tcp) == tcp::tcp_received(old(inner).tcp),
            tcp::tcp_send_capacity(final(inner).tcp) == tcp::tcp_send_capacity(old(inner).tcp),
            tcp::tcp_fin_received(final(inner).tcp) == tcp::tcp_fin_received(old(inner).tcp),
            step.request is Some <==> !old(inner).polling_active,
            step.request matches Some(request) ==> request.handle == self.name(),
            step.poll is Pending ==> final(shared_state).waker == Some(waker),
            step.poll is Ready ==> final(shared_state).waker == old(shared_state).waker,
            step.request == dispatch::request_for(self.name(), old(inner).polling_active),
            tcp::tcp_model(final(inner).tcp) == tcp::tcp_model(old(inner).tcp).after_write(buf@),
            final(inner).polling_active == old(inner).polling_active,
            final(shared_state).waker == poll::slot_after_poll(
                old(shared_state).waker,
                step.poll is Pending,
                waker,
            ),
    {
        let sent = if tcp::can_send(&inner.tcp) {
            match tcp::send_slice(&mut inner.tcp, buf) {
                Ok(n) => Some(Ok(n)),
                Err(e) => Some(Err(error::classify(e))),
            }
        } else {
            None
        };
        let may_send = tcp::may_send(&inner.tcp);
        let step = self.answer(sent, may_send, inner.polling_active);
        if let Poll::Pending = step.poll {
            shared_state.waker = Some(waker);
        }
        proof {
            let model = tcp::tcp_model(old(inner).tcp);
            assert(model.write_size(buf@.len()) == 0 ==> model.after_write(buf@) =~= model);
        }
        step
    }

    /// Closes the sending side of the connection.
    pub fn poll_close_inner(&self, inner: &mut TcpInner) -> (request: Option<QueueRequest>)
        ensures
            request == dispatch::request_for(self.name(), old(inner).polling_active),
            request is Some <==> !old(inner).polling_active,
            request matches Some(request) ==> request.handle == self.name(),
            tcp::tcp_state(final(inner).tcp) == (match tcp::tcp_state(old(inner).tcp) {
                TcpState::Listen | TcpState::SynSent => TcpState::Closed,
                TcpState::SynReceived | TcpState::Established => TcpState::FinWait1,
                TcpState::CloseWait => TcpState::LastAck,
                ended => ended,
            }),
            tcp::tcp_received(final(inner).tcp) == tcp::tcp_received(old(inner).tcp),
            tcp::tcp_outgoing(final(inner).tcp) == tcp::tcp_outgoing(old(inner).tcp),
            tcp::tcp_send_capacity(final(inner).tcp) == tcp::tcp_send_capacity(old(inner).tcp),
            tcp::tcp_fin_received(final(inner).tcp) == tcp::tcp_fin_received(old(inner).tcp),
            tcp::tcp_model(final(inner).tcp) == tcp::tcp_model(old(inner).tcp).after_close(),
            final(inner).polling_active == old(inner).polling_active,
    {
        tcp::close(&mut inner.tcp);
        dispatch::queue_request(self.handle, inner.polling_active)
    }

    /// Closes the transmit half of the full-duplex connection.
    pub fn close(&mut self, inner: &mut TcpInner) -> (request: Option<QueueRequest>)
        ensures
            request == dispatch::request_for(old(self).name(), old(inner).polling_active),
            request is Some <==> !old(inner).polling_active,
            request matches Some(request) ==> request.handle == old(self).name(),
            tcp::tcp_state(final(inner).tcp) == (match tcp::tcp_state(old(inner).tcp) {
                TcpState::Listen | TcpState::SynSent => TcpState::Closed,
                TcpState::SynReceived | TcpState::Established => TcpState::FinWait1,
                TcpState::CloseWait => TcpState::LastAck,
                ended => ended,
            }),
            tcp::tcp_received(final(inner).tcp) == tcp::tcp_received(old(inner).tcp),
            tcp::tcp_outgoing(final(inner).tcp) == tcp::tcp_outgoing(old(inner).tcp),
            tcp::tcp_send_capacity(final(inner).tcp) == tcp::tcp_send_capacity(old(inner).tcp),
            tcp::tcp_fin_received(final(inner).tcp) == tcp::tcp_fin_received(old(inner).tcp),
            tcp::tcp_model(final(inner).tcp) == tcp::tcp_model(old(inner).tcp).after_close(),
            final(inner).polling_active == old(inner).polling_active,
            *final(self) == *old(self),
    {
        self.poll_close_inner(inner)
    }
}

impl TcpStream {
    /// Whether both halves belong to the stream's socket and report the end of
    /// their own side.
    pub open spec fn wf(&self) -> bool {
        &&& self.writer.name() == self.addr
        &&& self.writer.notice() == (HalfClose { handle: self.addr, close: Close::Write })
        &&& self.reader.notice() == (HalfClose { handle: self.addr, close: Close::Read })
    }

    /// Makes a stream over `tcp`, and what it shares with the dispatch side.
    pub fn new(tcp: TcpSocket<'static>, addr: AddrPair) -> (made: (TcpStream, TcpConnection))
        ensures
            made.0.wf(),
            made.0.addr == addr,
            made.0.writer.name() == addr,
            made.0.writer.notice() == (HalfClose { handle: addr, close: Close::Write }),
            made.0.reader.notice() == (HalfClose { handle: addr, close: Close::Read }),
            !made.0.reader.eof_reached(),
            made.1.inner.tcp == tcp,
            !made.1.inner.polling_active,
            made.1.addr == addr,
            made.1.read_readiness.waker is None,
            made.1.write_readiness.waker is None,
    {
        let inner = TcpInner { tcp, polling_active: false };
        let (reader, read_readiness) = TcpReadHalf::new(
            HalfClose { handle: addr, close: Close::Read },
        );
        let (writer, write_readiness) = TcpWriteHalf::new(
            addr,
            HalfClose { handle: addr, close: Close::Write },
        );
        let stream = TcpStream { reader, writer, addr };
        let connection = TcpConnection { inner, addr, read_readiness, write_readiness };
        (stream, connection)
    }

    /// The reading half.
    pub fn reader(&mut self) -> (half: &mut TcpReadHalf)
        ensures
            *half == old(self).reader,
            *final(self) == (TcpStream { reader: *final(half), ..*old(self) }),
    {
        &mut self.reader
    }

    /// The writing half.
    pub fn writer(&mut self) -> (half: &mut TcpWriteHalf)
        ensures
            *half == old(self).writer,
            *final(self) == (TcpStream { writer: *final(half), ..*old(self) }),
    {
        &mut self.writer
    }

    /// Returns the local address that this stream is bound to.
    pub fn local_addr(&self) -> (addr: SocketAddr)
        ensures
            addr == self.addr.local,
    {
        self.addr.local
    }

    /// Returns the remote address that this stream is connected to.
    pub fn peer_addr(&self) -> (addr: SocketAddr)
        ensures
            addr == self.addr.peer,
    {
        self.addr.peer
    }

    /// Parts the stream into its halves.
    pub fn split(self) -> (halves: (TcpReadHalf, TcpWriteHalf))
        ensures
            halves.0 == self.reader,
            halves.1 == self.writer,
    {
        (self.reader, self.writer)
    }

    /// Closes the transmit half of the full-duplex connection.
    pub fn close(&mut self, inner: &mut TcpInner) -> (request: Option<QueueRequest>)
        ensures
            request == dispatch::request_for(old(self).writer.name(), old(inner).polling_active),
            request is Some <==> !old(inner).polling_active,
            request matches Some(request) ==> request.handle == old(self).writer.name(),
            tcp::tcp_state(final(inner).tcp) == (match tcp::tcp_state(old(inner).tcp) {
                TcpState::Listen | TcpState::SynSent => TcpState::Closed,
                TcpState::SynReceived | TcpState::Established => TcpState::FinWait1,
                TcpState::CloseWait => TcpState::LastAck,
                ended => ended,
            }),
            tcp::tcp_received(final(inner).tcp) == tcp::tcp_received(old(inner).tcp),
            tcp::tcp_outgoing(final(inner).tcp) == tcp::tcp_outgoing(old(inner).tcp),
            tcp::tcp_send_capacity(final(inner).tcp) == tcp::tcp_send_capacity(old(inner).tcp),
            tcp::tcp_fin_received(final(inner).tcp) == tcp::tcp_fin_received(old(inner).tcp),
            tcp::tcp_model(final(inner).tcp) == tcp::tcp_model(old(inner).tcp).after_close(),
            final(inner).polling_active == old(inner).polling_active,
            *final(self) == *old(self),
    {
        self.writer.close(inner)
    }

    /// The text by which the stream is shown, where `addr` is the one by which
    /// its addresses are.
    pub fn fmt(&self, addr: &str) -> (text: String)
        ensures
            text@ == "UsTcpStream("@ + addr@ + ")"@,
    {
        let mut text = "UsTcpStream(".to_owned();
        text.append(addr);
        text.append(")");
        text
    }
}

} // verus!
