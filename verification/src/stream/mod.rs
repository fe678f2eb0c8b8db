//! Streams: a reading and a writing half over one socket.
use vstd::prelude::*;

use crate::dispatch::QueueRequest;
use crate::poll::{IoError, Poll};

pub mod tcp;
pub mod udp;

pub use tcp::{TcpConnection, TcpInner, TcpReadHalf, TcpStream, TcpWriteHalf};
pub use udp::{UdpConnection, UdpInner, UdpReadHalf, UdpStream, UdpWriteHalf};

verus! {

/// What a poll of a writing half answers, and what it asks of the dispatch
/// side.
#[derive(Debug, PartialEq, Eq)]
pub struct WriteStep {
    pub poll: Poll<Result<usize, IoError>>,
    pub request: Option<QueueRequest>,
}

} // verus!
