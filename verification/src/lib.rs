//! Streams over a user-space network stack.
//!
//! The crate holds the decisions of a TCP or UDP stream: what a poll of the
//! reading or the writing half answers, what it does to the socket below, when
//! the task has to be woken later and when the dispatch queue has to be told.
//! Locks, channels and the async runtime are the caller's: every operation
//! takes the socket that the caller has locked and returns what is left to do.
pub mod address;
pub mod calls;
pub mod dispatch;
pub mod laws;
pub mod listener;
pub mod poll;
pub mod socket;
pub mod stream;
pub mod wake;

pub use address::{AddrPair, SocketAddr, SocketAddrV4, SocketAddrV6};
pub use dispatch::{Close, HalfClose, PollAt, QueueRequest, QueueUpdate, SocketHandle};
pub use listener::{TcpListener, TunError};
pub use poll::{IoError, Poll, SharedState};
pub use socket::{IpAddress, IpEndpoint, SocketError, TcpState};
pub use stream::{
    TcpConnection, TcpInner, TcpReadHalf, TcpStream, TcpWriteHalf, UdpConnection, UdpInner,
    UdpReadHalf, UdpStream, UdpWriteHalf, WriteStep,
};
pub use wake::Woken;
