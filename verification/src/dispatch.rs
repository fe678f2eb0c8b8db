//! What a stream asks of the side that moves packets.
use vstd::prelude::*;

use crate::address::AddrPair;

verus! {

/// The name by which the dispatch side knows a socket.
pub type SocketHandle = AddrPair;

/// A half of a stream.
#[derive(Clone, Copy, Debug, PartialEq, Eq)]
pub enum Close {
    Read,
    Write,
}

/// The news that a half of a stream is gone.
#[derive(Clone, Copy, Debug, PartialEq, Eq)]
pub struct HalfClose {
    pub handle: SocketHandle,
    pub close: Close,
}

/// When a socket is due to be visited by the dispatch side.
#[derive(Clone, Copy, Debug, PartialEq, Eq)]
pub enum PollAt {
    /// At once.
    Now,
    /// At that time, in milliseconds.
    Time(i64),
    /// Not before something comes in.
    Ingress,
}

/// The message that puts a socket into the dispatch queue.
#[derive(Clone, Copy, Debug, PartialEq, Eq)]
pub struct QueueUpdate {
    pub handle: SocketHandle,
    /// When the socket is due.
    pub poll_at: PollAt,
}

/// The request to put a socket into the dispatch queue. When the socket is due
/// is to be read off it, as the operation that made the request has left it.
#[derive(Clone, Copy, Debug, PartialEq, Eq)]
pub struct QueueRequest {
    pub handle: SocketHandle,
}

impl QueueRequest {
    /// The message that answers the request for a socket that is due at
    /// `poll_at`.
    pub fn due(self, poll_at: PollAt) -> (update: QueueUpdate)
        ensures
            update == (QueueUpdate { handle: self.handle, poll_at }),
    {
        QueueUpdate { handle: self.handle, poll_at }
    }
}

/// The request that a writer makes: none while the socket is in the queue.
pub open spec fn request_for(handle: SocketHandle, polling_active: bool) -> Option<QueueRequest> {
    if polling_active {
        None
    } else {
        Some(QueueRequest { handle })
    }
}

/// Requests that `handle` be put into the queue unless it is there already.
pub fn queue_request(handle: SocketHandle, polling_active: bool) -> (request: Option<QueueRequest>)
    ensures
        request == request_for(handle, polling_active),
        request is Some <==> !polling_active,
        request matches Some(made) ==> made.handle == handle,
{
    if !polling_active {
        Some(QueueRequest { handle })
    } else {
        None
    }
}

} // verus!
