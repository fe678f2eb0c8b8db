//! The sockets of the network stack, and what is relied on of them.
pub mod error;
pub mod tcp;
pub mod udp;

pub use error::SocketError;
pub use tcp::TcpState;
pub use udp::{IpAddress, IpEndpoint};

use vstd::prelude::*;

verus! {

/// How many of `available` octets move where there is room for `room`.
pub open spec fn moved(available: nat, room: nat) -> nat {
    if available <= room {
        available
    } else {
        room
    }
}

/// How much room is left where `held` of `capacity` octets are taken.
pub open spec fn room_left(held: nat, capacity: nat) -> nat {
    if held <= capacity {
        (capacity - held) as nat
    } else {
        0
    }
}

} // verus!
