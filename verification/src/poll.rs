//! What a poll answers, and the slot for the task that waits for more.
use std::task::Waker;
use vstd::prelude::*;

use crate::socket::SocketError;
use crate::wake;
use crate::wake::Woken;

verus! {

/// The answer of an operation that may have to be tried again.
#[derive(Debug, PartialEq, Eq)]
pub enum Poll<T> {
    /// The operation is done.
    Ready(T),
    /// The operation has to be tried again later.
    Pending,
}

/// Why reading or writing failed.
#[derive(Clone, Copy, Debug, PartialEq, Eq)]
pub enum IoError {
    /// The connection is gone.
    ConnectionAborted,
    /// The network stack refused.
    Other(SocketError),
}

/// The slot in which a half of a stream leaves its task to be woken.
#[derive(Debug)]
pub struct SharedState {
    pub waker: Option<Waker>,
}

/// What the slot holds after a poll by the task of `waker`: the task that has
/// to wait takes the place of whoever waited before.
pub open spec fn slot_after_poll(slot: Option<Waker>, pending: bool, waker: Waker) -> Option<
    Waker,
> {
    if pending {
        Some(waker)
    } else {
        slot
    }
}

/// Whether `woken` is the record that the task in `slot`, and nobody else, was
/// woken.
pub open spec fn wakes(slot: Option<Waker>, woken: Option<Woken>) -> bool {
    match woken {
        Some(record) => slot == Some(record.waker()),
        None => slot is None,
    }
}

impl SharedState {
    /// Wakes the task that waits, if there is one, and forgets it.
    pub fn wake_once(&mut self) -> (woken: Option<Woken>)
        ensures
            final(self).waker is None,
            wakes(old(self).waker, woken),
            woken is Some <==> old(self).waker is Some,
            woken matches Some(record) ==> old(self).waker == Some(record.waker()),
    {
        match self.waker.take() {
            Some(waker) => Some(wake::wake(waker)),
            None => None,
        }
    }
}

} // verus!
