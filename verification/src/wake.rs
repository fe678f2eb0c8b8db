//! Waking a task, and the record of it.
use std::task::Waker;
use vstd::prelude::*;

verus! {

/// A handle by which a task is woken.
#[verifier::external_type_specification]
#[verifier::external_body]
pub struct ExWaker(Waker);

/// The record that a task was woken. Only waking makes one.
pub struct Woken {
    by: Ghost<Waker>,
}

impl Woken {
    /// The handle by which the task was woken.
    pub closed spec fn waker(self) -> Waker {
        self.by@
    }
}

/// Calls `Waker::wake`.
///
/// Trusted: the task of `waker` is woken, and the answer is the record of it.
#[verifier::external_body]
pub(crate) fn wake(waker: Waker) -> (woken: Woken)
    ensures
        woken.waker() == waker,
{
    let woken = Woken { by: Ghost(waker) };
    waker.wake();
    woken
}

} // verus!
