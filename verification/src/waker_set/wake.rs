//! Waking a task, and the record of it.
//!
//! Waking happens outside: what it does lies with the executor that made the
//! handle. So that contracts can still say which handles an operation woke,
//! every wake goes through a [`WakeLog`], which records it. Nothing else
//! writes the record, and nothing else in this crate wakes a handle.

use std::task::Waker;
use vstd::prelude::*;

verus! {

/// The wake handle of a task, as the task's executor hands it out.
#[verifier::external_type_specification]
#[verifier::external_body]
pub struct ExWaker(Waker);

/// Wakes the task that `waker` belongs to.
///
/// This is `std::task::Waker::wake`. What waking does lies with the executor
/// that made the handle, so nothing is claimed of it.
#[verifier::external_body]
fn wake_task(waker: Waker) {
    waker.wake()
}

/// The record of the handles that were woken through it, in the order in which
/// they were woken. It exists for the contracts only and takes no room in the
/// running program.
pub struct WakeLog {
    woken: Ghost<Seq<Waker>>,
}

impl View for WakeLog {
    type V = Seq<Waker>;

    closed spec fn view(&self) -> Seq<Waker> {
        self.woken@
    }
}

impl WakeLog {
    /// A record of no wake.
    pub fn new() -> (log: Self)
        ensures
            log@ == Seq::<Waker>::empty(),
    {
        WakeLog { woken: Ghost(Seq::empty()) }
    }

    /// Wakes the task that `waker` belongs to, and records that.
    pub fn wake(&mut self, waker: Waker)
        ensures
            final(self)@ == old(self)@.push(waker),
    {
        proof {
            self.woken@ = self.woken@.push(waker);
        }
        wake_task(waker);
    }
}

} // verus!
