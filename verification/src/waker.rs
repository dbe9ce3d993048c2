//! The waker of an actor's task, with a count of the wake-ups sent through it.
use std::task::Waker;
use vstd::prelude::*;

verus! {

#[verifier::external_type_specification]
#[verifier::external_body]
pub struct ExWaker(Waker);

/// A stored waker and the number of times it has been woken since it was
/// stored. Only `wake`, which makes the call, raises the count.
pub struct TaskWaker {
    waker: Waker,
    woken: Ghost<nat>,
}

impl TaskWaker {
    /// The waker.
    pub closed spec fn waker(&self) -> Waker {
        self.waker
    }

    /// How many times the waker has been woken since it was stored.
    pub closed spec fn woken(&self) -> nat {
        self.woken@
    }

    /// Stores a waker that has not been woken through this handle yet.
    pub fn new(waker: Waker) -> (res: Self)
        ensures
            res.waker() == waker,
            res.woken() == 0,
    {
        TaskWaker { waker, woken: Ghost(0) }
    }

    /// Calls `std::task::Waker::wake_by_ref`, which wakes the task that the
    /// waker belongs to without consuming the waker. Claimed: the waker stays
    /// the same and the count of wake-ups rises by one. What waking does is up
    /// to the executor; nothing is claimed of it.
    #[verifier::external_body]
    pub(crate) fn wake(&mut self)
        ensures
            final(self).waker() == old(self).waker(),
            final(self).woken() == old(self).woken() + 1,
    {
        self.waker.wake_by_ref();
    }
}

} // verus!
