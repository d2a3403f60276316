//! Connection admission: a counting permit pool that bounds the number of
//! concurrently active client connections.

use vstd::prelude::*;

verus! {

/// A counting permit pool.  At most `max` permits are outstanding at any
/// time; a connection holds one permit for its whole lifetime.
pub struct Gate {
    pub active: usize,
    pub max: usize,
}

impl Gate {
    /// The pool never has more outstanding permits than its capacity.
    pub open spec fn wf(self) -> bool {
        self.active <= self.max
    }

    pub open spec fn active_count(self) -> nat {
        self.active as nat
    }

    pub open spec fn capacity(self) -> nat {
        self.max as nat
    }

    /// Whether a fresh admission attempt would succeed.
    pub open spec fn has_room(self) -> bool {
        self.active < self.max
    }

    /// A new pool with `max` permits, none of them taken.
    pub fn new(max: usize) -> (g: Gate)
        ensures
            g.wf(),
            g.capacity() == max,
            g.active_count() == 0,
    {
        Gate { active: 0, max }
    }

    /// Non-blocking admission attempt: takes a permit if one is free and
    /// says so; an exhausted pool is left unchanged.
    pub fn try_acquire(&mut self) -> (admitted: bool)
        requires
            old(self).wf(),
        ensures
            final(self).wf(),
            final(self).capacity() == old(self).capacity(),
            admitted == old(self).has_room(),
            admitted ==> final(self).active_count() == old(self).active_count() + 1,
            !admitted ==> *final(self) == *old(self),
    {
        if self.active < self.max {
            self.active = self.active + 1;
            true
        } else {
            false
        }
    }

    /// Returns a held permit to the pool.
    pub fn release(&mut self)
        requires
            old(self).wf(),
            old(self).active_count() >= 1,
        ensures
            final(self).wf(),
            final(self).capacity() == old(self).capacity(),
            final(self).active_count() == old(self).active_count() - 1,
    {
        self.active = self.active - 1;
    }
}

/// However admission attempts and releases are interleaved, the count of
/// outstanding permits never exceeds the pool's capacity: every operation
/// keeps `wf`, and an attempt on a full pool is refused and changes nothing.
pub proof fn lemma_capacity_never_exceeded(pre: Gate, post: Gate, admitted: bool)
    requires
        pre.wf(),
        admitted == pre.has_room(),
        admitted ==> post == (Gate { active: (pre.active + 1) as usize, max: pre.max }),
        !admitted ==> post == pre,
    ensures
        post.active_count() <= post.capacity(),
        pre.active_count() == pre.capacity() ==> !admitted && post == pre,
{
}

} // verus!
