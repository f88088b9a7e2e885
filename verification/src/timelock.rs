use vstd::prelude::*;

verus! {

/// The claim window of an escrow: the taker may withdraw while the current
/// time lies in `[start, end]` (both ends inclusive); the maker may reclaim
/// strictly after `end`.
#[derive(Clone, Copy, PartialEq, Eq, Structural, Debug)]
pub struct Timelock {
    pub start: u64,
    pub end: u64,
}

impl Timelock {
    /// A window is well formed when its bounds are ordered.
    pub open spec fn wf(self) -> bool {
        self.start <= self.end
    }

    /// The time `t` lies strictly before the window opens.
    pub open spec fn spec_is_before_start(self, t: u64) -> bool {
        t < self.start
    }

    /// The time `t` lies inside the window, both ends inclusive.
    pub open spec fn spec_is_active(self, t: u64) -> bool {
        self.start <= t && t <= self.end
    }

    /// The time `t` lies strictly after the window closes.
    pub open spec fn spec_is_expired(self, t: u64) -> bool {
        t > self.end
    }

    pub fn new(start: u64, end: u64) -> (lock: Self)
        ensures
            lock.start == start,
            lock.end == end,
    {
        Timelock { start, end }
    }

    pub fn is_active(&self, now: u64) -> (active: bool)
        ensures
            active == self.spec_is_active(now),
    {
        self.start <= now && now <= self.end
    }

    pub fn is_expired(&self, now: u64) -> (expired: bool)
        ensures
            expired == self.spec_is_expired(now),
    {
        now > self.end
    }

    pub fn is_before_start(&self, now: u64) -> (before: bool)
        ensures
            before == self.spec_is_before_start(now),
    {
        now < self.start
    }
}

/// Window exclusivity: over a well-formed window, every time `t` satisfies
/// exactly one of `is_before_start`, `is_active` and `is_expired`, so the
/// claim window and the reclaim window are adjacent without overlap or gap.
pub proof fn lemma_window_exclusive(lock: Timelock, t: u64)
    requires
        lock.wf(),
    ensures
        lock.spec_is_before_start(t) || lock.spec_is_active(t) || lock.spec_is_expired(t),
        lock.spec_is_before_start(t) ==> !lock.spec_is_active(t) && !lock.spec_is_expired(t),
        lock.spec_is_active(t) ==> !lock.spec_is_before_start(t) && !lock.spec_is_expired(t),
        lock.spec_is_expired(t) ==> !lock.spec_is_before_start(t) && !lock.spec_is_active(t),
{
}

} // verus!
