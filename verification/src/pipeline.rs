use vstd::prelude::*;

verus! {

// The pipeline drives paths through resolutions with bounded parallelism:
// at most `capacity` resolutions are in flight at once, and after the
// first failure no further path is taken up. The caller performs the
// actual concurrent work; this account of free slots is what bounds it,
// since the caller may dispatch only when `can_dispatch` says so.

/// The slot accounting of one pipeline run.
pub struct Pipeline {
    /// How many resolutions may be in flight at once; fixed for the run.
    pub capacity: usize,
    /// How many resolutions are in flight now.
    pub in_flight: usize,
    /// Whether some resolution has failed; set once, never cleared.
    pub failed: bool,
}

impl Pipeline {
    /// The run's invariant: the in-flight count never exceeds the bound.
    pub open spec fn wf(self) -> bool {
        &&& self.capacity >= 1
        &&& self.in_flight <= self.capacity
    }

    /// A fresh run with the given parallelism bound and nothing in flight.
    pub fn new(capacity: usize) -> (r: Pipeline)
        requires
            capacity >= 1,
        ensures
            r.wf(),
            r.capacity == capacity,
            r.in_flight == 0,
            !r.failed,
    {
        Pipeline { capacity, in_flight: 0, failed: false }
    }

    /// Whether the caller may take up the next path: a slot must be free,
    /// and no resolution may have failed — the run is fail-fast, so after
    /// the first failure no further path is pulled from the walk.
    pub fn can_dispatch(&self) -> (r: bool)
        ensures
            r == (!self.failed && self.in_flight < self.capacity),
    {
        !self.failed && self.in_flight < self.capacity
    }

    /// Takes up one path: occupies a slot.
    pub fn dispatch(&mut self)
        requires
            old(self).wf(),
            !old(self).failed,
            old(self).in_flight < old(self).capacity,
        ensures
            final(self).wf(),
            final(self).in_flight == old(self).in_flight + 1,
            final(self).capacity == old(self).capacity,
            final(self).failed == old(self).failed,
    {
        self.in_flight = self.in_flight + 1;
    }

    /// Records one finished resolution: frees its slot, and remembers a
    /// failure for good.
    pub fn complete(&mut self, success: bool)
        requires
            old(self).wf(),
            old(self).in_flight >= 1,
        ensures
            final(self).wf(),
            final(self).in_flight == old(self).in_flight - 1,
            final(self).capacity == old(self).capacity,
            final(self).failed == (old(self).failed || !success),
    {
        self.in_flight = self.in_flight - 1;
        if !success {
            self.failed = true;
        }
    }

    /// Bounded concurrency: in every state the run's operations can reach,
    /// no more than `capacity` resolutions are in flight. `new` establishes
    /// the invariant and `dispatch` and `complete` preserve it, so it holds
    /// at every point of a run.
    pub proof fn lemma_bounded_concurrency(self)
        requires
            self.wf(),
        ensures
            self.in_flight <= self.capacity,
    {
    }
}

} // verus!
