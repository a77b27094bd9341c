use vstd::prelude::*;

verus! {

/// How many per-entry operations a run lets proceed at once.
pub const CONCURRENCY_CEILING: u64 = 15;

/// Counts the per-entry operations in progress against a fixed ceiling; an
/// operation proceeds only once it holds a slot.
pub struct SlotGauge {
    ceiling: u64,
    active: u64,
    peak: u64,
}

impl SlotGauge {
    /// The most operations allowed at once.
    pub closed spec fn ceiling(&self) -> nat {
        self.ceiling as nat
    }

    /// The operations holding a slot now.
    pub closed spec fn active(&self) -> nat {
        self.active as nat
    }

    /// The most operations that held a slot at one time so far.
    pub closed spec fn peak(&self) -> nat {
        self.peak as nat
    }

    /// No more slots are held than the ceiling allows, now or ever before.
    pub closed spec fn wf(&self) -> bool {
        &&& 0 < self.ceiling
        &&& self.active <= self.peak <= self.ceiling
    }

    /// A gauge with no slot held.
    pub fn new(ceiling: u64) -> (r: SlotGauge)
        requires
            ceiling > 0,
        ensures
            r.wf(),
            r.ceiling() == ceiling,
            r.active() == 0,
            r.peak() == 0,
    {
        SlotGauge { ceiling, active: 0, peak: 0 }
    }

    /// Takes a slot where one is free; tells whether it did.
    pub fn try_acquire(&mut self) -> (r: bool)
        requires
            old(self).wf(),
        ensures
            final(self).wf(),
            r == (old(self).active() < old(self).ceiling()),
            final(self).ceiling() == old(self).ceiling(),
            final(self).active() == old(self).active() + (if r { 1int } else { 0int }),
            final(self).peak() == (if r && old(self).active() + 1 > old(self).peak() {
                old(self).active() + 1
            } else {
                old(self).peak()
            }),
    {
        if self.active < self.ceiling {
            self.active = self.active + 1;
            if self.active > self.peak {
                self.peak = self.active;
            }
            true
        } else {
            false
        }
    }

    /// Gives a slot back.
    pub fn release(&mut self)
        requires
            old(self).wf(),
            old(self).active() > 0,
        ensures
            final(self).wf(),
            final(self).ceiling() == old(self).ceiling(),
            final(self).active() == old(self).active() - 1,
            final(self).peak() == old(self).peak(),
    {
        self.active = self.active - 1;
    }

    /// The operations holding a slot now.
    pub fn active_count(&self) -> (r: u64)
        ensures
            r == self.active(),
    {
        self.active
    }

    /// The most operations that held a slot at one time so far.
    pub fn peak_count(&self) -> (r: u64)
        ensures
            r == self.peak(),
    {
        self.peak
    }
}

/// However slots are taken and given back, no more operations proceed at
/// once than the ceiling allows.
pub proof fn concurrency_is_bounded(g: SlotGauge)
    requires
        g.wf(),
    ensures
        g.active() <= g.ceiling(),
        g.peak() <= g.ceiling(),
{
}

} // verus!
