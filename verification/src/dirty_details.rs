//! Tracking whether a fixture's on-device color may differ from the desired
//! color.
//!
//! The flag is set whenever the desired color changes and cleared by a
//! successful write. Independently of the flag, a fixture counts as dirty
//! again once more than 10 seconds have passed since the last successful
//! write, so silently dropped writes heal without acknowledgments. Time is
//! handed in by the caller as a monotonic millisecond clock.

use vstd::prelude::*;

verus! {

/// Dirty flag and the time of the last successful write.
#[derive(Clone, Copy, Debug, PartialEq, Eq, Structural)]
pub struct DirtyDetails {
    pub dirty: bool,
    pub last_clean_time: u64,
}

/// Whether a write is due: the flag is set, or more than 10 whole seconds
/// have passed since the last clean. A clock reading from before the last
/// clean counts as no elapsed time.
pub open spec fn spec_is_dirty(d: DirtyDetails, now_ms: u64) -> bool {
    d.dirty || (now_ms >= d.last_clean_time && (now_ms - d.last_clean_time) / 1000 > 10)
}

impl DirtyDetails {
    /// A fresh tracker is dirty, so the first connection writes the color
    /// out even if it never changes.
    pub fn new(now_ms: u64) -> (d: Self)
        ensures
            d.dirty,
            d.last_clean_time == now_ms,
    {
        Self { dirty: true, last_clean_time: now_ms }
    }

    /// Records a successful write at the given time.
    pub fn clean(&mut self, now_ms: u64)
        ensures
            !final(self).dirty,
            final(self).last_clean_time == now_ms,
    {
        self.dirty = false;
        self.last_clean_time = now_ms;
    }

    /// Whether a write is due now.
    pub fn is_dirty(&self, now_ms: u64) -> (r: bool)
        ensures
            r == spec_is_dirty(*self, now_ms),
    {
        self.dirty || now_ms.saturating_sub(self.last_clean_time) / 1000 > 10
    }

    /// Marks the desired color as changed.
    pub fn dirty(&mut self)
        ensures
            final(self).dirty,
            final(self).last_clean_time == old(self).last_clean_time,
    {
        self.dirty = true;
    }
}

/// Law: once 11 seconds have passed since the last clean, the tracker
/// reports dirty whatever the flag holds.
pub proof fn lemma_staleness_reasserts(d: DirtyDetails, now_ms: u64)
    requires
        now_ms >= d.last_clean_time + 11000,
    ensures
        spec_is_dirty(d, now_ms),
{
}

} // verus!
