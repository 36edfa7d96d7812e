//! A windowed event counter feeding the observability sparklines.
//!
//! Events increment a running count; every `interval_ms` the caller clears
//! the counter, which appends the finished window's count to a bounded
//! history. Time is handed in by the caller as a monotonic millisecond
//! clock.

use vstd::prelude::*;
use std::collections::VecDeque;

verus! {

/// A running event count with a bounded history of finished windows.
pub struct EventCounter {
    pub count: u64,
    pub last_clear: u64,
    pub interval: u64,
    pub history: VecDeque<u64>,
    pub max_history_size: usize,
}

/// The history after a clear: the running count is appended, and the
/// oldest window falls out once the bound is reached.
pub open spec fn spec_cleared_history(h: Seq<u64>, count: u64, max: usize) -> Seq<u64> {
    if h.len() == max && h.len() > 0 {
        h.subrange(1, h.len() as int).push(count)
    } else {
        h.push(count)
    }
}

impl EventCounter {
    pub fn new(interval_ms: u64, max_history_size: usize, now_ms: u64) -> (c: Self)
        ensures
            c.count == 0,
            c.last_clear == now_ms,
            c.interval == interval_ms,
            c.history@ == Seq::<u64>::empty(),
            c.max_history_size == max_history_size,
    {
        EventCounter {
            count: 0,
            last_clear: now_ms,
            interval: interval_ms,
            history: VecDeque::with_capacity(max_history_size),
            max_history_size,
        }
    }

    pub fn increment(&mut self)
        requires
            old(self).count < u64::MAX,
        ensures
            final(self).count == old(self).count + 1,
            final(self).last_clear == old(self).last_clear,
            final(self).interval == old(self).interval,
            final(self).history@ == old(self).history@,
            final(self).max_history_size == old(self).max_history_size,
    {
        self.count = self.count + 1;
    }

    pub fn get_count(&self) -> (r: u64)
        ensures
            r == self.count,
    {
        self.count
    }

    /// Finishes the current window: appends its count to the history,
    /// dropping the oldest entry once the bound is reached, and restarts
    /// the count and the clock.
    pub fn clear(&mut self, now_ms: u64)
        ensures
            final(self).count == 0,
            final(self).last_clear == now_ms,
            final(self).interval == old(self).interval,
            final(self).max_history_size == old(self).max_history_size,
            final(self).history@ == spec_cleared_history(
                old(self).history@,
                old(self).count,
                old(self).max_history_size,
            ),
    {
        if self.history.len() == self.max_history_size {
            self.history.pop_front();
        }
        self.history.push_back(self.count);
        self.count = 0;
        self.last_clear = now_ms;
    }

    /// Milliseconds elapsed since the window started; a clock reading
    /// from before the window counts as none.
    pub fn time_since_last_clear(&self, now_ms: u64) -> (r: u64)
        ensures
            r as int == (if now_ms >= self.last_clear {
                now_ms - self.last_clear
            } else {
                0int
            }),
    {
        now_ms.saturating_sub(self.last_clear)
    }

    /// Whether the current window has run for its full interval.
    pub fn should_clear(&self, now_ms: u64) -> (r: bool)
        ensures
            r == (now_ms >= self.last_clear && now_ms - self.last_clear >= self.interval
                || self.interval == 0),
    {
        self.time_since_last_clear(now_ms) >= self.interval
    }

    pub fn get_history(&self) -> (r: &VecDeque<u64>)
        ensures
            r@ == self.history@,
    {
        &self.history
    }
}

} // verus!
