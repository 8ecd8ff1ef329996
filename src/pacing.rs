//! One rate limiter shared by every download of a crawl: downloads start at
//! least a fixed interval apart, however many tasks ask at once.
use vstd::prelude::*;

verus! {

/// The spacing between download starts, in milliseconds.
pub const DOWNLOAD_SPACING_MS: u64 = 50;

/// Hands out start times, in milliseconds on the caller's clock, at least
/// `interval_ms` apart.
pub struct Pacer {
    pub interval_ms: u64,
    pub next_free_ms: u64,
}

/// The later of two instants.
pub open spec fn later(a: u64, b: u64) -> u64 {
    if a >= b {
        a
    } else {
        b
    }
}

/// The instant after `start` at which the next start may come.
pub open spec fn after_interval(start: u64, interval: u64) -> u64 {
    if start + interval > u64::MAX {
        u64::MAX
    } else {
        (start + interval) as u64
    }
}

impl Pacer {
    pub fn new(interval_ms: u64) -> (r: Pacer)
        ensures
            r.interval_ms == interval_ms,
            r.next_free_ms == 0,
    {
        Pacer { interval_ms, next_free_ms: 0 }
    }

    /// Books the earliest start at or after `now_ms` and returns how long the
    /// caller waits for it.
    pub fn book(&mut self, now_ms: u64) -> (wait: u64)
        ensures
            wait == later(now_ms, old(self).next_free_ms) - now_ms,
            final(self).next_free_ms == after_interval(later(now_ms, old(self).next_free_ms), old(self).interval_ms),
            final(self).interval_ms == old(self).interval_ms,
    {
        let start = if now_ms >= self.next_free_ms {
            now_ms
        } else {
            self.next_free_ms
        };
        self.next_free_ms = start.saturating_add(self.interval_ms);
        start - now_ms
    }
}

/// Two bookings one after the other start at least the interval apart,
/// short of the clock's last instant, whenever the second caller asks.
pub proof fn lemma_starts_spaced(interval: u64, free: u64, now1: u64, now2: u64)
    ensures
        ({
            let s1 = later(now1, free);
            let s2 = later(now2, after_interval(s1, interval));
            s1 + interval <= u64::MAX ==> s2 >= s1 + interval
        }),
{
}

} // verus!
