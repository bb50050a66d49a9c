//! Bounded exponential backoff used while polling the shared-region flags.
//!
//! The schedule maps an attempt counter to a sleep length in milliseconds:
//! `0, 1, 4, 8, 16, 16, ...`, saturating at 16 ms. The counter advances on
//! every idle poll and is reset on meaningful progress. Performing the sleep
//! itself is left to the caller; this type only accounts for the schedule.

use vstd::prelude::*;

verus! {

/// Attempt counter for the backoff schedule; monotone until reset.
pub struct Backoff {
    count: u8,
}

/// The sleep length, in milliseconds, that the schedule assigns to an
/// attempt counter.
pub open spec fn delay_of_count(count: u8) -> u64 {
    if count == 0 {
        0
    } else if count == 1 {
        1
    } else if count == 2 {
        4
    } else if count == 3 {
        8
    } else {
        16
    }
}

impl Backoff {
    /// A fresh token: the next delay is zero.
    pub fn new() -> (r: Backoff)
        ensures
            r.spec_count() == 0,
    {
        Backoff { count: 0 }
    }

    /// The current attempt counter.
    pub closed spec fn spec_count(self) -> u8 {
        self.count
    }

    /// Restart the schedule after meaningful progress.
    pub fn reset(&mut self)
        ensures
            final(self).spec_count() == 0,
    {
        self.count = 0;
    }

    /// Advance the schedule by one idle poll and report how long the caller
    /// should sleep, in milliseconds, before polling again.
    pub fn delay_millis(&mut self) -> (ms: u64)
        ensures
            ms == delay_of_count(old(self).spec_count()),
            final(self).spec_count() == if old(self).spec_count() == 255 {
                255u8
            } else {
                (old(self).spec_count() + 1) as u8
            },
    {
        let ms: u64 = match self.count {
            0 => 0,
            1 => 1,
            2 => 4,
            3 => 8,
            _ => 16,
        };
        if self.count < 255 {
            self.count = self.count + 1;
        }
        ms
    }
}

impl Default for Backoff {
    /// A fresh token, as `new` gives.
    fn default() -> (r: Backoff)
        ensures
            r.spec_count() == 0,
    {
        Backoff::new()
    }
}

} // verus!
