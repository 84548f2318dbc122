//! Cumulative scan accounting: how many deviating words have been found in
//! all scan passes to date, and how many passes have completed. Both counters
//! only ever grow; they saturate rather than wrap at the top of their range.

use vstd::prelude::*;

verus! {

/// `a + b`, saturating at `u64::MAX`.
pub open spec fn sat_add(a: u64, b: u64) -> u64 {
    if a + b <= u64::MAX {
        (a + b) as u64
    } else {
        u64::MAX
    }
}

/// The process-wide scan counters: total deviating positions found across all
/// scans, and total completed scan passes.
pub struct Counters {
    errors: u64,
    iterations: u64,
}

impl Counters {
    /// Total number of positions found deviating from their expected value,
    /// across all scan passes to date.
    pub closed spec fn error_count(&self) -> u64 {
        self.errors
    }

    /// Total number of completed scan passes.
    pub closed spec fn iteration_count(&self) -> u64 {
        self.iterations
    }

    /// Fresh counters: nothing scanned, nothing found.
    pub fn new() -> (c: Counters)
        ensures
            c.error_count() == 0,
            c.iteration_count() == 0,
    {
        Counters { errors: 0, iterations: 0 }
    }

    /// Accounts for one completed scan pass that found `mismatches` deviating
    /// positions: the pass counter grows by one and the error counter by
    /// `mismatches`, each saturating at `u64::MAX`. Neither counter ever
    /// decreases, and a pass that found nothing leaves the error count as it
    /// was.
    pub fn record_scan(&mut self, mismatches: usize)
        ensures
            final(self).error_count() == sat_add(old(self).error_count(), mismatches as u64),
            final(self).iteration_count() == sat_add(old(self).iteration_count(), 1),
            final(self).error_count() >= old(self).error_count(),
            final(self).iteration_count() > old(self).iteration_count()
                || old(self).iteration_count() == u64::MAX,
            mismatches == 0 ==> final(self).error_count() == old(self).error_count(),
    {
        if self.iterations < u64::MAX {
            self.iterations = self.iterations + 1;
        }
        let m = mismatches as u64;
        if self.errors <= u64::MAX - m {
            self.errors = self.errors + m;
        } else {
            self.errors = u64::MAX;
        }
    }

    /// Reads the error counter.
    pub fn errors_found(&self) -> (n: u64)
        ensures
            n == self.error_count(),
    {
        self.errors
    }

    /// Reads the pass counter.
    pub fn iterations_done(&self) -> (n: u64)
        ensures
            n == self.iteration_count(),
    {
        self.iterations
    }
}

} // verus!
