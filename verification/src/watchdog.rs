//! The watchdog state machine that drives repeated scans. It owns the pattern
//! buffer and the counters and moves through
//! `Initializing -> Sleeping <-> Scanning -> Terminated`. The surrounding
//! program supplies the timing: it sleeps between passes, performs the
//! page-pinning attempt, and delivers the operator interrupt; each of those
//! outcomes enters the machine as a plain value.

use vstd::prelude::*;

use crate::buffer::AllocationError;
use crate::buffer::Buffer;
use crate::buffer::Mismatch;
use crate::buffer::is_identity;
use crate::buffer::mismatches_of;
use crate::counters::Counters;
use crate::counters::sat_add;

verus! {

/// Where the watchdog stands in its lifecycle.
#[derive(Clone, Copy, Debug, PartialEq, Eq, Structural)]
pub enum Phase {
    /// The buffer is allocated; the page-pinning attempt has not been
    /// recorded yet.
    Initializing,
    /// Waiting for the inter-scan delay to expire.
    Sleeping,
    /// A scan pass is due.
    Scanning,
    /// The operator interrupt fired; the final report has been issued.
    Terminated,
}

/// The final report issued when the operator interrupt fires: the counter
/// totals accumulated over the whole run.
#[derive(Clone, Copy, Debug, PartialEq, Eq, Structural)]
pub struct Report {
    pub errors: u64,
    pub iterations: u64,
}

/// The watchdog: one pattern buffer, the cumulative counters, and the current
/// lifecycle phase.
pub struct Watchdog {
    buffer: Buffer,
    counters: Counters,
    phase: Phase,
}

impl Watchdog {
    /// The buffer's contents.
    pub closed spec fn contents(&self) -> Seq<usize> {
        self.buffer@
    }

    /// Total deviating positions found so far.
    pub closed spec fn error_count(&self) -> u64 {
        self.counters.error_count()
    }

    /// Total completed scan passes.
    pub closed spec fn iteration_count(&self) -> u64 {
        self.counters.iteration_count()
    }

    /// The current lifecycle phase.
    pub closed spec fn phase(&self) -> Phase {
        self.phase
    }

    /// Whether the buffer is confirmed pinned to physical RAM.
    pub closed spec fn pinned(&self) -> bool {
        self.buffer.pinned()
    }

    /// Allocates the pattern buffer for `size_in_bytes` bytes and starts the
    /// lifecycle in `Initializing` with both counters at zero. An allocation
    /// failure is fatal and is handed back to the caller.
    pub fn new(size_in_bytes: usize) -> (r: Result<Watchdog, AllocationError>)
        ensures
            match r {
                Ok(w) => {
                    &&& w.phase() is Initializing
                    &&& w.contents().len() == size_in_bytes / crate::buffer::WORD_BYTES
                    &&& is_identity(w.contents())
                    &&& !w.pinned()
                    &&& w.error_count() == 0
                    &&& w.iteration_count() == 0
                },
                Err(e) => e == (AllocationError {}),
            },
    {
        let buffer = match Buffer::new(size_in_bytes) {
            Ok(b) => b,
            Err(e) => {
                return Err(e);
            },
        };
        Ok(Watchdog { buffer, counters: Counters::new(), phase: Phase::Initializing })
    }

    /// The buffer's words as a slice, for the surrounding program to hand to
    /// the page-pinning system call while initializing.
    pub fn buffer_words(&self) -> (s: &[usize])
        ensures
            s@ == self.contents(),
    {
        self.buffer.words()
    }

    /// Records the outcome of the best-effort page-pinning attempt and leaves
    /// `Initializing` for `Sleeping`. A failed attempt is not fatal: the run
    /// proceeds identically, only without the residency guarantee.
    pub fn record_pin_outcome(&mut self, ok: bool)
        requires
            old(self).phase() is Initializing,
        ensures
            final(self).phase() is Sleeping,
            final(self).pinned() == ok,
            final(self).contents() == old(self).contents(),
            final(self).error_count() == old(self).error_count(),
            final(self).iteration_count() == old(self).iteration_count(),
    {
        self.buffer.record_pin_outcome(ok);
        self.phase = Phase::Sleeping;
    }

    /// The inter-scan delay expired: leave `Sleeping` for `Scanning`.
    pub fn wake(&mut self)
        requires
            old(self).phase() is Sleeping,
        ensures
            final(self).phase() is Scanning,
            final(self).contents() == old(self).contents(),
            final(self).pinned() == old(self).pinned(),
            final(self).error_count() == old(self).error_count(),
            final(self).iteration_count() == old(self).iteration_count(),
    {
        self.phase = Phase::Scanning;
    }

    /// Runs one scan pass and accounts for it: every deviating word is
    /// reported and healed, the pass counter grows by one, the error counter
    /// by the number of deviations found, and the machine goes back to
    /// `Sleeping`.
    pub fn run_scan(&mut self) -> (r: Vec<Mismatch>)
        requires
            old(self).phase() is Scanning,
        ensures
            r@ == mismatches_of(old(self).contents()),
            final(self).contents().len() == old(self).contents().len(),
            is_identity(final(self).contents()),
            final(self).pinned() == old(self).pinned(),
            final(self).error_count() == sat_add(old(self).error_count(), r@.len() as u64),
            final(self).iteration_count() == sat_add(old(self).iteration_count(), 1),
            final(self).error_count() >= old(self).error_count(),
            final(self).iteration_count() >= old(self).iteration_count(),
            final(self).phase() is Sleeping,
    {
        let found = self.buffer.scan();
        self.counters.record_scan(found.len());
        self.phase = Phase::Sleeping;
        found
    }

    /// The operator interrupt fired: reads the counter totals for the final
    /// report, gives up the buffer's residency claim so the pages can be
    /// unpinned, and terminates the lifecycle. The interrupt may arrive in
    /// any phase before termination; buffer contents are never touched.
    pub fn interrupt(&mut self) -> (rep: Report)
        requires
            !(old(self).phase() is Terminated),
        ensures
            rep.errors == old(self).error_count(),
            rep.iterations == old(self).iteration_count(),
            final(self).phase() is Terminated,
            final(self).contents() == old(self).contents(),
            !final(self).pinned(),
            final(self).error_count() == old(self).error_count(),
            final(self).iteration_count() == old(self).iteration_count(),
    {
        let rep = Report {
            errors: self.counters.errors_found(),
            iterations: self.counters.iterations_done(),
        };
        self.buffer.release();
        self.phase = Phase::Terminated;
        rep
    }

    /// The current lifecycle phase.
    pub fn current_phase(&self) -> (p: Phase)
        ensures
            p == self.phase(),
    {
        self.phase
    }

    /// Reads the error counter, for per-iteration log lines.
    pub fn errors_found(&self) -> (n: u64)
        ensures
            n == self.error_count(),
    {
        self.counters.errors_found()
    }

    /// Reads the pass counter, for per-iteration log lines.
    pub fn iterations_done(&self) -> (n: u64)
        ensures
            n == self.iteration_count(),
    {
        self.counters.iterations_done()
    }
}

} // verus!
