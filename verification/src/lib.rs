//! A physical-memory integrity watchdog: a large buffer is stamped with a
//! self-describing identity pattern and repeatedly rescanned; any word that
//! deviates from its expected value is reported and rewritten in place.
//!
//! The crate holds the verified core: the pattern buffer with its scan-and-
//! repair pass, the cumulative error and iteration counters, and the watchdog
//! state machine that drives repeated scans and answers an operator interrupt
//! with a final report. Sleeping, signal delivery, page pinning and logging
//! are left to the surrounding program, which hands their outcomes to the
//! state machine as plain values.

pub mod buffer;
pub mod counters;
pub mod watchdog;
