//! Single-host resource-pressure monitor core.
//!
//! The library holds the decision logic of the monitor: classifying
//! processes from their name and command line, deriving a discrete
//! memory-pressure level from configured thresholds, tracking how long
//! each process has been idle, selecting which processes may be
//! terminated, and deriving advisory strings from a snapshot.
//!
//! All quantities are plain integers: memory in mebibytes, CPU usage in
//! hundredths of a percent, time in milliseconds on a monotonic clock.
//! Reading the host's counters and process table, issuing terminations,
//! and all other I/O live outside the library; callers hand in the raw
//! values and carry out the decisions the library returns.

pub mod classify;
pub mod config;
pub mod idle;
pub mod policy;
pub mod pressure;
pub mod process;
pub mod render;
pub mod snapshot;
pub mod text;
