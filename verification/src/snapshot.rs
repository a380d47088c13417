//! Plain-value models of the OS accounting records that the sampler reads.
//!
//! Each snapshot holds exactly the fields of the corresponding per-process
//! accounting view that the metric mapping consumes; a fresh snapshot is taken
//! on every callback invocation, and nothing is cached between invocations.

use vstd::prelude::*;

verus! {

/// The fields of the per-process stat record that the sampler reads.
#[derive(Clone, Copy, Debug, PartialEq, Eq)]
pub struct StatSnapshot {
    /// CPU time spent in user mode, in clock ticks.
    pub utime: u64,
    /// CPU time spent in kernel mode, in clock ticks.
    pub stime: u64,
    /// Resident set size, in bytes.
    pub rss_bytes: u64,
    /// Virtual memory size, in bytes.
    pub vsize: u64,
    /// Number of threads; signed in the accounting record itself.
    pub num_threads: i64,
}

/// The cumulative per-process I/O counters.
#[derive(Clone, Copy, Debug, PartialEq, Eq)]
pub struct IoSnapshot {
    /// Bytes read from storage, cumulative.
    pub read_bytes: u64,
    /// Bytes written to storage, cumulative.
    pub write_bytes: u64,
}

/// The context-switch counters of the per-process status record.
///
/// Both counters are optional in the record: an absent counter means there is
/// nothing to report for that label, not that the read failed.
#[derive(Clone, Copy, Debug, PartialEq, Eq)]
pub struct StatusSnapshot {
    /// Voluntary context switches, cumulative, if the record carries them.
    pub voluntary_ctxt_switches: Option<u64>,
    /// Involuntary context switches, cumulative, if the record carries them.
    pub nonvoluntary_ctxt_switches: Option<u64>,
}

/// A failed read of one accounting view, carrying the stringified cause.
///
/// A read failure is never fatal to the sampler: the callback that hit it
/// skips its observations for that invocation and retries on the next one.
#[derive(Clone, Debug, PartialEq, Eq)]
pub struct ReadError {
    /// The stringified underlying error, as the warning log reports it.
    pub message: String,
}

} // verus!
