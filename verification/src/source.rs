//! The OS process-accounting source, behind trusted wrappers.
//!
//! Every wrapper re-reads its accounting view fresh on each call; what comes
//! back depends on the live process, so no wrapper promises anything of the
//! values, and the verified callbacks in `metrics` take the results as
//! arguments instead. A failed read is converted to a [`ReadError`] carrying
//! the stringified cause.

use vstd::prelude::*;

use procfs::WithCurrentSystemInfo;

use crate::snapshot::IoSnapshot;
use crate::snapshot::ReadError;
use crate::snapshot::StatSnapshot;
use crate::snapshot::StatusSnapshot;

verus! {

/// The OS's live accounting record for one process; opaque here.
#[verifier::external_type_specification]
#[verifier::external_body]
pub struct ExProcess(procfs::process::Process);

/// Relies on procfs::process::Process::myself: resolves the accounting record
/// of the currently running process.
#[verifier::external_body]
pub(crate) fn resolve_current_process() -> (r: Result<procfs::process::Process, ReadError>) {
    match procfs::process::Process::myself() {
        Ok(process) => Ok(process),
        Err(e) => Err(ReadError { message: format!("{e}") }),
    }
}

/// Relies on procfs::process::Process::stat for the stat record, and on
/// procfs::core::Stat::rss_bytes for the resident set size in bytes (pages
/// times the current page size).
#[verifier::external_body]
pub(crate) fn read_stat(process: &procfs::process::Process) -> (r: Result<StatSnapshot, ReadError>) {
    match process.stat() {
        Ok(stat) => Ok(StatSnapshot {
            utime: stat.utime,
            stime: stat.stime,
            rss_bytes: stat.rss_bytes().get(),
            vsize: stat.vsize,
            num_threads: stat.num_threads,
        }),
        Err(e) => Err(ReadError { message: format!("{e}") }),
    }
}

/// Relies on procfs::process::Process::io for the cumulative I/O counters.
#[verifier::external_body]
pub(crate) fn read_io(process: &procfs::process::Process) -> (r: Result<IoSnapshot, ReadError>) {
    match process.io() {
        Ok(io) => Ok(IoSnapshot { read_bytes: io.read_bytes, write_bytes: io.write_bytes }),
        Err(e) => Err(ReadError { message: format!("{e}") }),
    }
}

/// Relies on procfs::process::Process::status for the context-switch
/// counters, each optional in the record.
#[verifier::external_body]
pub(crate) fn read_status(process: &procfs::process::Process) -> (r: Result<
    StatusSnapshot,
    ReadError,
>) {
    match process.status() {
        Ok(status) => Ok(StatusSnapshot {
            voluntary_ctxt_switches: status.voluntary_ctxt_switches,
            nonvoluntary_ctxt_switches: status.nonvoluntary_ctxt_switches,
        }),
        Err(e) => Err(ReadError { message: format!("{e}") }),
    }
}

/// Relies on procfs::process::Process::fd_count for the number of open file
/// descriptors.
#[verifier::external_body]
pub(crate) fn read_fd_count(process: &procfs::process::Process) -> (r: Result<usize, ReadError>) {
    match process.fd_count() {
        Ok(count) => Ok(count),
        Err(e) => Err(ReadError { message: format!("{e}") }),
    }
}

/// Relies on procfs::ticks_per_second: the platform's clock-ticks-per-second
/// constant, queried live at each observation.
#[verifier::external_body]
pub(crate) fn clock_ticks_per_second() -> (r: u64) {
    procfs::ticks_per_second()
}

} // verus!
