//! The process sampler: one shared handle to the current process's accounting
//! record, and one sampling method per tracked metric.
//!
//! Each method re-reads its accounting view fresh, hands the result to the
//! verified callback in `metrics`, and so either reports the full set of
//! observations the metric owes or skips the cycle with the read error. The
//! handle is read-only and the methods keep no state between invocations, so
//! the reporting layer may invoke them concurrently and at its own cadence.

use vstd::prelude::*;

use crate::metrics::CallbackOutcome;
use crate::metrics::CpuMode;
use crate::metrics::CpuTimeObservation;
use crate::metrics::CtxSwitchObservation;
use crate::metrics::IoDirection;
use crate::metrics::IoObservation;
use crate::metrics::cpu_time_callback;
use crate::metrics::ctx_switches_callback;
use crate::metrics::disk_io_callback;
use crate::metrics::memory_usage_callback;
use crate::metrics::open_fds_callback;
use crate::metrics::thread_count_callback;
use crate::metrics::virtual_memory_callback;
use crate::source::clock_ticks_per_second;
use crate::source::read_fd_count;
use crate::source::read_io;
use crate::source::read_stat;
use crate::source::read_status;

verus! {

/// A sampler for the current process: the single shared accounting handle and
/// the seven per-metric sampling methods.
pub struct ProcessSampler {
    handle: procfs::process::Process,
}

impl ProcessSampler {
    /// Wraps a resolved accounting handle.
    pub(crate) fn from_handle(handle: procfs::process::Process) -> (r: ProcessSampler) {
        ProcessSampler { handle }
    }

    /// Samples CPU time: on a readable stat record, exactly two observations,
    /// user mode then system mode, both carrying the same live
    /// ticks-per-second constant.
    pub fn sample_cpu_time(&self) -> (r: CallbackOutcome<CpuTimeObservation>)
        ensures
            r matches CallbackOutcome::Report(obs) ==> {
                &&& obs@.len() == 2
                &&& obs@[0].mode == CpuMode::User
                &&& obs@[1].mode == CpuMode::System
                &&& obs@[0].ticks_per_second == obs@[1].ticks_per_second
            },
    {
        let read = read_stat(&self.handle);
        let ticks_per_second = clock_ticks_per_second();
        cpu_time_callback(read, ticks_per_second)
    }

    /// Samples physical memory: on a readable stat record, exactly one
    /// unlabelled byte-count observation.
    pub fn sample_memory_usage(&self) -> (r: CallbackOutcome<u64>)
        ensures
            r matches CallbackOutcome::Report(obs) ==> obs@.len() == 1,
    {
        memory_usage_callback(read_stat(&self.handle))
    }

    /// Samples virtual memory: on a readable stat record, exactly one
    /// unlabelled byte-count observation.
    pub fn sample_virtual_memory(&self) -> (r: CallbackOutcome<u64>)
        ensures
            r matches CallbackOutcome::Report(obs) ==> obs@.len() == 1,
    {
        virtual_memory_callback(read_stat(&self.handle))
    }

    /// Samples disk I/O: on readable I/O counters, exactly two cumulative
    /// observations, read direction then write direction.
    pub fn sample_disk_io(&self) -> (r: CallbackOutcome<IoObservation>)
        ensures
            r matches CallbackOutcome::Report(obs) ==> {
                &&& obs@.len() == 2
                &&& obs@[0].direction == IoDirection::Read
                &&& obs@[1].direction == IoDirection::Write
            },
    {
        disk_io_callback(read_io(&self.handle))
    }

    /// Samples the thread count: on a readable stat record, exactly one
    /// unlabelled signed observation.
    pub fn sample_thread_count(&self) -> (r: CallbackOutcome<i64>)
        ensures
            r matches CallbackOutcome::Report(obs) ==> obs@.len() == 1,
    {
        thread_count_callback(read_stat(&self.handle))
    }

    /// Samples the open-file-descriptor count: on a readable descriptor
    /// table, exactly one unlabelled unsigned observation.
    pub fn sample_open_fds(&self) -> (r: CallbackOutcome<u64>)
        ensures
            r matches CallbackOutcome::Report(obs) ==> obs@.len() == 1,
    {
        open_fds_callback(read_fd_count(&self.handle))
    }

    /// Samples context switches: on a readable status record, one cumulative
    /// observation per counter the record carries, voluntary before
    /// involuntary, and never more than two.
    pub fn sample_ctx_switches(&self) -> (r: CallbackOutcome<CtxSwitchObservation>)
        ensures
            r matches CallbackOutcome::Report(obs) ==> obs@.len() <= 2,
    {
        ctx_switches_callback(read_status(&self.handle))
    }
}

} // verus!
