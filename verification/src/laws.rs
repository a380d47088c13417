//! Properties that hold across the callbacks and the instrument table, stated
//! over the same spec functions that the executable functions' contracts use.

use vstd::prelude::*;

use crate::instruments::InstrumentDescriptor;
use crate::instruments::instrument_table_ok;
use crate::metrics::CallbackOutcome;
use crate::metrics::CpuMode;
use crate::metrics::CpuTimeObservation;
use crate::metrics::CtxSwitchObservation;
use crate::metrics::IoDirection;
use crate::metrics::IoObservation;
use crate::metrics::cpu_observations_of;
use crate::metrics::cpu_time_outcome_ok;
use crate::metrics::ctx_counters_present;
use crate::metrics::ctx_switch_observations_of;
use crate::metrics::ctx_switches_outcome_ok;
use crate::metrics::disk_io_outcome_ok;
use crate::metrics::io_observations_of;
use crate::metrics::memory_observations_of;
use crate::metrics::memory_usage_outcome_ok;
use crate::metrics::open_fds_observations_of;
use crate::metrics::open_fds_outcome_ok;
use crate::metrics::thread_count_observations_of;
use crate::metrics::thread_count_outcome_ok;
use crate::metrics::virtual_memory_observations_of;
use crate::metrics::virtual_memory_outcome_ok;
use crate::snapshot::IoSnapshot;
use crate::snapshot::ReadError;
use crate::snapshot::StatSnapshot;
use crate::snapshot::StatusSnapshot;

verus! {

/// For a readable process, every metric owes exactly its documented
/// observations: two CPU-time observations (user then system), one physical-
/// and one virtual-memory byte count, two disk-I/O byte counts (read then
/// write), one thread count, one descriptor count, and one context-switch
/// count per counter present in the status record.
pub proof fn lemma_readable_process_observation_shape(
    stat: StatSnapshot,
    io: IoSnapshot,
    status: StatusSnapshot,
    fd_count: usize,
    ticks_per_second: u64,
)
    ensures
        cpu_observations_of(stat, ticks_per_second).len() == 2,
        cpu_observations_of(stat, ticks_per_second)[0].mode == CpuMode::User,
        cpu_observations_of(stat, ticks_per_second)[1].mode == CpuMode::System,
        memory_observations_of(stat).len() == 1,
        virtual_memory_observations_of(stat).len() == 1,
        io_observations_of(io).len() == 2,
        io_observations_of(io)[0].direction == IoDirection::Read,
        io_observations_of(io)[1].direction == IoDirection::Write,
        thread_count_observations_of(stat).len() == 1,
        open_fds_observations_of(fd_count).len() == 1,
        ctx_switch_observations_of(status).len() == ctx_counters_present(status),
{
}

/// A failed read skips exactly the current cycle: the failing invocation
/// produces no observations and one warning cause, and a later invocation
/// whose read succeeds reports in full, with nothing disabled in between.
pub proof fn lemma_read_failure_skips_then_recovers(
    e: ReadError,
    stat: StatSnapshot,
    ticks_per_second: u64,
    failed: CallbackOutcome<CpuTimeObservation>,
    next: CallbackOutcome<CpuTimeObservation>,
)
    requires
        cpu_time_outcome_ok(Err(e), ticks_per_second, failed),
        cpu_time_outcome_ok(Ok(stat), ticks_per_second, next),
    ensures
        failed matches CallbackOutcome::Skip(why) && why.message@ == e.message@,
        next matches CallbackOutcome::Report(obs) && obs@ == cpu_observations_of(
            stat,
            ticks_per_second,
        ),
{
}

/// Repeated invocations over unchanged counters report identical observation
/// values: the mapping keeps no state, accumulates nothing, and drifts
/// nowhere.
pub proof fn lemma_unchanged_counters_identical_observations(
    stat: StatSnapshot,
    io: IoSnapshot,
    status: StatusSnapshot,
    fd_count: usize,
    ticks_per_second: u64,
    cpu_first: CallbackOutcome<CpuTimeObservation>,
    cpu_second: CallbackOutcome<CpuTimeObservation>,
    memory_first: CallbackOutcome<u64>,
    memory_second: CallbackOutcome<u64>,
    virtual_first: CallbackOutcome<u64>,
    virtual_second: CallbackOutcome<u64>,
    disk_first: CallbackOutcome<IoObservation>,
    disk_second: CallbackOutcome<IoObservation>,
    threads_first: CallbackOutcome<i64>,
    threads_second: CallbackOutcome<i64>,
    fds_first: CallbackOutcome<u64>,
    fds_second: CallbackOutcome<u64>,
    ctx_first: CallbackOutcome<CtxSwitchObservation>,
    ctx_second: CallbackOutcome<CtxSwitchObservation>,
)
    requires
        cpu_time_outcome_ok(Ok(stat), ticks_per_second, cpu_first),
        cpu_time_outcome_ok(Ok(stat), ticks_per_second, cpu_second),
        memory_usage_outcome_ok(Ok(stat), memory_first),
        memory_usage_outcome_ok(Ok(stat), memory_second),
        virtual_memory_outcome_ok(Ok(stat), virtual_first),
        virtual_memory_outcome_ok(Ok(stat), virtual_second),
        disk_io_outcome_ok(Ok(io), disk_first),
        disk_io_outcome_ok(Ok(io), disk_second),
        thread_count_outcome_ok(Ok(stat), threads_first),
        thread_count_outcome_ok(Ok(stat), threads_second),
        open_fds_outcome_ok(Ok(fd_count), fds_first),
        open_fds_outcome_ok(Ok(fd_count), fds_second),
        ctx_switches_outcome_ok(Ok(status), ctx_first),
        ctx_switches_outcome_ok(Ok(status), ctx_second),
    ensures
        cpu_first matches CallbackOutcome::Report(a) && cpu_second matches CallbackOutcome::Report(
            b,
        ) && a@ == b@,
        memory_first matches CallbackOutcome::Report(a) && memory_second
            matches CallbackOutcome::Report(b) && a@ == b@,
        virtual_first matches CallbackOutcome::Report(a) && virtual_second
            matches CallbackOutcome::Report(b) && a@ == b@,
        disk_first matches CallbackOutcome::Report(a) && disk_second
            matches CallbackOutcome::Report(b) && a@ == b@,
        threads_first matches CallbackOutcome::Report(a) && threads_second
            matches CallbackOutcome::Report(b) && a@ == b@,
        fds_first matches CallbackOutcome::Report(a) && fds_second
            matches CallbackOutcome::Report(b) && a@ == b@,
        ctx_first matches CallbackOutcome::Report(a) && ctx_second matches CallbackOutcome::Report(
            b,
        ) && a@ == b@,
{
}

/// A failure in one callback leaves every other callback of the same cycle
/// untouched: a failed I/O-counters read skips only the disk-I/O metric,
/// while a successful stat read still reports the memory metric in full.
pub proof fn lemma_cross_callback_independence(
    stat_read: Result<StatSnapshot, ReadError>,
    io_read: Result<IoSnapshot, ReadError>,
    memory: CallbackOutcome<u64>,
    disk: CallbackOutcome<IoObservation>,
)
    requires
        stat_read matches Ok(_),
        io_read matches Err(_),
        memory_usage_outcome_ok(stat_read, memory),
        disk_io_outcome_ok(io_read, disk),
    ensures
        disk matches CallbackOutcome::Skip(_),
        stat_read matches Ok(stat) ==> memory matches CallbackOutcome::Report(obs) && obs@
            == memory_observations_of(stat),
{
}

/// Each instrument is registered exactly once: the seven names of the
/// instrument table are pairwise distinct.
pub proof fn lemma_instruments_registered_once(table: Seq<InstrumentDescriptor>)
    requires
        instrument_table_ok(table),
    ensures
        forall|i: int, j: int| 0 <= i < j < table.len() ==> table[i].name@ != table[j].name@,
{
    reveal_strlit("process.cpu.time");
    reveal_strlit("process.memory.usage");
    reveal_strlit("process.memory.virtual");
    reveal_strlit("process.disk.io");
    reveal_strlit("process.thread.count");
    reveal_strlit("process.open_file_descriptor.count");
    reveal_strlit("process.context_switches");
    assert forall|i: int, j: int|
        0 <= i < j < table.len() implies table[i].name@ != table[j].name@ by {
        let a = table[i].name@;
        let b = table[j].name@;
        if i == 1 && j == 4 {
            // the only two names of equal length; they differ at one position
            assert(a[8] != b[8]);
        } else {
            assert(a.len() != b.len());
        }
    }
}

} // verus!
