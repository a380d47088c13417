//! The mapping from accounting snapshots to labelled observations, and the
//! skip-on-failure policy shared by every callback.
//!
//! Each tracked metric has a callback function that takes the result of one
//! fresh read of the relevant accounting view and produces either the full set
//! of observations for that metric or a skip carrying the read error. A
//! callback never fails for this invocation's sake alone: a skip leaves every
//! other metric, and every later invocation, unaffected.

use vstd::prelude::*;

use crate::snapshot::IoSnapshot;
use crate::snapshot::ReadError;
use crate::snapshot::StatSnapshot;
use crate::snapshot::StatusSnapshot;

verus! {

/// The CPU mode a CPU-time observation is labelled with.
#[derive(Clone, Copy, Debug, PartialEq, Eq)]
pub enum CpuMode {
    User,
    System,
}

/// One CPU-time observation: the raw tick count for one CPU mode together
/// with the clock-ticks-per-second constant in force when it was taken.
///
/// The reported value is `ticks` divided by `ticks_per_second`, in seconds;
/// the division is left to the reporting layer, which works in floating point.
#[derive(Clone, Copy, Debug, PartialEq, Eq)]
pub struct CpuTimeObservation {
    pub mode: CpuMode,
    pub ticks: u64,
    pub ticks_per_second: u64,
}

/// The label value of a CPU mode, from the fixed two-word vocabulary of the
/// CPU-mode dimension.
pub open spec fn cpu_mode_label_of(mode: CpuMode) -> Seq<char> {
    match mode {
        CpuMode::User => "user"@,
        CpuMode::System => "system"@,
    }
}

/// The label value a CPU-time observation is reported under.
pub fn cpu_mode_label(mode: CpuMode) -> (r: String)
    ensures
        r@ == cpu_mode_label_of(mode),
{
    match mode {
        CpuMode::User => "user".to_owned(),
        CpuMode::System => "system".to_owned(),
    }
}

/// The outcome of one callback invocation: either every observation the
/// metric owes for this cycle, or a skip carrying the read error to log.
#[derive(Debug)]
pub enum CallbackOutcome<T> {
    /// The read succeeded: report exactly these observations.
    Report(Vec<T>),
    /// The read failed: report nothing, emit one warning with this cause.
    Skip(ReadError),
}

/// The two CPU-time observations owed for a stat snapshot: user mode first,
/// then system mode, each carrying the live ticks-per-second constant.
pub open spec fn cpu_observations_of(stat: StatSnapshot, ticks_per_second: u64) -> Seq<
    CpuTimeObservation,
> {
    seq![
        CpuTimeObservation { mode: CpuMode::User, ticks: stat.utime, ticks_per_second },
        CpuTimeObservation { mode: CpuMode::System, ticks: stat.stime, ticks_per_second },
    ]
}

/// What the CPU-time callback must produce for a given stat read: the two
/// labelled observations on success, a skip carrying the cause on failure.
pub open spec fn cpu_time_outcome_ok(
    read: Result<StatSnapshot, ReadError>,
    ticks_per_second: u64,
    r: CallbackOutcome<CpuTimeObservation>,
) -> bool {
    match read {
        Ok(stat) => r matches CallbackOutcome::Report(obs) && obs@ == cpu_observations_of(
            stat,
            ticks_per_second,
        ),
        Err(e) => r matches CallbackOutcome::Skip(why) && why.message@ == e.message@,
    }
}

/// The CPU-time callback body: converts one fresh stat read into the user-
/// and system-mode tick observations, or skips the cycle on a failed read.
pub fn cpu_time_callback(read: Result<StatSnapshot, ReadError>, ticks_per_second: u64) -> (r:
    CallbackOutcome<CpuTimeObservation>)
    ensures
        cpu_time_outcome_ok(read, ticks_per_second, r),
{
    match read {
        Ok(stat) => {
            let mut obs: Vec<CpuTimeObservation> = Vec::new();
            obs.push(CpuTimeObservation { mode: CpuMode::User, ticks: stat.utime, ticks_per_second });
            obs.push(
                CpuTimeObservation { mode: CpuMode::System, ticks: stat.stime, ticks_per_second },
            );
            proof {
                assert(obs@ =~= cpu_observations_of(stat, ticks_per_second));
            }
            CallbackOutcome::Report(obs)
        },
        Err(e) => CallbackOutcome::Skip(e),
    }
}

/// The single physical-memory observation owed for a stat snapshot: the
/// resident set size as a direct byte count, with no label.
pub open spec fn memory_observations_of(stat: StatSnapshot) -> Seq<u64> {
    seq![stat.rss_bytes]
}

/// What the physical-memory callback must produce for a given stat read.
pub open spec fn memory_usage_outcome_ok(
    read: Result<StatSnapshot, ReadError>,
    r: CallbackOutcome<u64>,
) -> bool {
    match read {
        Ok(stat) => r matches CallbackOutcome::Report(obs) && obs@ == memory_observations_of(stat),
        Err(e) => r matches CallbackOutcome::Skip(why) && why.message@ == e.message@,
    }
}

/// The physical-memory callback body: reports the resident set size in bytes,
/// or skips the cycle on a failed read.
pub fn memory_usage_callback(read: Result<StatSnapshot, ReadError>) -> (r: CallbackOutcome<u64>)
    ensures
        memory_usage_outcome_ok(read, r),
{
    match read {
        Ok(stat) => {
            let mut obs: Vec<u64> = Vec::new();
            obs.push(stat.rss_bytes);
            proof {
                assert(obs@ =~= memory_observations_of(stat));
            }
            CallbackOutcome::Report(obs)
        },
        Err(e) => CallbackOutcome::Skip(e),
    }
}

/// The single virtual-memory observation owed for a stat snapshot: the
/// committed virtual size as a direct byte count, with no label.
pub open spec fn virtual_memory_observations_of(stat: StatSnapshot) -> Seq<u64> {
    seq![stat.vsize]
}

/// What the virtual-memory callback must produce for a given stat read.
pub open spec fn virtual_memory_outcome_ok(
    read: Result<StatSnapshot, ReadError>,
    r: CallbackOutcome<u64>,
) -> bool {
    match read {
        Ok(stat) => r matches CallbackOutcome::Report(obs) && obs@ == virtual_memory_observations_of(
            stat,
        ),
        Err(e) => r matches CallbackOutcome::Skip(why) && why.message@ == e.message@,
    }
}

/// The virtual-memory callback body: reports the committed virtual size in
/// bytes, or skips the cycle on a failed read.
pub fn virtual_memory_callback(read: Result<StatSnapshot, ReadError>) -> (r: CallbackOutcome<u64>)
    ensures
        virtual_memory_outcome_ok(read, r),
{
    match read {
        Ok(stat) => {
            let mut obs: Vec<u64> = Vec::new();
            obs.push(stat.vsize);
            proof {
                assert(obs@ =~= virtual_memory_observations_of(stat));
            }
            CallbackOutcome::Report(obs)
        },
        Err(e) => CallbackOutcome::Skip(e),
    }
}

/// The direction label of a disk-I/O observation.
#[derive(Clone, Copy, Debug, PartialEq, Eq)]
pub enum IoDirection {
    Read,
    Write,
}

/// The label value of an I/O direction, from the fixed two-word vocabulary of
/// the direction dimension.
pub open spec fn io_direction_label_of(direction: IoDirection) -> Seq<char> {
    match direction {
        IoDirection::Read => "read"@,
        IoDirection::Write => "write"@,
    }
}

/// The label value a disk-I/O observation is reported under.
pub fn io_direction_label(direction: IoDirection) -> (r: String)
    ensures
        r@ == io_direction_label_of(direction),
{
    match direction {
        IoDirection::Read => "read".to_owned(),
        IoDirection::Write => "write".to_owned(),
    }
}

/// One disk-I/O observation: a cumulative byte count for one direction.
#[derive(Clone, Copy, Debug, PartialEq, Eq)]
pub struct IoObservation {
    pub direction: IoDirection,
    pub bytes: u64,
}

/// The two disk-I/O observations owed for an I/O snapshot: bytes read first,
/// then bytes written, both cumulative.
pub open spec fn io_observations_of(io: IoSnapshot) -> Seq<IoObservation> {
    seq![
        IoObservation { direction: IoDirection::Read, bytes: io.read_bytes },
        IoObservation { direction: IoDirection::Write, bytes: io.write_bytes },
    ]
}

/// What the disk-I/O callback must produce for a given I/O-counters read.
pub open spec fn disk_io_outcome_ok(
    read: Result<IoSnapshot, ReadError>,
    r: CallbackOutcome<IoObservation>,
) -> bool {
    match read {
        Ok(io) => r matches CallbackOutcome::Report(obs) && obs@ == io_observations_of(io),
        Err(e) => r matches CallbackOutcome::Skip(why) && why.message@ == e.message@,
    }
}

/// The disk-I/O callback body: reports the cumulative read and write byte
/// counters, or skips the cycle on a failed read.
pub fn disk_io_callback(read: Result<IoSnapshot, ReadError>) -> (r: CallbackOutcome<IoObservation>)
    ensures
        disk_io_outcome_ok(read, r),
{
    match read {
        Ok(io) => {
            let mut obs: Vec<IoObservation> = Vec::new();
            obs.push(IoObservation { direction: IoDirection::Read, bytes: io.read_bytes });
            obs.push(IoObservation { direction: IoDirection::Write, bytes: io.write_bytes });
            proof {
                assert(obs@ =~= io_observations_of(io));
            }
            CallbackOutcome::Report(obs)
        },
        Err(e) => CallbackOutcome::Skip(e),
    }
}

/// The single thread-count observation owed for a stat snapshot: the thread
/// count as the signed integer the accounting record carries.
pub open spec fn thread_count_observations_of(stat: StatSnapshot) -> Seq<i64> {
    seq![stat.num_threads]
}

/// What the thread-count callback must produce for a given stat read.
pub open spec fn thread_count_outcome_ok(
    read: Result<StatSnapshot, ReadError>,
    r: CallbackOutcome<i64>,
) -> bool {
    match read {
        Ok(stat) => r matches CallbackOutcome::Report(obs) && obs@ == thread_count_observations_of(
            stat,
        ),
        Err(e) => r matches CallbackOutcome::Skip(why) && why.message@ == e.message@,
    }
}

/// The thread-count callback body: reports the signed thread count, or skips
/// the cycle on a failed read.
pub fn thread_count_callback(read: Result<StatSnapshot, ReadError>) -> (r: CallbackOutcome<i64>)
    ensures
        thread_count_outcome_ok(read, r),
{
    match read {
        Ok(stat) => {
            let mut obs: Vec<i64> = Vec::new();
            obs.push(stat.num_threads);
            proof {
                assert(obs@ =~= thread_count_observations_of(stat));
            }
            CallbackOutcome::Report(obs)
        },
        Err(e) => CallbackOutcome::Skip(e),
    }
}

/// The single open-file-descriptor observation owed for a descriptor count:
/// the count widened, without loss, to an unsigned 64-bit value.
pub open spec fn open_fds_observations_of(count: usize) -> Seq<u64> {
    seq![count as u64]
}

/// What the open-file-descriptor callback must produce for a given count read.
pub open spec fn open_fds_outcome_ok(
    read: Result<usize, ReadError>,
    r: CallbackOutcome<u64>,
) -> bool {
    match read {
        Ok(count) => r matches CallbackOutcome::Report(obs) && obs@ == open_fds_observations_of(
            count,
        ),
        Err(e) => r matches CallbackOutcome::Skip(why) && why.message@ == e.message@,
    }
}

/// The open-file-descriptor callback body: reports the descriptor count
/// widened to unsigned, or skips the cycle on a failed read.
pub fn open_fds_callback(read: Result<usize, ReadError>) -> (r: CallbackOutcome<u64>)
    ensures
        open_fds_outcome_ok(read, r),
{
    match read {
        Ok(count) => {
            let mut obs: Vec<u64> = Vec::new();
            obs.push(count as u64);
            proof {
                assert(obs@ =~= open_fds_observations_of(count));
            }
            CallbackOutcome::Report(obs)
        },
        Err(e) => CallbackOutcome::Skip(e),
    }
}

/// The kind label of a context-switch observation.
#[derive(Clone, Copy, Debug, PartialEq, Eq)]
pub enum CtxSwitchKind {
    Voluntary,
    Involuntary,
}

/// The label value of a context-switch kind, from the fixed two-word
/// vocabulary of the switch-kind dimension.
pub open spec fn ctx_switch_kind_label_of(kind: CtxSwitchKind) -> Seq<char> {
    match kind {
        CtxSwitchKind::Voluntary => "voluntary"@,
        CtxSwitchKind::Involuntary => "involuntary"@,
    }
}

/// The label value a context-switch observation is reported under.
pub fn ctx_switch_kind_label(kind: CtxSwitchKind) -> (r: String)
    ensures
        r@ == ctx_switch_kind_label_of(kind),
{
    match kind {
        CtxSwitchKind::Voluntary => "voluntary".to_owned(),
        CtxSwitchKind::Involuntary => "involuntary".to_owned(),
    }
}

/// One context-switch observation: a cumulative count for one switch kind.
#[derive(Clone, Copy, Debug, PartialEq, Eq)]
pub struct CtxSwitchObservation {
    pub kind: CtxSwitchKind,
    pub count: u64,
}

/// The context-switch observations owed for a status snapshot: one per
/// counter the record carries, voluntary before involuntary. An absent
/// counter drops only its own label, never the other one.
pub open spec fn ctx_switch_observations_of(status: StatusSnapshot) -> Seq<CtxSwitchObservation> {
    (match status.voluntary_ctxt_switches {
        Some(count) => seq![CtxSwitchObservation { kind: CtxSwitchKind::Voluntary, count }],
        None => seq![],
    }) + (match status.nonvoluntary_ctxt_switches {
        Some(count) => seq![CtxSwitchObservation { kind: CtxSwitchKind::Involuntary, count }],
        None => seq![],
    })
}

/// How many context-switch counters a status record carries: zero, one or
/// two, one per present optional counter.
pub open spec fn ctx_counters_present(status: StatusSnapshot) -> int {
    (if status.voluntary_ctxt_switches is Some {
        1int
    } else {
        0int
    }) + (if status.nonvoluntary_ctxt_switches is Some {
        1int
    } else {
        0int
    })
}

/// What the context-switch callback must produce for a given status read.
pub open spec fn ctx_switches_outcome_ok(
    read: Result<StatusSnapshot, ReadError>,
    r: CallbackOutcome<CtxSwitchObservation>,
) -> bool {
    match read {
        Ok(status) => r matches CallbackOutcome::Report(obs) && obs@ == ctx_switch_observations_of(
            status,
        ),
        Err(e) => r matches CallbackOutcome::Skip(why) && why.message@ == e.message@,
    }
}

/// The context-switch callback body: reports one cumulative count per
/// counter present in the status record, or skips the cycle on a failed read.
pub fn ctx_switches_callback(read: Result<StatusSnapshot, ReadError>) -> (r: CallbackOutcome<
    CtxSwitchObservation,
>)
    ensures
        ctx_switches_outcome_ok(read, r),
{
    match read {
        Ok(status) => {
            let mut obs: Vec<CtxSwitchObservation> = Vec::new();
            if let Some(count) = status.voluntary_ctxt_switches {
                obs.push(CtxSwitchObservation { kind: CtxSwitchKind::Voluntary, count });
            }
            if let Some(count) = status.nonvoluntary_ctxt_switches {
                obs.push(CtxSwitchObservation { kind: CtxSwitchKind::Involuntary, count });
            }
            proof {
                assert(obs@ =~= ctx_switch_observations_of(status));
            }
            CallbackOutcome::Report(obs)
        },
        Err(e) => CallbackOutcome::Skip(e),
    }
}

} // verus!
