//! The instrument table: one descriptor per tracked metric, carrying the
//! catalogue name, unit, description, instrument kind, value kind and label
//! dimension that the reporting layer registers it under.
//!
//! The table is the fixed mapping the sampler is built around: seven
//! instruments, each appearing exactly once, in the order the sampler
//! registers them.

use vstd::prelude::*;

use crate::conventions::cpu_mode_key;
use crate::conventions::ctx_switch_kind_key;
use crate::conventions::disk_io_direction_key;
use crate::conventions::process_context_switches_name;
use crate::conventions::process_cpu_time_name;
use crate::conventions::process_disk_io_name;
use crate::conventions::process_memory_usage_name;
use crate::conventions::process_memory_virtual_name;
use crate::conventions::process_open_fds_name;
use crate::conventions::process_thread_count_name;

verus! {

/// Whether an instrument reports a cumulative, monotonically non-decreasing
/// value (a counter) or a current value (a gauge).
#[derive(Clone, Copy, Debug, PartialEq, Eq)]
pub enum InstrumentKind {
    Counter,
    Gauge,
}

/// The numeric shape of an instrument's observed values.
#[derive(Clone, Copy, Debug, PartialEq, Eq)]
pub enum ValueKind {
    /// Raw ticks over ticks-per-second, reported as fractional seconds.
    FractionalSeconds,
    /// An unsigned integer count.
    UnsignedInt,
    /// A signed integer count.
    SignedInt,
}

/// Everything the reporting layer needs to register one instrument.
#[derive(Clone, Debug)]
pub struct InstrumentDescriptor {
    /// The catalogue name of the metric.
    pub name: String,
    /// The unit string the instrument is tagged with.
    pub unit: String,
    /// The human-readable description of the instrument.
    pub description: String,
    /// Counter or gauge.
    pub kind: InstrumentKind,
    /// The numeric shape of the observed values.
    pub value: ValueKind,
    /// The label dimension of the observations, for instruments that have one.
    pub label_key: Option<String>,
}

/// A descriptor carries exactly these name, unit, description, kind and
/// value-kind fields.
pub open spec fn descriptor_is(
    d: InstrumentDescriptor,
    name: Seq<char>,
    unit: Seq<char>,
    description: Seq<char>,
    kind: InstrumentKind,
    value: ValueKind,
) -> bool {
    &&& d.name@ == name
    &&& d.unit@ == unit
    &&& d.description@ == description
    &&& d.kind == kind
    &&& d.value == value
}

/// A descriptor carries exactly this label dimension, or none.
pub open spec fn label_key_is(d: InstrumentDescriptor, key: Option<Seq<char>>) -> bool {
    match (d.label_key, key) {
        (Some(k), Some(expected)) => k@ == expected,
        (None, None) => true,
        _ => false,
    }
}

/// The full contents of the instrument table: seven descriptors, in
/// registration order, each carrying exactly the documented name, unit,
/// description, kinds and label dimension.
pub open spec fn instrument_table_ok(t: Seq<InstrumentDescriptor>) -> bool {
    &&& t.len() == 7
    &&& descriptor_is(
        t[0],
        "process.cpu.time"@,
        "s"@,
        "Total CPU seconds broken down by different states."@,
        InstrumentKind::Counter,
        ValueKind::FractionalSeconds,
    )
    &&& label_key_is(t[0], Some("cpu.mode"@))
    &&& descriptor_is(
        t[1],
        "process.memory.usage"@,
        "By"@,
        "The amount of physical memory in use."@,
        InstrumentKind::Gauge,
        ValueKind::UnsignedInt,
    )
    &&& label_key_is(t[1], None)
    &&& descriptor_is(
        t[2],
        "process.memory.virtual"@,
        "By"@,
        "The amount of committed virtual memory."@,
        InstrumentKind::Gauge,
        ValueKind::UnsignedInt,
    )
    &&& label_key_is(t[2], None)
    &&& descriptor_is(
        t[3],
        "process.disk.io"@,
        "By"@,
        "Disk bytes transferred."@,
        InstrumentKind::Counter,
        ValueKind::UnsignedInt,
    )
    &&& label_key_is(t[3], Some("disk.io.direction"@))
    &&& descriptor_is(
        t[4],
        "process.thread.count"@,
        "{thread}"@,
        "Process threads count."@,
        InstrumentKind::Gauge,
        ValueKind::SignedInt,
    )
    &&& label_key_is(t[4], None)
    &&& descriptor_is(
        t[5],
        "process.open_file_descriptor.count"@,
        "{file_descriptor}"@,
        "Number of file descriptors in use by the process."@,
        InstrumentKind::Gauge,
        ValueKind::UnsignedInt,
    )
    &&& label_key_is(t[5], None)
    &&& descriptor_is(
        t[6],
        "process.context_switches"@,
        "{context_switch}"@,
        "Number of times the process has been context switched."@,
        InstrumentKind::Counter,
        ValueKind::UnsignedInt,
    )
    &&& label_key_is(t[6], Some("process.context_switch.type"@))
}

/// The seven instruments the sampler registers, in registration order, each
/// exactly once: CPU time, physical memory, virtual memory, disk I/O, thread
/// count, open file descriptors, context switches.
pub fn instrument_table() -> (r: Vec<InstrumentDescriptor>)
    ensures
        instrument_table_ok(r@),
{
    let mut t: Vec<InstrumentDescriptor> = Vec::new();
    t.push(
        InstrumentDescriptor {
            name: process_cpu_time_name(),
            unit: "s".to_owned(),
            description: "Total CPU seconds broken down by different states.".to_owned(),
            kind: InstrumentKind::Counter,
            value: ValueKind::FractionalSeconds,
            label_key: Some(cpu_mode_key()),
        },
    );
    t.push(
        InstrumentDescriptor {
            name: process_memory_usage_name(),
            unit: "By".to_owned(),
            description: "The amount of physical memory in use.".to_owned(),
            kind: InstrumentKind::Gauge,
            value: ValueKind::UnsignedInt,
            label_key: None,
        },
    );
    t.push(
        InstrumentDescriptor {
            name: process_memory_virtual_name(),
            unit: "By".to_owned(),
            description: "The amount of committed virtual memory.".to_owned(),
            kind: InstrumentKind::Gauge,
            value: ValueKind::UnsignedInt,
            label_key: None,
        },
    );
    t.push(
        InstrumentDescriptor {
            name: process_disk_io_name(),
            unit: "By".to_owned(),
            description: "Disk bytes transferred.".to_owned(),
            kind: InstrumentKind::Counter,
            value: ValueKind::UnsignedInt,
            label_key: Some(disk_io_direction_key()),
        },
    );
    t.push(
        InstrumentDescriptor {
            name: process_thread_count_name(),
            unit: "{thread}".to_owned(),
            description: "Process threads count.".to_owned(),
            kind: InstrumentKind::Gauge,
            value: ValueKind::SignedInt,
            label_key: None,
        },
    );
    t.push(
        InstrumentDescriptor {
            name: process_open_fds_name(),
            unit: "{file_descriptor}".to_owned(),
            description: "Number of file descriptors in use by the process.".to_owned(),
            kind: InstrumentKind::Gauge,
            value: ValueKind::UnsignedInt,
            label_key: None,
        },
    );
    t.push(
        InstrumentDescriptor {
            name: process_context_switches_name(),
            unit: "{context_switch}".to_owned(),
            description: "Number of times the process has been context switched.".to_owned(),
            kind: InstrumentKind::Counter,
            value: ValueKind::UnsignedInt,
            label_key: Some(ctx_switch_kind_key()),
        },
    );
    t
}

} // verus!
