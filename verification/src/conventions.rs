//! The semantic-conventions names that tag the instruments and their labels.
//!
//! Each name is taken from the published semantic-conventions catalogue, not
//! written here by hand, so that the instruments stay aligned with the
//! vocabulary the metrics backend interprets; each wrapper states the exact
//! string its constant holds.

use vstd::prelude::*;

verus! {

/// Relies on opentelemetry_semantic_conventions::metric::PROCESS_CPU_TIME,
/// the catalogue name of the CPU-time metric.
#[verifier::external_body]
pub(crate) fn process_cpu_time_name() -> (r: String)
    ensures
        r@ == "process.cpu.time"@,
{
    opentelemetry_semantic_conventions::metric::PROCESS_CPU_TIME.to_owned()
}

/// Relies on opentelemetry_semantic_conventions::metric::PROCESS_MEMORY_USAGE,
/// the catalogue name of the physical-memory metric.
#[verifier::external_body]
pub(crate) fn process_memory_usage_name() -> (r: String)
    ensures
        r@ == "process.memory.usage"@,
{
    opentelemetry_semantic_conventions::metric::PROCESS_MEMORY_USAGE.to_owned()
}

/// Relies on opentelemetry_semantic_conventions::metric::PROCESS_MEMORY_VIRTUAL,
/// the catalogue name of the virtual-memory metric.
#[verifier::external_body]
pub(crate) fn process_memory_virtual_name() -> (r: String)
    ensures
        r@ == "process.memory.virtual"@,
{
    opentelemetry_semantic_conventions::metric::PROCESS_MEMORY_VIRTUAL.to_owned()
}

/// Relies on opentelemetry_semantic_conventions::metric::PROCESS_DISK_IO,
/// the catalogue name of the disk-I/O metric.
#[verifier::external_body]
pub(crate) fn process_disk_io_name() -> (r: String)
    ensures
        r@ == "process.disk.io"@,
{
    opentelemetry_semantic_conventions::metric::PROCESS_DISK_IO.to_owned()
}

/// Relies on opentelemetry_semantic_conventions::metric::PROCESS_THREAD_COUNT,
/// the catalogue name of the thread-count metric.
#[verifier::external_body]
pub(crate) fn process_thread_count_name() -> (r: String)
    ensures
        r@ == "process.thread.count"@,
{
    opentelemetry_semantic_conventions::metric::PROCESS_THREAD_COUNT.to_owned()
}

/// Relies on
/// opentelemetry_semantic_conventions::metric::PROCESS_OPEN_FILE_DESCRIPTOR_COUNT,
/// the catalogue name of the open-file-descriptor metric.
#[verifier::external_body]
pub(crate) fn process_open_fds_name() -> (r: String)
    ensures
        r@ == "process.open_file_descriptor.count"@,
{
    opentelemetry_semantic_conventions::metric::PROCESS_OPEN_FILE_DESCRIPTOR_COUNT.to_owned()
}

/// Relies on opentelemetry_semantic_conventions::metric::PROCESS_CONTEXT_SWITCHES,
/// the catalogue name of the context-switch metric.
#[verifier::external_body]
pub(crate) fn process_context_switches_name() -> (r: String)
    ensures
        r@ == "process.context_switches"@,
{
    opentelemetry_semantic_conventions::metric::PROCESS_CONTEXT_SWITCHES.to_owned()
}

/// Relies on opentelemetry_semantic_conventions::attribute::CPU_MODE, the
/// label key of the CPU-time observations.
#[verifier::external_body]
pub(crate) fn cpu_mode_key() -> (r: String)
    ensures
        r@ == "cpu.mode"@,
{
    opentelemetry_semantic_conventions::attribute::CPU_MODE.to_owned()
}

/// Relies on opentelemetry_semantic_conventions::attribute::DISK_IO_DIRECTION,
/// the label key of the disk-I/O observations.
#[verifier::external_body]
pub(crate) fn disk_io_direction_key() -> (r: String)
    ensures
        r@ == "disk.io.direction"@,
{
    opentelemetry_semantic_conventions::attribute::DISK_IO_DIRECTION.to_owned()
}

/// Relies on
/// opentelemetry_semantic_conventions::attribute::PROCESS_CONTEXT_SWITCH_TYPE,
/// the label key of the context-switch observations.
#[verifier::external_body]
pub(crate) fn ctx_switch_kind_key() -> (r: String)
    ensures
        r@ == "process.context_switch.type"@,
{
    opentelemetry_semantic_conventions::attribute::PROCESS_CONTEXT_SWITCH_TYPE.to_owned()
}

} // verus!
