//! Samples the current operating-system process's resource-usage counters
//! (CPU time, memory, disk I/O, thread count, open file descriptors, context
//! switches) and maps them to named, unit-tagged metric instruments.
//!
//! The crate owns the mapping from process-accounting fields to labelled
//! observations and the failure policy for unreadable counters; reading the
//! counters is delegated to the OS accounting interface, and reporting the
//! observations to the ambient metrics pipeline is left to the host.

use vstd::prelude::*;

mod conventions;
pub mod instruments;
pub mod laws;
pub mod metrics;
pub mod sampler;
pub mod snapshot;
mod source;

use crate::sampler::ProcessSampler;
use crate::snapshot::ReadError;
use crate::source::resolve_current_process;

verus! {

/// The error returned when process-metrics initialisation fails: the current
/// process's accounting record could not be resolved.
#[derive(Clone, Debug, PartialEq, Eq)]
pub struct InitError {
    /// The stringified underlying cause of the failed resolution.
    pub cause: ReadError,
}

impl InitError {
    /// The fixed description of an initialisation failure; the underlying
    /// cause stands beside it in `cause`.
    pub fn message(&self) -> (r: String)
        ensures
            r@ == "Could not initialise process metrics"@,
    {
        "Could not initialise process metrics".to_owned()
    }
}

/// What initialisation decides once the resolution of the current process's
/// accounting record has come back: a failed resolution becomes an
/// [`InitError`] wrapping the cause, and no sampler exists, so nothing is
/// ever registered; a successful one becomes the sampler whose handle every
/// observation callback shares.
pub fn init_outcome(resolved: Result<procfs::process::Process, ReadError>) -> (r: Result<
    ProcessSampler,
    InitError,
>)
    ensures
        resolved matches Ok(_) ==> r matches Ok(_),
        resolved matches Err(e) ==> r matches Err(err) && err.cause.message@ == e.message@,
{
    match resolved {
        Ok(process) => Ok(ProcessSampler::from_handle(process)),
        Err(e) => Err(InitError { cause: e }),
    }
}

/// Initialise process-metrics collection: resolve the current process's
/// accounting record once and build the sampler that every observation
/// callback shares.
///
/// Fails, wrapping the underlying cause, exactly when the accounting record
/// cannot be resolved; once the handle is valid nothing further can fail
/// here. Registration of the instruments with the metrics pipeline is the
/// host's side of the bargain and happens after this returns, so a failure
/// here means zero instruments are ever registered. Call at most once per
/// process: registering the returned sampler's instruments twice would
/// duplicate them.
pub fn init() -> (r: Result<ProcessSampler, InitError>) {
    init_outcome(resolve_current_process())
}

} // verus!
