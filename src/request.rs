//! Requests that a program under Callgrind makes to the profiler to steer its collection.
use vstd::prelude::*;

verus! {

/// A Callgrind client request. Issuing one has no effect when the program does not run under
/// Callgrind.
#[non_exhaustive]
#[derive(Clone, Debug, Hash, PartialEq, Eq)]
pub enum ClientRequest {
    /// Dump the statistics, then zero them.
    DumpStats {
        /// Stored in the profile as the reason for the dump.
        reason: Option<String>,
    },
    /// Toggle collection on or off.
    ToggleCollection,
    /// Start instrumentation.
    StartInstrumentation,
    /// Stop instrumentation.
    StopInstrumentation,
    /// Zero the statistics.
    ZeroStats,
}

} // verus!
