//! Errors of the harness.
use vstd::prelude::*;

use crate::utils::RunIdError;

verus! {

/// An error of the harness: a corrupted run index, or a failed profiler run.
#[derive(Clone, Debug, PartialEq, Eq)]
pub enum CalliperError {
    /// The run index names no scenario. It is written by the controller, so this means that the
    /// environment was changed between the controller and the subject.
    RunIdOutOfBounds {
        /// The number of scenarios.
        limit: usize,
        /// The run index that was read.
        value: usize,
    },
    /// The run index is not an unsigned integer, or the variable could not be read.
    RunIdError(RunIdError),
    /// A profiler run could not be started, failed, or left no report.
    BenchmarkFailure {
        /// What went wrong.
        reason: String,
    },
}

} // verus!
