//! Benchmark harness that runs functions or external commands under Callgrind and
//! turns its reports into instruction-accurate counters.
//!
//! The process that calls [`runner::Runner`] acts in one of two roles. Without a run index in
//! its environment it is the controller: it merges the configuration layers of each scenario,
//! builds one profiler command line per scenario and reads the reports back. With a run index
//! it is the subject, re-spawned under the profiler, and runs the scenario with that index.
pub mod callgrind;
pub mod config;
pub mod error;
pub mod parser;
pub mod request;
pub mod runner;
pub mod scenario;
pub mod text;
pub mod utils;

pub use config::{CacheOptions, CacheParameters, ScenarioConfig};
pub use error::CalliperError;
pub use parser::ParsedCallgrindOutput;
pub use request::ClientRequest;
pub use runner::Runner;
pub use scenario::Scenario;
