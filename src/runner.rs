//! The orchestrator: which role this process plays, and the profiler runs that the controller
//! makes, one per scenario.
use vstd::prelude::*;

use crate::callgrind::{
    CallgrindResultFilename, CommandLine, CommandLineView, Platform, callgrind_output_name,
    command_spec, output_path, prepare_command,
};
use crate::config::{ConfigView, ScenarioConfig, empty_config, flag_or, merged, resolved_output};
use crate::error::CalliperError;
use crate::scenario::{Scenario, ScenarioView};
use crate::text::{decimal, is_unsigned, lemma_decimal_round_trip};
use crate::utils::{EnvVarError, RunIdError, get_run_id, run_id_of, var_view};

verus! {

/// The role of this process.
#[derive(Clone, Copy, Debug, PartialEq, Eq, Structural)]
pub enum Role {
    /// No run index is set: spawn the profiler once per scenario.
    Controller,
    /// Running under the profiler: run the scenario with this index.
    Subject(usize),
}

/// The role that the run-index variable `var` gives with `n` scenarios.
pub open spec fn role_of(var: Result<Seq<char>, EnvVarError>, n: nat) -> Result<
    Role,
    CalliperError,
> {
    match run_id_of(var) {
        Ok(v) => if v < n {
            Ok(Role::Subject(v as usize))
        } else {
            Err(CalliperError::RunIdOutOfBounds { limit: n as usize, value: v as usize })
        },
        Err(RunIdError::EnvironmentVariableError(EnvVarError::NotPresent)) => Ok(Role::Controller),
        Err(e) => Err(CalliperError::RunIdError(e)),
    }
}

/// Decides the role of this process from the run-index variable `var` (as `std::env::var`
/// gives it) and the number of scenarios: controller when the variable is absent, subject
/// when it holds an index below `scenario_count`, an error otherwise.
pub fn resolve_role(var: &Result<String, EnvVarError>, scenario_count: usize) -> (r: Result<
    Role,
    CalliperError,
>)
    ensures
        r == role_of(var_view(*var), scenario_count as nat),
{
    match get_run_id(var) {
        Ok(v) => if v < scenario_count {
            Ok(Role::Subject(v))
        } else {
            Err(CalliperError::RunIdOutOfBounds { limit: scenario_count, value: v })
        },
        Err(RunIdError::EnvironmentVariableError(EnvVarError::NotPresent)) => Ok(Role::Controller),
        Err(e) => Err(CalliperError::RunIdError(e)),
    }
}

/// The run index survives its trip through the environment: the value written for index `i`
/// reads back as `i` when `i < n`, and as the out-of-bounds error with `value == i` and
/// `limit == n` otherwise; a value `s` that is not an unsigned integer is a format error.
pub proof fn lemma_run_id_round_trip(i: usize, n: usize, s: Seq<char>)
    ensures
        role_of(Ok(decimal(i as nat)), n as nat) == if i < n {
            Ok::<Role, CalliperError>(Role::Subject(i))
        } else {
            Err::<Role, CalliperError>(CalliperError::RunIdOutOfBounds { limit: n, value: i })
        },
        !is_unsigned(s) ==> role_of(Ok(s), n as nat) == Err::<Role, CalliperError>(
            CalliperError::RunIdError(RunIdError::NotAnInteger),
        ),
{
    lemma_decimal_round_trip(i as nat);
}

/// One planned profiler run: the command to start, the report path the user chose, and
/// whether the report is removed after use.
#[derive(Debug)]
pub struct RunPlan {
    /// The command that runs the scenario under the profiler.
    pub command: CommandLine,
    /// The report path, when the user chose one.
    pub output_file: Option<String>,
    /// Remove the report once it is no longer needed.
    pub should_delete: bool,
}

/// The mathematical value of a [`RunPlan`].
pub struct RunPlanView {
    pub command: CommandLineView,
    pub output_file: Option<Seq<char>>,
    pub should_delete: bool,
}

impl View for RunPlan {
    type V = RunPlanView;

    open spec fn view(&self) -> RunPlanView {
        RunPlanView {
            command: self.command@,
            output_file: match self.output_file {
                Some(p) => Some(p@),
                None => None,
            },
            should_delete: self.should_delete,
        }
    }
}

/// The run of the scenario `s` at `index`, under the controller's layer `defaults`: the
/// scenario's layer is merged over it; the report is removed after use when cleanup is on and
/// the user did not choose its path.
pub open spec fn plan_spec(
    defaults: ConfigView,
    s: ScenarioView,
    os: crate::callgrind::TargetOs,
    arch: Seq<char>,
    exe: Seq<char>,
    index: nat,
) -> RunPlanView {
    let c = merged(defaults, s.config);
    RunPlanView {
        command: command_spec(c, s.command, os, arch, exe, index),
        output_file: resolved_output(c),
        should_delete: flag_or(c.cleanup_files, true) && resolved_output(c) is None,
    }
}

/// Two code scenarios at distinct positions get distinct run-index values, so that each
/// subject process runs its own scenario.
pub proof fn lemma_run_ids_distinct(
    defaults: ConfigView,
    a: ScenarioView,
    b: ScenarioView,
    os: crate::callgrind::TargetOs,
    arch: Seq<char>,
    exe: Seq<char>,
    i: nat,
    j: nat,
)
    requires
        i != j,
        a.command is None,
        b.command is None,
    ensures
        plan_spec(defaults, a, os, arch, exe, i).command.env != plan_spec(
            defaults,
            b,
            os,
            arch,
            exe,
            j,
        ).command.env,
{
    crate::text::lemma_decimal_injective(i, j);
}

/// The mathematical value of a [`Runner`].
pub struct RunnerView {
    pub parallelism: usize,
    pub defaults: ConfigView,
}

/// The benchmark runner: the controller's configuration layer, which every scenario's own
/// layer overrides, and the largest number of profiler runs at a time.
#[derive(Debug)]
pub struct Runner {
    pub(crate) parallelism: usize,
    pub(crate) defaults: ScenarioConfig,
}

impl View for Runner {
    type V = RunnerView;

    closed spec fn view(&self) -> RunnerView {
        RunnerView { parallelism: self.parallelism, defaults: self.defaults@ }
    }
}

impl Default for Runner {
    fn default() -> (r: Self)
        ensures
            r@ == (RunnerView { parallelism: 1, defaults: empty_config() }),
    {
        Runner { parallelism: 1, defaults: ScenarioConfig::new() }
    }
}

impl Runner {
    /// Replaces the controller's configuration layer. It sits between the library's defaults
    /// and each scenario's own layer.
    pub fn config(self, config: ScenarioConfig) -> (r: Self)
        ensures
            r@ == (RunnerView { defaults: config@, ..self@ }),
    {
        Runner { defaults: config, ..self }
    }

    /// Sets the largest number of profiler runs at a time, which must not be zero.
    pub fn parallelism(self, parallelism: usize) -> (r: Self)
        requires
            parallelism != 0,
        ensures
            r@ == (RunnerView { parallelism, ..self@ }),
    {
        Runner { parallelism, ..self }
    }

    /// The largest number of profiler runs at a time.
    pub fn get_parallelism(&self) -> (r: usize)
        ensures
            r == self@.parallelism,
    {
        self.parallelism
    }

    /// Plans one profiler run per scenario, in the order of `scenarios`; the run at position
    /// `i` carries run index `i`.
    pub fn plan(&self, scenarios: &Vec<Scenario>, platform: &Platform) -> (r: Vec<RunPlan>)
        ensures
            r.len() == scenarios.len(),
            forall|i: int|
                0 <= i < r.len() ==> #[trigger] r[i]@ == plan_spec(
                    self@.defaults,
                    scenarios[i]@,
                    platform.os,
                    platform.arch@,
                    platform.current_exe@,
                    i as nat,
                ),
    {
        let mut plans: Vec<RunPlan> = Vec::new();
        let mut i: usize = 0;
        while i < scenarios.len()
            invariant
                i <= scenarios.len(),
                plans.len() == i,
                forall|k: int|
                    0 <= k < i ==> #[trigger] plans[k]@ == plan_spec(
                        self@.defaults,
                        scenarios[k]@,
                        platform.os,
                        platform.arch@,
                        platform.current_exe@,
                        k as nat,
                    ),
            decreases scenarios.len() - i,
        {
            let scenario = &scenarios[i];
            let config = self.defaults.clone().overwrite(scenario.get_config().clone());
            let command = prepare_command(&config, scenario.get_command(), platform, i);
            let output_file = match config.get_output_file() {
                Some(p) => Some(String::from_str(p)),
                None => None,
            };
            let should_delete = config.get_cleanup_files() && output_file.is_none();
            plans.push(RunPlan { command, output_file, should_delete });
            i += 1;
        }
        plans
    }
}

impl RunPlan {
    /// Decides the outcome of the run, once its process `pid` has exited with `exit_code`:
    /// its report file when the exit code is 0, a benchmark failure otherwise (a crashed or
    /// failing subject gives no meaningful report).
    pub fn finish(&self, pid: u32, exit_code: Option<i32>) -> (r: Result<
        CallgrindResultFilename,
        CalliperError,
    >)
        ensures
            exit_code == Some(0i32) ==> (r matches Ok(f) && f.path@ == output_path(
                pid as nat,
                self@.output_file,
            ) && f.should_delete == (self@.should_delete && self@.output_file is None)),
            exit_code != Some(0i32) ==> r matches Err(CalliperError::BenchmarkFailure { .. }),
    {
        match exit_code {
            Some(0) => {
                let user = match &self.output_file {
                    Some(p) => Some(p.as_str()),
                    None => None,
                };
                Ok(callgrind_output_name(pid, user, self.should_delete))
            },
            _ => Err(
                CalliperError::BenchmarkFailure {
                    reason: String::from_str("the profiler exited with a non-zero status"),
                },
            ),
        }
    }
}

} // verus!
