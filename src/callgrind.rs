//! The profiler's command line and the report file it leaves.
use vstd::prelude::*;

use crate::config::{
    CacheOptions, CacheParameters, ConfigView, ScenarioConfig, flag_or, resolved_filters,
    resolved_output, resolved_valgrind, strings_view,
};
use crate::scenario::{CommandView, ExternalCommand};
use crate::text::{decimal, usize_to_decimal};
use crate::utils::{CALLIPER_RUN_ID, encode_run_id};

verus! {

/// The operating system the harness runs on; it decides how ASLR is turned off.
#[derive(Clone, Copy, Debug, PartialEq, Eq, Structural)]
pub enum TargetOs {
    /// Linux: the profiler is started through `setarch <arch> -R`.
    Linux,
    /// FreeBSD: the profiler is started through `proccontrol -m aslr -s disable`.
    FreeBsd,
    /// Any other system: ASLR is left as it is.
    Other,
}

/// What the command line depends on besides the configuration: the operating system, the
/// machine architecture (as `uname -m` prints it) and the path of this program.
#[derive(Debug)]
pub struct Platform {
    /// The operating system.
    pub os: TargetOs,
    /// The machine architecture.
    pub arch: String,
    /// The path of the running executable, which a code scenario re-runs.
    pub current_exe: String,
}

/// A process to start: program, arguments and one environment variable to set.
#[derive(Debug)]
pub struct CommandLine {
    /// The program.
    pub program: String,
    /// Its arguments.
    pub args: Vec<String>,
    /// A variable to set in its environment, as name and value.
    pub env: Option<(String, String)>,
}

/// The mathematical value of a [`CommandLine`].
pub struct CommandLineView {
    pub program: Seq<char>,
    pub args: Seq<Seq<char>>,
    pub env: Option<(Seq<char>, Seq<char>)>,
}

impl View for CommandLine {
    type V = CommandLineView;

    open spec fn view(&self) -> CommandLineView {
        CommandLineView {
            program: self.program@,
            args: strings_view(self.args@),
            env: match self.env {
                Some(e) => Some((e.0@, e.1@)),
                None => None,
            },
        }
    }
}

/// `yes` or `no`, as the profiler's boolean options are written.
pub open spec fn yes_no(b: bool) -> Seq<char> {
    if b {
        "yes"@
    } else {
        "no"@
    }
}

/// Writes a boolean option value.
pub fn format_bool(value: bool) -> (r: &'static str)
    ensures
        r@ == yes_no(value),
{
    if value {
        "yes"
    } else {
        "no"
    }
}

/// The program that starts the profiler `valgrind` with ASLR turned off, and its arguments
/// before the profiler's own.
pub open spec fn launcher(valgrind: Seq<char>, os: TargetOs, arch: Seq<char>) -> (
    Seq<char>,
    Seq<Seq<char>>,
) {
    match os {
        TargetOs::Linux => ("setarch"@, seq![arch, "-R"@, valgrind]),
        TargetOs::FreeBsd => ("proccontrol"@, seq!["-m"@, "aslr"@, "-s"@, "disable"@, valgrind]),
        TargetOs::Other => (valgrind, seq![]),
    }
}

fn push_arg(args: &mut Vec<String>, a: String)
    ensures
        strings_view(final(args)@) == strings_view(old(args)@).push(a@),
{
    let ghost before = args@;
    args.push(a);
    assert(strings_view(args@) =~= strings_view(before).push(a@));
}

fn lit(s: &str) -> (r: String)
    ensures
        r@ == s@,
{
    String::from_str(s)
}

/// The command that starts the profiler `path` with ASLR turned off on `os`.
pub fn valgrind_without_aslr(path: &str, os: TargetOs, arch: &str) -> (r: (String, Vec<String>))
    ensures
        r.0@ == launcher(path@, os, arch@).0,
        strings_view(r.1@) == launcher(path@, os, arch@).1,
{
    let mut args: Vec<String> = Vec::new();
    match os {
        TargetOs::Linux => {
            push_arg(&mut args, lit(arch));
            push_arg(&mut args, lit("-R"));
            push_arg(&mut args, lit(path));
            assert(strings_view(args@) =~= launcher(path@, os, arch@).1);
            (lit("setarch"), args)
        },
        TargetOs::FreeBsd => {
            push_arg(&mut args, lit("-m"));
            push_arg(&mut args, lit("aslr"));
            push_arg(&mut args, lit("-s"));
            push_arg(&mut args, lit("disable"));
            push_arg(&mut args, lit(path));
            assert(strings_view(args@) =~= launcher(path@, os, arch@).1);
            (lit("proccontrol"), args)
        },
        TargetOs::Other => {
            assert(strings_view(args@) =~= launcher(path@, os, arch@).1);
            (lit(path), args)
        },
    }
}

/// The option for one cache level, `--<prefix>=<size>,<associativity>,<line size>`, if set.
pub open spec fn level_arg(prefix: Seq<char>, p: Option<CacheParameters>) -> Seq<Seq<char>> {
    match p {
        Some(p) => seq![
            "--"@ + prefix + "="@ + decimal(p.size as nat) + ","@ + decimal(
                p.associativity as nat,
            ) + ","@ + decimal(p.line_size as nat),
        ],
        None => seq![],
    }
}

/// The cache simulation options: `--cache-sim=no` when it is off; else `--cache-sim=yes` and
/// the levels that are set.
pub open spec fn cache_args(c: Option<CacheOptions>) -> Seq<Seq<char>> {
    match c {
        Some(o) => seq!["--cache-sim=yes"@] + level_arg("D1"@, o.first_level_data) + level_arg(
            "I1"@,
            o.first_level_code,
        ) + level_arg("LL"@, o.last_level),
        None => seq!["--cache-sim=no"@],
    }
}

/// One `--toggle-collect=<f>` for each filter.
pub open spec fn filter_args(filters: Seq<Seq<char>>) -> Seq<Seq<char>> {
    filters.map_values(|f: Seq<char>| "--toggle-collect="@ + f)
}

/// The report path option, if the user chose a path.
pub open spec fn output_args(output: Option<Seq<char>>) -> Seq<Seq<char>> {
    match output {
        Some(p) => seq!["--callgrind-out-file="@ + p],
        None => seq![],
    }
}

/// The profiler's own arguments for the configuration `c`.
pub open spec fn profiler_args(c: ConfigView) -> Seq<Seq<char>> {
    seq![
        "--tool=callgrind"@,
        "--branch-sim="@ + yes_no(flag_or(c.branch_sim, false)),
        "--collect-bus="@ + yes_no(flag_or(c.collect_bus, false)),
    ] + cache_args(c.cache) + filter_args(resolved_filters(c)) + output_args(resolved_output(c))
}

/// The command line that profiles the scenario at `index` under the merged configuration `c`:
/// the profiler, behind a launcher unless ASLR stays on, its arguments, then either this
/// program with the run index in its environment, or the scenario's external command.
pub open spec fn command_spec(
    c: ConfigView,
    command: Option<CommandView>,
    os: TargetOs,
    arch: Seq<char>,
    exe: Seq<char>,
    index: nat,
) -> CommandLineView {
    let valgrind = resolved_valgrind(c);
    let (program, pre) = if flag_or(c.is_aslr_enabled, false) {
        (valgrind, seq![])
    } else {
        launcher(valgrind, os, arch)
    };
    match command {
        None => CommandLineView {
            program,
            args: pre + profiler_args(c) + seq![exe],
            env: Some((CALLIPER_RUN_ID@, decimal(index))),
        },
        Some(cmd) => CommandLineView {
            program,
            args: pre + profiler_args(c) + seq![cmd.program] + cmd.args,
            env: None,
        },
    }
}

fn level_args(args: &mut Vec<String>, prefix: &str, p: Option<CacheParameters>)
    ensures
        strings_view(final(args)@) == strings_view(old(args)@) + level_arg(prefix@, p),
{
    match p {
        Some(p) => {
            let a = lit("--").concat(prefix).concat("=").concat(
                usize_to_decimal(p.size).as_str(),
            ).concat(",").concat(usize_to_decimal(p.associativity).as_str()).concat(",").concat(
                usize_to_decimal(p.line_size).as_str(),
            );
            push_arg(args, a);
            assert(strings_view(args@) =~= strings_view(old(args)@) + level_arg(prefix@, Some(p)));
        },
        None => {
            assert(strings_view(args@) =~= strings_view(old(args)@) + level_arg(prefix@, p));
        },
    }
}

fn push_cache_args(args: &mut Vec<String>, cache: Option<CacheOptions>)
    ensures
        strings_view(final(args)@) == strings_view(old(args)@) + cache_args(cache),
{
    match cache {
        Some(o) => {
            push_arg(args, lit("--cache-sim=yes"));
            level_args(args, "D1", o.first_level_data);
            level_args(args, "I1", o.first_level_code);
            level_args(args, "LL", o.last_level);
            assert(strings_view(args@) =~= strings_view(old(args)@) + cache_args(cache));
        },
        None => {
            push_arg(args, lit("--cache-sim=no"));
            assert(strings_view(args@) =~= strings_view(old(args)@) + cache_args(cache));
        },
    }
}

fn push_filter_args(args: &mut Vec<String>, filters: &[String])
    ensures
        strings_view(final(args)@) == strings_view(old(args)@) + filter_args(strings_view(filters@)),
{
    let ghost start = strings_view(args@);
    let mut i: usize = 0;
    while i < filters.len()
        invariant
            i <= filters@.len(),
            strings_view(args@) == start + filter_args(strings_view(filters@.subrange(0, i as int))),
        decreases filters@.len() - i,
    {
        let a = lit("--toggle-collect=").concat(filters[i].as_str());
        push_arg(args, a);
        assert(filter_args(strings_view(filters@.subrange(0, i + 1))) =~= filter_args(
            strings_view(filters@.subrange(0, i as int)),
        ).push("--toggle-collect="@ + filters@[i as int]@));
        i += 1;
    }
    assert(filters@.subrange(0, i as int) =~= filters@);
}

/// The view of an optional external command.
pub open spec fn opt_command_view(c: Option<&ExternalCommand>) -> Option<CommandView> {
    match c {
        Some(c) => Some(c@),
        None => None,
    }
}

/// Builds the command line that profiles the scenario at `index`, whose merged configuration
/// is `config` and whose external command, if it has one, is `command`.
pub fn prepare_command(
    config: &ScenarioConfig,
    command: Option<&ExternalCommand>,
    platform: &Platform,
    index: usize,
) -> (r: CommandLine)
    ensures
        r@ == command_spec(
            config@,
            opt_command_view(command),
            platform.os,
            platform.arch@,
            platform.current_exe@,
            index as nat,
        ),
{
    let valgrind = config.get_valgrind();
    let (program, mut args) = if config.get_aslr() {
        let empty: Vec<String> = Vec::new();
        assert(strings_view(empty@) =~= Seq::<Seq<char>>::empty());
        (lit(valgrind), empty)
    } else {
        valgrind_without_aslr(valgrind, platform.os, platform.arch.as_str())
    };
    let ghost pre = strings_view(args@);
    push_arg(&mut args, lit("--tool=callgrind"));
    push_arg(&mut args, lit("--branch-sim=").concat(format_bool(config.get_branch_sim())));
    push_arg(&mut args, lit("--collect-bus=").concat(format_bool(config.get_collect_bus())));
    push_cache_args(&mut args, config.get_cache());
    push_filter_args(&mut args, config.get_filters());
    match config.get_output_file() {
        Some(p) => {
            push_arg(&mut args, lit("--callgrind-out-file=").concat(p));
        },
        None => {},
    }
    assert(strings_view(args@) =~= pre + profiler_args(config@));
    let ghost with_profiler = strings_view(args@);
    match command {
        None => {
            push_arg(&mut args, lit(platform.current_exe.as_str()));
            assert(strings_view(args@) =~= with_profiler + seq![platform.current_exe@]);
            CommandLine {
                program,
                args,
                env: Some((lit(CALLIPER_RUN_ID), encode_run_id(index))),
            }
        },
        Some(cmd) => {
            push_arg(&mut args, lit(cmd.program.as_str()));
            let ghost with_program = strings_view(args@);
            let mut i: usize = 0;
            while i < cmd.args.len()
                invariant
                    i <= cmd.args@.len(),
                    strings_view(args@) == with_program + strings_view(
                        cmd.args@.subrange(0, i as int),
                    ),
                decreases cmd.args@.len() - i,
            {
                push_arg(&mut args, cmd.args[i].clone());
                assert(strings_view(cmd.args@.subrange(0, i + 1)) =~= strings_view(
                    cmd.args@.subrange(0, i as int),
                ).push(cmd.args@[i as int]@));
                i += 1;
            }
            assert(cmd.args@.subrange(0, i as int) =~= cmd.args@);
            assert(strings_view(args@) =~= with_profiler + seq![cmd.program@] + cmd@.args);
            CommandLine { program, args, env: None }
        },
    }
}

/// The report file of one profiler run, and whether it is to be removed after use.
#[derive(Clone, Debug, Hash, PartialEq, Eq, PartialOrd, Ord)]
pub struct CallgrindResultFilename {
    /// Path of the report.
    pub path: String,
    /// Remove the file once the report is no longer needed.
    pub should_delete: bool,
}

/// The path of a report: the one the user chose, else `callgrind.out.<pid>`.
pub open spec fn output_path(pid: nat, user_output: Option<Seq<char>>) -> Seq<char> {
    match user_output {
        Some(p) => p,
        None => "callgrind.out."@ + decimal(pid),
    }
}

/// The report file of the profiler process `pid`. A file at a path that the user chose is
/// never marked for removal.
pub fn callgrind_output_name(pid: u32, user_output: Option<&str>, should_delete: bool) -> (r:
    CallgrindResultFilename)
    ensures
        r.path@ == output_path(
            pid as nat,
            match user_output {
                Some(p) => Some(p@),
                None => None,
            },
        ),
        r.should_delete == (should_delete && user_output is None),
{
    let should_delete = should_delete && user_output.is_none();
    let path = match user_output {
        Some(output) => lit(output),
        None => lit("callgrind.out.").concat(usize_to_decimal(pid as usize).as_str()),
    };
    CallgrindResultFilename { path, should_delete }
}

/// Two profiler processes with distinct ids write distinct default report files.
pub proof fn lemma_default_paths_distinct(a: u32, b: u32)
    ensures
        a != b ==> output_path(a as nat, None) != output_path(b as nat, None),
{
    crate::text::lemma_decimal_injective(a as nat, b as nat);
    if output_path(a as nat, None) == output_path(b as nat, None) {
        let p = "callgrind.out."@;
        assert(decimal(a as nat) =~= output_path(a as nat, None).subrange(
            p.len() as int,
            output_path(a as nat, None).len() as int,
        ));
        assert(decimal(b as nat) =~= output_path(b as nat, None).subrange(
            p.len() as int,
            output_path(b as nat, None).len() as int,
        ));
    }
}

} // verus!
