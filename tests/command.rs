use calliper::callgrind::{
    callgrind_output_name, format_bool, prepare_command, valgrind_without_aslr, Platform, TargetOs,
};
use calliper::scenario::ExternalCommand;
use calliper::{CacheOptions, CacheParameters, ScenarioConfig};

fn linux() -> Platform {
    Platform { os: TargetOs::Linux, arch: "x86_64".to_string(), current_exe: "/bin/bench".to_string() }
}

fn strings(v: &[&str]) -> Vec<String> {
    v.iter().map(|s| s.to_string()).collect()
}

#[test]
fn bool_options_are_yes_or_no() {
    assert_eq!(format_bool(true), "yes");
    assert_eq!(format_bool(false), "no");
}

#[test]
fn default_command_disables_aslr_and_reruns_self() {
    let c = prepare_command(&ScenarioConfig::new(), None, &linux(), 0);
    assert_eq!(c.program, "setarch");
    assert_eq!(
        c.args,
        strings(&[
            "x86_64",
            "-R",
            "valgrind",
            "--tool=callgrind",
            "--branch-sim=no",
            "--collect-bus=no",
            "--cache-sim=no",
            "/bin/bench"
        ])
    );
    assert_eq!(c.env, Some(("CALLIPER_RUN_ID".to_string(), "0".to_string())));
}

#[test]
fn aslr_enabled_runs_valgrind_directly() {
    let config = ScenarioConfig::new().aslr(true).valgrind("/opt/vg".to_string()).branch_sim(true);
    let c = prepare_command(&config, None, &linux(), 13);
    assert_eq!(c.program, "/opt/vg");
    assert_eq!(
        c.args,
        strings(&[
            "--tool=callgrind",
            "--branch-sim=yes",
            "--collect-bus=no",
            "--cache-sim=no",
            "/bin/bench"
        ])
    );
    assert_eq!(c.env, Some(("CALLIPER_RUN_ID".to_string(), "13".to_string())));
}

#[test]
fn launchers_per_operating_system() {
    let (p, a) = valgrind_without_aslr("vg", TargetOs::Linux, "aarch64");
    assert_eq!(p, "setarch");
    assert_eq!(a, strings(&["aarch64", "-R", "vg"]));
    let (p, a) = valgrind_without_aslr("vg", TargetOs::FreeBsd, "amd64");
    assert_eq!(p, "proccontrol");
    assert_eq!(a, strings(&["-m", "aslr", "-s", "disable", "vg"]));
    let (p, a) = valgrind_without_aslr("vg", TargetOs::Other, "x");
    assert_eq!(p, "vg");
    assert!(a.is_empty());
}

#[test]
fn cache_filters_and_output_are_passed_on() {
    let l1 = CacheParameters { size: 32768, associativity: 8, line_size: 64 };
    let ll = CacheParameters { size: 12582912, associativity: 16, line_size: 64 };
    let cache = CacheOptions { first_level_data: Some(l1), first_level_code: None, last_level: Some(ll) };
    let config = ScenarioConfig::new()
        .aslr(true)
        .collect_bus(true)
        .cache(Some(cache))
        .filters(vec!["f".to_string(), "*g*".to_string()])
        .output("out.txt".to_string());
    let c = prepare_command(&config, None, &linux(), 1);
    assert_eq!(
        c.args,
        strings(&[
            "--tool=callgrind",
            "--branch-sim=no",
            "--collect-bus=yes",
            "--cache-sim=yes",
            "--D1=32768,8,64",
            "--LL=12582912,16,64",
            "--toggle-collect=f",
            "--toggle-collect=*g*",
            "--callgrind-out-file=out.txt",
            "/bin/bench"
        ])
    );
}

#[test]
fn cache_simulation_with_host_parameters() {
    let config = ScenarioConfig::new().aslr(true).cache(Some(CacheOptions::default()));
    let c = prepare_command(&config, None, &linux(), 0);
    assert_eq!(
        c.args,
        strings(&["--tool=callgrind", "--branch-sim=no", "--collect-bus=no", "--cache-sim=yes", "/bin/bench"])
    );
    let code = CacheParameters { size: 1024, associativity: 2, line_size: 32 };
    let config = ScenarioConfig::new().aslr(true).cache(Some(CacheOptions {
        first_level_data: None,
        first_level_code: Some(code),
        last_level: None,
    }));
    let c = prepare_command(&config, None, &linux(), 0);
    assert_eq!(c.args[4], "--I1=1024,2,32");
}

#[test]
fn external_command_follows_profiler_arguments() {
    let cmd = ExternalCommand { program: "echo".to_string(), args: strings(&["Hello,", "world!"]) };
    let config = ScenarioConfig::new().aslr(true);
    let c = prepare_command(&config, Some(&cmd), &linux(), 3);
    assert_eq!(c.program, "valgrind");
    assert_eq!(
        c.args,
        strings(&[
            "--tool=callgrind",
            "--branch-sim=no",
            "--collect-bus=no",
            "--cache-sim=no",
            "echo",
            "Hello,",
            "world!"
        ])
    );
    assert_eq!(c.env, None);
}

#[test]
fn default_report_name_uses_the_process_id() {
    let f = callgrind_output_name(4321, None, true);
    assert_eq!(f.path, "callgrind.out.4321");
    assert!(f.should_delete);
    let f = callgrind_output_name(0, None, false);
    assert_eq!(f.path, "callgrind.out.0");
    assert!(!f.should_delete);
}

#[test]
fn chosen_report_name_is_kept() {
    let f = callgrind_output_name(4321, Some("mine.out"), false);
    assert_eq!(f.path, "mine.out");
    assert!(!f.should_delete);
    let f = callgrind_output_name(4321, Some("mine.out"), true);
    assert_eq!(f.path, "mine.out");
    assert!(!f.should_delete);
}
