use calliper::callgrind::{Platform, TargetOs};
use calliper::runner::RunPlan;
use calliper::scenario::ExternalCommand;
use calliper::{CalliperError, Runner, Scenario, ScenarioConfig};

fn platform() -> Platform {
    Platform { os: TargetOs::Other, arch: "x86_64".to_string(), current_exe: "/bin/b".to_string() }
}

fn finish_all(plans: &[RunPlan], pids: &[u32]) -> Vec<String> {
    plans
        .iter()
        .zip(pids)
        .map(|(p, pid)| p.finish(*pid, Some(0)).unwrap().path)
        .collect()
}

#[test]
fn two_scenarios_keep_their_order_and_distinct_reports() {
    let runner = Runner::default();
    let scenarios = vec![Scenario::new("f".to_string()), Scenario::new("g".to_string())];
    let plans = runner.plan(&scenarios, &platform());
    assert_eq!(plans.len(), 2);
    assert_eq!(plans[0].command.env, Some(("CALLIPER_RUN_ID".to_string(), "0".to_string())));
    assert_eq!(plans[1].command.env, Some(("CALLIPER_RUN_ID".to_string(), "1".to_string())));
    assert!(plans[0].command.args.contains(&"--toggle-collect=f".to_string()));
    assert!(plans[1].command.args.contains(&"--toggle-collect=g".to_string()));
    let paths = finish_all(&plans, &[255, 256]);
    assert_eq!(paths, vec!["callgrind.out.255".to_string(), "callgrind.out.256".to_string()]);
    assert_ne!(paths[0], paths[1]);
}

#[test]
fn scenario_layer_overrides_runner_layer() {
    let runner = Runner::default()
        .config(ScenarioConfig::new().branch_sim(true).collect_bus(true).cleanup_files(false));
    let scenarios = vec![
        Scenario::new("f".to_string()).config(ScenarioConfig::new().branch_sim(false)),
        Scenario::new("g".to_string()),
    ];
    let plans = runner.plan(&scenarios, &platform());
    assert!(plans[0].command.args.contains(&"--branch-sim=no".to_string()));
    assert!(plans[0].command.args.contains(&"--collect-bus=yes".to_string()));
    // a replaced layer drops the default filter
    assert!(!plans[0].command.args.iter().any(|a| a.starts_with("--toggle-collect")));
    assert!(plans[1].command.args.contains(&"--branch-sim=yes".to_string()));
    assert!(!plans[0].should_delete);
    assert!(!plans[1].should_delete);
}

#[test]
fn chosen_output_is_never_deleted() {
    let runner = Runner::default();
    let scenarios = vec![
        Scenario::new("f".to_string()).config(ScenarioConfig::new().output("f.out".to_string())),
        Scenario::new("g".to_string()),
    ];
    let plans = runner.plan(&scenarios, &platform());
    assert_eq!(plans[0].output_file, Some("f.out".to_string()));
    assert!(!plans[0].should_delete);
    assert!(plans[1].should_delete);
    let f = plans[0].finish(99, Some(0)).unwrap();
    assert_eq!(f.path, "f.out");
    assert!(!f.should_delete);
    assert!(plans[0].command.args.contains(&"--callgrind-out-file=f.out".to_string()));
}

#[test]
fn failing_run_is_a_benchmark_failure() {
    let runner = Runner::default();
    let scenarios = vec![Scenario::new("f".to_string())];
    let plans = runner.plan(&scenarios, &platform());
    assert!(matches!(plans[0].finish(7, Some(1)), Err(CalliperError::BenchmarkFailure { .. })));
    assert!(matches!(plans[0].finish(7, None), Err(CalliperError::BenchmarkFailure { .. })));
}

#[test]
fn command_scenario_runs_the_command() {
    let runner = Runner::default().parallelism(2);
    assert_eq!(runner.get_parallelism(), 2);
    let scenario = Scenario::new_with_command("echo".to_string(), vec!["hi".to_string()])
        .name("Short".to_string());
    assert_eq!(scenario.get_name(), "Short");
    let command: &ExternalCommand = scenario.get_command().unwrap();
    assert_eq!(command.program, "echo");
    let plans = runner.plan(&vec![scenario], &platform());
    assert_eq!(plans[0].command.program, "valgrind");
    assert_eq!(plans[0].command.env, None);
    assert_eq!(plans[0].command.args.last().map(|s| s.as_str()), Some("hi"));
}

#[test]
fn function_scenario_filters_on_its_symbol() {
    let s = Scenario::new("bench_fn".to_string());
    assert_eq!(s.get_name(), "bench_fn");
    assert!(s.get_command().is_none());
    assert_eq!(s.get_config().get_filters(), &["bench_fn".to_string()][..]);
    assert_eq!(Runner::default().get_parallelism(), 1);
}
