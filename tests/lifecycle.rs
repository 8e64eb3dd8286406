use simulation::outcome::failure_message;
use simulation::{
    classify, failed_outcome, file_extension, file_stem, is_config_name, plan_batch, plan_run,
    select_config_sources, ConfigSource, InputConfig, LaunchEvent, LaunchStep, LogLevel, Outcome,
    RunPlan, SetupError, Simulation, Time, Verdict,
};

fn t(x: f64) -> Time {
    Time::from_bits(x.to_bits())
}

fn config(resume: bool, initial: f64, end: f64) -> InputConfig<Vec<u32>, String> {
    InputConfig {
        resume,
        initial_time: t(initial),
        final_time: t(end),
        integrator: "rk4".to_string(),
        universe: vec![1, 2, 3],
    }
}

fn source(name: &str, initial: f64, end: f64) -> ConfigSource<Vec<u32>, String> {
    ConfigSource { file_name: Some(name.to_string()), config: config(false, initial, end) }
}

fn simulation(resume: bool) -> Simulation<String, ()> {
    let plan = RunPlan::for_name("orbit".to_string());
    Simulation::assemble(plan, resume, t(0.0), t(10.0), "rk4".to_string(), ())
}

#[test]
fn time_order_follows_float_order() {
    let values = [-f64::INFINITY, -3.5, -1.0, -0.0, 0.0, 1e-300, 2.0, 10.0, f64::INFINITY, f64::NAN];
    for a in values {
        for b in values {
            assert_eq!(t(a).is_before(&t(b)), a < b, "{} < {}", a, b);
        }
    }
}

#[test]
fn time_nan_is_detected() {
    assert!(t(f64::NAN).is_nan());
    assert!(!t(f64::INFINITY).is_nan());
    assert_eq!(t(2.5).to_bits(), 2.5f64.to_bits());
}

#[test]
fn validate_accepts_increasing_span() {
    assert_eq!(config(false, 0.0, 10.0).validate(), Ok(()));
}

#[test]
fn validate_rejects_empty_or_reversed_span() {
    assert_eq!(config(false, 5.0, 5.0).validate(), Err(SetupError::InvalidTimeSpan));
    assert_eq!(config(false, 10.0, 0.0).validate(), Err(SetupError::InvalidTimeSpan));
    assert_eq!(config(false, f64::NAN, 1.0).validate(), Err(SetupError::InvalidTimeSpan));
    assert_eq!(config(false, -0.0, 0.0).validate(), Err(SetupError::InvalidTimeSpan));
}

#[test]
fn setup_error_messages() {
    assert_eq!(
        SetupError::InvalidTimeSpan.message(),
        "Simulation final_time must be greater than initial_time."
    );
    assert_eq!(SetupError::MissingName.message(), "unable to create output config");
}

#[test]
fn stems_and_extensions() {
    assert_eq!(file_stem("run.conf"), "run");
    assert_eq!(file_stem("a.b.conf"), "a.b");
    assert_eq!(file_stem("noext"), "noext");
    assert_eq!(file_stem(".conf"), ".conf");
    assert_eq!(file_stem(".."), "..");
    assert_eq!(file_stem("trail."), "trail");
    assert_eq!(file_extension("run.conf"), Some("conf".to_string()));
    assert_eq!(file_extension("trail."), Some(String::new()));
    assert_eq!(file_extension(".conf"), None);
    assert_eq!(file_extension("noext"), None);
    assert_eq!(file_extension(".."), None);
}

#[test]
fn config_names() {
    assert!(is_config_name("run.conf"));
    assert!(is_config_name("x.y.conf"));
    assert!(!is_config_name(".conf"));
    assert!(!is_config_name("run.config"));
    assert!(!is_config_name("run.conf.bak"));
    assert!(!is_config_name("run.Conf"));
    assert!(!is_config_name("conf"));
}

#[test]
fn batch_selects_config_files_in_listing_order() {
    let names = vec![
        Some("b.conf".to_string()),
        Some("notes.txt".to_string()),
        None,
        Some("a.conf".to_string()),
        Some(".conf".to_string()),
    ];
    assert_eq!(select_config_sources(&names), vec![0, 3]);
    assert_eq!(select_config_sources(&Vec::new()), Vec::<usize>::new());
}

#[test]
fn single_run_plan() {
    let plan = plan_run(&config(false, 0.0, 10.0), Some("orbit.conf")).unwrap();
    assert_eq!(plan.name, "orbit");
    assert_eq!(plan.config_file, "orbit.conf");
    assert_eq!(plan.output_file, "orbit.jsonl");
}

#[test]
fn run_plan_without_file_name_fails() {
    assert!(matches!(plan_run(&config(false, 0.0, 10.0), None), Err(SetupError::MissingName)));
}

#[test]
fn time_span_is_checked_before_name() {
    assert!(matches!(plan_run(&config(false, 3.0, 1.0), None), Err(SetupError::InvalidTimeSpan)));
    assert!(matches!(
        plan_run(&config(false, 3.0, 1.0), Some("orbit.conf")),
        Err(SetupError::InvalidTimeSpan)
    ));
}

#[test]
fn batch_with_one_empty_span_fails_whole() {
    let sources = vec![source("a.conf", 0.0, 1.0), source("b.conf", 0.0, 2.0), source("c.conf", 4.0, 4.0)];
    assert!(matches!(plan_batch(&sources), Err((2, SetupError::InvalidTimeSpan))));
}

#[test]
fn batch_reports_first_failure() {
    let mut sources = vec![source("a.conf", 0.0, 1.0), source("b.conf", 2.0, 1.0)];
    sources[0].file_name = None;
    assert!(matches!(plan_batch(&sources), Err((0, SetupError::MissingName))));
}

#[test]
fn batch_error_names_the_failing_source() {
    let sources = vec![source("a.conf", 0.0, 1.0), source("b.conf", 2.0, 1.0), source("c.conf", 5.0, 5.0)];
    assert!(matches!(plan_batch(&sources), Err((1, SetupError::InvalidTimeSpan))));
}

#[test]
fn chain_length_of_single_error() {
    let e = anyhow::Error::msg("only");
    match failed_outcome(&e) {
        Outcome::Failed { causes } => assert_eq!(causes, vec!["only".to_string()]),
        _ => panic!("expected a failure"),
    }
}

#[test]
fn valid_batch_plans_every_source_in_order() {
    let sources = vec![source("a.conf", 0.0, 1.0), source("b.conf", 0.0, 2.0)];
    let plans = plan_batch(&sources).unwrap();
    assert_eq!(plans.len(), 2);
    assert_eq!(plans[0].name, "a");
    assert_eq!(plans[1].output_file, "b.jsonl");
    assert!(plan_batch::<u8, u8>(&Vec::new()).unwrap().is_empty());
}

#[test]
fn assembled_simulation_keeps_settings() {
    let sim = simulation(true);
    assert_eq!(sim.name, "orbit");
    assert!(sim.resume);
    assert_eq!(sim.initial_time, t(0.0));
    assert_eq!(sim.final_time, t(10.0));
    assert_eq!(sim.integrator, "rk4");
}

#[test]
fn resumed_launch_skips_initialise() {
    assert!(matches!(simulation(true).next_step(LaunchEvent::Begin), LaunchStep::Integrate));
}

#[test]
fn fresh_launch_initialises_first() {
    let sim = simulation(false);
    assert!(matches!(sim.next_step(LaunchEvent::Begin), LaunchStep::Initialise));
    assert!(matches!(sim.next_step(LaunchEvent::Initialised), LaunchStep::Integrate));
    assert!(matches!(sim.next_step(LaunchEvent::InitialiseFailed), LaunchStep::Abort));
}

#[test]
fn step_limit_is_a_warning_and_launch_succeeds() {
    let outcome = Outcome::StepLimitReached { time: t(7.5), n_step: 1000 };
    match simulation(false).next_step(LaunchEvent::Finished(outcome)) {
        LaunchStep::Report(v) => {
            assert_eq!(v.level(), LogLevel::Warning);
            assert!(matches!(v, Verdict::Recoverable { n_step: 1000, .. }));
        }
        _ => panic!("the launch must report"),
    }
}

#[test]
fn completion_is_info() {
    let v = classify("orbit", Outcome::Completed);
    assert!(matches!(v, Verdict::Success));
    assert_eq!(v.level(), LogLevel::Info);
}

#[test]
fn failure_message_lists_causes_in_order() {
    let causes = vec!["integration failed".to_string(), "step size underflow".to_string()];
    assert_eq!(
        failure_message("orbit", &causes),
        "Aborting simulation orbit due to failure.: integration failed: step size underflow"
    );
    assert_eq!(failure_message("orbit", &Vec::new()), "Aborting simulation orbit due to failure.");
}

#[test]
fn fatal_failure_is_error_with_message() {
    let v = classify("orbit", Outcome::Failed { causes: vec!["boom".to_string()] });
    assert_eq!(v.level(), LogLevel::Error);
    match v {
        Verdict::Fatal { message } => assert_eq!(message, "Aborting simulation orbit due to failure.: boom"),
        _ => panic!("a failure is fatal"),
    }
}

#[test]
fn failed_outcome_walks_anyhow_chain() {
    let e = anyhow::Error::msg("root cause").context("middle").context("outer");
    match failed_outcome(&e) {
        Outcome::Failed { causes } => {
            assert_eq!(causes, vec!["outer".to_string(), "middle".to_string(), "root cause".to_string()]);
            let v = classify("orbit", Outcome::Failed { causes });
            match v {
                Verdict::Fatal { message } => assert_eq!(
                    message,
                    "Aborting simulation orbit due to failure.: outer: middle: root cause"
                ),
                _ => panic!("a failure is fatal"),
            }
        }
        _ => panic!("expected a failure"),
    }
}
