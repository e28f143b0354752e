use capping::bmc::BmcCommand;
use capping::cli::{stats_path, Configuration};
use capping::driver::firestarter::{firestarter, Firestarter, FirestarterError};
use capping::driver::trial::{
    append_trial_row, csv_ensure_header, trial_csv_header, SetupStep, Trial,
};
use capping::driver::{CappingOperation, CappingOrder, Driver};

fn test_configuration() -> Configuration {
    Configuration::new(
        "bmc-host".to_owned(),
        "admin".to_owned(),
        "SECRET-REDACTED".to_owned(),
        5,
        5,
        440,
        550,
        "./stats".to_owned(),
        "230509_1424".to_owned(),
        "/usr/local/bin/firestarter".to_owned(),
        "/usr/bin/ipmitool".to_owned(),
    )
}

#[test]
fn firestarter_rejects_load_of_zero() {
    assert_eq!(Firestarter::new(10, 0, 0, 0, 8), Err(FirestarterError::LoadOutOfRange));
}

#[test]
fn firestarter_rejects_load_above_one_hundred() {
    assert_eq!(Firestarter::new(10, 101, 0, 0, 8), Err(FirestarterError::LoadOutOfRange));
}

#[test]
fn firestarter_rejects_period_shorter_than_load() {
    assert_eq!(Firestarter::new(10, 50, 10, 0, 8), Err(FirestarterError::PeriodShorterThanLoad));
}

#[test]
fn firestarter_accepts_valid_load() {
    let f = Firestarter::new(10, 100, 0, 4, 8).unwrap();
    assert_eq!(f.runtime_secs, 10);
    assert_eq!(f.load_pct, 100);
    assert_eq!(f.load_period_us, 0);
    assert_eq!(f.n_threads, 4);
}

#[test]
fn firestarter_resolves_thread_sentinel() {
    // zero means all processing units: the queried count replaces it
    let f = Firestarter::new(10, 100, 0, 0, 8).unwrap();
    assert_eq!(f.n_threads, 8);
}

#[test]
fn firestarter_args_render_decimal_values() {
    let f = Firestarter::new(120, 99, 100, 0, 8).unwrap();
    assert_eq!(
        f.args(),
        vec!["--quiet", "--timeout", "120", "--load", "99", "--period", "100", "--threads", "8"]
    );
}

#[test]
fn firestarter_sample_configuration() {
    let f = firestarter().unwrap();
    assert_eq!(f.runtime_secs, 120);
    assert_eq!(f.load_pct, 99);
    assert_eq!(f.load_period_us, 100);
    assert!(f.n_threads >= 1);
}

#[test]
fn driver_never_emits_excluded_combination() {
    let config = test_configuration();
    let driver = Driver::new(&config);
    let scenarios = driver.run(8);
    for s in &scenarios {
        assert!(
            !(s.capping_order == CappingOrder::LevelAfterActivate
                && s.capping_operation == CappingOperation::Deactivate)
        );
    }
}

#[test]
fn driver_scenario_space_shape() {
    let config = test_configuration();
    let driver = Driver::new(&config);
    let scenarios = driver.run(8);
    // per trial root: 26 idle steps x 3 periods, plus 8/4 + 1 thread steps;
    // 5 roots per direction, 2 directions
    assert_eq!(scenarios.len(), (26 * 3 + 3) * 5 * 2);
    for s in &scenarios {
        assert!(0 < s.load_pct && s.load_pct <= 100);
        assert!(s.load_period_us == 0 || s.load_pct <= s.load_period_us);
    }
    let first = &scenarios[0];
    assert_eq!(first.cap_from, 440);
    assert_eq!(first.cap_to, 550);
    assert_eq!(first.capping_order, CappingOrder::LevelBeforeActivate);
    assert_eq!(first.capping_operation, CappingOperation::Activate);
    assert_eq!(first.load_pct, 100);
    assert_eq!(first.load_period_us, 10_000);
    assert_eq!(first.n_threads, 0);
}

#[test]
fn driver_single_core_runs_only_load_campaign() {
    let config = test_configuration();
    let driver = Driver::new(&config);
    let scenarios = driver.run(1);
    assert_eq!(scenarios.len(), 26 * 3 * 5 * 2);
}

#[test]
fn trial_campaign_order_and_threads() {
    let config = test_configuration();
    let trial = Trial::new(
        &config,
        440,
        550,
        CappingOrder::LevelToLevel,
        CappingOperation::Activate,
    );
    let load = trial.run_decreasing_load();
    assert_eq!(load.len(), 78);
    assert_eq!(load[0].load_pct, 100);
    assert_eq!(load[77].load_pct, 75);
    assert_eq!(load[77].load_period_us, 1_000_000);
    let threads = trial.run_decreasing_threads(8);
    assert_eq!(threads.len(), 3);
    assert_eq!(threads[0].n_threads, 8);
    assert_eq!(threads[2].n_threads, 6);
    let all = trial.run(8);
    assert_eq!(all.len(), 81);
}

#[test]
fn initial_conditions_level_before_activate() {
    let config = test_configuration();
    let mut trial = Trial::new(
        &config,
        440,
        550,
        CappingOrder::LevelBeforeActivate,
        CappingOperation::Activate,
    );
    let steps = trial.set_initial_conditions();
    assert_eq!(
        steps,
        vec![
            SetupStep::Command(BmcCommand::SetCapLevel(550)),
            SetupStep::SettlePause,
            SetupStep::Command(BmcCommand::DeactivateCap),
            SetupStep::SettlePause,
        ]
    );
}

#[test]
fn initial_conditions_level_to_level() {
    let config = test_configuration();
    let mut trial = Trial::new(
        &config,
        440,
        550,
        CappingOrder::LevelToLevel,
        CappingOperation::Deactivate,
    );
    let steps = trial.set_initial_conditions();
    assert_eq!(
        steps,
        vec![
            SetupStep::Command(BmcCommand::SetCapLevel(440)),
            SetupStep::SettlePause,
            SetupStep::Command(BmcCommand::ActivateCap),
            SetupStep::SettlePause,
        ]
    );
}

#[test]
fn trial_walks_the_whole_state_machine() {
    let config = test_configuration();
    let mut trial = Trial::new(
        &config,
        440,
        550,
        CappingOrder::LevelBeforeActivate,
        CappingOperation::Activate,
    );
    let _steps = trial.set_initial_conditions();
    let f = trial.start_scenario(100, 0, 4, 8).unwrap();
    assert_eq!(f.runtime_secs, 10);
    assert_eq!(f.load_pct, 100);
    assert_eq!(f.n_threads, 4);
    trial.finish_warmup();
    let command = trial.request_cap();
    assert_eq!(command, BmcCommand::ActivateCap);
    trial.resolve_cap();
    trial.join_load();
    let row = trial.log_row();
    assert!(row.ends_with(",100,0,4,LevelBeforeActivate,Activate,440,550"));
}

#[test]
fn trial_cap_command_sets_level_for_level_orders() {
    let config = test_configuration();
    let trial = Trial::new(
        &config,
        550,
        440,
        CappingOrder::LevelToLevel,
        CappingOperation::Activate,
    );
    assert_eq!(trial.do_cap_operation(), BmcCommand::SetCapLevel(440));
}

#[test]
fn trial_rejects_invalid_load_shape() {
    let config = test_configuration();
    let mut trial = Trial::new(
        &config,
        440,
        550,
        CappingOrder::LevelBeforeActivate,
        CappingOperation::Activate,
    );
    let _steps = trial.set_initial_conditions();
    assert_eq!(trial.start_scenario(0, 0, 4, 8), Err(FirestarterError::LoadOutOfRange));
}

#[test]
fn trial_log_header_written_once() {
    let mut file: Vec<String> = Vec::new();
    csv_ensure_header(&mut file);
    assert_eq!(file.len(), 1);
    assert_eq!(file[0], trial_csv_header());
    csv_ensure_header(&mut file);
    assert_eq!(file.len(), 1);
    append_trial_row(&mut file, "row-one".to_owned());
    append_trial_row(&mut file, "row-two".to_owned());
    csv_ensure_header(&mut file);
    assert_eq!(file, vec![trial_csv_header().to_owned(), "row-one".to_owned(), "row-two".to_owned()]);
    let header_count = file.iter().filter(|l| l.as_str() == trial_csv_header()).count();
    assert_eq!(header_count, 1);
}

#[test]
fn trial_log_path_carries_prefix_and_token() {
    let config = test_configuration();
    let trial = Trial::new(
        &config,
        440,
        550,
        CappingOrder::LevelBeforeActivate,
        CappingOperation::Activate,
    );
    assert_eq!(trial.make_csv_logfile_path(), "./stats/driver_log_230509_1424.csv");
}

#[test]
fn stats_path_respects_trailing_separator() {
    assert_eq!(stats_path("./stats", "bmc_stats", "t1"), "./stats/bmc_stats_t1.csv");
    assert_eq!(stats_path("./stats/", "bmc_stats", "t1"), "./stats/bmc_stats_t1.csv");
}

#[test]
fn order_and_operation_names() {
    assert_eq!(CappingOrder::LevelBeforeActivate.name(), "LevelBeforeActivate");
    assert_eq!(CappingOrder::LevelAfterActivate.name(), "LevelAfterActivate");
    assert_eq!(CappingOrder::LevelToLevel.name(), "LevelToLevel");
    assert_eq!(CappingOperation::Activate.name(), "Activate");
    assert_eq!(CappingOperation::Deactivate.name(), "Deactivate");
}

#[test]
fn test_core_count() {
    let core_count = capping::core_count().unwrap();
    assert!(core_count > 0);
}
