//! The Trial Orchestrator: one scenario's progress from establishing the
//! initial capping state through load, the timed capping action, and its
//! log row.
//!
//! The orchestrator is a state machine. The caller performs the waiting,
//! thread handling and file writing between steps; the steps here decide what
//! is done, in which order, and what the log row says. The phase discipline
//! guarantees the ordering the experiment depends on: the capping action is
//! never requested before the warm-up has elapsed, and the result row is
//! never produced before the load generator has been joined.

use crate::bmc::{BmcCommand, BMC};
use crate::cli::{spec_stats_path, stats_path, Configuration};
use crate::driver::firestarter::{spec_firestarter_ok, spec_resolved_threads, Firestarter, FirestarterError};
use crate::driver::{
    decreasing_load_scenarios, decreasing_threads_scenarios, spec_decreasing_load,
    spec_decreasing_threads, spec_operation_name, spec_order_name, spec_trial_scenarios,
    trial_scenarios, CappingOperation, CappingOrder, Scenario,
};
use crate::strutil::{bool_rep, bool_string, dec_i64, dec_rep, i64_string, lines_of, u64_string};
use vstd::prelude::*;
use vstd::string::StringExecFns;

verus! {

/// Cool-down pause between trials, in seconds.
pub const INTER_TRIAL_WAIT_SECS: u64 = 3;

/// Settle pause after each controller command while conditions are set up,
/// in seconds.
pub const SETUP_PAUSE_SECS: u64 = 1;

/// Where a trial stands.
#[derive(Clone, Copy, Debug, PartialEq, Eq, Structural)]
pub enum TrialPhase {
    Idle,
    InitialConditionsSet,
    LoadRunning,
    CapRequested,
    CapResolved,
    LoadJoined,
    Logged,
}

/// One step of establishing the initial capping state: a controller command,
/// or the settle pause of `SETUP_PAUSE_SECS` between commands.
#[derive(Clone, Copy, Debug, PartialEq, Eq, Structural)]
pub enum SetupStep {
    Command(BmcCommand),
    SettlePause,
}

/// Relies on chrono's `Local::now` and `DateTime::to_rfc3339_opts`: the clock
/// reading at the call, as RFC 3339 local-time text with second precision and
/// as milliseconds since the Unix epoch.
#[verifier::external_body]
fn now_stamp() -> (r: (String, i64)) {
    let t = chrono::Local::now();
    (t.to_rfc3339_opts(chrono::SecondsFormat::Secs, false), t.timestamp_millis())
}

/// The commands that establish a known capping state before a trial, with the
/// settle pause after each: the level is set to the value the order calls
/// for, and enforcement is put into the state the timed operation starts from.
pub open spec fn spec_initial_steps(
    cap_from: u64,
    cap_to: u64,
    o: CappingOrder,
    p: CappingOperation,
) -> Seq<SetupStep> {
    match o {
        CappingOrder::LevelBeforeActivate => seq![
            SetupStep::Command(BmcCommand::SetCapLevel(cap_to)),
            SetupStep::SettlePause,
            SetupStep::Command(
                if p is Activate {
                    BmcCommand::DeactivateCap
                } else {
                    BmcCommand::ActivateCap
                },
            ),
            SetupStep::SettlePause,
        ],
        CappingOrder::LevelAfterActivate => seq![
            SetupStep::Command(BmcCommand::SetCapLevel(cap_from)),
            SetupStep::SettlePause,
            SetupStep::Command(
                if p is Activate {
                    BmcCommand::ActivateCap
                } else {
                    BmcCommand::DeactivateCap
                },
            ),
            SetupStep::SettlePause,
        ],
        CappingOrder::LevelToLevel => seq![
            SetupStep::Command(BmcCommand::SetCapLevel(cap_from)),
            SetupStep::SettlePause,
            SetupStep::Command(BmcCommand::ActivateCap),
            SetupStep::SettlePause,
        ],
    }
}

/// The timed capping action: the operation itself when the level was set
/// beforehand, else setting the level to the target value.
pub open spec fn spec_cap_command(cap_to: u64, o: CappingOrder, p: CappingOperation) -> BmcCommand {
    match o {
        CappingOrder::LevelBeforeActivate => if p is Activate {
            BmcCommand::ActivateCap
        } else {
            BmcCommand::DeactivateCap
        },
        CappingOrder::LevelAfterActivate => BmcCommand::SetCapLevel(cap_to),
        CappingOrder::LevelToLevel => BmcCommand::SetCapLevel(cap_to),
    }
}

/// One trial-log row: the three timestamps, whether the capping action
/// finished inside the test window, its duration in milliseconds, and the
/// scenario's fields.
pub open spec fn spec_trial_row(t: Trial) -> Seq<char> {
    t.start_time@ + ","@ + t.end_time@ + ","@ + t.cap_request_time@ + ","@ + bool_rep(
        t.capping_thread_did_complete,
    ) + ","@ + dec_i64(t.time_to_cap_ms as int) + ","@ + dec_rep(t.load_pct as nat) + ","@
        + dec_rep(t.load_period_us as nat) + ","@ + dec_rep(t.n_threads as nat) + ","@
        + spec_order_name(t.capping_order) + ","@ + spec_operation_name(t.capping_operation) + ","@
        + dec_rep(t.cap_from as nat) + ","@ + dec_rep(t.cap_to as nat)
}

/// The trial-log header row.
pub open spec fn spec_trial_header() -> Seq<char> {
    "start_time,end_time,cap_request_time,cap_did_complete,cap_complete_time_millis,load_pct,load_period,n_threads,capping_order,capping_operation,cap_from,cap_to"@
}

/// The trial-log header row, as written on first creation of the log file.
pub fn trial_csv_header() -> (r: &'static str)
    ensures
        r@ == spec_trial_header(),
{
    "start_time,end_time,cap_request_time,cap_did_complete,cap_complete_time_millis,load_pct,load_period,n_threads,capping_order,capping_operation,cap_from,cap_to"
}

// ---------------------------------------------------------------------------
// the header writer
// ---------------------------------------------------------------------------

/// The trial log after the header writer ran: an absent or empty log gains
/// the header line; an existing one stands untouched.
pub open spec fn spec_ensure_header(file: Seq<Seq<char>>) -> Seq<Seq<char>> {
    if file.len() == 0 {
        seq![spec_trial_header()]
    } else {
        file
    }
}

/// One trial-log write: the header writer runs first, then the row is
/// appended.
pub open spec fn spec_append_trial_row(file: Seq<Seq<char>>, row: Seq<char>) -> Seq<Seq<char>> {
    spec_ensure_header(file) + seq![row]
}

/// Running the header writer against a trial log that already exists adds
/// nothing: the first write created the header, and every later run of the
/// writer leaves the log as it stands, for the same run timestamp or any
/// other content.
pub proof fn lemma_header_writer_idempotent(file: Seq<Seq<char>>, row: Seq<char>)
    ensures
        spec_ensure_header(spec_ensure_header(file)) == spec_ensure_header(file),
        spec_ensure_header(spec_append_trial_row(file, row)) == spec_append_trial_row(file, row),
{
}

/// Writes the header into an absent or empty log, and leaves any other log
/// untouched.
pub fn csv_ensure_header(file: &mut Vec<String>)
    ensures
        lines_of(final(file)@) == spec_ensure_header(lines_of(old(file)@)),
{
    if file.len() == 0 {
        file.push(trial_csv_header().to_owned());
        proof {
            assert(lines_of(file@) =~= seq![spec_trial_header()]);
        }
    } else {
        proof {
            assert(lines_of(file@) =~= spec_ensure_header(lines_of(file@)));
        }
    }
}

/// Appends one row, writing the header first when the log does not exist yet.
pub fn append_trial_row(file: &mut Vec<String>, row: String)
    ensures
        lines_of(final(file)@) == spec_append_trial_row(lines_of(old(file)@), row@),
{
    let ghost rv = row@;
    csv_ensure_header(file);
    let ghost mid = lines_of(file@);
    file.push(row);
    proof {
        assert(lines_of(file@) =~= mid + seq![rv]);
    }
}

// ---------------------------------------------------------------------------
// the orchestrator
// ---------------------------------------------------------------------------

/// One trial root: a wattage pair, order and operation, with the state the
/// orchestrator carries while a scenario runs.
pub struct Trial {
    pub bmc: BMC,
    pub cap_from: u64,
    pub cap_to: u64,
    pub capping_order: CappingOrder,
    pub capping_operation: CappingOperation,
    pub total_runtime_secs: u64,
    pub warmup_secs: u64,
    pub test_time_secs: u64,
    pub stats_dir: String,
    pub driver_log_filename_prefix: String,
    pub test_timestamp: String,
    pub load_pct: u64,
    pub load_period_us: u64,
    pub n_threads: u64,
    pub start_time: String,
    pub end_time: String,
    pub cap_request_time: String,
    pub cap_request_ms: i64,
    pub capping_thread_did_complete: bool,
    pub time_to_cap_ms: i64,
    pub phase: TrialPhase,
    pub warmed_up: bool,
}

/// A wall-clock difference, clamped to what a non-negative millisecond count
/// can hold.
pub open spec fn spec_clamped_diff(now: int, then: int) -> int {
    if now - then < 0 {
        0
    } else if now - then > i64::MAX as int {
        i64::MAX as int
    } else {
        now - then
    }
}

fn elapsed_clamped(now: i64, then: i64) -> (r: i64)
    ensures
        r >= 0,
        r as int == spec_clamped_diff(now as int, then as int),
{
    let d: i128 = now as i128 - then as i128;
    if d < 0 {
        0
    } else if d > i64::MAX as i128 {
        i64::MAX
    } else {
        d as i64
    }
}

impl Trial {
    pub fn new(
        config: &Configuration,
        cap_from: u64,
        cap_to: u64,
        capping_order: CappingOrder,
        capping_operation: CappingOperation,
    ) -> (r: Trial)
        requires
            config.warmup_secs + config.test_time_secs <= u64::MAX,
        ensures
            r.bmc.hostname@ == config.bmc_hostname@,
            r.bmc.username@ == config.bmc_username@,
            r.bmc.password@ == config.bmc_password@,
            r.cap_from == cap_from,
            r.cap_to == cap_to,
            r.capping_order == capping_order,
            r.capping_operation == capping_operation,
            r.total_runtime_secs == config.test_time_secs + config.warmup_secs,
            r.warmup_secs == config.warmup_secs,
            r.test_time_secs == config.test_time_secs,
            r.stats_dir@ == config.stats_dir@,
            r.driver_log_filename_prefix@ == config.driver_log_filename_prefix@,
            r.test_timestamp@ == config.test_timestamp@,
            r.load_pct == 0 && r.load_period_us == 0 && r.n_threads == 0,
            r.capping_thread_did_complete == false,
            r.time_to_cap_ms == i64::MAX,
            r.phase is Idle,
            r.warmed_up == false,
    {
        Trial {
            bmc: BMC::new(
                config.bmc_hostname.as_str(),
                config.bmc_username.as_str(),
                config.bmc_password.as_str(),
            ),
            cap_from,
            cap_to,
            capping_order,
            capping_operation,
            total_runtime_secs: config.test_time_secs + config.warmup_secs,
            warmup_secs: config.warmup_secs,
            test_time_secs: config.test_time_secs,
            stats_dir: config.stats_dir.clone(),
            driver_log_filename_prefix: config.driver_log_filename_prefix.clone(),
            test_timestamp: config.test_timestamp.clone(),
            load_pct: 0,
            load_period_us: 0,
            n_threads: 0,
            start_time: String::new(),
            end_time: String::new(),
            cap_request_time: String::new(),
            cap_request_ms: 0,
            capping_thread_did_complete: false,
            time_to_cap_ms: i64::MAX,
            phase: TrialPhase::Idle,
            warmed_up: false,
        }
    }

    /// The scenarios of both load-reduction campaigns of this trial root, in
    /// the order they are run.
    pub fn run(&self, n_cores: u64) -> (r: Vec<Scenario>)
        requires
            n_cores >= 1,
        ensures
            r@ == spec_trial_scenarios(
                self.cap_from,
                self.cap_to,
                self.capping_order,
                self.capping_operation,
                n_cores,
            ),
    {
        trial_scenarios(self.cap_from, self.cap_to, self.capping_order, self.capping_operation, n_cores)
    }

    /// The decreasing-load campaign of this trial root.
    pub fn run_decreasing_load(&self) -> (r: Vec<Scenario>)
        ensures
            r@ == spec_decreasing_load(
                self.cap_from,
                self.cap_to,
                self.capping_order,
                self.capping_operation,
            ),
    {
        decreasing_load_scenarios(self.cap_from, self.cap_to, self.capping_order, self.capping_operation)
    }

    /// The decreasing-threads campaign of this trial root.
    pub fn run_decreasing_threads(&self, n_cores: u64) -> (r: Vec<Scenario>)
        requires
            n_cores >= 1,
        ensures
            r@ == spec_decreasing_threads(
                self.cap_from,
                self.cap_to,
                self.capping_order,
                self.capping_operation,
                n_cores,
            ),
    {
        decreasing_threads_scenarios(
            self.cap_from,
            self.cap_to,
            self.capping_order,
            self.capping_operation,
            n_cores,
        )
    }

    /// Decides the command sequence that establishes the initial capping
    /// state, with a settle pause after each command.
    pub fn set_initial_conditions(&mut self) -> (r: Vec<SetupStep>)
        requires
            old(self).phase is Idle || old(self).phase is Logged,
        ensures
            *final(self) == (Trial { phase: TrialPhase::InitialConditionsSet, ..*old(self) }),
            r@ == spec_initial_steps(
                old(self).cap_from,
                old(self).cap_to,
                old(self).capping_order,
                old(self).capping_operation,
            ),
    {
        let mut steps: Vec<SetupStep> = Vec::new();
        match self.capping_order {
            CappingOrder::LevelBeforeActivate => {
                // level goes to the target; enforcement starts opposite to the
                // operation under test
                steps.push(SetupStep::Command(BmcCommand::SetCapLevel(self.cap_to)));
                steps.push(SetupStep::SettlePause);
                match self.capping_operation {
                    CappingOperation::Activate => {
                        steps.push(SetupStep::Command(BmcCommand::DeactivateCap));
                    },
                    CappingOperation::Deactivate => {
                        steps.push(SetupStep::Command(BmcCommand::ActivateCap));
                    },
                }
                steps.push(SetupStep::SettlePause);
            },
            CappingOrder::LevelAfterActivate => {
                // level starts from the source value; enforcement starts in
                // the state under test
                steps.push(SetupStep::Command(BmcCommand::SetCapLevel(self.cap_from)));
                steps.push(SetupStep::SettlePause);
                match self.capping_operation {
                    CappingOperation::Activate => {
                        steps.push(SetupStep::Command(BmcCommand::ActivateCap));
                    },
                    CappingOperation::Deactivate => {
                        steps.push(SetupStep::Command(BmcCommand::DeactivateCap));
                    },
                }
                steps.push(SetupStep::SettlePause);
            },
            CappingOrder::LevelToLevel => {
                steps.push(SetupStep::Command(BmcCommand::SetCapLevel(self.cap_from)));
                steps.push(SetupStep::SettlePause);
                steps.push(SetupStep::Command(BmcCommand::ActivateCap));
                steps.push(SetupStep::SettlePause);
            },
        }
        self.phase = TrialPhase::InitialConditionsSet;
        proof {
            assert(steps@ =~= spec_initial_steps(
                self.cap_from,
                self.cap_to,
                self.capping_order,
                self.capping_operation,
            ));
        }
        steps
    }

    /// Starts one scenario: records its load shape and start time and hands
    /// back the validated load-generator configuration, rejecting a load
    /// shape the generator does not accept. A thread count of zero is
    /// resolved to `n_cores`, the caller's queried processing-unit count; the
    /// log row keeps the scenario's own value.
    pub fn start_scenario(
        &mut self,
        load_pct: u64,
        load_period_us: u64,
        n_threads: u64,
        n_cores: u64,
    ) -> (r: Result<Firestarter, FirestarterError>)
        requires
            old(self).phase is InitialConditionsSet,
            n_cores >= 1,
        ensures
            r is Ok <==> spec_firestarter_ok(load_pct, load_period_us),
            r is Ok ==> r->Ok_0 == (Firestarter {
                runtime_secs: old(self).total_runtime_secs,
                load_pct,
                load_period_us,
                n_threads: spec_resolved_threads(n_threads, n_cores),
            }),
            r is Ok ==> r->Ok_0.n_threads >= 1,
            r is Ok ==> *final(self) == (Trial {
                phase: TrialPhase::LoadRunning,
                warmed_up: false,
                load_pct,
                load_period_us,
                n_threads,
                start_time: final(self).start_time,
                ..*old(self)
            }),
            r is Err ==> *final(self) == *old(self),
    {
        let fs = Firestarter::new(
            self.total_runtime_secs,
            load_pct,
            load_period_us,
            n_threads,
            n_cores,
        )?;
        let (text, _ms) = now_stamp();
        self.load_pct = load_pct;
        self.load_period_us = load_period_us;
        self.n_threads = n_threads;
        self.start_time = text;
        self.warmed_up = false;
        self.phase = TrialPhase::LoadRunning;
        Ok(fs)
    }

    /// Records that the warm-up sleep has elapsed; only then may the capping
    /// action be requested.
    pub fn finish_warmup(&mut self)
        requires
            old(self).phase is LoadRunning,
        ensures
            *final(self) == (Trial { warmed_up: true, ..*old(self) }),
    {
        self.warmed_up = true;
    }

    /// The timed capping action of this trial.
    pub fn do_cap_operation(&self) -> (r: BmcCommand)
        ensures
            r == spec_cap_command(self.cap_to, self.capping_order, self.capping_operation),
    {
        match self.capping_order {
            CappingOrder::LevelBeforeActivate => {
                match self.capping_operation {
                    CappingOperation::Activate => BmcCommand::ActivateCap,
                    CappingOperation::Deactivate => BmcCommand::DeactivateCap,
                }
            },
            CappingOrder::LevelAfterActivate | CappingOrder::LevelToLevel => BmcCommand::SetCapLevel(
                self.cap_to,
            ),
        }
    }

    /// Records the request instant and decides the timed capping command.
    /// The warm-up must have elapsed first.
    pub fn request_cap(&mut self) -> (r: BmcCommand)
        requires
            old(self).phase is LoadRunning,
            old(self).warmed_up,
        ensures
            r == spec_cap_command(
                old(self).cap_to,
                old(self).capping_order,
                old(self).capping_operation,
            ),
            *final(self) == (Trial {
                phase: TrialPhase::CapRequested,
                cap_request_time: final(self).cap_request_time,
                cap_request_ms: final(self).cap_request_ms,
                ..*old(self)
            }),
    {
        let (text, ms) = now_stamp();
        self.cap_request_time = text;
        self.cap_request_ms = ms;
        self.phase = TrialPhase::CapRequested;
        self.do_cap_operation()
    }

    /// Records that the capping command returned: its elapsed wall-clock time
    /// is the time to cap, and the action completed when that time lies
    /// inside the test window.
    pub fn resolve_cap(&mut self)
        requires
            old(self).phase is CapRequested,
        ensures
            *final(self) == (Trial {
                phase: TrialPhase::CapResolved,
                time_to_cap_ms: final(self).time_to_cap_ms,
                capping_thread_did_complete: final(self).capping_thread_did_complete,
                ..*old(self)
            }),
            final(self).time_to_cap_ms >= 0,
            final(self).capping_thread_did_complete == (final(self).time_to_cap_ms as int <= old(
                self,
            ).test_time_secs as int * 1000),
    {
        let (_text, ms) = now_stamp();
        let elapsed = elapsed_clamped(ms, self.cap_request_ms);
        self.time_to_cap_ms = elapsed;
        self.capping_thread_did_complete = (elapsed as u128) <= (self.test_time_secs as u128)
            * 1000;
        self.phase = TrialPhase::CapResolved;
    }

    /// Records that the load generator's thread has been joined.
    pub fn join_load(&mut self)
        requires
            old(self).phase is CapResolved,
        ensures
            *final(self) == (Trial {
                phase: TrialPhase::LoadJoined,
                end_time: final(self).end_time,
                ..*old(self)
            }),
    {
        let (text, _ms) = now_stamp();
        self.end_time = text;
        self.phase = TrialPhase::LoadJoined;
    }

    /// Produces the scenario's log row. The load generator must have been
    /// joined first, so the row always reflects a fully completed load and
    /// cap pair.
    pub fn log_row(&mut self) -> (r: String)
        requires
            old(self).phase is LoadJoined,
        ensures
            *final(self) == (Trial { phase: TrialPhase::Logged, ..*old(self) }),
            r@ == spec_trial_row(*old(self)),
    {
        let mut row = self.start_time.clone();
        row.append(",");
        row.append(self.end_time.as_str());
        row.append(",");
        row.append(self.cap_request_time.as_str());
        row.append(",");
        row.append(bool_string(self.capping_thread_did_complete));
        row.append(",");
        row.append(i64_string(self.time_to_cap_ms).as_str());
        row.append(",");
        row.append(u64_string(self.load_pct).as_str());
        row.append(",");
        row.append(u64_string(self.load_period_us).as_str());
        row.append(",");
        row.append(u64_string(self.n_threads).as_str());
        row.append(",");
        row.append(self.capping_order.name());
        row.append(",");
        row.append(self.capping_operation.name());
        row.append(",");
        row.append(u64_string(self.cap_from).as_str());
        row.append(",");
        row.append(u64_string(self.cap_to).as_str());
        self.phase = TrialPhase::Logged;
        proof {
            assert(row@ =~= spec_trial_row(*old(self)));
        }
        row
    }

    /// The trial log's path: the driver-log prefix and the run's timestamp
    /// token under the stats directory.
    pub fn make_csv_logfile_path(&self) -> (r: String)
        ensures
            r@ == spec_stats_path(
                self.stats_dir@,
                self.driver_log_filename_prefix@,
                self.test_timestamp@,
            ),
    {
        stats_path(
            self.stats_dir.as_str(),
            self.driver_log_filename_prefix.as_str(),
            self.test_timestamp.as_str(),
        )
    }
}



} // verus!
