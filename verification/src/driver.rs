//! The Permutation Driver: enumerates every capping scenario of a run.
//!
//! For each wattage direction, capping order and capping operation — minus
//! the one meaningless combination — two load-reduction campaigns are
//! enumerated: decreasing average load over three averaging periods, and
//! decreasing active thread count at full load.

pub mod firestarter;
pub mod trial;

use crate::cli::Configuration;
use crate::driver::firestarter::spec_firestarter_ok;
use vstd::prelude::*;

verus! {

/// The sequence in which the wattage limit is set and capping is toggled.
#[derive(Clone, Copy, Debug, PartialEq, Eq, Structural)]
pub enum CappingOrder {
    LevelBeforeActivate,
    LevelAfterActivate,
    LevelToLevel,
}

/// Which action is timed during a trial.
#[derive(Clone, Copy, Debug, PartialEq, Eq, Structural)]
pub enum CappingOperation {
    Activate,
    Deactivate,
}

pub open spec fn spec_order_name(o: CappingOrder) -> Seq<char> {
    match o {
        CappingOrder::LevelBeforeActivate => "LevelBeforeActivate"@,
        CappingOrder::LevelAfterActivate => "LevelAfterActivate"@,
        CappingOrder::LevelToLevel => "LevelToLevel"@,
    }
}

pub open spec fn spec_operation_name(p: CappingOperation) -> Seq<char> {
    match p {
        CappingOperation::Activate => "Activate"@,
        CappingOperation::Deactivate => "Deactivate"@,
    }
}

impl CappingOrder {
    /// The order's name, as log rows carry it.
    pub fn name(&self) -> (r: &'static str)
        ensures
            r@ == spec_order_name(*self),
    {
        match self {
            CappingOrder::LevelBeforeActivate => "LevelBeforeActivate",
            CappingOrder::LevelAfterActivate => "LevelAfterActivate",
            CappingOrder::LevelToLevel => "LevelToLevel",
        }
    }
}

impl CappingOperation {
    /// The operation's name, as log rows carry it.
    pub fn name(&self) -> (r: &'static str)
        ensures
            r@ == spec_operation_name(*self),
    {
        match self {
            CappingOperation::Activate => "Activate",
            CappingOperation::Deactivate => "Deactivate",
        }
    }
}

/// The immutable parameters of one trial, created by the Permutation Driver
/// and consumed once by the Trial Orchestrator.
#[derive(Clone, Copy, Debug, PartialEq, Eq, Structural)]
pub struct Scenario {
    pub cap_from: u64,
    pub cap_to: u64,
    pub capping_order: CappingOrder,
    pub capping_operation: CappingOperation,
    pub load_pct: u64,
    pub load_period_us: u64,
    /// Zero means: one thread per available processing unit.
    pub n_threads: u64,
}

/// The one meaningless combination: deactivating after an activation step has
/// no defined meaning and is excluded by the driver.
pub open spec fn spec_excluded(o: CappingOrder, p: CappingOperation) -> bool {
    o is LevelAfterActivate && p is Deactivate
}

/// The scenario's load shape is one the load generator accepts.
pub open spec fn scenario_load_valid(s: Scenario) -> bool {
    spec_firestarter_ok(s.load_pct, s.load_period_us)
}

pub open spec fn scenario_root_matches(
    s: Scenario,
    cap_from: u64,
    cap_to: u64,
    o: CappingOrder,
    p: CappingOperation,
) -> bool {
    s.cap_from == cap_from && s.cap_to == cap_to && s.capping_order == o
        && s.capping_operation == p
}

// ---------------------------------------------------------------------------
// the decreasing-load campaign
// ---------------------------------------------------------------------------

/// The three averaging periods the load is spread over, in microseconds.
pub open spec fn spec_load_periods() -> Seq<u64> {
    seq![10_000u64, 100_000u64, 1_000_000u64]
}

/// The three scenarios of one idle step: the same load over each period,
/// thread count left at "all available".
pub open spec fn spec_load_row(
    cap_from: u64,
    cap_to: u64,
    o: CappingOrder,
    p: CappingOperation,
    idle: int,
) -> Seq<Scenario> {
    Seq::new(
        3,
        |k: int|
            Scenario {
                cap_from,
                cap_to,
                capping_order: o,
                capping_operation: p,
                load_pct: (100 - idle) as u64,
                load_period_us: spec_load_periods()[k],
                n_threads: 0,
            },
    )
}

pub open spec fn spec_load_upto(
    cap_from: u64,
    cap_to: u64,
    o: CappingOrder,
    p: CappingOperation,
    i: int,
) -> Seq<Scenario>
    decreases i
    when i >= 0
{
    if i <= 0 {
        Seq::empty()
    } else {
        spec_load_upto(cap_from, cap_to, o, p, i - 1) + spec_load_row(cap_from, cap_to, o, p, i - 1)
    }
}

/// The whole decreasing-load campaign: idle percentage 0 through 25, three
/// periods each.
pub open spec fn spec_decreasing_load(
    cap_from: u64,
    cap_to: u64,
    o: CappingOrder,
    p: CappingOperation,
) -> Seq<Scenario> {
    spec_load_upto(cap_from, cap_to, o, p, 26)
}

// ---------------------------------------------------------------------------
// the decreasing-threads campaign
// ---------------------------------------------------------------------------

/// How many threads are at most idled: a quarter of the cores, one at least.
pub open spec fn spec_max_idle_threads(n_cores: u64) -> u64 {
    if n_cores / 4 >= 1 {
        n_cores / 4
    } else {
        1
    }
}

pub open spec fn spec_threads_row(
    cap_from: u64,
    cap_to: u64,
    o: CappingOrder,
    p: CappingOperation,
    n_cores: u64,
    idle: int,
) -> Scenario {
    Scenario {
        cap_from,
        cap_to,
        capping_order: o,
        capping_operation: p,
        load_pct: 100,
        load_period_us: 0,
        n_threads: (n_cores - idle) as u64,
    }
}

pub open spec fn spec_threads_upto(
    cap_from: u64,
    cap_to: u64,
    o: CappingOrder,
    p: CappingOperation,
    n_cores: u64,
    i: int,
) -> Seq<Scenario>
    decreases i
    when i >= 0
{
    if i <= 0 {
        Seq::empty()
    } else {
        spec_threads_upto(cap_from, cap_to, o, p, n_cores, i - 1) + seq![
            spec_threads_row(cap_from, cap_to, o, p, n_cores, i - 1),
        ]
    }
}

/// The whole decreasing-threads campaign: full load, thread count stepped
/// down from all available, never below one; empty on a single-core machine.
pub open spec fn spec_decreasing_threads(
    cap_from: u64,
    cap_to: u64,
    o: CappingOrder,
    p: CappingOperation,
    n_cores: u64,
) -> Seq<Scenario> {
    if n_cores <= 1 {
        Seq::empty()
    } else {
        spec_threads_upto(
            cap_from,
            cap_to,
            o,
            p,
            n_cores,
            spec_max_idle_threads(n_cores) as int + 1,
        )
    }
}

// ---------------------------------------------------------------------------
// whole-run enumeration
// ---------------------------------------------------------------------------

/// Both campaigns of one trial root, load reduction first.
pub open spec fn spec_trial_scenarios(
    cap_from: u64,
    cap_to: u64,
    o: CappingOrder,
    p: CappingOperation,
    n_cores: u64,
) -> Seq<Scenario> {
    spec_decreasing_load(cap_from, cap_to, o, p) + spec_decreasing_threads(
        cap_from,
        cap_to,
        o,
        p,
        n_cores,
    )
}

/// The order and operation combinations a run walks, in order: every capping
/// order crossed with both operations, minus the excluded combination.
pub open spec fn spec_order_op_list() -> Seq<(CappingOrder, CappingOperation)> {
    seq![
        (CappingOrder::LevelBeforeActivate, CappingOperation::Activate),
        (CappingOrder::LevelBeforeActivate, CappingOperation::Deactivate),
        (CappingOrder::LevelAfterActivate, CappingOperation::Activate),
        (CappingOrder::LevelToLevel, CappingOperation::Activate),
        (CappingOrder::LevelToLevel, CappingOperation::Deactivate),
    ]
}

pub open spec fn spec_pair_upto(cap_from: u64, cap_to: u64, n_cores: u64, i: int) -> Seq<Scenario>
    decreases i
    when i >= 0
{
    if i <= 0 {
        Seq::empty()
    } else {
        spec_pair_upto(cap_from, cap_to, n_cores, i - 1) + spec_trial_scenarios(
            cap_from,
            cap_to,
            spec_order_op_list()[i - 1].0,
            spec_order_op_list()[i - 1].1,
            n_cores,
        )
    }
}

/// All trials of one wattage direction.
pub open spec fn spec_pair_scenarios(cap_from: u64, cap_to: u64, n_cores: u64) -> Seq<Scenario> {
    spec_pair_upto(cap_from, cap_to, n_cores, 5)
}

/// The whole run: low-to-high wattage first, then high-to-low.
pub open spec fn spec_driver_scenarios(cap_low: u64, cap_high: u64, n_cores: u64) -> Seq<
    Scenario,
> {
    spec_pair_scenarios(cap_low, cap_high, n_cores) + spec_pair_scenarios(
        cap_high,
        cap_low,
        n_cores,
    )
}

// ---------------------------------------------------------------------------
// element properties
// ---------------------------------------------------------------------------

proof fn lemma_load_upto_props(
    cap_from: u64,
    cap_to: u64,
    o: CappingOrder,
    p: CappingOperation,
    i: int,
)
    requires
        0 <= i <= 26,
    ensures
        forall|k: int|
            0 <= k < spec_load_upto(cap_from, cap_to, o, p, i).len() ==> {
                let s = #[trigger] spec_load_upto(cap_from, cap_to, o, p, i)[k];
                scenario_root_matches(s, cap_from, cap_to, o, p) && scenario_load_valid(s)
            },
    decreases i,
{
    if i > 0 {
        lemma_load_upto_props(cap_from, cap_to, o, p, i - 1);
    }
}

proof fn lemma_threads_upto_props(
    cap_from: u64,
    cap_to: u64,
    o: CappingOrder,
    p: CappingOperation,
    n_cores: u64,
    i: int,
)
    requires
        n_cores >= 2,
        0 <= i <= spec_max_idle_threads(n_cores) + 1,
    ensures
        forall|k: int|
            0 <= k < spec_threads_upto(cap_from, cap_to, o, p, n_cores, i).len() ==> {
                let s = #[trigger] spec_threads_upto(cap_from, cap_to, o, p, n_cores, i)[k];
                scenario_root_matches(s, cap_from, cap_to, o, p) && scenario_load_valid(s)
                    && s.n_threads >= 1
            },
    decreases i,
{
    if i > 0 {
        lemma_threads_upto_props(cap_from, cap_to, o, p, n_cores, i - 1);
        assert(spec_max_idle_threads(n_cores) <= n_cores - 1);
    }
}

proof fn lemma_trial_scenarios_props(
    cap_from: u64,
    cap_to: u64,
    o: CappingOrder,
    p: CappingOperation,
    n_cores: u64,
)
    requires
        n_cores >= 1,
    ensures
        forall|k: int|
            0 <= k < spec_trial_scenarios(cap_from, cap_to, o, p, n_cores).len() ==> {
                let s = #[trigger] spec_trial_scenarios(cap_from, cap_to, o, p, n_cores)[k];
                scenario_root_matches(s, cap_from, cap_to, o, p) && scenario_load_valid(s)
            },
{
    lemma_load_upto_props(cap_from, cap_to, o, p, 26);
    if n_cores >= 2 {
        lemma_threads_upto_props(
            cap_from,
            cap_to,
            o,
            p,
            n_cores,
            spec_max_idle_threads(n_cores) as int + 1,
        );
    }
}

proof fn lemma_pair_upto_props(cap_from: u64, cap_to: u64, n_cores: u64, i: int)
    requires
        n_cores >= 1,
        0 <= i <= 5,
    ensures
        forall|k: int|
            0 <= k < spec_pair_upto(cap_from, cap_to, n_cores, i).len() ==> {
                let s = #[trigger] spec_pair_upto(cap_from, cap_to, n_cores, i)[k];
                &&& s.cap_from == cap_from
                &&& s.cap_to == cap_to
                &&& scenario_load_valid(s)
                &&& !spec_excluded(s.capping_order, s.capping_operation)
            },
    decreases i,
{
    if i > 0 {
        lemma_pair_upto_props(cap_from, cap_to, n_cores, i - 1);
        let o = spec_order_op_list()[i - 1].0;
        let p = spec_order_op_list()[i - 1].1;
        lemma_trial_scenarios_props(cap_from, cap_to, o, p, n_cores);
        assert(!spec_excluded(o, p));
    }
}

/// The Permutation Driver never pairs the level-after-activate order with the
/// deactivate operation: no enumerated scenario carries that combination.
pub proof fn lemma_no_excluded_combination(cap_low: u64, cap_high: u64, n_cores: u64)
    requires
        n_cores >= 1,
    ensures
        forall|i: int|
            0 <= i < spec_driver_scenarios(cap_low, cap_high, n_cores).len() ==> !spec_excluded(
                (#[trigger] spec_driver_scenarios(cap_low, cap_high, n_cores)[i]).capping_order,
                spec_driver_scenarios(cap_low, cap_high, n_cores)[i].capping_operation,
            ),
{
    lemma_pair_upto_props(cap_low, cap_high, n_cores, 5);
    lemma_pair_upto_props(cap_high, cap_low, n_cores, 5);
}

/// Every scenario the Permutation Driver enumerates carries a load shape the
/// load generator accepts: the percentage lies in (0, 100] and fits into the
/// averaging period, so constructing the generator configuration succeeds.
pub proof fn lemma_driver_scenarios_load_valid(cap_low: u64, cap_high: u64, n_cores: u64)
    requires
        n_cores >= 1,
    ensures
        forall|i: int|
            0 <= i < spec_driver_scenarios(cap_low, cap_high, n_cores).len()
                ==> scenario_load_valid(
                #[trigger] spec_driver_scenarios(cap_low, cap_high, n_cores)[i],
            ),
{
    lemma_pair_upto_props(cap_low, cap_high, n_cores, 5);
    lemma_pair_upto_props(cap_high, cap_low, n_cores, 5);
}

// ---------------------------------------------------------------------------
// executable enumeration
// ---------------------------------------------------------------------------

/// The scenarios of the decreasing-load campaign, in the order they are run.
pub fn decreasing_load_scenarios(
    cap_from: u64,
    cap_to: u64,
    o: CappingOrder,
    p: CappingOperation,
) -> (r: Vec<Scenario>)
    ensures
        r@ == spec_decreasing_load(cap_from, cap_to, o, p),
{
    let mut out: Vec<Scenario> = Vec::new();
    let mut idle: u64 = 0;
    while idle <= 25
        invariant
            idle <= 26,
            out@ == spec_load_upto(cap_from, cap_to, o, p, idle as int),
        decreases 26 - idle,
    {
        let load_pct: u64 = 100 - idle;
        out.push(
            Scenario {
                cap_from,
                cap_to,
                capping_order: o,
                capping_operation: p,
                load_pct,
                load_period_us: 10_000,
                n_threads: 0,
            },
        );
        out.push(
            Scenario {
                cap_from,
                cap_to,
                capping_order: o,
                capping_operation: p,
                load_pct,
                load_period_us: 100_000,
                n_threads: 0,
            },
        );
        out.push(
            Scenario {
                cap_from,
                cap_to,
                capping_order: o,
                capping_operation: p,
                load_pct,
                load_period_us: 1_000_000,
                n_threads: 0,
            },
        );
        proof {
            assert(spec_load_upto(cap_from, cap_to, o, p, idle as int + 1) =~= out@);
        }
        idle = idle + 1;
    }
    out
}

/// The scenarios of the decreasing-threads campaign, in the order they are
/// run; empty on a single-core machine.
pub fn decreasing_threads_scenarios(
    cap_from: u64,
    cap_to: u64,
    o: CappingOrder,
    p: CappingOperation,
    n_cores: u64,
) -> (r: Vec<Scenario>)
    requires
        n_cores >= 1,
    ensures
        r@ == spec_decreasing_threads(cap_from, cap_to, o, p, n_cores),
{
    let mut out: Vec<Scenario> = Vec::new();
    if n_cores == 1 {
        return out;
    }
    let max_idle: u64 = if n_cores / 4 >= 1 {
        n_cores / 4
    } else {
        1
    };
    let mut idle: u64 = 0;
    while idle <= max_idle
        invariant
            n_cores >= 2,
            max_idle == spec_max_idle_threads(n_cores),
            max_idle <= n_cores - 1,
            idle <= max_idle + 1,
            out@ == spec_threads_upto(cap_from, cap_to, o, p, n_cores, idle as int),
        decreases max_idle + 1 - idle,
    {
        out.push(
            Scenario {
                cap_from,
                cap_to,
                capping_order: o,
                capping_operation: p,
                load_pct: 100,
                load_period_us: 0,
                n_threads: n_cores - idle,
            },
        );
        proof {
            assert(spec_threads_upto(cap_from, cap_to, o, p, n_cores, idle as int + 1) =~= out@);
        }
        idle = idle + 1;
    }
    out
}

/// Both campaigns of one trial root, load reduction first.
pub fn trial_scenarios(
    cap_from: u64,
    cap_to: u64,
    o: CappingOrder,
    p: CappingOperation,
    n_cores: u64,
) -> (r: Vec<Scenario>)
    requires
        n_cores >= 1,
    ensures
        r@ == spec_trial_scenarios(cap_from, cap_to, o, p, n_cores),
{
    let mut out = decreasing_load_scenarios(cap_from, cap_to, o, p);
    let mut threads = decreasing_threads_scenarios(cap_from, cap_to, o, p, n_cores);
    out.append(&mut threads);
    out
}

fn order_op(i: usize) -> (r: (CappingOrder, CappingOperation))
    requires
        i < 5,
    ensures
        r == spec_order_op_list()[i as int],
{
    if i == 0 {
        (CappingOrder::LevelBeforeActivate, CappingOperation::Activate)
    } else if i == 1 {
        (CappingOrder::LevelBeforeActivate, CappingOperation::Deactivate)
    } else if i == 2 {
        (CappingOrder::LevelAfterActivate, CappingOperation::Activate)
    } else if i == 3 {
        (CappingOrder::LevelToLevel, CappingOperation::Activate)
    } else {
        (CappingOrder::LevelToLevel, CappingOperation::Deactivate)
    }
}

fn pair_scenarios(cap_from: u64, cap_to: u64, n_cores: u64) -> (r: Vec<Scenario>)
    requires
        n_cores >= 1,
    ensures
        r@ == spec_pair_scenarios(cap_from, cap_to, n_cores),
{
    let mut out: Vec<Scenario> = Vec::new();
    let mut i: usize = 0;
    while i < 5
        invariant
            n_cores >= 1,
            i <= 5,
            out@ == spec_pair_upto(cap_from, cap_to, n_cores, i as int),
        decreases 5 - i,
    {
        let (o, p) = order_op(i);
        let mut part = trial_scenarios(cap_from, cap_to, o, p, n_cores);
        out.append(&mut part);
        i = i + 1;
    }
    out
}

/// Enumerates the run's capping permutations.
pub struct Driver {
    pub cap_high_watts: u64,
    pub cap_low_watts: u64,
}

impl Driver {
    pub fn new(config: &Configuration) -> (r: Driver)
        ensures
            r.cap_high_watts == config.cap_high_watts,
            r.cap_low_watts == config.cap_low_watts,
    {
        Driver { cap_high_watts: config.cap_high_watts, cap_low_watts: config.cap_low_watts }
    }

    /// Enumerates every scenario of the run, in execution order: both wattage
    /// directions, every capping order and operation minus the excluded
    /// combination, each crossed with both load-reduction campaigns. No
    /// scenario carries the excluded combination, and every scenario's load
    /// shape is one the load generator accepts.
    pub fn run(&self, n_cores: u64) -> (r: Vec<Scenario>)
        requires
            n_cores >= 1,
        ensures
            r@ == spec_driver_scenarios(self.cap_low_watts, self.cap_high_watts, n_cores),
            forall|i: int|
                0 <= i < r@.len() ==> !spec_excluded(
                    (#[trigger] r@[i]).capping_order,
                    r@[i].capping_operation,
                ),
            forall|i: int| 0 <= i < r@.len() ==> scenario_load_valid(#[trigger] r@[i]),
    {
        let mut out = pair_scenarios(self.cap_low_watts, self.cap_high_watts, n_cores);
        let mut back = pair_scenarios(self.cap_high_watts, self.cap_low_watts, n_cores);
        out.append(&mut back);
        proof {
            lemma_no_excluded_combination(self.cap_low_watts, self.cap_high_watts, n_cores);
            lemma_driver_scenarios_load_valid(self.cap_low_watts, self.cap_high_watts, n_cores);
        }
        out
    }
}

} // verus!
