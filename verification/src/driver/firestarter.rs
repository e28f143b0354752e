//! Configuration for the external CPU-load generator: validated load shape
//! and the argument list the generator is launched with.

use crate::strutil::{dec_rep, u64_string};
use vstd::prelude::*;

verus! {

/// Why a load-generator configuration was rejected.
#[derive(Clone, Copy, Debug, PartialEq, Eq, Structural)]
pub enum FirestarterError {
    /// The load percentage was zero or above one hundred.
    LoadOutOfRange,
    /// A non-zero averaging period was shorter than the load percentage.
    PeriodShorterThanLoad,
}

/// The load generator's configuration, ready to run.
#[derive(Clone, Copy, Debug, PartialEq, Eq, Structural)]
pub struct Firestarter {
    pub runtime_secs: u64,
    pub load_pct: u64,
    pub load_period_us: u64,
    /// Never zero out of `new`: a scenario's sentinel zero is resolved to the
    /// machine's processing-unit count before the generator is configured.
    pub n_threads: u64,
}

/// The thread count the generator is launched with: a scenario's sentinel
/// zero means one thread per available processing unit, settled by the
/// caller's system query, never by the generator itself.
pub open spec fn spec_resolved_threads(n_threads: u64, n_cores: u64) -> u64 {
    if n_threads == 0 {
        n_cores
    } else {
        n_threads
    }
}

/// A load shape the generator accepts: a percentage in (0, 100] that fits
/// into the averaging period, where zero means an unbounded period.
pub open spec fn spec_firestarter_ok(load_pct: u64, load_period_us: u64) -> bool {
    0 < load_pct <= 100 && (load_period_us == 0 || load_pct <= load_period_us)
}

/// The argument list the generator is launched with.
pub open spec fn spec_firestarter_args(f: Firestarter) -> Seq<Seq<char>> {
    seq![
        "--quiet"@,
        "--timeout"@,
        dec_rep(f.runtime_secs as nat),
        "--load"@,
        dec_rep(f.load_pct as nat),
        "--period"@,
        dec_rep(f.load_period_us as nat),
        "--threads"@,
        dec_rep(f.n_threads as nat),
    ]
}

impl Firestarter {
    /// Creates a generator configuration, rejecting a load percentage of zero
    /// or above one hundred, and a period shorter than the load. A thread
    /// count of zero is resolved to `n_cores`, the processing-unit count the
    /// caller queried from the system, so the generator never sees the
    /// sentinel.
    pub fn new(
        runtime_secs: u64,
        load_pct: u64,
        load_period_us: u64,
        n_threads: u64,
        n_cores: u64,
    ) -> (r: Result<Firestarter, FirestarterError>)
        requires
            n_cores >= 1,
        ensures
            r is Ok <==> spec_firestarter_ok(load_pct, load_period_us),
            r is Ok ==> r->Ok_0 == (Firestarter {
                runtime_secs,
                load_pct,
                load_period_us,
                n_threads: spec_resolved_threads(n_threads, n_cores),
            }),
            r is Ok ==> r->Ok_0.n_threads >= 1,
            !(0 < load_pct <= 100) ==> r == Err::<Firestarter, FirestarterError>(
                FirestarterError::LoadOutOfRange,
            ),
            (0 < load_pct <= 100 && !(load_period_us == 0 || load_pct <= load_period_us))
                ==> r == Err::<Firestarter, FirestarterError>(FirestarterError::PeriodShorterThanLoad),
    {
        if load_pct == 0 || load_pct > 100 {
            Err(FirestarterError::LoadOutOfRange)
        } else if load_period_us != 0 && load_pct > load_period_us {
            Err(FirestarterError::PeriodShorterThanLoad)
        } else {
            let threads: u64 = if n_threads == 0 {
                n_cores
            } else {
                n_threads
            };
            Ok(Firestarter { runtime_secs, load_pct, load_period_us, n_threads: threads })
        }
    }

    /// The argument list the generator is launched with: flags first, each
    /// value rendered in decimal.
    pub fn args(&self) -> (r: Vec<String>)
        ensures
            r@.len() == spec_firestarter_args(*self).len(),
            forall|i: int|
                0 <= i < r@.len() ==> r@[i]@ == spec_firestarter_args(*self)[i],
    {
        let mut args: Vec<String> = Vec::new();
        args.push("--quiet".to_owned());
        args.push("--timeout".to_owned());
        args.push(u64_string(self.runtime_secs));
        args.push("--load".to_owned());
        args.push(u64_string(self.load_pct));
        args.push("--period".to_owned());
        args.push(u64_string(self.load_period_us));
        args.push("--threads".to_owned());
        args.push(u64_string(self.n_threads));
        args
    }
}

/// A sample generator configuration: two minutes at 99% load averaged over
/// 100-microsecond periods, one thread per processing unit the system
/// reports, or nothing where the system cannot report a positive count.
pub fn firestarter() -> (r: Option<Firestarter>)
    ensures
        r matches Some(f) ==> f.runtime_secs == 120 && f.load_pct == 99 && f.load_period_us == 100
            && f.n_threads >= 1,
{
    match crate::core_count() {
        Some(c) => if c >= 1 {
            Some(Firestarter::new(120, 99, 100, 0, c).unwrap())
        } else {
            None
        },
        None => None,
    }
}

} // verus!
