//! Reader-side model of the per-domain energy counters: the discovered
//! counter paths, the domain id encoded in a path, and one timestamped list
//! of raw counter readings.
//!
//! Counter files expose a monotonically increasing energy count in
//! microjoules; the domain id is the number following the first colon in the
//! counter file's parent directory name.

use crate::strutil::{chars_of, parse_u64_chars, parse_u64_of, split_chars, split_of};
use vstd::prelude::*;

verus! {

/// Why an energy reading or series was rejected.
#[derive(Clone, Copy, Debug, PartialEq, Eq, Structural)]
pub enum RaplError {
    /// A counter path does not carry `<name>:<domain id>` in its parent
    /// directory name.
    MalformedPath,
    /// Two samples of one series hold a different number of domains.
    LengthMismatch,
    /// Two samples of one series disagree on which domain stands at a
    /// position.
    DomainMismatch,
    /// A sample's timestamp does not lie after its predecessor's, or a
    /// timestamp lies before the epoch.
    TimeNotIncreasing,
    /// A domain's energy counter decreased between two samples.
    EnergyDecreased,
    /// The series holds no sample at all.
    EmptySeries,
    /// A computed midpoint instant has no local-time text.
    BadTimestamp,
}

/// The concrete counter file paths, discovered once by the caller.
#[derive(Debug)]
pub struct RAPL {
    /// Fully-qualified paths of the core energy files, one per domain.
    pub rapl_paths: Vec<String>,
}

/// One domain's value: a raw energy count in microjoules when sampled, or an
/// average wattage once a series has been converted to power.
#[derive(Clone, Copy, Debug, PartialEq, Eq, Structural)]
pub struct RAPL_Reading {
    /// domain id: 0, 1, 2, ...
    pub domain: u64,
    pub reading: u64,
}

/// One sample: a timestamp and one reading per known domain.
#[derive(Debug)]
pub struct RAPL_Readings {
    /// Milliseconds since the Unix epoch.
    pub timestamp_ms: i64,
    pub readings: Vec<RAPL_Reading>,
}

/// Relies on chrono's `Local::now`: the clock reading at the call, kept as
/// milliseconds since the Unix epoch.
#[verifier::external_body]
fn now_ms() -> (r: i64) {
    chrono::Local::now().timestamp_millis()
}

/// The domain id a counter path encodes: the decimal number between the first
/// and second colon-separated piece of the path's parent directory name.
pub open spec fn spec_domain_from_path(p: Seq<char>) -> Option<u64> {
    let comps = split_of(p, seq!['/']);
    if comps.len() < 2 {
        None
    } else {
        let segs = split_of(comps[comps.len() - 2], seq![':']);
        if segs.len() < 2 {
            None
        } else {
            parse_u64_of(segs[1])
        }
    }
}

impl RAPL {
    /// Wraps the counter paths the caller discovered.
    pub fn new(rapl_paths: Vec<String>) -> (r: RAPL)
        ensures
            r.rapl_paths@ == rapl_paths@,
    {
        RAPL { rapl_paths }
    }

    /// The discovered counter paths, in discovery order.
    pub fn paths(&self) -> (r: &Vec<String>)
        ensures
            r@ == self.rapl_paths@,
    {
        &self.rapl_paths
    }

    /// Extracts the domain id from a counter path.
    pub fn domain_from_path(path: &str) -> (r: Result<u64, RaplError>)
        ensures
            r == match spec_domain_from_path(path@) {
                Some(d) => Ok::<u64, RaplError>(d),
                None => Err::<u64, RaplError>(RaplError::MalformedPath),
            },
    {
        let chars = chars_of(path);
        let slash = vec!['/'];
        assert(slash@ =~= seq!['/']);
        let comps = split_chars(&chars, &slash);
        if comps.len() < 2 {
            return Err(RaplError::MalformedPath);
        }
        let parent = &comps[comps.len() - 2];
        let colon = vec![':'];
        assert(colon@ =~= seq![':']);
        let segs = split_chars(parent, &colon);
        if segs.len() < 2 {
            return Err(RaplError::MalformedPath);
        }
        match parse_u64_chars(&segs[1]) {
            Some(d) => Ok(d),
            None => Err(RaplError::MalformedPath),
        }
    }
}

impl RAPL_Reading {
    pub fn new(domain: u64, reading: u64) -> (r: RAPL_Reading)
        ensures
            r.domain == domain,
            r.reading == reading,
    {
        RAPL_Reading { domain, reading }
    }
}

impl RAPL_Readings {
    /// Stamps a list of per-domain readings with the clock's current time.
    pub fn new(readings: Vec<RAPL_Reading>) -> (r: RAPL_Readings)
        ensures
            r.readings@ == readings@,
    {
        RAPL_Readings { timestamp_ms: now_ms(), readings }
    }
}

} // verus!
