//! The controller-side sampler: buffers timestamped power readings and
//! flushes them once, as CSV lines, when the shutdown signal arrives.

use crate::bmc::BMC_CapSetting;
use crate::strutil::{bool_rep, bool_string, dec_rep, lines_of, u64_string};
use vstd::prelude::*;
use vstd::string::StringExecFns;

verus! {

/// One buffered controller sample.
#[derive(Debug)]
pub struct BMC_Stats {
    /// Local-time text taken when the sample was read.
    pub timestamp: String,
    pub power: u64,
    pub cap_level: u64,
    pub cap_is_active: bool,
}

/// Relies on chrono's `Local::now` and `DateTime::to_rfc3339`: the clock
/// reading at the call, as RFC 3339 local-time text.
#[verifier::external_body]
fn now_rfc3339() -> (r: String) {
    chrono::Local::now().to_rfc3339()
}

/// One controller-sample row: timestamp, wattage, cap level, cap state.
pub open spec fn spec_bmc_stats_row(s: BMC_Stats) -> Seq<char> {
    s.timestamp@ + ","@ + dec_rep(s.power as nat) + ","@ + dec_rep(s.cap_level as nat) + ","@
        + bool_rep(s.cap_is_active)
}

/// The controller-sample log's header row.
pub open spec fn spec_bmc_header() -> Seq<char> {
    "timestamp,power,cap_limit,cap_is_active"@
}

/// The whole controller-sample artifact: the header, then one row per sample
/// in sampling order. Never empty.
pub open spec fn spec_bmc_artifact(stats: Seq<BMC_Stats>) -> Seq<Seq<char>> {
    seq![spec_bmc_header()] + Seq::new(stats.len(), |i: int| spec_bmc_stats_row(stats[i]))
}

impl BMC_Stats {
    /// Stamps one controller reading with the clock's current time.
    pub fn new(power: u64, cap_settings: &BMC_CapSetting) -> (r: BMC_Stats)
        ensures
            r.power == power,
            r.cap_level == cap_settings.power_limit,
            r.cap_is_active == cap_settings.is_active,
    {
        BMC_Stats {
            timestamp: now_rfc3339(),
            power,
            cap_level: cap_settings.power_limit,
            cap_is_active: cap_settings.is_active,
        }
    }
}

/// Renders the sample buffer as the full CSV artifact: header first, then one
/// row per sample.
pub fn save_bmc_stats(stats: &Vec<BMC_Stats>) -> (r: Vec<String>)
    ensures
        lines_of(r@) == spec_bmc_artifact(stats@),
        r@.len() >= 1,
{
    let mut lines: Vec<String> = Vec::new();
    lines.push("timestamp,power,cap_limit,cap_is_active".to_owned());
    let n = stats.len();
    let mut i: usize = 0;
    while i < n
        invariant
            n == stats@.len(),
            i <= n,
            lines@.len() == 1 + i,
            lines@[0]@ == spec_bmc_header(),
            forall|k: int| 0 <= k < i ==> lines@[k + 1]@ == spec_bmc_stats_row(stats@[k]),
        decreases n - i,
    {
        let s = &stats[i];
        let mut row = s.timestamp.clone();
        row.append(",");
        row.append(u64_string(s.power).as_str());
        row.append(",");
        row.append(u64_string(s.cap_level).as_str());
        row.append(",");
        row.append(bool_string(s.cap_is_active));
        proof {
            assert(row@ =~= spec_bmc_stats_row(stats@[i as int]));
        }
        lines.push(row);
        i = i + 1;
    }
    proof {
        assert(lines_of(lines@) =~= spec_bmc_artifact(stats@));
    }
    lines
}

/// How long the controller sampler sleeps between polls: the poll period
/// minus an estimate of the agent's own read latency, never negative.
pub fn bmc_poll_sleep_ms(poll_freq_hz: u64) -> (r: u64)
    requires
        poll_freq_hz >= 1,
    ensures
        r == spec_bmc_poll_sleep_ms(poll_freq_hz),
{
    let period = 1000 / poll_freq_hz;
    if period >= 100 {
        period - 100
    } else {
        0
    }
}

/// The poll period minus the agent's estimated 100 ms read latency.
pub open spec fn spec_bmc_poll_sleep_ms(poll_freq_hz: u64) -> u64 {
    if 1000u64 / poll_freq_hz >= 100 {
        (1000u64 / poll_freq_hz - 100) as u64
    } else {
        0
    }
}

/// The controller-side sampler: a buffer that grows while polling and is
/// flushed exactly once.
pub struct BmcMonitor {
    pub stats: Vec<BMC_Stats>,
    pub done: bool,
}

impl BmcMonitor {
    pub fn new() -> (r: BmcMonitor)
        ensures
            r.stats@.len() == 0,
            !r.done,
    {
        BmcMonitor { stats: Vec::new(), done: false }
    }

    /// Buffers one sample; only a sampler that has not flushed yet polls.
    pub fn record(&mut self, stat: BMC_Stats)
        requires
            !old(self).done,
        ensures
            !final(self).done,
            final(self).stats@ == old(self).stats@ + seq![stat],
    {
        self.stats.push(stat);
    }

    /// Flushes the buffer exactly once: the sampler is done afterwards, and
    /// the artifact holds the header and every buffered sample.
    pub fn shutdown(&mut self) -> (r: Vec<String>)
        requires
            !old(self).done,
        ensures
            final(self).done,
            final(self).stats@ == old(self).stats@,
            lines_of(r@) == spec_bmc_artifact(old(self).stats@),
            r@.len() >= 1,
            lines_of(r@)[0] == spec_bmc_header(),
    {
        self.done = true;
        save_bmc_stats(&self.stats)
    }
}

} // verus!
