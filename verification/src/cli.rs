//! The run's immutable configuration: controller credentials, timing, the
//! two cap levels, and where result artifacts go.
//!
//! The caller parses its command line and the clock once at startup, builds
//! one `Configuration`, and hands it by reference into every component; no
//! global state is kept.

use vstd::prelude::*;
use vstd::string::{StrSliceExecFns, StringExecFns};

verus! {

pub const MONITOR_POLL_FREQ_HZ: u64 = 4;

/// Read-only for the process lifetime once constructed.
#[derive(Debug)]
pub struct Configuration {
    pub bmc_hostname: String,
    pub bmc_username: String,
    pub bmc_password: String,
    pub warmup_secs: u64,
    pub test_time_secs: u64,
    pub cap_low_watts: u64,
    pub cap_high_watts: u64,
    pub stats_dir: String,
    pub bmc_stats_filename_prefix: String,
    pub rapl_stats_filename_prefix: String,
    pub driver_log_filename_prefix: String,
    pub monitor_poll_freq_hz: u64,
    /// One token per run; it namespaces every result file the run writes.
    pub test_timestamp: String,
    /// Path of the load-generator executable.
    pub firestarter: String,
    /// Path of the controller agent executable.
    pub ipmi: String,
}

impl Configuration {
    /// Builds the configuration from the values the command line supplied,
    /// filling in the fixed artifact prefixes and the sampler poll rate.
    pub fn new(
        bmc_hostname: String,
        bmc_username: String,
        bmc_password: String,
        warmup_secs: u64,
        test_time_secs: u64,
        cap_low_watts: u64,
        cap_high_watts: u64,
        stats_dir: String,
        test_timestamp: String,
        firestarter: String,
        ipmi: String,
    ) -> (r: Configuration)
        ensures
            r.bmc_hostname@ == bmc_hostname@,
            r.bmc_username@ == bmc_username@,
            r.bmc_password@ == bmc_password@,
            r.warmup_secs == warmup_secs,
            r.test_time_secs == test_time_secs,
            r.cap_low_watts == cap_low_watts,
            r.cap_high_watts == cap_high_watts,
            r.stats_dir@ == stats_dir@,
            r.bmc_stats_filename_prefix@ == "bmc_stats"@,
            r.rapl_stats_filename_prefix@ == "rapl_stats"@,
            r.driver_log_filename_prefix@ == "driver_log"@,
            r.monitor_poll_freq_hz == MONITOR_POLL_FREQ_HZ,
            r.test_timestamp@ == test_timestamp@,
            r.firestarter@ == firestarter@,
            r.ipmi@ == ipmi@,
    {
        Configuration {
            bmc_hostname,
            bmc_username,
            bmc_password,
            warmup_secs,
            test_time_secs,
            cap_low_watts,
            cap_high_watts,
            stats_dir,
            bmc_stats_filename_prefix: "bmc_stats".to_owned(),
            rapl_stats_filename_prefix: "rapl_stats".to_owned(),
            driver_log_filename_prefix: "driver_log".to_owned(),
            monitor_poll_freq_hz: MONITOR_POLL_FREQ_HZ,
            test_timestamp,
            firestarter,
            ipmi,
        }
    }
}

/// Where an artifact with the given prefix goes: `<dir>/<prefix>_<token>.csv`,
/// without doubling a separator the directory already ends with.
pub open spec fn spec_stats_path(dir: Seq<char>, prefix: Seq<char>, token: Seq<char>) -> Seq<char> {
    let name = prefix + "_"@ + token + ".csv"@;
    if dir.len() > 0 && dir[dir.len() - 1] == '/' {
        dir + name
    } else {
        dir + "/"@ + name
    }
}

/// Builds an artifact path from the stats directory, a prefix and the run's
/// timestamp token.
pub fn stats_path(dir: &str, prefix: &str, token: &str) -> (r: String)
    ensures
        r@ == spec_stats_path(dir@, prefix@, token@),
{
    let mut r = dir.to_owned();
    let n = dir.unicode_len();
    if n == 0 || dir.get_char(n - 1) != '/' {
        r.append("/");
    }
    r.append(prefix);
    r.append("_");
    r.append(token);
    r.append(".csv");
    proof {
        assert(r@ =~= spec_stats_path(dir@, prefix@, token@));
    }
    r
}

} // verus!
