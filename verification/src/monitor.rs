//! The Monitor Supervisor and its two samplers.
//!
//! Two sampler buffers grow independently for the whole run, one fed by the
//! capping controller, one by the energy counters. The supervisor's shutdown
//! cascades the run's one shutdown signal to both: each flushes exactly once,
//! and both artifacts are complete before control returns to the caller.

pub mod monitor_bmc;
pub mod monitor_rapl;

use crate::monitor::monitor_bmc::{
    spec_bmc_artifact, spec_bmc_header, BmcMonitor, BMC_Stats,
};
use crate::monitor::monitor_rapl::{spec_convert, spec_rapl_header, spec_rapl_row_cols, RaplMonitor};
use crate::rapl::RaplError;
use crate::strutil::lines_of;
use vstd::prelude::*;

verus! {

/// Whatever was sampled, neither artifact is empty: each starts with its
/// header row.
pub proof fn lemma_bmc_artifact_nonempty(stats: Seq<BMC_Stats>)
    ensures
        spec_bmc_artifact(stats).len() >= 1,
        spec_bmc_artifact(stats)[0] == spec_bmc_header(),
{
}

/// Cascades the shutdown signal to both samplers. Each flushes exactly once;
/// the controller artifact is never empty and starts with its header, and the
/// energy artifact, where the series converts, is never empty and starts with
/// its header.
pub fn monitor_shutdown(bmc: &mut BmcMonitor, rapl: &mut RaplMonitor) -> (r: (
    Vec<String>,
    Result<Vec<String>, RaplError>,
))
    requires
        !old(bmc).done,
        !old(rapl).done,
    ensures
        final(bmc).done,
        final(rapl).done,
        lines_of(r.0@) == spec_bmc_artifact(old(bmc).stats@),
        r.0@.len() >= 1,
        lines_of(r.0@)[0] == spec_bmc_header(),
        r.1 is Ok ==> spec_convert(old(rapl).stats@) is Ok,
        r.1 is Ok ==> {
            let rows = spec_convert(old(rapl).stats@)->Ok_0;
            let lines = lines_of(r.1->Ok_0@);
            &&& lines.len() == 1 + rows.len()
            &&& lines[0] == spec_rapl_header(old(rapl).stats@[0].readings@)
            &&& forall|k: int|
                0 <= k < rows.len() ==> spec_rapl_row_cols(
                    rows[k].1,
                    rows[k].1.len() as int,
                ).is_suffix_of(#[trigger] lines[k + 1])
        },
        spec_convert(old(rapl).stats@) is Err ==> r.1 == Err::<Vec<String>, RaplError>(
            spec_convert(old(rapl).stats@)->Err_0,
        ),
        old(rapl).stats@.len() == 1 ==> r.1 is Ok,
{
    let bmc_lines = bmc.shutdown();
    let rapl_lines = rapl.shutdown();
    (bmc_lines, rapl_lines)
}

} // verus!
