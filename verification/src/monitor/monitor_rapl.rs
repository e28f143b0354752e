//! The counter-side sampler: buffers raw energy samples, converts the series
//! to per-domain average power, and flushes it once as CSV lines.
//!
//! Power between two samples is the energy delta divided by the time delta,
//! attributed to the midpoint of the two sampling instants; the first raw
//! sample is consumed by the conversion and yields no row of its own.

use crate::rapl::{RaplError, RAPL_Reading, RAPL_Readings};
use crate::strutil::{dec_rep, lines_of, u64_string};
use chrono::TimeZone;
use vstd::prelude::*;
use vstd::string::StringExecFns;

verus! {

/// Relies on chrono's `TimeZone::timestamp_millis_opt` on `Local` and
/// `DateTime::to_rfc3339_opts`: the local-time RFC 3339 text, with
/// millisecond precision, of an epoch millisecond count, or nothing where
/// the instant has no local representation.
#[verifier::external_body]
fn rfc3339_millis_from_ms(ms: i64) -> (r: Option<String>) {
    chrono::Local.timestamp_millis_opt(ms).earliest().map(
        |t| t.to_rfc3339_opts(chrono::SecondsFormat::Millis, true),
    )
}

// ---------------------------------------------------------------------------
// energy-to-power conversion
// ---------------------------------------------------------------------------

/// One converted row between two consecutive samples: the midpoint instant
/// and, per domain, the energy delta in microjoules divided by the time delta
/// in microseconds — average watts. Rejected where the samples disagree on
/// the domain count or on which domain stands at a position, time does not
/// advance, or a counter ran backwards.
pub open spec fn spec_power_row(prev: RAPL_Readings, cur: RAPL_Readings) -> Result<
    (i64, Seq<RAPL_Reading>),
    RaplError,
> {
    if cur.readings@.len() != prev.readings@.len() {
        Err(RaplError::LengthMismatch)
    } else if prev.timestamp_ms < 0 || cur.timestamp_ms <= prev.timestamp_ms {
        Err(RaplError::TimeNotIncreasing)
    } else if exists|j: int|
        0 <= j < cur.readings@.len() && cur.readings@[j].domain != prev.readings@[j].domain {
        Err(RaplError::DomainMismatch)
    } else if exists|j: int|
        0 <= j < cur.readings@.len() && cur.readings@[j].reading < prev.readings@[j].reading {
        Err(RaplError::EnergyDecreased)
    } else {
        Ok(
            (
                (cur.timestamp_ms - (cur.timestamp_ms - prev.timestamp_ms) / 2) as i64,
                Seq::new(
                    cur.readings@.len(),
                    |j: int|
                        RAPL_Reading {
                            domain: cur.readings@[j].domain,
                            reading: ((cur.readings@[j].reading - prev.readings@[j].reading) / (
                            (cur.timestamp_ms - prev.timestamp_ms) * 1000)) as u64,
                        },
                ),
            ),
        )
    }
}

/// The converted rows of the first `i` samples, in order; the first failing
/// pair stops the conversion.
pub open spec fn spec_convert_upto(stats: Seq<RAPL_Readings>, i: int) -> Result<
    Seq<(i64, Seq<RAPL_Reading>)>,
    RaplError,
>
    decreases i
    when i >= 1
{
    if i <= 1 {
        Ok(Seq::empty())
    } else {
        match spec_convert_upto(stats, i - 1) {
            Err(e) => Err(e),
            Ok(rows) => match spec_power_row(stats[i - 2], stats[i - 1]) {
                Err(e) => Err(e),
                Ok(row) => Ok(rows + seq![row]),
            },
        }
    }
}

/// What converting a whole series yields: one row per consecutive pair of
/// samples. An empty series is rejected; a single sample yields no rows.
pub open spec fn spec_convert(stats: Seq<RAPL_Readings>) -> Result<
    Seq<(i64, Seq<RAPL_Reading>)>,
    RaplError,
> {
    if stats.len() == 0 {
        Err(RaplError::EmptySeries)
    } else {
        spec_convert_upto(stats, stats.len() as int)
    }
}

proof fn lemma_convert_err(stats: Seq<RAPL_Readings>, i: int, j: int)
    requires
        1 <= i <= j <= stats.len(),
        spec_convert_upto(stats, i) is Err,
    ensures
        spec_convert_upto(stats, j) == spec_convert_upto(stats, i),
    decreases j - i,
{
    if i < j {
        lemma_convert_err(stats, i, j - 1);
    }
}

/// Divides each consecutive pair's energy delta by its time delta, giving one
/// power row per pair at the pair's midpoint instant.
pub fn convert_energy_to_power(stats: &Vec<RAPL_Readings>) -> (r: Result<
    Vec<RAPL_Readings>,
    RaplError,
>)
    ensures
        r is Ok <==> spec_convert(stats@) is Ok,
        r is Err ==> r->Err_0 == spec_convert(stats@)->Err_0,
        r is Ok ==> {
            let rows = spec_convert(stats@)->Ok_0;
            &&& r->Ok_0@.len() == rows.len()
            &&& forall|k: int|
                0 <= k < rows.len() ==> (#[trigger] r->Ok_0@[k]).timestamp_ms == rows[k].0
                    && r->Ok_0@[k].readings@ == rows[k].1
        },
{
    let n = stats.len();
    if n == 0 {
        return Err(RaplError::EmptySeries);
    }
    let mut out: Vec<RAPL_Readings> = Vec::new();
    let mut i: usize = 1;
    while i < n
        invariant
            1 <= i <= n,
            n == stats@.len(),
            spec_convert_upto(stats@, i as int) is Ok,
            out@.len() == spec_convert_upto(stats@, i as int)->Ok_0.len(),
            forall|k: int|
                0 <= k < out@.len() ==> (#[trigger] out@[k]).timestamp_ms == spec_convert_upto(
                    stats@,
                    i as int,
                )->Ok_0[k].0 && out@[k].readings@ == spec_convert_upto(stats@, i as int)->Ok_0[k].1,
        decreases n - i,
    {
        let ghost done = spec_convert_upto(stats@, i as int)->Ok_0;
        let prev = &stats[i - 1];
        let cur = &stats[i];
        if cur.readings.len() != prev.readings.len() {
            proof {
                lemma_convert_err(stats@, i as int + 1, n as int);
            }
            return Err(RaplError::LengthMismatch);
        }
        if prev.timestamp_ms < 0 || cur.timestamp_ms <= prev.timestamp_ms {
            proof {
                lemma_convert_err(stats@, i as int + 1, n as int);
            }
            return Err(RaplError::TimeNotIncreasing);
        }
        let delta_ms: i64 = cur.timestamp_ms - prev.timestamp_ms;
        let half: i64 = ((delta_ms as u64) / 2) as i64;
        let mid: i64 = cur.timestamp_ms - half;
        let m = cur.readings.len();
        let mut j0: usize = 0;
        while j0 < m
            invariant
                j0 <= m,
                1 <= i < n,
                n == stats@.len(),
                spec_convert_upto(stats@, i as int) is Ok,
                *prev == stats@[i as int - 1],
                *cur == stats@[i as int],
                m == cur.readings@.len(),
                m == prev.readings@.len(),
                0 <= prev.timestamp_ms,
                prev.timestamp_ms < cur.timestamp_ms,
                forall|k: int| 0 <= k < j0 ==> cur.readings@[k].domain == prev.readings@[k].domain,
            decreases m - j0,
        {
            if cur.readings[j0].domain != prev.readings[j0].domain {
                proof {
                    assert(spec_power_row(stats@[i as int - 1], stats@[i as int]) == Err::<
                        (i64, Seq<RAPL_Reading>),
                        RaplError,
                    >(RaplError::DomainMismatch));
                    lemma_convert_err(stats@, i as int + 1, n as int);
                }
                return Err(RaplError::DomainMismatch);
            }
            j0 = j0 + 1;
        }
        let mut row: Vec<RAPL_Reading> = Vec::new();
        let mut j: usize = 0;
        while j < m
            invariant
                j <= m,
                1 <= i < n,
                n == stats@.len(),
                spec_convert_upto(stats@, i as int) is Ok,
                *prev == stats@[i as int - 1],
                *cur == stats@[i as int],
                m == cur.readings@.len(),
                m == prev.readings@.len(),
                delta_ms == cur.timestamp_ms - prev.timestamp_ms,
                0 <= prev.timestamp_ms,
                prev.timestamp_ms < cur.timestamp_ms,
                forall|k: int| 0 <= k < m ==> cur.readings@[k].domain == prev.readings@[k].domain,
                row@.len() == j,
                forall|k: int| 0 <= k < j ==> prev.readings@[k].reading <= cur.readings@[k].reading,
                forall|k: int|
                    0 <= k < j ==> (#[trigger] row@[k]) == (RAPL_Reading {
                        domain: cur.readings@[k].domain,
                        reading: ((cur.readings@[k].reading - prev.readings@[k].reading) / ((
                        cur.timestamp_ms - prev.timestamp_ms) * 1000)) as u64,
                    }),
            decreases m - j,
        {
            let e_prev = prev.readings[j].reading;
            let e_cur = cur.readings[j].reading;
            if e_cur < e_prev {
                proof {
                    assert(spec_power_row(stats@[i as int - 1], stats@[i as int]) == Err::<
                        (i64, Seq<RAPL_Reading>),
                        RaplError,
                    >(RaplError::EnergyDecreased));
                    lemma_convert_err(stats@, i as int + 1, n as int);
                }
                return Err(RaplError::EnergyDecreased);
            }
            let d_uj: u64 = e_cur - e_prev;
            let du: u128 = (delta_ms as u128) * 1000;
            let p128: u128 = (d_uj as u128) / du;
            proof {
                assert(p128 <= d_uj as u128) by (nonlinear_arith)
                    requires
                        du >= 1000,
                        p128 == (d_uj as u128) / du,
                ;
            }
            let p: u64 = p128 as u64;
            row.push(RAPL_Reading { domain: cur.readings[j].domain, reading: p });
            j = j + 1;
        }
        proof {
            assert(spec_power_row(stats@[i as int - 1], stats@[i as int]) == Ok::<
                (i64, Seq<RAPL_Reading>),
                RaplError,
            >((mid, row@))) by {
                assert(!(exists|k: int|
                    0 <= k < cur.readings@.len() && cur.readings@[k].reading
                        < prev.readings@[k].reading));
                let want = spec_power_row(stats@[i as int - 1], stats@[i as int])->Ok_0;
                assert(want.0 == mid);
                assert(row@ =~= want.1);
            }
            assert(spec_convert_upto(stats@, i as int + 1) == Ok::<
                Seq<(i64, Seq<RAPL_Reading>)>,
                RaplError,
            >(done + seq![(mid, row@)]));
        }
        out.push(RAPL_Readings { timestamp_ms: mid, readings: row });
        i = i + 1;
    }
    Ok(out)
}

// ---------------------------------------------------------------------------
// the artifact
// ---------------------------------------------------------------------------

/// The energy log's header columns after the timestamp: one per domain, its
/// name carrying the domain id.
pub open spec fn spec_rapl_header_cols(rs: Seq<RAPL_Reading>, i: int) -> Seq<char>
    decreases i
    when i >= 0
{
    if i <= 0 {
        Seq::empty()
    } else {
        spec_rapl_header_cols(rs, i - 1) + ",domain_"@ + dec_rep(rs[i - 1].domain as nat)
            + "_watts"@
    }
}

/// The energy log's header row, named after the first sample's domains.
pub open spec fn spec_rapl_header(rs: Seq<RAPL_Reading>) -> Seq<char> {
    "timestamp"@ + spec_rapl_header_cols(rs, rs.len() as int)
}

/// One energy-log row's columns after the timestamp: the domains' wattages.
pub open spec fn spec_rapl_row_cols(rs: Seq<RAPL_Reading>, i: int) -> Seq<char>
    decreases i
    when i >= 0
{
    if i <= 0 {
        Seq::empty()
    } else {
        spec_rapl_row_cols(rs, i - 1) + ","@ + dec_rep(rs[i - 1].reading as nat)
    }
}

/// Renders the sample buffer as the full CSV artifact: the header named after
/// the first sample's domains, then one converted power row per consecutive
/// pair of samples, each at its midpoint instant.
pub fn save_rapl_stats(stats: &Vec<RAPL_Readings>) -> (r: Result<Vec<String>, RaplError>)
    ensures
        spec_convert(stats@) is Err ==> r == Err::<Vec<String>, RaplError>(
            spec_convert(stats@)->Err_0,
        ),
        r is Err ==> (spec_convert(stats@) is Err || r->Err_0 == RaplError::BadTimestamp),
        stats@.len() == 1 ==> r is Ok,
        r is Ok ==> spec_convert(stats@) is Ok,
        r is Ok ==> {
            let rows = spec_convert(stats@)->Ok_0;
            let lines = lines_of(r->Ok_0@);
            &&& lines.len() == 1 + rows.len()
            &&& lines[0] == spec_rapl_header(stats@[0].readings@)
            &&& forall|k: int|
                0 <= k < rows.len() ==> spec_rapl_row_cols(
                    rows[k].1,
                    rows[k].1.len() as int,
                ).is_suffix_of(#[trigger] lines[k + 1])
        },
{
    let converted = match convert_energy_to_power(stats) {
        Ok(v) => v,
        Err(e) => {
            return Err(e);
        },
    };
    let ghost rows = spec_convert(stats@)->Ok_0;
    // the header, named after the first sample's domains
    let mut header = "timestamp".to_owned();
    let first = &stats[0];
    let m = first.readings.len();
    let mut j: usize = 0;
    while j < m
        invariant
            j <= m,
            stats@.len() >= 1,
            first.readings@ == stats@[0].readings@,
            m == first.readings@.len(),
            header@ == "timestamp"@ + spec_rapl_header_cols(stats@[0].readings@, j as int),
        decreases m - j,
    {
        header.append(",domain_");
        header.append(u64_string(first.readings[j].domain).as_str());
        header.append("_watts");
        proof {
            assert(header@ =~= "timestamp"@ + spec_rapl_header_cols(
                stats@[0].readings@,
                j as int + 1,
            ));
        }
        j = j + 1;
    }
    let mut lines: Vec<String> = Vec::new();
    lines.push(header);
    let ghost mut tss = Seq::<Seq<char>>::empty();
    let n = converted.len();
    let mut i: usize = 0;
    while i < n
        invariant
            i <= n,
            n == converted@.len(),
            stats@.len() >= 1,
            spec_convert(stats@) is Ok,
            rows == spec_convert(stats@)->Ok_0,
            converted@.len() == rows.len(),
            forall|k: int|
                0 <= k < rows.len() ==> (#[trigger] converted@[k]).timestamp_ms == rows[k].0
                    && converted@[k].readings@ == rows[k].1,
            lines@.len() == 1 + i,
            lines@[0]@ == spec_rapl_header(stats@[0].readings@),
            tss.len() == i,
            forall|k: int|
                0 <= k < i ==> lines@[k + 1]@ == tss[k] + spec_rapl_row_cols(
                    rows[k].1,
                    rows[k].1.len() as int,
                ),
        decreases n - i,
    {
        let datapoint = &converted[i];
        let ts = match rfc3339_millis_from_ms(datapoint.timestamp_ms) {
            Some(t) => t,
            None => {
                return Err(RaplError::BadTimestamp);
            },
        };
        let ghost tsv = ts@;
        let mut line = ts;
        let mm = datapoint.readings.len();
        let mut j2: usize = 0;
        while j2 < mm
            invariant
                j2 <= mm,
                mm == datapoint.readings@.len(),
                line@ == tsv + spec_rapl_row_cols(datapoint.readings@, j2 as int),
            decreases mm - j2,
        {
            line.append(",");
            line.append(u64_string(datapoint.readings[j2].reading).as_str());
            j2 = j2 + 1;
        }
        proof {
            assert(datapoint.readings@ == rows[i as int].1);
            assert(line@ =~= tsv + spec_rapl_row_cols(rows[i as int].1, rows[i as int].1.len() as int));
        }
        lines.push(line);
        proof {
            tss = tss + seq![tsv];
        }
        i = i + 1;
    }
    proof {
        assert(lines_of(lines@).len() == 1 + rows.len());
        assert(lines_of(lines@)[0] == spec_rapl_header(stats@[0].readings@));
        assert forall|k: int| 0 <= k < rows.len() implies spec_rapl_row_cols(
            rows[k].1,
            rows[k].1.len() as int,
        ).is_suffix_of(#[trigger] lines_of(lines@)[k + 1]) by {
            let cols = spec_rapl_row_cols(rows[k].1, rows[k].1.len() as int);
            assert(lines_of(lines@)[k + 1] == tss[k] + cols);
            assert(cols =~= (tss[k] + cols).subrange(
                tss[k].len() as int,
                (tss[k] + cols).len() as int,
            ));
        }
    }
    Ok(lines)
}

/// How long the counter sampler sleeps between polls: the whole poll period.
pub fn rapl_poll_sleep_ms(poll_freq_hz: u64) -> (r: u64)
    requires
        poll_freq_hz >= 1,
    ensures
        r == 1000u64 / poll_freq_hz,
{
    1000 / poll_freq_hz
}

/// The counter-side sampler: a buffer that grows while polling and is flushed
/// exactly once.
pub struct RaplMonitor {
    pub stats: Vec<RAPL_Readings>,
    pub done: bool,
}

impl RaplMonitor {
    pub fn new() -> (r: RaplMonitor)
        ensures
            r.stats@.len() == 0,
            !r.done,
    {
        RaplMonitor { stats: Vec::new(), done: false }
    }

    /// Buffers one sample; only a sampler that has not flushed yet polls.
    pub fn record(&mut self, sample: RAPL_Readings)
        requires
            !old(self).done,
        ensures
            !final(self).done,
            final(self).stats@ == old(self).stats@ + seq![sample],
    {
        self.stats.push(sample);
    }

    /// Flushes the buffer exactly once: the sampler is done afterwards, and
    /// the artifact, where the series converts, holds the header and one
    /// power row per consecutive pair of samples.
    pub fn shutdown(&mut self) -> (r: Result<Vec<String>, RaplError>)
        requires
            !old(self).done,
        ensures
            final(self).done,
            final(self).stats@ == old(self).stats@,
            spec_convert(old(self).stats@) is Err ==> r == Err::<Vec<String>, RaplError>(
                spec_convert(old(self).stats@)->Err_0,
            ),
            r is Err ==> (spec_convert(old(self).stats@) is Err || r->Err_0
                == RaplError::BadTimestamp),
            old(self).stats@.len() == 1 ==> r is Ok,
            r is Ok ==> spec_convert(old(self).stats@) is Ok,
            r is Ok ==> {
                let rows = spec_convert(old(self).stats@)->Ok_0;
                let lines = lines_of(r->Ok_0@);
                &&& lines.len() == 1 + rows.len()
                &&& lines[0] == spec_rapl_header(old(self).stats@[0].readings@)
                &&& forall|k: int|
                    0 <= k < rows.len() ==> spec_rapl_row_cols(
                        rows[k].1,
                        rows[k].1.len() as int,
                    ).is_suffix_of(#[trigger] lines[k + 1])
            },
    {
        self.done = true;
        save_rapl_stats(&self.stats)
    }
}

} // verus!
