#![allow(non_camel_case_types)]

//! Drives a power-capping experiment: enumerates capping scenarios, times a
//! capping action against a running load generator, and samples controller
//! power readings and on-chip energy counters throughout the run.
//!
//! The crate holds the experiment's logic: response parsing, scenario
//! enumeration, energy-to-power conversion, the trial and sampler state
//! machines, and the CSV rows they produce. Process launching, file writing
//! and thread plumbing live with the caller.

pub mod bmc;
pub mod cli;
pub mod driver;
pub mod monitor;
pub mod rapl;
pub mod strutil;

use vstd::prelude::*;

verus! {

/// Relies on sysconf's `sysconf(ScNprocessorsOnln)`: the number of on-line
/// processing units, or `None` where the system cannot report one.
#[verifier::external_body]
pub fn core_count() -> (r: Option<u64>) {
    match sysconf::sysconf(sysconf::SysconfVariable::ScNprocessorsOnln) {
        Ok(n) => Some(n as u64),
        Err(_) => None,
    }
}

} // verus!
