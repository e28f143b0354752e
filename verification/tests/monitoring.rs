use capping::bmc::BMC_CapSetting;
use capping::monitor::monitor_bmc::{bmc_poll_sleep_ms, save_bmc_stats, BmcMonitor, BMC_Stats};
use capping::monitor::monitor_rapl::{
    convert_energy_to_power, rapl_poll_sleep_ms, save_rapl_stats, RaplMonitor,
};
use capping::monitor::monitor_shutdown;
use capping::rapl::{RaplError, RAPL_Reading, RAPL_Readings};

fn five_samples(t0: i64) -> Vec<RAPL_Readings> {
    let r1 = RAPL_Reading { domain: 0, reading: 0 };
    let r2 = RAPL_Reading { domain: 1, reading: 0 };
    let r3 = RAPL_Reading { domain: 0, reading: 100_000_000 };
    let r4 = RAPL_Reading { domain: 1, reading: 50_000_000 };
    let r5 = RAPL_Reading { domain: 0, reading: 200_000_000 };
    let r6 = RAPL_Reading { domain: 1, reading: 100_000_000 };
    let r7 = RAPL_Reading { domain: 0, reading: 200_000_000 };
    let r8 = RAPL_Reading { domain: 1, reading: 100_000_000 };
    let r9 = RAPL_Reading { domain: 0, reading: 400_000_000 };
    let r10 = RAPL_Reading { domain: 1, reading: 200_000_000 };

    let readings1 = RAPL_Readings { timestamp_ms: t0, readings: vec![r1, r2] };
    let readings2 = RAPL_Readings { timestamp_ms: t0 + 1000, readings: vec![r3, r4] };
    let readings3 = RAPL_Readings { timestamp_ms: t0 + 2000, readings: vec![r5, r6] };
    let readings4 = RAPL_Readings { timestamp_ms: t0 + 3000, readings: vec![r7, r8] };
    let readings5 = RAPL_Readings { timestamp_ms: t0 + 5000, readings: vec![r9, r10] };

    vec![readings1, readings2, readings3, readings4, readings5]
}

#[test]
fn test_energy_to_power() {
    let t0 = chrono::Local::now().timestamp_millis();
    let energy_stats = five_samples(t0);
    let power_stats = convert_energy_to_power(&energy_stats).unwrap();

    assert_eq!(power_stats.len(), energy_stats.len() - 1);

    // check power
    assert_eq!(power_stats[0].readings[0].reading, 100);
    assert_eq!(power_stats[0].readings[1].reading, 50);
    assert_eq!(power_stats[1].readings[0].reading, 100);
    assert_eq!(power_stats[1].readings[1].reading, 50);
    assert_eq!(power_stats[2].readings[0].reading, 0);
    assert_eq!(power_stats[2].readings[1].reading, 0);
    assert_eq!(power_stats[3].readings[0].reading, 100);
    assert_eq!(power_stats[3].readings[1].reading, 50);

    // check timestamps
    assert_eq!(power_stats[0].timestamp_ms, t0 + 500);
    assert_eq!(power_stats[1].timestamp_ms, t0 + 1500);
    assert_eq!(power_stats[2].timestamp_ms, t0 + 2500);
    assert_eq!(power_stats[3].timestamp_ms, t0 + 4000);
}

#[test]
fn energy_conversion_keeps_domain_ids() {
    let power_stats = convert_energy_to_power(&five_samples(1_000_000)).unwrap();
    for row in &power_stats {
        assert_eq!(row.readings[0].domain, 0);
        assert_eq!(row.readings[1].domain, 1);
    }
}

#[test]
fn energy_conversion_rejects_empty_series() {
    let stats: Vec<RAPL_Readings> = Vec::new();
    assert!(matches!(convert_energy_to_power(&stats), Err(RaplError::EmptySeries)));
}

#[test]
fn energy_conversion_rejects_domain_count_mismatch() {
    let a = RAPL_Readings {
        timestamp_ms: 1000,
        readings: vec![RAPL_Reading { domain: 0, reading: 0 }],
    };
    let b = RAPL_Readings {
        timestamp_ms: 2000,
        readings: vec![
            RAPL_Reading { domain: 0, reading: 10 },
            RAPL_Reading { domain: 1, reading: 10 },
        ],
    };
    assert!(matches!(convert_energy_to_power(&vec![a, b]), Err(RaplError::LengthMismatch)));
}

#[test]
fn energy_conversion_rejects_domain_order_change() {
    // both samples know domains 0 and 1, but in different positions
    let a = RAPL_Readings {
        timestamp_ms: 1000,
        readings: vec![
            RAPL_Reading { domain: 0, reading: 10 },
            RAPL_Reading { domain: 1, reading: 10 },
        ],
    };
    let b = RAPL_Readings {
        timestamp_ms: 2000,
        readings: vec![
            RAPL_Reading { domain: 1, reading: 20 },
            RAPL_Reading { domain: 0, reading: 20 },
        ],
    };
    assert!(matches!(convert_energy_to_power(&vec![a, b]), Err(RaplError::DomainMismatch)));
}

#[test]
fn energy_conversion_rejects_stalled_clock() {
    let a = RAPL_Readings {
        timestamp_ms: 1000,
        readings: vec![RAPL_Reading { domain: 0, reading: 0 }],
    };
    let b = RAPL_Readings {
        timestamp_ms: 1000,
        readings: vec![RAPL_Reading { domain: 0, reading: 10 }],
    };
    assert!(matches!(convert_energy_to_power(&vec![a, b]), Err(RaplError::TimeNotIncreasing)));
}

#[test]
fn energy_conversion_rejects_backwards_counter() {
    let a = RAPL_Readings {
        timestamp_ms: 1000,
        readings: vec![RAPL_Reading { domain: 0, reading: 100 }],
    };
    let b = RAPL_Readings {
        timestamp_ms: 2000,
        readings: vec![RAPL_Reading { domain: 0, reading: 50 }],
    };
    assert!(matches!(convert_energy_to_power(&vec![a, b]), Err(RaplError::EnergyDecreased)));
}

#[test]
fn rapl_artifact_header_and_rows() {
    let lines = save_rapl_stats(&five_samples(2_000_000)).unwrap();
    assert_eq!(lines.len(), 5);
    assert_eq!(lines[0], "timestamp,domain_0_watts,domain_1_watts");
    assert!(lines[1].ends_with(",100,50"));
    assert!(lines[3].ends_with(",0,0"));
    assert!(lines[4].ends_with(",100,50"));
}

#[test]
fn bmc_artifact_header_and_rows() {
    let cap_settings1 = BMC_CapSetting { power_limit: 2000, is_active: false };
    let cap_settings2 = BMC_CapSetting { power_limit: 600, is_active: true };
    let s1 = BMC_Stats::new(1200, &cap_settings1);
    let s2 = BMC_Stats::new(500, &cap_settings2);
    let lines = save_bmc_stats(&vec![s1, s2]);
    assert_eq!(lines.len(), 3);
    assert_eq!(lines[0], "timestamp,power,cap_limit,cap_is_active");
    assert!(lines[1].ends_with(",1200,2000,false"));
    assert!(lines[2].ends_with(",500,600,true"));
}

#[test]
fn shutdown_flushes_both_artifacts() {
    let mut bmc = BmcMonitor::new();
    let cap = BMC_CapSetting { power_limit: 2000, is_active: true };
    bmc.record(BMC_Stats::new(300, &cap));

    let mut rapl = RaplMonitor::new();
    for sample in five_samples(3_000_000) {
        rapl.record(sample);
    }

    let (bmc_lines, rapl_lines) = monitor_shutdown(&mut bmc, &mut rapl);
    assert!(!bmc_lines.is_empty());
    assert_eq!(bmc_lines[0], "timestamp,power,cap_limit,cap_is_active");
    assert_eq!(bmc_lines.len(), 2);
    let rapl_lines = rapl_lines.unwrap();
    assert!(!rapl_lines.is_empty());
    assert_eq!(rapl_lines[0], "timestamp,domain_0_watts,domain_1_watts");
    assert_eq!(rapl_lines.len(), 5);
}

#[test]
fn bmc_artifact_nonempty_without_samples() {
    let mut bmc = BmcMonitor::new();
    let lines = bmc.shutdown();
    assert_eq!(lines, vec!["timestamp,power,cap_limit,cap_is_active"]);
}

#[test]
fn rapl_artifact_single_sample_is_header_only() {
    // one sample yields no power row, but the artifact still gets its header
    let stats = vec![RAPL_Readings {
        timestamp_ms: 1000,
        readings: vec![RAPL_Reading { domain: 0, reading: 5 }],
    }];
    let lines = save_rapl_stats(&stats).unwrap();
    assert_eq!(lines, vec!["timestamp,domain_0_watts"]);
}

#[test]
fn rapl_shutdown_without_samples_is_an_error() {
    let mut rapl = RaplMonitor::new();
    assert!(matches!(rapl.shutdown(), Err(RaplError::EmptySeries)));
}

#[test]
fn poll_sleep_periods() {
    assert_eq!(bmc_poll_sleep_ms(4), 150);
    assert_eq!(bmc_poll_sleep_ms(20), 0);
    assert_eq!(rapl_poll_sleep_ms(4), 250);
}
