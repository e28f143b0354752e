use capping::bmc::{BmcCommand, BmcError, BMC};
use capping::rapl::{RaplError, RAPL};

#[test]
fn test_parse_power_reading() {
    let bmc_output = "
        Instantaneous power reading:                   220 Watts
        Minimum during sampling period:                 70 Watts
        Maximum during sampling period:                600 Watts
        Average power reading over sample period:      220 Watts
        IPMI timestamp:                           Tue May  9 14:24:36 2023
        Sampling period:                          00000005 Seconds.
        Power reading state is:                   activated
        ";

    let readings = BMC::parse_power_reading(bmc_output).unwrap();
    let expected_timestamp =
        chrono::NaiveDateTime::parse_from_str("2023 May 09 14:24:36", "%Y %b %d %H:%M:%S")
            .unwrap()
            .and_utc()
            .timestamp();
    assert_eq!(readings.instant, 220);
    assert_eq!(readings.minimum, 70);
    assert_eq!(readings.maximum, 600);
    assert_eq!(readings.average, 220);
    assert_eq!(readings.timestamp, expected_timestamp);
}

#[test]
fn test_parse_cap_settings_inactive() {
    let bmc_output = "
        Current Limit State: No Active Power Limit
        Exception actions:   Hard Power Off & Log Event to SEL
        Power Limit:         1600 Watts
        Correction time:     1000 milliseconds
        Sampling period:     5 seconds
        ";

    let reading = BMC::parse_cap_settings(bmc_output).unwrap();
    assert!(!reading.is_active);
    assert_eq!(reading.power_limit, 1600);
}

#[test]
fn test_parse_cap_settings_active() {
    let bmc_output = "
        Current Limit State: Power Limit Active
        Exception actions:   Hard Power Off & Log Event to SEL
        Power Limit:         2000 Watts
        Correction time:     1000 milliseconds
        Sampling period:     5 seconds
        ";

    let reading = BMC::parse_cap_settings(bmc_output).unwrap();
    assert!(reading.is_active);
    assert_eq!(reading.power_limit, 2000);
}

#[test]
fn parse_cap_settings_missing_field() {
    let bmc_output = "
        Exception actions:   Hard Power Off & Log Event to SEL
        Power Limit:         2000 Watts
        ";
    assert_eq!(BMC::parse_cap_settings(bmc_output), Err(BmcError::MissingField));

    let bmc_output = "
        Current Limit State: Power Limit Active
        ";
    assert_eq!(BMC::parse_cap_settings(bmc_output), Err(BmcError::MissingField));
}

#[test]
fn parse_cap_settings_last_line_wins() {
    // duplicate lines naming one field: the later line decides
    let bmc_output = "
        Current Limit State: Power Limit Active
        Current Limit State: No Active Power Limit
        Power Limit:         1800 Watts
        Power Limit:         1600 Watts
        ";
    let reading = BMC::parse_cap_settings(bmc_output).unwrap();
    assert!(!reading.is_active);
    assert_eq!(reading.power_limit, 1600);
}

#[test]
fn parse_cap_settings_non_numeric() {
    let bmc_output = "
        Current Limit State: Power Limit Active
        Power Limit:         over Watts
        ";
    assert_eq!(BMC::parse_cap_settings(bmc_output), Err(BmcError::NonNumeric));
}

#[test]
fn parse_power_reading_bad_timestamp() {
    let bmc_output = "
        Instantaneous power reading:                   220 Watts
        Minimum during sampling period:                 70 Watts
        Maximum during sampling period:                600 Watts
        Average power reading over sample period:      220 Watts
        IPMI timestamp:                           not a date
        ";
    assert_eq!(BMC::parse_power_reading(bmc_output), Err(BmcError::BadTimestamp));
}

#[test]
fn parse_power_reading_missing_field() {
    let bmc_output = "
        Instantaneous power reading:                   220 Watts
        ";
    assert_eq!(BMC::parse_power_reading(bmc_output), Err(BmcError::MissingField));
}

#[test]
fn parse_number_shapes() {
    assert_eq!(BMC::parse_number("  600 Watts "), Ok(600));
    assert_eq!(BMC::parse_number("600"), Err(BmcError::MalformedReading));
    assert_eq!(BMC::parse_number("a b c"), Err(BmcError::MalformedReading));
    assert_eq!(BMC::parse_number("6x0 Watts"), Err(BmcError::NonNumeric));
    assert_eq!(BMC::parse_number("99999999999999999999999 Watts"), Err(BmcError::NonNumeric));
}

#[test]
fn current_power_reads_instantaneous_value() {
    let bmc = BMC::new("bmc-host", "admin", "SECRET-REDACTED");
    let bmc_output = "
        Instantaneous power reading:                   220 Watts
        Minimum during sampling period:                 70 Watts
        Maximum during sampling period:                600 Watts
        Average power reading over sample period:      220 Watts
        IPMI timestamp:                           Tue May  9 14:24:36 2023
        ";
    assert_eq!(bmc.current_power(bmc_output), Ok(220));
}

#[test]
fn cap_settings_accessors() {
    let bmc = BMC::new("bmc-host", "admin", "SECRET-REDACTED");
    let bmc_output = "
        Current Limit State: Power Limit Active
        Power Limit:         2000 Watts
        ";
    assert_eq!(bmc.capping_is_active(bmc_output), Ok(true));
    assert_eq!(bmc.current_power_limit(bmc_output), Ok(2000));
}

#[test]
fn command_args_carry_credentials_and_subcommand() {
    let bmc = BMC::new("h1", "u1", "p1");
    assert_eq!(
        bmc.set_cap_power_level(440),
        vec!["-H", "h1", "-U", "u1", "-P", "p1", "dcmi", "power", "set_limit", "limit", "440"]
    );
    assert_eq!(
        bmc.activate_power_cap(),
        vec!["-H", "h1", "-U", "u1", "-P", "p1", "dcmi", "power", "activate"]
    );
    assert_eq!(
        bmc.deactivate_power_cap(),
        vec!["-H", "h1", "-U", "u1", "-P", "p1", "dcmi", "power", "deactivate"]
    );
    assert_eq!(
        bmc.command_args(&BmcCommand::ReadPower),
        vec!["-H", "h1", "-U", "u1", "-P", "p1", "dcmi", "power", "reading"]
    );
    assert_eq!(
        bmc.command_args(&BmcCommand::ReadCapSettings),
        vec!["-H", "h1", "-U", "u1", "-P", "p1", "dcmi", "power", "get_limit"]
    );
}

#[test]
fn test_domain0_from_path() {
    let rapl_filename =
        "/sys/devices/virtual/powercap/intel-rapl/".to_owned() + "intel-rapl:0/intel-rapl:0:0/energy_uj";
    assert_eq!(RAPL::domain_from_path(&rapl_filename).unwrap(), 0);
}

#[test]
fn test_domain1_from_path() {
    let rapl_filename =
        "/sys/devices/virtual/powercap/intel-rapl/".to_owned() + "intel-rapl:1/intel-rapl:1:0/energy_uj";
    assert_eq!(RAPL::domain_from_path(&rapl_filename).unwrap(), 1);
}

#[test]
fn test_domain16_from_path() {
    let rapl_filename =
        "/sys/devices/virtual/powercap/intel-rapl/".to_owned() + "intel-rapl:16/intel-rapl:16:0/energy_uj";
    assert_eq!(RAPL::domain_from_path(&rapl_filename).unwrap(), 16);
}

#[test]
fn domain_from_malformed_path() {
    assert_eq!(RAPL::domain_from_path("energy_uj"), Err(RaplError::MalformedPath));
    assert_eq!(
        RAPL::domain_from_path("/sys/devices/intel-rapl/energy_uj"),
        Err(RaplError::MalformedPath)
    );
    assert_eq!(
        RAPL::domain_from_path("/sys/intel-rapl:x/intel-rapl:x:0/energy_uj"),
        Err(RaplError::MalformedPath)
    );
}

#[test]
fn rapl_keeps_discovered_paths() {
    let paths = vec![
        "/sys/devices/virtual/powercap/intel-rapl/intel-rapl:0/intel-rapl:0:0/energy_uj".to_owned(),
        "/sys/devices/virtual/powercap/intel-rapl/intel-rapl:1/intel-rapl:1:0/energy_uj".to_owned(),
    ];
    let rapl = RAPL::new(paths.clone());
    assert_eq!(rapl.paths(), &paths);
}
