use solar_telemetry::charger::WattpilotData;
use solar_telemetry::is_stale;
use solar_telemetry::schedule::{
    build_influx_line, conclude_cycle, export_wait_ms, health_code_to_value, plan_cycle,
    HealthCode,
};
use solar_telemetry::solar::SolarData;

#[test]
fn staleness_threshold_is_exclusive_at_thirty_seconds() {
    // a snapshot captured exactly 30.000 s ago is not stale
    assert!(!is_stale(30_000));
    assert!(is_stale(30_001));
    assert!(!is_stale(0));
    assert!(!is_stale(-5));
    assert!(is_stale(86_400_000));
}

#[test]
fn export_wait_lands_just_after_ten_second_boundaries() {
    assert_eq!(export_wait_ms(7, 300), 2_700);
    assert_eq!(export_wait_ms(12, 300), 7_700);
    assert_eq!(export_wait_ms(9, 0), 1_000);
    assert_eq!(export_wait_ms(59, 999), 1);
    assert_eq!(export_wait_ms(0, 0), 10_000);
    // the wake instant is one second past a ten-second boundary
    for s in 0u8..60 {
        for ms in [0u16, 1, 499, 999] {
            let wait = export_wait_ms(s, ms);
            let pos = u64::from(s) * 1000 + u64::from(ms) + wait;
            assert_eq!(pos % 10_000, 0);
        }
    }
}

#[test]
fn health_codes_map_to_their_path_segments() {
    assert_eq!(health_code_to_value(HealthCode::Success), 0);
    assert_eq!(health_code_to_value(HealthCode::FetchFailure), 1);
    assert_eq!(health_code_to_value(HealthCode::Degraded), 2);
}

#[test]
fn failed_fetch_aborts_the_cycle() {
    let p = plan_cycle(false, false, 0, true, true, 0);
    assert!(p.abort_fetch_failure);
    assert!(!p.write);
    assert!(!p.abort_skip_db);
    assert!(!p.report_solar_stale);
    assert!(!p.substitute_charger);
}

#[test]
fn dry_run_flag_aborts_before_any_write() {
    let p = plan_cycle(true, true, 0, true, true, 0);
    assert!(p.abort_skip_db);
    assert!(!p.write);
    assert!(!p.abort_fetch_failure);
}

#[test]
fn stale_solar_is_reported_but_still_written() {
    let p = plan_cycle(true, false, 30_001, true, true, 0);
    assert!(p.report_solar_stale);
    assert!(p.write);
    let p = plan_cycle(true, false, 30_000, true, true, 0);
    assert!(!p.report_solar_stale);
    assert!(p.write);
}

#[test]
fn charger_data_is_substituted_when_absent_unauthenticated_or_stale() {
    assert!(plan_cycle(true, false, 0, false, false, 0).substitute_charger);
    assert!(plan_cycle(true, false, 0, true, false, 0).substitute_charger);
    assert!(plan_cycle(true, false, 0, true, true, 30_001).substitute_charger);
    assert!(!plan_cycle(true, false, 0, true, true, 30_000).substitute_charger);
    assert!(!plan_cycle(true, false, 0, true, true, 0).substitute_charger);
}

#[test]
fn cycle_concludes_success_or_degraded() {
    assert!(conclude_cycle(true) == HealthCode::Success);
    assert!(conclude_cycle(false) == HealthCode::Degraded);
}

#[test]
fn influx_line_matches_the_export_format() {
    let solar = SolarData {
        last_time: 0,
        old_inverter_power: 100,
        new_inverter_power: 2500,
        both_inverter_power: 2600,
        battery_load_percentage: 55,
        autonomy_percent: 80,
        self_consumption_percent: 90,
        drain_from_battery: -200,
        drain_from_grid: 50,
        house_consumption: 3000,
    };
    let mut wp = WattpilotData::default();
    wp.lps = -1;
    wp.ets = 7;
    wp.tpcm = "[1,2]".to_owned();
    let line = build_influx_line(
        "homeserver",
        &solar,
        &wp,
        "{\"u1\":0.0}",
        "1536.5",
        "0",
        1_700_000_000,
    );
    let expected = format!(
        "{} old={},new={},both={},battery_percentage={},autonomy_percentage={},self_consumption_percentage={},drain_from_battery={},drain_from_grid={},house_consumption={},wp_charging_values=\"{}\",wp_car_state={},wp_model_status={},wp_wh={},wp_tpcm={},wp_lps={},wp_ets={},wp_power={} {}",
        "homeserver",
        100,
        2500,
        2600,
        55,
        80,
        90,
        -200,
        50,
        3000,
        "{\"u1\":0.0}",
        0,
        0,
        "1536.5",
        "\"[1,2]\"",
        -1,
        7,
        "0",
        1_700_000_000u64,
    );
    assert_eq!(line, expected);
}

#[test]
fn influx_line_escapes_the_passthrough_text() {
    let solar = SolarData::default();
    let mut wp = WattpilotData::default();
    wp.tpcm = "say \"hi\"".to_owned();
    let line = build_influx_line("m", &solar, &wp, "{}", "0", "0", 1);
    assert!(line.contains(",wp_tpcm=\"say \\\"hi\\\"\","));
}
