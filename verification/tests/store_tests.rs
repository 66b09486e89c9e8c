use solar_telemetry::solar::{SolarData, SolarDoc, normalize};
use solar_telemetry::store::TelemetryStore;

#[test]
fn new_store_holds_the_default_snapshots() {
    let s = TelemetryStore::new();
    assert_eq!(s.read_solar(), SolarData::default());
    let c = s.read_charger();
    assert_eq!(c.last_updated_ms, 0);
    assert_eq!(c.tpcm, "[]");
}

#[test]
fn replace_solar_swaps_the_whole_snapshot_and_leaves_charger_alone() {
    let mut s = TelemetryStore::new();
    s.update_charger("{\"status\":{\"lps\":5}}", 10);
    let doc = SolarDoc {
        meter_powers: vec![1],
        inverter_socs: vec![2],
        battery_power: 3,
        grid_power: 4,
        load_power: -5,
        pv_power: 6,
        autonomy: 7,
        self_consumption: 8,
    };
    let v = normalize(&doc, 99);
    s.replace_solar(v);
    assert_eq!(s.read_solar(), v);
    assert_eq!(s.read_charger().lps, 5);
}

#[test]
fn update_charger_merges_and_leaves_solar_alone() {
    let mut s = TelemetryStore::new();
    let before = s.read_solar();
    s.update_charger("{\"status\":{\"car\":2,\"ets\":9}}", 123);
    let c = s.read_charger();
    assert_eq!(c.last_updated_ms, 123);
    assert_eq!(c.ets, 9);
    assert_eq!(s.read_solar(), before);
}
