use solar_telemetry::charger::{read_message, CarState, ModelStatus, WattpilotData};

fn assert_same(a: &WattpilotData, b: &WattpilotData) {
    assert_eq!(a.last_updated_ms, b.last_updated_ms);
    assert_eq!(a.charging_values, b.charging_values);
    assert!(a.car_state == b.car_state);
    assert!(a.model_status == b.model_status);
    assert_eq!(a.charged_since_connected, b.charged_since_connected);
    assert_eq!(a.tpcm, b.tpcm);
    assert_eq!(a.lps, b.lps);
    assert_eq!(a.ets, b.ets);
}

#[test]
fn default_snapshot_has_epoch_and_zero_values() {
    let d = WattpilotData::default();
    assert_eq!(d.last_updated_ms, 0);
    assert!(d.car_state == CarState::Unknown);
    assert!(d.model_status == ModelStatus::NotChargingBecauseNoChargeCtrlData);
    assert_eq!(d.charged_since_connected, "0");
    assert_eq!(d.tpcm, "[]");
    assert_eq!(d.lps, 0);
    assert_eq!(d.ets, 0);
    // the default electrical bundle parses as JSON and is all zeros
    let v: serde_json::Value = serde_json::from_str(&d.charging_values).unwrap();
    assert_eq!(v.get("u1").unwrap().as_f64().unwrap(), 0.0);
    assert_eq!(v.get("pfn").unwrap().as_f64().unwrap(), 0.0);
}

#[test]
fn default_bundle_is_itself_well_formed() {
    let d = WattpilotData::default();
    assert!(solar_telemetry::charger::charging_valid(&d.charging_values));
    assert!(!solar_telemetry::charger::charging_valid("{\"u1\":0.0}"));
    assert!(!solar_telemetry::charger::charging_valid("[]"));
}

#[test]
fn unparseable_message_changes_nothing() {
    let d = WattpilotData::default();
    let r = read_message(&d, "this is not json", 99);
    assert_same(&r, &d);
}

#[test]
fn message_without_status_changes_nothing() {
    let d = WattpilotData::default();
    let r = read_message(&d, "{\"type\":\"deltaStatus\"}", 99);
    assert_same(&r, &d);
}

#[test]
fn message_without_allowed_keys_changes_nothing() {
    // no allow-listed key at all: even the timestamp stays put
    let d = WattpilotData::default();
    let r = read_message(&d, "{\"status\":{\"fna\":\"garage\",\"rssi\":-60}}", 99);
    assert_same(&r, &d);
}

#[test]
fn empty_status_object_changes_nothing() {
    let d = WattpilotData::default();
    let r = read_message(&d, "{\"status\":{}}", 99);
    assert_same(&r, &d);
}

#[test]
fn valid_field_applied_and_malformed_field_preserved() {
    // one valid allow-listed field and one malformed allow-listed field:
    // the valid one lands, the malformed one keeps its previous value, and
    // the timestamp advances
    let d = WattpilotData::default();
    let r = read_message(&d, "{\"status\":{\"lps\":5,\"car\":\"bogus\"}}", 1234);
    assert_eq!(r.lps, 5);
    assert!(r.car_state == CarState::Unknown);
    assert_eq!(r.last_updated_ms, 1234);
}

#[test]
fn applying_same_message_twice_equals_applying_once() {
    let d = WattpilotData::default();
    let msg = "{\"status\":{\"car\":2,\"wh\":1536.5,\"lps\":7,\"ets\":-3}}";
    let once = read_message(&d, msg, 500);
    let twice = read_message(&once, msg, 500);
    assert_same(&twice, &once);
}

#[test]
fn car_state_codes_decode() {
    let d = WattpilotData::default();
    let r = read_message(&d, "{\"status\":{\"car\":2}}", 1);
    assert!(r.car_state == CarState::Charging);
    let r = read_message(&d, "{\"status\":{\"car\":4}}", 1);
    assert!(r.car_state == CarState::Complete);
}

#[test]
fn unknown_car_code_keeps_previous_state() {
    let d = read_message(&WattpilotData::default(), "{\"status\":{\"car\":2}}", 1);
    let r = read_message(&d, "{\"status\":{\"car\":7}}", 2);
    assert!(r.car_state == CarState::Charging);
    assert_eq!(r.last_updated_ms, 2);
}

#[test]
fn fractional_car_code_keeps_previous_state() {
    let d = WattpilotData::default();
    let r = read_message(&d, "{\"status\":{\"car\":2.0,\"ets\":9}}", 3);
    assert!(r.car_state == CarState::Unknown);
    assert_eq!(r.ets, 9);
}

#[test]
fn model_status_codes_decode() {
    let d = WattpilotData::default();
    let r = read_message(&d, "{\"status\":{\"modelStatus\":12}}", 1);
    assert!(r.model_status == ModelStatus::ChargingBecausePvSurplus);
    let r = read_message(&d, "{\"status\":{\"modelStatus\":24}}", 1);
    assert!(r.model_status == ModelStatus::NotChargingBecauseMinPauseDuration);
}

#[test]
fn unassigned_model_status_code_is_dropped() {
    let d = WattpilotData::default();
    let r = read_message(&d, "{\"status\":{\"modelStatus\":21}}", 1);
    assert!(r.model_status == ModelStatus::NotChargingBecauseNoChargeCtrlData);
    assert_eq!(r.last_updated_ms, 1);
}

#[test]
fn full_electrical_bundle_is_stored() {
    let d = WattpilotData::default();
    // keys already in the serializer's sorted order, integer values
    let nrg = "{\"i1\":1,\"i2\":2,\"i3\":3,\"p1\":10,\"p2\":20,\"p3\":30,\"pf1\":99,\"pf2\":98,\"pf3\":97,\"pfn\":96,\"pn\":5,\"pt\":60,\"u1\":230,\"u2\":231,\"u3\":232,\"un\":2}";
    let msg = format!("{{\"status\":{{\"nrg\":{}}}}}", nrg);
    let r = read_message(&d, &msg, 42);
    assert_eq!(r.charging_values, nrg);
    assert_eq!(r.last_updated_ms, 42);
}

#[test]
fn incomplete_electrical_bundle_keeps_previous_one() {
    let d = WattpilotData::default();
    let before = d.charging_values.clone();
    let r = read_message(&d, "{\"status\":{\"nrg\":{\"u1\":230},\"lps\":1}}", 42);
    assert_eq!(r.charging_values, before);
    assert_eq!(r.lps, 1);
}

#[test]
fn non_object_bundle_keeps_previous_one() {
    let d = WattpilotData::default();
    let before = d.charging_values.clone();
    let r = read_message(&d, "{\"status\":{\"nrg\":[1,2,3]}}", 42);
    assert_eq!(r.charging_values, before);
}

#[test]
fn energy_counter_stores_number_text() {
    let d = WattpilotData::default();
    let r = read_message(&d, "{\"status\":{\"wh\":1536.5}}", 1);
    assert_eq!(r.charged_since_connected, "1536.5");
    let r = read_message(&d, "{\"status\":{\"wh\":\"much\"}}", 2);
    assert_eq!(r.charged_since_connected, "0");
}

#[test]
fn tpcm_array_is_stored_as_text() {
    let d = WattpilotData::default();
    let r = read_message(&d, "{\"status\":{\"tpcm\":[1,2,false]}}", 1);
    assert_eq!(r.tpcm, "[1,2,false]");
    let r2 = read_message(&r, "{\"status\":{\"tpcm\":5}}", 2);
    assert_eq!(r2.tpcm, "[1,2,false]");
}

#[test]
fn counters_decode_signed_values() {
    let d = WattpilotData::default();
    let r = read_message(&d, "{\"status\":{\"lps\":-12,\"ets\":34}}", 1);
    assert_eq!(r.lps, -12);
    assert_eq!(r.ets, 34);
}

#[test]
fn repeated_key_takes_last_occurrence() {
    // the JSON object collapses duplicates; the later value wins
    let d = WattpilotData::default();
    let r = read_message(&d, "{\"status\":{\"lps\":1,\"lps\":2}}", 1);
    assert_eq!(r.lps, 2);
}
