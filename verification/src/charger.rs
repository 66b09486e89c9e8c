//! The EV-charger snapshot and the incremental status merge.
//!
//! An inbound frame may touch any subset of a fixed allow-list of status
//! fields.  Fields are decoded independently: a malformed field never
//! discards the rest of the message, and a message without any allow-listed
//! key leaves the snapshot — its timestamp included — untouched.
//!
//! Floating-point readings (the electrical bundle and the delivered energy)
//! are carried as their JSON number texts; the merge validates their shape
//! but never interprets them numerically.

use vstd::prelude::*;

use crate::jsonio::{
    entry_views, object_number_keys_of, pair_views, parse_object_number_keys,
    parse_status_entries, status_entries_of,
};
use crate::text::{chars_eq, parse_i64_chars, parse_i64_spec, parse_u64_chars, parse_u64_spec,
    str_chars};

verus! {

// ---------------------------------------------------------------------------
// Enumerated device states
// ---------------------------------------------------------------------------

/// State of the connected car, as the charger reports it.
#[derive(Clone, Copy, Debug, PartialEq, Eq, Structural)]
pub enum CarState {
    Unknown,
    Idle,
    Charging,
    WaitCar,
    Complete,
    Error,
}

/// Reason code the charger gives for why charging is or is not active.
#[derive(Clone, Copy, Debug, PartialEq, Eq, Structural)]
pub enum ModelStatus {
    NotChargingBecauseNoChargeCtrlData,
    NotChargingBecauseOverTemperature,
    NotChargingBecauseAccessControlWait,
    ChargingBecauseForceStateOn,
    NotChargingBecauseForceStateOff,
    NotChargingBecauseScheduler,
    NotChargingBecauseEnergyLimit,
    ChargingBecauseAwattarPriceLow,
    ChargingBecauseAutomaticStopTestLadung,
    ChargingBecauseAutomaticStopNotEnoughTime,
    ChargingBecauseAutomaticStop,
    ChargingBecauseAutomaticStopNoClock,
    ChargingBecausePvSurplus,
    ChargingBecauseFallbackGoEDefault,
    ChargingBecauseFallbackGoEScheduler,
    ChargingBecauseFallbackDefault,
    NotChargingBecauseFallbackGoEAwattar,
    NotChargingBecauseFallbackAwattar,
    NotChargingBecauseFallbackAutomaticStop,
    ChargingBecauseCarCompatibilityKeepAlive,
    ChargingBecauseChargePauseNotAllowed,
    NotChargingBecauseSimulateUnplugging,
    NotChargingBecausePhaseSwitch,
    NotChargingBecauseMinPauseDuration,
}

/// The wire code of each car state.
pub open spec fn car_state_of(code: int) -> Option<CarState> {
    if code == 0 { Some(CarState::Unknown) }
    else if code == 1 { Some(CarState::Idle) }
    else if code == 2 { Some(CarState::Charging) }
    else if code == 3 { Some(CarState::WaitCar) }
    else if code == 4 { Some(CarState::Complete) }
    else if code == 5 { Some(CarState::Error) }
    else { None }
}

/// The wire code of each model status.  Code 21 is unassigned by the
/// device, so it decodes to nothing.
pub open spec fn model_status_of(code: int) -> Option<ModelStatus> {
    if code == 0 { Some(ModelStatus::NotChargingBecauseNoChargeCtrlData) }
    else if code == 1 { Some(ModelStatus::NotChargingBecauseOverTemperature) }
    else if code == 2 { Some(ModelStatus::NotChargingBecauseAccessControlWait) }
    else if code == 3 { Some(ModelStatus::ChargingBecauseForceStateOn) }
    else if code == 4 { Some(ModelStatus::NotChargingBecauseForceStateOff) }
    else if code == 5 { Some(ModelStatus::NotChargingBecauseScheduler) }
    else if code == 6 { Some(ModelStatus::NotChargingBecauseEnergyLimit) }
    else if code == 7 { Some(ModelStatus::ChargingBecauseAwattarPriceLow) }
    else if code == 8 { Some(ModelStatus::ChargingBecauseAutomaticStopTestLadung) }
    else if code == 9 { Some(ModelStatus::ChargingBecauseAutomaticStopNotEnoughTime) }
    else if code == 10 { Some(ModelStatus::ChargingBecauseAutomaticStop) }
    else if code == 11 { Some(ModelStatus::ChargingBecauseAutomaticStopNoClock) }
    else if code == 12 { Some(ModelStatus::ChargingBecausePvSurplus) }
    else if code == 13 { Some(ModelStatus::ChargingBecauseFallbackGoEDefault) }
    else if code == 14 { Some(ModelStatus::ChargingBecauseFallbackGoEScheduler) }
    else if code == 15 { Some(ModelStatus::ChargingBecauseFallbackDefault) }
    else if code == 16 { Some(ModelStatus::NotChargingBecauseFallbackGoEAwattar) }
    else if code == 17 { Some(ModelStatus::NotChargingBecauseFallbackAwattar) }
    else if code == 18 { Some(ModelStatus::NotChargingBecauseFallbackAutomaticStop) }
    else if code == 19 { Some(ModelStatus::ChargingBecauseCarCompatibilityKeepAlive) }
    else if code == 20 { Some(ModelStatus::ChargingBecauseChargePauseNotAllowed) }
    else if code == 22 { Some(ModelStatus::NotChargingBecauseSimulateUnplugging) }
    else if code == 23 { Some(ModelStatus::NotChargingBecausePhaseSwitch) }
    else if code == 24 { Some(ModelStatus::NotChargingBecauseMinPauseDuration) }
    else { None }
}

/// The wire code a car state serializes to.
pub open spec fn car_state_code(c: CarState) -> int {
    match c {
        CarState::Unknown => 0,
        CarState::Idle => 1,
        CarState::Charging => 2,
        CarState::WaitCar => 3,
        CarState::Complete => 4,
        CarState::Error => 5,
    }
}

/// The wire code a model status serializes to.
pub open spec fn model_status_code(m: ModelStatus) -> int {
    match m {
        ModelStatus::NotChargingBecauseNoChargeCtrlData => 0,
        ModelStatus::NotChargingBecauseOverTemperature => 1,
        ModelStatus::NotChargingBecauseAccessControlWait => 2,
        ModelStatus::ChargingBecauseForceStateOn => 3,
        ModelStatus::NotChargingBecauseForceStateOff => 4,
        ModelStatus::NotChargingBecauseScheduler => 5,
        ModelStatus::NotChargingBecauseEnergyLimit => 6,
        ModelStatus::ChargingBecauseAwattarPriceLow => 7,
        ModelStatus::ChargingBecauseAutomaticStopTestLadung => 8,
        ModelStatus::ChargingBecauseAutomaticStopNotEnoughTime => 9,
        ModelStatus::ChargingBecauseAutomaticStop => 10,
        ModelStatus::ChargingBecauseAutomaticStopNoClock => 11,
        ModelStatus::ChargingBecausePvSurplus => 12,
        ModelStatus::ChargingBecauseFallbackGoEDefault => 13,
        ModelStatus::ChargingBecauseFallbackGoEScheduler => 14,
        ModelStatus::ChargingBecauseFallbackDefault => 15,
        ModelStatus::NotChargingBecauseFallbackGoEAwattar => 16,
        ModelStatus::NotChargingBecauseFallbackAwattar => 17,
        ModelStatus::NotChargingBecauseFallbackAutomaticStop => 18,
        ModelStatus::ChargingBecauseCarCompatibilityKeepAlive => 19,
        ModelStatus::ChargingBecauseChargePauseNotAllowed => 20,
        ModelStatus::NotChargingBecauseSimulateUnplugging => 22,
        ModelStatus::NotChargingBecausePhaseSwitch => 23,
        ModelStatus::NotChargingBecauseMinPauseDuration => 24,
    }
}

/// Serializes a car state to its wire code.
pub fn car_state_to_code(c: CarState) -> (r: u64)
    ensures
        r == car_state_code(c),
{
    match c {
        CarState::Unknown => 0,
        CarState::Idle => 1,
        CarState::Charging => 2,
        CarState::WaitCar => 3,
        CarState::Complete => 4,
        CarState::Error => 5,
    }
}

/// Serializes a model status to its wire code.
pub fn model_status_to_code(m: ModelStatus) -> (r: u64)
    ensures
        r == model_status_code(m),
{
    match m {
        ModelStatus::NotChargingBecauseNoChargeCtrlData => 0,
        ModelStatus::NotChargingBecauseOverTemperature => 1,
        ModelStatus::NotChargingBecauseAccessControlWait => 2,
        ModelStatus::ChargingBecauseForceStateOn => 3,
        ModelStatus::NotChargingBecauseForceStateOff => 4,
        ModelStatus::NotChargingBecauseScheduler => 5,
        ModelStatus::NotChargingBecauseEnergyLimit => 6,
        ModelStatus::ChargingBecauseAwattarPriceLow => 7,
        ModelStatus::ChargingBecauseAutomaticStopTestLadung => 8,
        ModelStatus::ChargingBecauseAutomaticStopNotEnoughTime => 9,
        ModelStatus::ChargingBecauseAutomaticStop => 10,
        ModelStatus::ChargingBecauseAutomaticStopNoClock => 11,
        ModelStatus::ChargingBecausePvSurplus => 12,
        ModelStatus::ChargingBecauseFallbackGoEDefault => 13,
        ModelStatus::ChargingBecauseFallbackGoEScheduler => 14,
        ModelStatus::ChargingBecauseFallbackDefault => 15,
        ModelStatus::NotChargingBecauseFallbackGoEAwattar => 16,
        ModelStatus::NotChargingBecauseFallbackAwattar => 17,
        ModelStatus::NotChargingBecauseFallbackAutomaticStop => 18,
        ModelStatus::ChargingBecauseCarCompatibilityKeepAlive => 19,
        ModelStatus::ChargingBecauseChargePauseNotAllowed => 20,
        ModelStatus::NotChargingBecauseSimulateUnplugging => 22,
        ModelStatus::NotChargingBecausePhaseSwitch => 23,
        ModelStatus::NotChargingBecauseMinPauseDuration => 24,
    }
}

/// Every state's wire code decodes back to the same state.
pub proof fn lemma_state_codes_roundtrip(c: CarState, m: ModelStatus)
    ensures
        car_state_of(car_state_code(c)) == Some(c),
        model_status_of(model_status_code(m)) == Some(m),
{
}

/// Decodes a car-state wire code.
pub fn car_state_from_code(code: u64) -> (r: Option<CarState>)
    ensures
        r == car_state_of(code as int),
{
    if code == 0 { Some(CarState::Unknown) }
    else if code == 1 { Some(CarState::Idle) }
    else if code == 2 { Some(CarState::Charging) }
    else if code == 3 { Some(CarState::WaitCar) }
    else if code == 4 { Some(CarState::Complete) }
    else if code == 5 { Some(CarState::Error) }
    else { None }
}

/// Decodes a model-status wire code.
pub fn model_status_from_code(code: u64) -> (r: Option<ModelStatus>)
    ensures
        r == model_status_of(code as int),
{
    if code == 0 { Some(ModelStatus::NotChargingBecauseNoChargeCtrlData) }
    else if code == 1 { Some(ModelStatus::NotChargingBecauseOverTemperature) }
    else if code == 2 { Some(ModelStatus::NotChargingBecauseAccessControlWait) }
    else if code == 3 { Some(ModelStatus::ChargingBecauseForceStateOn) }
    else if code == 4 { Some(ModelStatus::NotChargingBecauseForceStateOff) }
    else if code == 5 { Some(ModelStatus::NotChargingBecauseScheduler) }
    else if code == 6 { Some(ModelStatus::NotChargingBecauseEnergyLimit) }
    else if code == 7 { Some(ModelStatus::ChargingBecauseAwattarPriceLow) }
    else if code == 8 { Some(ModelStatus::ChargingBecauseAutomaticStopTestLadung) }
    else if code == 9 { Some(ModelStatus::ChargingBecauseAutomaticStopNotEnoughTime) }
    else if code == 10 { Some(ModelStatus::ChargingBecauseAutomaticStop) }
    else if code == 11 { Some(ModelStatus::ChargingBecauseAutomaticStopNoClock) }
    else if code == 12 { Some(ModelStatus::ChargingBecausePvSurplus) }
    else if code == 13 { Some(ModelStatus::ChargingBecauseFallbackGoEDefault) }
    else if code == 14 { Some(ModelStatus::ChargingBecauseFallbackGoEScheduler) }
    else if code == 15 { Some(ModelStatus::ChargingBecauseFallbackDefault) }
    else if code == 16 { Some(ModelStatus::NotChargingBecauseFallbackGoEAwattar) }
    else if code == 17 { Some(ModelStatus::NotChargingBecauseFallbackAwattar) }
    else if code == 18 { Some(ModelStatus::NotChargingBecauseFallbackAutomaticStop) }
    else if code == 19 { Some(ModelStatus::ChargingBecauseCarCompatibilityKeepAlive) }
    else if code == 20 { Some(ModelStatus::ChargingBecauseChargePauseNotAllowed) }
    else if code == 22 { Some(ModelStatus::NotChargingBecauseSimulateUnplugging) }
    else if code == 23 { Some(ModelStatus::NotChargingBecausePhaseSwitch) }
    else if code == 24 { Some(ModelStatus::NotChargingBecauseMinPauseDuration) }
    else { None }
}

// ---------------------------------------------------------------------------
// The charger snapshot
// ---------------------------------------------------------------------------

/// Latest known charger telemetry.  Created with all-default values at
/// client start and mutated field by field on each valid inbound message.
pub struct WattpilotData {
    /// Unix milliseconds of the last message that touched any allow-listed
    /// field.
    pub last_updated_ms: i64,
    /// JSON text of the last well-formed electrical bundle (an object with
    /// the sixteen voltage / current / power / power-factor keys, each a
    /// number).
    pub charging_values: String,
    /// State of the car.
    pub car_state: CarState,
    /// Why charging is or is not active.
    pub model_status: ModelStatus,
    /// JSON number text: Wh delivered since the car was connected.
    pub charged_since_connected: String,
    /// Opaque passthrough: JSON text of the last `tpcm` array.
    pub tpcm: String,
    /// Opaque passthrough counter.
    pub lps: i64,
    /// Opaque passthrough counter.
    pub ets: i64,
}

/// Mathematical image of a snapshot.
#[verifier::ext_equal]
pub ghost struct WattpilotView {
    pub last_updated_ms: int,
    pub charging_values: Seq<char>,
    pub car_state: CarState,
    pub model_status: ModelStatus,
    pub charged_since_connected: Seq<char>,
    pub tpcm: Seq<char>,
    pub lps: int,
    pub ets: int,
}

impl View for WattpilotData {
    type V = WattpilotView;

    open spec fn view(&self) -> WattpilotView {
        WattpilotView {
            last_updated_ms: self.last_updated_ms as int,
            charging_values: self.charging_values@,
            car_state: self.car_state,
            model_status: self.model_status,
            charged_since_connected: self.charged_since_connected@,
            tpcm: self.tpcm@,
            lps: self.lps as int,
            ets: self.ets as int,
        }
    }
}

/// The all-default snapshot: epoch timestamp, an all-zero electrical
/// bundle, unknown car, the zero reason code, no energy, an empty
/// passthrough array and zero counters.
pub open spec fn default_snapshot_view() -> WattpilotView {
    WattpilotView {
        last_updated_ms: 0,
        charging_values: default_charging_text(),
        car_state: CarState::Unknown,
        model_status: ModelStatus::NotChargingBecauseNoChargeCtrlData,
        charged_since_connected: "0"@,
        tpcm: "[]"@,
        lps: 0,
        ets: 0,
    }
}

pub open spec fn default_charging_text() -> Seq<char> {
    "{\"u1\":0.0,\"u2\":0.0,\"u3\":0.0,\"un\":0.0,\"i1\":0.0,\"i2\":0.0,\"i3\":0.0,\"p1\":0.0,\"p2\":0.0,\"p3\":0.0,\"pn\":0.0,\"pt\":0.0,\"pf1\":0.0,\"pf2\":0.0,\"pf3\":0.0,\"pfn\":0.0}"@
}

impl Default for WattpilotData {
    /// The snapshot a client starts from.
    fn default() -> (r: WattpilotData)
        ensures
            r@ == default_snapshot_view(),
    {
        WattpilotData {
            last_updated_ms: 0,
            charging_values:
                "{\"u1\":0.0,\"u2\":0.0,\"u3\":0.0,\"un\":0.0,\"i1\":0.0,\"i2\":0.0,\"i3\":0.0,\"p1\":0.0,\"p2\":0.0,\"p3\":0.0,\"pn\":0.0,\"pt\":0.0,\"pf1\":0.0,\"pf2\":0.0,\"pf3\":0.0,\"pfn\":0.0}".to_owned(),
            car_state: CarState::Unknown,
            model_status: ModelStatus::NotChargingBecauseNoChargeCtrlData,
            charged_since_connected: "0".to_owned(),
            tpcm: "[]".to_owned(),
            lps: 0,
            ets: 0,
        }
    }
}

impl WattpilotData {
    /// A field-exact copy.
    pub fn duplicate(&self) -> (r: WattpilotData)
        ensures
            r@ == self@,
    {
        WattpilotData {
            last_updated_ms: self.last_updated_ms,
            charging_values: self.charging_values.clone(),
            car_state: self.car_state,
            model_status: self.model_status,
            charged_since_connected: self.charged_since_connected.clone(),
            tpcm: self.tpcm.clone(),
            lps: self.lps,
            ets: self.ets,
        }
    }
}

// ---------------------------------------------------------------------------
// The merge
// ---------------------------------------------------------------------------

/// The fixed allow-list: the only status keys the merge recognizes.
pub open spec fn allowed_key(k: Seq<char>) -> bool {
    ||| k == "nrg"@
    ||| k == "car"@
    ||| k == "modelStatus"@
    ||| k == "wh"@
    ||| k == "tpcm"@
    ||| k == "lps"@
    ||| k == "ets"@
}

pub open spec fn has_allowed(entries: Seq<(Seq<char>, Seq<char>, bool, bool)>) -> bool {
    exists|i: int| 0 <= i < entries.len() && allowed_key(#[trigger] entries[i].0)
}

/// The last entry under `key`: its value text, number flag and array flag.
pub open spec fn find_field(
    entries: Seq<(Seq<char>, Seq<char>, bool, bool)>,
    key: Seq<char>,
) -> Option<(Seq<char>, bool, bool)>
    decreases entries.len(),
{
    if entries.len() == 0 {
        None
    } else if entries.last().0 == key {
        Some((entries.last().1, entries.last().2, entries.last().3))
    } else {
        find_field(entries.drop_last(), key)
    }
}

/// The sixteen keys a well-formed electrical bundle must carry as numbers.
pub open spec fn required_charging_key(k: Seq<char>) -> bool {
    ||| k == "u1"@
    ||| k == "u2"@
    ||| k == "u3"@
    ||| k == "un"@
    ||| k == "i1"@
    ||| k == "i2"@
    ||| k == "i3"@
    ||| k == "p1"@
    ||| k == "p2"@
    ||| k == "p3"@
    ||| k == "pn"@
    ||| k == "pt"@
    ||| k == "pf1"@
    ||| k == "pf2"@
    ||| k == "pf3"@
    ||| k == "pfn"@
}

pub open spec fn pair_has_number(pairs: Seq<(Seq<char>, bool)>, k: Seq<char>) -> bool {
    exists|i: int|
        0 <= i < pairs.len() && (#[trigger] pairs[i]).0 == k && pairs[i].1
}

/// A value text is a well-formed electrical bundle when it is a JSON object
/// whose sixteen required keys are all present with numeric values.
pub open spec fn charging_ok(text: Seq<char>) -> bool {
    match object_number_keys_of(text) {
        None => false,
        Some(pairs) => forall|k: Seq<char>|
            required_charging_key(k) ==> pair_has_number(pairs, k),
    }
}

pub open spec fn decode_car(text: Seq<char>) -> Option<CarState> {
    match parse_u64_spec(text) {
        Some(code) => car_state_of(code as int),
        None => None,
    }
}

pub open spec fn decode_model(text: Seq<char>) -> Option<ModelStatus> {
    match parse_u64_spec(text) {
        Some(code) => model_status_of(code as int),
        None => None,
    }
}

/// One inbound status merge: if no allow-listed key is present, the
/// snapshot is unchanged; otherwise the timestamp advances and each
/// allow-listed field present decodes into its slot, keeping the previous
/// value when malformed.
pub open spec fn merge_spec(
    d: WattpilotView,
    entries: Seq<(Seq<char>, Seq<char>, bool, bool)>,
    now: int,
) -> WattpilotView {
    if !has_allowed(entries) {
        d
    } else {
        WattpilotView {
            last_updated_ms: now,
            charging_values: match find_field(entries, "nrg"@) {
                Some(e) => if charging_ok(e.0) { e.0 } else { d.charging_values },
                None => d.charging_values,
            },
            car_state: match find_field(entries, "car"@) {
                Some(e) => match decode_car(e.0) {
                    Some(c) => c,
                    None => d.car_state,
                },
                None => d.car_state,
            },
            model_status: match find_field(entries, "modelStatus"@) {
                Some(e) => match decode_model(e.0) {
                    Some(m) => m,
                    None => d.model_status,
                },
                None => d.model_status,
            },
            charged_since_connected: match find_field(entries, "wh"@) {
                Some(e) => if e.1 { e.0 } else { d.charged_since_connected },
                None => d.charged_since_connected,
            },
            tpcm: match find_field(entries, "tpcm"@) {
                Some(e) => if e.2 { e.0 } else { d.tpcm },
                None => d.tpcm,
            },
            lps: match find_field(entries, "lps"@) {
                Some(e) => match parse_i64_spec(e.0) {
                    Some(v) => v as int,
                    None => d.lps,
                },
                None => d.lps,
            },
            ets: match find_field(entries, "ets"@) {
                Some(e) => match parse_i64_spec(e.0) {
                    Some(v) => v as int,
                    None => d.ets,
                },
                None => d.ets,
            },
        }
    }
}

/// What one inbound frame does to the snapshot: nothing unless the frame
/// parses and carries a `status` object, else one merge.
pub open spec fn read_message_spec(d: WattpilotView, msg: Seq<char>, now: int) -> WattpilotView {
    match status_entries_of(msg) {
        None => d,
        Some(entries) => merge_spec(d, entries, now),
    }
}

/// Scans for the last entry under `key`.
fn find_field_exec(entries: &Vec<(String, String, bool, bool)>, key: &Vec<char>) -> (r: Option<
    (String, bool, bool),
>)
    ensures
        match r {
            Some(e) => find_field(entry_views(entries@), key@) == Some((e.0@, e.1, e.2)),
            None => find_field(entry_views(entries@), key@) is None,
        },
{
    let ghost ev = entry_views(entries@);
    assert(ev.take(entries@.len() as int) =~= ev);
    let mut i: usize = entries.len();
    while i > 0
        invariant
            0 <= i <= entries@.len(),
            ev == entry_views(entries@),
            ev.len() == entries@.len(),
            find_field(ev, key@) == find_field(ev.take(i as int), key@),
        decreases i,
    {
        i = i - 1;
        let kc = str_chars(entries[i].0.as_str());
        assert(ev[i as int] == (entries@[i as int].0@, entries@[i as int].1@,
            entries@[i as int].2, entries@[i as int].3));
        if chars_eq(&kc, key) {
            assert(ev.take(i + 1).last() == ev[i as int]);
            assert(find_field(ev.take(i + 1), key@) == Some((ev[i as int].1, ev[i as int].2,
                ev[i as int].3)));
            return Some((entries[i].1.clone(), entries[i].2, entries[i].3));
        }
        assert(ev.take(i + 1).drop_last() =~= ev.take(i as int));
        assert(find_field(ev.take(i + 1), key@) == find_field(ev.take(i as int), key@));
    }
    assert(ev.take(0) =~= Seq::<(Seq<char>, Seq<char>, bool, bool)>::empty());
    None
}

/// Does any entry carry an allow-listed key?
fn has_allowed_exec(entries: &Vec<(String, String, bool, bool)>) -> (r: bool)
    ensures
        r == has_allowed(entry_views(entries@)),
{
    let ghost ev = entry_views(entries@);
    let k_nrg = str_chars("nrg");
    let k_car = str_chars("car");
    let k_model = str_chars("modelStatus");
    let k_wh = str_chars("wh");
    let k_tpcm = str_chars("tpcm");
    let k_lps = str_chars("lps");
    let k_ets = str_chars("ets");
    let mut i: usize = 0;
    while i < entries.len()
        invariant
            0 <= i <= entries@.len(),
            ev == entry_views(entries@),
            ev.len() == entries@.len(),
            k_nrg@ == "nrg"@ && k_car@ == "car"@ && k_model@ == "modelStatus"@,
            k_wh@ == "wh"@ && k_tpcm@ == "tpcm"@ && k_lps@ == "lps"@ && k_ets@ == "ets"@,
            forall|j: int| 0 <= j < i ==> !allowed_key(#[trigger] ev[j].0),
        decreases entries@.len() - i,
    {
        let kc = str_chars(entries[i].0.as_str());
        assert(kc@ == ev[i as int].0);
        if chars_eq(&kc, &k_nrg) || chars_eq(&kc, &k_car) || chars_eq(&kc, &k_model)
            || chars_eq(&kc, &k_wh) || chars_eq(&kc, &k_tpcm) || chars_eq(&kc, &k_lps)
            || chars_eq(&kc, &k_ets) {
            assert(allowed_key(ev[i as int].0));
            return true;
        }
        assert(!allowed_key(ev[i as int].0));
        i = i + 1;
    }
    false
}

/// Does `pairs` carry `key` with a numeric value?
fn has_number_key(pairs: &Vec<(String, bool)>, key: &str) -> (r: bool)
    ensures
        r == pair_has_number(pair_views(pairs@), key@),
{
    let ghost pv = pair_views(pairs@);
    let kc = str_chars(key);
    let mut i: usize = 0;
    while i < pairs.len()
        invariant
            0 <= i <= pairs@.len(),
            pv == pair_views(pairs@),
            pv.len() == pairs@.len(),
            kc@ == key@,
            forall|j: int| 0 <= j < i ==> !((#[trigger] pv[j]).0 == key@ && pv[j].1),
        decreases pairs@.len() - i,
    {
        let pc = str_chars(pairs[i].0.as_str());
        assert(pv[i as int] == (pairs@[i as int].0@, pairs@[i as int].1));
        if chars_eq(&pc, &kc) && pairs[i].1 {
            assert(pair_has_number(pv, key@));
            return true;
        }
        i = i + 1;
    }
    assert(!pair_has_number(pv, key@));
    false
}

/// Checks that a value text is a well-formed electrical bundle.
pub fn charging_valid(text: &str) -> (r: bool)
    ensures
        r == charging_ok(text@),
{
    let pairs = match parse_object_number_keys(text) {
        None => {
            return false;
        },
        Some(p) => p,
    };
    let ghost pv = pair_views(pairs@);
    if !has_number_key(&pairs, "u1") {
        assert(required_charging_key("u1"@) && !pair_has_number(pv, "u1"@));
        return false;
    }
    if !has_number_key(&pairs, "u2") {
        assert(required_charging_key("u2"@) && !pair_has_number(pv, "u2"@));
        return false;
    }
    if !has_number_key(&pairs, "u3") {
        assert(required_charging_key("u3"@) && !pair_has_number(pv, "u3"@));
        return false;
    }
    if !has_number_key(&pairs, "un") {
        assert(required_charging_key("un"@) && !pair_has_number(pv, "un"@));
        return false;
    }
    if !has_number_key(&pairs, "i1") {
        assert(required_charging_key("i1"@) && !pair_has_number(pv, "i1"@));
        return false;
    }
    if !has_number_key(&pairs, "i2") {
        assert(required_charging_key("i2"@) && !pair_has_number(pv, "i2"@));
        return false;
    }
    if !has_number_key(&pairs, "i3") {
        assert(required_charging_key("i3"@) && !pair_has_number(pv, "i3"@));
        return false;
    }
    if !has_number_key(&pairs, "p1") {
        assert(required_charging_key("p1"@) && !pair_has_number(pv, "p1"@));
        return false;
    }
    if !has_number_key(&pairs, "p2") {
        assert(required_charging_key("p2"@) && !pair_has_number(pv, "p2"@));
        return false;
    }
    if !has_number_key(&pairs, "p3") {
        assert(required_charging_key("p3"@) && !pair_has_number(pv, "p3"@));
        return false;
    }
    if !has_number_key(&pairs, "pn") {
        assert(required_charging_key("pn"@) && !pair_has_number(pv, "pn"@));
        return false;
    }
    if !has_number_key(&pairs, "pt") {
        assert(required_charging_key("pt"@) && !pair_has_number(pv, "pt"@));
        return false;
    }
    if !has_number_key(&pairs, "pf1") {
        assert(required_charging_key("pf1"@) && !pair_has_number(pv, "pf1"@));
        return false;
    }
    if !has_number_key(&pairs, "pf2") {
        assert(required_charging_key("pf2"@) && !pair_has_number(pv, "pf2"@));
        return false;
    }
    if !has_number_key(&pairs, "pf3") {
        assert(required_charging_key("pf3"@) && !pair_has_number(pv, "pf3"@));
        return false;
    }
    if !has_number_key(&pairs, "pfn") {
        assert(required_charging_key("pfn"@) && !pair_has_number(pv, "pfn"@));
        return false;
    }
    assert forall|k: Seq<char>| required_charging_key(k) implies pair_has_number(pv, k) by {
        if k == "u1"@ || k == "u2"@ || k == "u3"@ || k == "un"@ || k == "i1"@ || k == "i2"@
            || k == "i3"@ || k == "p1"@ || k == "p2"@ || k == "p3"@ || k == "pn"@ || k == "pt"@
            || k == "pf1"@ || k == "pf2"@ || k == "pf3"@ || k == "pfn"@ {
        }
    }
    true
}

/// Parses one value text as a signed counter, if canonical.
fn decode_i64_text(text: &str) -> (r: Option<i64>)
    ensures
        r == parse_i64_spec(text@),
{
    let tc = str_chars(text);
    parse_i64_chars(&tc)
}

/// Applies one inbound charger frame to the snapshot.
///
/// A frame that does not parse, has no `status` object, or whose status
/// object touches no allow-listed key leaves the snapshot unchanged.
/// Otherwise the timestamp advances to `now_ms` and every well-formed
/// allow-listed field present overwrites its slot; malformed fields keep
/// their previous values.
pub fn read_message(data: &WattpilotData, message: &str, now_ms: i64) -> (r: WattpilotData)
    ensures
        r@ == read_message_spec(data@, message@, now_ms as int),
{
    let entries = match parse_status_entries(message) {
        None => {
            return data.duplicate();
        },
        Some(e) => e,
    };
    let ghost ev = entry_views(entries@);
    if !has_allowed_exec(&entries) {
        assert(merge_spec(data@, ev, now_ms as int) == data@);
        return data.duplicate();
    }
    let mut out = data.duplicate();
    out.last_updated_ms = now_ms;
    match find_field_exec(&entries, &str_chars("nrg")) {
        Some(e) => {
            if charging_valid(e.0.as_str()) {
                out.charging_values = e.0;
            }
        },
        None => {},
    }
    match find_field_exec(&entries, &str_chars("car")) {
        Some(e) => {
            let tc = str_chars(e.0.as_str());
            match parse_u64_chars(&tc) {
                Some(code) => {
                    match car_state_from_code(code) {
                        Some(c) => {
                            out.car_state = c;
                        },
                        None => {},
                    }
                },
                None => {},
            }
        },
        None => {},
    }
    match find_field_exec(&entries, &str_chars("modelStatus")) {
        Some(e) => {
            let tc = str_chars(e.0.as_str());
            match parse_u64_chars(&tc) {
                Some(code) => {
                    match model_status_from_code(code) {
                        Some(m) => {
                            out.model_status = m;
                        },
                        None => {},
                    }
                },
                None => {},
            }
        },
        None => {},
    }
    match find_field_exec(&entries, &str_chars("wh")) {
        Some(e) => {
            if e.1 {
                out.charged_since_connected = e.0;
            }
        },
        None => {},
    }
    match find_field_exec(&entries, &str_chars("tpcm")) {
        Some(e) => {
            if e.2 {
                out.tpcm = e.0;
            }
        },
        None => {},
    }
    match find_field_exec(&entries, &str_chars("lps")) {
        Some(e) => {
            match decode_i64_text(e.0.as_str()) {
                Some(v) => {
                    out.lps = v;
                },
                None => {},
            }
        },
        None => {},
    }
    match find_field_exec(&entries, &str_chars("ets")) {
        Some(e) => {
            match decode_i64_text(e.0.as_str()) {
                Some(v) => {
                    out.ets = v;
                },
                None => {},
            }
        },
        None => {},
    }
    assert(out@ =~= merge_spec(data@, ev, now_ms as int));
    out
}

// ---------------------------------------------------------------------------
// Laws of the merge
// ---------------------------------------------------------------------------

/// A frame none of whose status keys is allow-listed — or that does not
/// parse at all — leaves the snapshot, its timestamp included, unchanged.
pub proof fn lemma_no_allowed_key_no_change(d: WattpilotView, msg: Seq<char>, now: int)
    requires
        match status_entries_of(msg) {
            Some(entries) => !has_allowed(entries),
            None => true,
        },
    ensures
        read_message_spec(d, msg, now) == d,
{
}

/// When any allow-listed key is present, the snapshot timestamp advances.
pub proof fn lemma_timestamp_advances(
    d: WattpilotView,
    entries: Seq<(Seq<char>, Seq<char>, bool, bool)>,
    now: int,
)
    requires
        has_allowed(entries),
    ensures
        merge_spec(d, entries, now).last_updated_ms == now,
{
}

/// A malformed allow-listed field keeps its previous value even while
/// other fields of the same message are applied: one malformed field never
/// discards the rest of the message.
pub proof fn lemma_malformed_field_preserved(
    d: WattpilotView,
    entries: Seq<(Seq<char>, Seq<char>, bool, bool)>,
    now: int,
)
    requires
        match find_field(entries, "car"@) {
            Some(e) => decode_car(e.0) is None,
            None => true,
        },
    ensures
        merge_spec(d, entries, now).car_state == d.car_state,
{
}

/// A field whose key the message does not carry keeps its previous value,
/// whatever else the message updates.
pub proof fn lemma_absent_field_preserved(
    d: WattpilotView,
    entries: Seq<(Seq<char>, Seq<char>, bool, bool)>,
    now: int,
)
    requires
        find_field(entries, "car"@) is None,
        find_field(entries, "lps"@) is None,
    ensures
        merge_spec(d, entries, now).car_state == d.car_state,
        merge_spec(d, entries, now).lps == d.lps,
{
}

/// A well-formed allow-listed field present in the message is applied.
pub proof fn lemma_valid_field_applied(
    d: WattpilotView,
    entries: Seq<(Seq<char>, Seq<char>, bool, bool)>,
    now: int,
    v: i64,
)
    requires
        has_allowed(entries),
        match find_field(entries, "lps"@) {
            Some(e) => parse_i64_spec(e.0) == Some(v),
            None => false,
        },
    ensures
        merge_spec(d, entries, now).lps == v as int,
{
}

/// A message carrying exactly one well-formed allow-listed field and one
/// malformed allow-listed field applies the well-formed one, preserves the
/// malformed one's previous value, and advances the timestamp.
pub proof fn lemma_one_valid_one_malformed(
    d: WattpilotView,
    entries: Seq<(Seq<char>, Seq<char>, bool, bool)>,
    now: int,
    v: i64,
)
    requires
        entries.len() == 2,
        entries[0].0 == "lps"@,
        parse_i64_spec(entries[0].1) == Some(v),
        entries[1].0 == "car"@,
        decode_car(entries[1].1) is None,
    ensures
        merge_spec(d, entries, now).lps == v as int,
        merge_spec(d, entries, now).car_state == d.car_state,
        merge_spec(d, entries, now).last_updated_ms == now,
{
    reveal_strlit("lps");
    reveal_strlit("car");
    assert("lps"@[0] == 'l' && "car"@[0] == 'c');
    assert(allowed_key(entries[0].0));
    assert(has_allowed(entries));
    assert("car"@ != "lps"@);
    let e0 = seq![entries[0]];
    assert(entries.drop_last() =~= e0);
    assert(entries.last() == entries[1]);
    assert(e0.last() == entries[0] && e0.drop_last() =~= Seq::<(Seq<char>, Seq<char>, bool,
        bool)>::empty());
    assert(find_field(e0, "lps"@) == Some((entries[0].1, entries[0].2, entries[0].3)));
    assert(find_field(entries, "lps"@) == find_field(e0, "lps"@));
    assert(find_field(entries, "car"@) == Some((entries[1].1, entries[1].2, entries[1].3)));
}

/// Applying the same message twice yields the same snapshot as applying it
/// once: a single-field overwrite is idempotent.
pub proof fn lemma_merge_idempotent(
    d: WattpilotView,
    entries: Seq<(Seq<char>, Seq<char>, bool, bool)>,
    now: int,
)
    ensures
        merge_spec(merge_spec(d, entries, now), entries, now) == merge_spec(d, entries, now),
{
    if has_allowed(entries) {
        assert(merge_spec(merge_spec(d, entries, now), entries, now) =~= merge_spec(
            d,
            entries,
            now,
        ));
    }
}

/// The message-level statement of idempotence.
pub proof fn lemma_read_message_idempotent(d: WattpilotView, msg: Seq<char>, now: int)
    ensures
        read_message_spec(read_message_spec(d, msg, now), msg, now) == read_message_spec(
            d,
            msg,
            now,
        ),
{
    match status_entries_of(msg) {
        None => {},
        Some(entries) => {
            lemma_merge_idempotent(d, entries, now);
        },
    }
}

} // verus!
