//! The clock-aligned export scheduler: wake-up arithmetic, the per-cycle
//! decisions, the health-check codes, and the time-series record.
//!
//! The transport shell sleeps, fetches and posts; every decision — when to
//! wake, whether to abort, what to substitute, what to report, and the
//! exact record text — is computed and verified here.

use vstd::prelude::*;

use crate::charger::{
    car_state_code, car_state_to_code, model_status_code, model_status_to_code, WattpilotData,
};
use crate::solar::SolarData;
use crate::text::{chars_to_string, dec_i64, dec_digits, i64_dec_chars, json_escape_into,
    json_escaped, str_chars, u64_dec_chars};
use crate::{is_stale, STALE_AFTER_MS};

verus! {

// ---------------------------------------------------------------------------
// Wall-clock alignment
// ---------------------------------------------------------------------------

/// How long to sleep from (second-of-minute, millisecond-of-second) until
/// just after the next ten-second boundary: the remainder of the current
/// ten-second slot, plus a one-second settling buffer.
pub open spec fn export_wait_spec(second: int, millisecond: int) -> int {
    (9 - second % 10) * 1000 + 1000 - millisecond
}

/// Milliseconds to sleep before the next export cycle.
pub fn export_wait_ms(second: u8, millisecond: u16) -> (r: u64)
    requires
        second < 60,
        millisecond < 1000,
    ensures
        r == export_wait_spec(second as int, millisecond as int),
        1 <= r <= 10_000,
{
    (9 - (second as u64) % 10) * 1000 + 1000 - (millisecond as u64)
}

/// The wake-up lands exactly on a one-second offset past a ten-second
/// wall-clock boundary: the position within the minute after sleeping is a
/// multiple of ten seconds, whatever instant the scheduler wakes at.
pub proof fn lemma_wait_aligns(second: int, millisecond: int)
    requires
        0 <= second < 60,
        0 <= millisecond < 1000,
    ensures
        (second * 1000 + millisecond + export_wait_spec(second, millisecond)) % 10_000 == 0,
{
    let s10 = second % 10;
    vstd::arithmetic::div_mod::lemma_fundamental_div_mod(second, 10);
    assert(second == 10 * (second / 10) + s10);
    let total = second * 1000 + millisecond + export_wait_spec(second, millisecond);
    assert(total == (second / 10 + 1) * 10_000) by (nonlinear_arith)
        requires
            second == 10 * (second / 10) + s10,
            total == second * 1000 + millisecond + (9 - s10) * 1000 + 1000 - millisecond,
    ;
    vstd::arithmetic::div_mod::lemma_mod_multiples_basic(second / 10 + 1, 10_000);
}

// ---------------------------------------------------------------------------
// Health-check reporting
// ---------------------------------------------------------------------------

/// Cycle outcome reported to the health-check collaborator.
#[derive(Clone, Copy, Debug, PartialEq, Eq, Structural)]
pub enum HealthCode {
    /// The cycle completed.
    Success,
    /// The solar fetch failed and the cycle was aborted.
    FetchFailure,
    /// A non-fatal problem: stale data or a failed sink write.
    Degraded,
}

/// The integer each health code appends to the notification URL.
pub open spec fn health_code_value(c: HealthCode) -> int {
    match c {
        HealthCode::Success => 0,
        HealthCode::FetchFailure => 1,
        HealthCode::Degraded => 2,
    }
}

/// Serializes a health code for the notification path segment.
pub fn health_code_to_value(c: HealthCode) -> (r: u32)
    ensures
        r == health_code_value(c),
{
    match c {
        HealthCode::Success => 0,
        HealthCode::FetchFailure => 1,
        HealthCode::Degraded => 2,
    }
}

// ---------------------------------------------------------------------------
// The per-cycle plan
// ---------------------------------------------------------------------------

/// What one export cycle must do, decided from the cycle's inputs before
/// any outward write.
#[derive(Clone, Copy, Debug, PartialEq, Eq, Structural)]
pub struct CyclePlan {
    /// The solar fetch failed: notify fetch failure and abort — no write,
    /// no further processing.
    pub abort_fetch_failure: bool,
    /// Dry-run mode: notify success and abort before any write.
    pub abort_skip_db: bool,
    /// The solar snapshot is stale: notify degraded, but continue with the
    /// stale data.
    pub report_solar_stale: bool,
    /// The charger data is absent, unauthenticated or stale: notify
    /// degraded and export the all-default charger record instead.
    pub substitute_charger: bool,
    /// Compose and write the combined record.
    pub write: bool,
}

/// The cycle decisions: a failed fetch aborts with a failure report; the
/// dry-run flag aborts with a success report; stale solar data is reported
/// but still exported; charger data is substituted by defaults (and
/// reported) when absent, unauthenticated or stale.
pub open spec fn plan_cycle_spec(
    fetch_ok: bool,
    skip_db: bool,
    solar_age_ms: int,
    charger_present: bool,
    charger_authenticated: bool,
    charger_age_ms: int,
) -> CyclePlan {
    CyclePlan {
        abort_fetch_failure: !fetch_ok,
        abort_skip_db: fetch_ok && skip_db,
        report_solar_stale: fetch_ok && !skip_db && solar_age_ms > STALE_AFTER_MS,
        substitute_charger: fetch_ok && !skip_db && (!charger_present || !charger_authenticated
            || charger_age_ms > STALE_AFTER_MS),
        write: fetch_ok && !skip_db,
    }
}

/// Decides one export cycle.
pub fn plan_cycle(
    fetch_ok: bool,
    skip_db: bool,
    solar_age_ms: i64,
    charger_present: bool,
    charger_authenticated: bool,
    charger_age_ms: i64,
) -> (r: CyclePlan)
    ensures
        r == plan_cycle_spec(
            fetch_ok,
            skip_db,
            solar_age_ms as int,
            charger_present,
            charger_authenticated,
            charger_age_ms as int,
        ),
{
    CyclePlan {
        abort_fetch_failure: !fetch_ok,
        abort_skip_db: fetch_ok && skip_db,
        report_solar_stale: fetch_ok && !skip_db && is_stale(solar_age_ms),
        substitute_charger: fetch_ok && !skip_db && (!charger_present || !charger_authenticated
            || is_stale(charger_age_ms)),
        write: fetch_ok && !skip_db,
    }
}

/// The report that closes a written cycle: success, or degraded when the
/// sink write failed.
pub fn conclude_cycle(write_ok: bool) -> (r: HealthCode)
    ensures
        r == if write_ok {
            HealthCode::Success
        } else {
            HealthCode::Degraded
        },
{
    if write_ok {
        HealthCode::Success
    } else {
        HealthCode::Degraded
    }
}

// ---------------------------------------------------------------------------
// The combined time-series record
// ---------------------------------------------------------------------------

/// The line written to the time-series sink: the measurement name, every
/// solar and charger field as `key=value` pairs, and a unix-seconds
/// timestamp.  The floating-point texts (the electrical bundle, the
/// delivered energy, the total power) are supplied pre-rendered by the
/// shell, which owns the float handling.
pub open spec fn influx_line_of(
    measurement: Seq<char>,
    solar: SolarData,
    charger: WattpilotData,
    charging_json: Seq<char>,
    wh_text: Seq<char>,
    total_power_text: Seq<char>,
    timestamp_s: int,
) -> Seq<char> {
    measurement + " old="@ + dec_digits(solar.old_inverter_power as int) + ",new="@ + dec_digits(
        solar.new_inverter_power as int,
    ) + ",both="@ + dec_digits(solar.both_inverter_power as int) + ",battery_percentage="@
        + dec_digits(solar.battery_load_percentage as int) + ",autonomy_percentage="@ + dec_digits(
        solar.autonomy_percent as int,
    ) + ",self_consumption_percentage="@ + dec_digits(solar.self_consumption_percent as int)
        + ",drain_from_battery="@ + dec_i64(solar.drain_from_battery as int) + ",drain_from_grid="@
        + dec_i64(solar.drain_from_grid as int) + ",house_consumption="@ + dec_digits(
        solar.house_consumption as int,
    ) + ",wp_charging_values=\""@ + charging_json + "\",wp_car_state="@ + dec_digits(
        car_state_code(charger.car_state),
    ) + ",wp_model_status="@ + dec_digits(model_status_code(charger.model_status)) + ",wp_wh="@
        + wh_text + ",wp_tpcm=\""@ + json_escaped(charger.tpcm@) + "\",wp_lps="@ + dec_i64(
        charger.lps as int,
    ) + ",wp_ets="@ + dec_i64(charger.ets as int) + ",wp_power="@ + total_power_text + " "@
        + dec_i64(timestamp_s as int)
}

/// Composes the combined record for one export cycle.
pub fn build_influx_line(
    measurement: &str,
    solar: &SolarData,
    charger: &WattpilotData,
    charging_json: &str,
    wh_text: &str,
    total_power_text: &str,
    timestamp_s: i64,
) -> (r: String)
    ensures
        r@ == influx_line_of(
            measurement@,
            *solar,
            *charger,
            charging_json@,
            wh_text@,
            total_power_text@,
            timestamp_s as int,
        ),
{
    let mut out = str_chars(measurement);
    let mut seg = str_chars(" old=");
    out.append(&mut seg);
    let mut num = u64_dec_chars(solar.old_inverter_power as u64);
    out.append(&mut num);
    let mut seg = str_chars(",new=");
    out.append(&mut seg);
    let mut num = u64_dec_chars(solar.new_inverter_power as u64);
    out.append(&mut num);
    let mut seg = str_chars(",both=");
    out.append(&mut seg);
    let mut num = u64_dec_chars(solar.both_inverter_power as u64);
    out.append(&mut num);
    let mut seg = str_chars(",battery_percentage=");
    out.append(&mut seg);
    let mut num = u64_dec_chars(solar.battery_load_percentage as u64);
    out.append(&mut num);
    let mut seg = str_chars(",autonomy_percentage=");
    out.append(&mut seg);
    let mut num = u64_dec_chars(solar.autonomy_percent as u64);
    out.append(&mut num);
    let mut seg = str_chars(",self_consumption_percentage=");
    out.append(&mut seg);
    let mut num = u64_dec_chars(solar.self_consumption_percent as u64);
    out.append(&mut num);
    let mut seg = str_chars(",drain_from_battery=");
    out.append(&mut seg);
    let mut num = i64_dec_chars(solar.drain_from_battery);
    out.append(&mut num);
    let mut seg = str_chars(",drain_from_grid=");
    out.append(&mut seg);
    let mut num = i64_dec_chars(solar.drain_from_grid);
    out.append(&mut num);
    let mut seg = str_chars(",house_consumption=");
    out.append(&mut seg);
    let mut num = u64_dec_chars(solar.house_consumption);
    out.append(&mut num);
    let mut seg = str_chars(",wp_charging_values=\"");
    out.append(&mut seg);
    let mut cv = str_chars(charging_json);
    out.append(&mut cv);
    let mut seg = str_chars("\",wp_car_state=");
    out.append(&mut seg);
    let mut num = u64_dec_chars(car_state_to_code(charger.car_state));
    out.append(&mut num);
    let mut seg = str_chars(",wp_model_status=");
    out.append(&mut seg);
    let mut num = u64_dec_chars(model_status_to_code(charger.model_status));
    out.append(&mut num);
    let mut seg = str_chars(",wp_wh=");
    out.append(&mut seg);
    let mut wh = str_chars(wh_text);
    out.append(&mut wh);
    let mut seg = str_chars(",wp_tpcm=\"");
    out.append(&mut seg);
    let tpcm = str_chars(charger.tpcm.as_str());
    json_escape_into(&tpcm, &mut out);
    let mut seg = str_chars("\",wp_lps=");
    out.append(&mut seg);
    let mut num = i64_dec_chars(charger.lps);
    out.append(&mut num);
    let mut seg = str_chars(",wp_ets=");
    out.append(&mut seg);
    let mut num = i64_dec_chars(charger.ets);
    out.append(&mut num);
    let mut seg = str_chars(",wp_power=");
    out.append(&mut seg);
    let mut pt = str_chars(total_power_text);
    out.append(&mut pt);
    let mut seg = str_chars(" ");
    out.append(&mut seg);
    let mut ts = i64_dec_chars(timestamp_s);
    out.append(&mut ts);
    assert(out@ =~= influx_line_of(
        measurement@,
        *solar,
        *charger,
        charging_json@,
        wh_text@,
        total_power_text@,
        timestamp_s as int,
    ));
    chars_to_string(&out)
}

} // verus!
