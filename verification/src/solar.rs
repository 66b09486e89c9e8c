//! The solar snapshot and its normalization, and the bounded fetch retry
//! policy.
//!
//! The transport shell fetches the inverter status document and hands the
//! library its numeric readings already truncated to signed integers (the
//! endpoint reports floating-point watts, which the verified code does not
//! hold).  Everything after that — selection of the last meter and
//! inverter entries, zero defaults, the derived combined power and house
//! consumption, and the range clamps — is verified here.

use vstd::prelude::*;

verus! {

/// Latest normalized solar reading.  Replaced wholesale on every
/// successful fetch, never partially mutated.
#[derive(Clone, Copy, Debug, PartialEq, Eq, Structural)]
pub struct SolarData {
    /// Unix milliseconds of the fetch that produced this snapshot.
    pub last_time: i64,
    /// Power produced by the old PV system, in watts.
    pub old_inverter_power: u32,
    /// Power produced by the new PV system, in watts.
    pub new_inverter_power: u32,
    /// Power produced by both PV systems, in watts.
    pub both_inverter_power: u32,
    /// Battery charge, in percent.
    pub battery_load_percentage: u8,
    /// System autonomy, in percent.
    pub autonomy_percent: u8,
    /// Self consumption, in percent.
    pub self_consumption_percent: u8,
    /// Watts drained from the battery; negative while charging.
    pub drain_from_battery: i64,
    /// Watts drained from the grid; negative while exporting.
    pub drain_from_grid: i64,
    /// Watts the whole house consumes.
    pub house_consumption: u64,
}

/// The all-zero snapshot at the epoch.
pub open spec fn default_solar() -> SolarData {
    SolarData {
        last_time: 0i64,
        old_inverter_power: 0u32,
        new_inverter_power: 0u32,
        both_inverter_power: 0u32,
        battery_load_percentage: 0u8,
        autonomy_percent: 0u8,
        self_consumption_percent: 0u8,
        drain_from_battery: 0i64,
        drain_from_grid: 0i64,
        house_consumption: 0u64,
    }
}

impl Default for SolarData {
    /// The all-zero snapshot at the epoch.
    fn default() -> (r: SolarData)
        ensures
            r == default_solar(),
    {
        SolarData {
            last_time: 0,
            old_inverter_power: 0,
            new_inverter_power: 0,
            both_inverter_power: 0,
            battery_load_percentage: 0,
            autonomy_percent: 0,
            self_consumption_percent: 0,
            drain_from_battery: 0,
            drain_from_grid: 0,
            house_consumption: 0,
        }
    }
}

/// The readings of one inverter status document, truncated to integers:
/// the secondary meters' power values in document order, the inverters'
/// battery percentages in document order, and the site-level record.
/// Missing or null numeric fields arrive as zero.
pub struct SolarDoc {
    /// `P` of each secondary meter, in document order.
    pub meter_powers: Vec<i64>,
    /// `SOC` of each inverter, in document order.
    pub inverter_socs: Vec<i64>,
    /// `P_Akku`: battery drain, negative while charging.
    pub battery_power: i64,
    /// `P_Grid`: grid drain, negative while exporting.
    pub grid_power: i64,
    /// `P_Load`: house load, non-positive by device convention.
    pub load_power: i64,
    /// `P_PV`: new-system PV power.
    pub pv_power: i64,
    /// `rel_Autonomy`, in percent.
    pub autonomy: i64,
    /// `rel_SelfConsumption`, in percent.
    pub self_consumption: i64,
}

pub open spec fn clamp_u32(x: int) -> u32 {
    if x < 0 {
        0u32
    } else if x > u32::MAX {
        u32::MAX
    } else {
        x as u32
    }
}

pub open spec fn clamp_u8(x: int) -> u8 {
    if x < 0 {
        0u8
    } else if x > u8::MAX {
        u8::MAX
    } else {
        x as u8
    }
}

/// House consumption: the sign-inverted raw load, floored at zero (the raw
/// value is non-positive by device convention).
pub open spec fn house_of(load: int) -> u64
    recommends
        i64::MIN <= load <= i64::MAX,
{
    if load < 0 {
        (-load) as u64
    } else {
        0u64
    }
}

/// The last reading, or zero where the document carried none.
pub open spec fn last_or_zero(s: Seq<i64>) -> int {
    if s.len() == 0 {
        0
    } else {
        s.last() as int
    }
}

fn clamp_u32_exec(x: i64) -> (r: u32)
    ensures
        r == clamp_u32(x as int),
{
    if x < 0 {
        0
    } else if x > u32::MAX as i64 {
        u32::MAX
    } else {
        x as u32
    }
}

fn clamp_u8_exec(x: i64) -> (r: u8)
    ensures
        r == clamp_u8(x as int),
{
    if x < 0 {
        0
    } else if x > u8::MAX as i64 {
        u8::MAX
    } else {
        x as u8
    }
}

/// Builds one solar snapshot from a status document: the last secondary
/// meter and last inverter entry are selected (zero when absent), combined
/// power is the sum of the old meter power and the site PV power, house
/// consumption is the sign-inverted load, and every reading is clamped to
/// its field's range.
pub fn normalize(doc: &SolarDoc, now_ms: i64) -> (r: SolarData)
    ensures
        r.last_time == now_ms,
        r.old_inverter_power == clamp_u32(last_or_zero(doc.meter_powers@)),
        r.new_inverter_power == clamp_u32(doc.pv_power as int),
        r.both_inverter_power == clamp_u32(last_or_zero(doc.meter_powers@) + doc.pv_power as int),
        r.battery_load_percentage == clamp_u8(last_or_zero(doc.inverter_socs@)),
        r.autonomy_percent == clamp_u8(doc.autonomy as int),
        r.self_consumption_percent == clamp_u8(doc.self_consumption as int),
        r.drain_from_battery == doc.battery_power,
        r.drain_from_grid == doc.grid_power,
        r.house_consumption == house_of(doc.load_power as int),
{
    let meter: i64 = if doc.meter_powers.len() == 0 {
        0
    } else {
        doc.meter_powers[doc.meter_powers.len() - 1]
    };
    let soc: i64 = if doc.inverter_socs.len() == 0 {
        0
    } else {
        doc.inverter_socs[doc.inverter_socs.len() - 1]
    };
    let combined: i128 = meter as i128 + doc.pv_power as i128;
    let combined_clamped: u32 = if combined < 0 {
        0
    } else if combined > u32::MAX as i128 {
        u32::MAX
    } else {
        combined as u32
    };
    let house: u64 = if doc.load_power < 0 {
        ((0i128 - doc.load_power as i128)) as u64
    } else {
        0
    };
    SolarData {
        last_time: now_ms,
        old_inverter_power: clamp_u32_exec(meter),
        new_inverter_power: clamp_u32_exec(doc.pv_power),
        both_inverter_power: combined_clamped,
        battery_load_percentage: clamp_u8_exec(soc),
        autonomy_percent: clamp_u8_exec(doc.autonomy),
        self_consumption_percent: clamp_u8_exec(doc.self_consumption),
        drain_from_battery: doc.battery_power,
        drain_from_grid: doc.grid_power,
        house_consumption: house,
    }
}

/// Under ordinary readings — non-negative powers whose sum fits the field —
/// the combined power is exactly the sum of the two inverter powers, the
/// snapshot's construction invariant.
pub proof fn lemma_combined_is_sum(meter: int, pv: int)
    requires
        0 <= meter,
        0 <= pv,
        meter + pv <= u32::MAX,
    ensures
        clamp_u32(meter + pv) == clamp_u32(meter) + clamp_u32(pv),
{
}

// ---------------------------------------------------------------------------
// The bounded fetch retry policy
// ---------------------------------------------------------------------------

/// Total attempts one fetch makes before giving up.
pub const FETCH_ATTEMPTS: u32 = 3;

/// Fixed delay between fetch attempts, in milliseconds.
pub const FETCH_RETRY_DELAY_MS: u64 = 100;

/// What the fetch driver does next, given how many attempts have failed.
#[derive(Clone, Copy, Debug, PartialEq, Eq, Structural)]
pub enum FetchStep {
    /// Make another attempt after waiting this long.
    Attempt { delay_before_ms: u64 },
    /// The attempt budget is exhausted: report fetch failure.
    GiveUp,
}

/// The policy as a function, for stating laws about the driver.
pub open spec fn next_step_spec(failures: u32) -> FetchStep {
    if failures == 0 {
        FetchStep::Attempt { delay_before_ms: 0u64 }
    } else if failures < FETCH_ATTEMPTS {
        FetchStep::Attempt { delay_before_ms: FETCH_RETRY_DELAY_MS }
    } else {
        FetchStep::GiveUp
    }
}

/// The retry policy: the first attempt is immediate, each retry waits the
/// fixed delay, and after three failed attempts the fetch reports failure.
pub fn next_fetch_step(failures: u32) -> (r: FetchStep)
    ensures
        r == next_step_spec(failures),
{
    if failures == 0 {
        FetchStep::Attempt { delay_before_ms: 0 }
    } else if failures < FETCH_ATTEMPTS {
        FetchStep::Attempt { delay_before_ms: FETCH_RETRY_DELAY_MS }
    } else {
        FetchStep::GiveUp
    }
}

/// Against a server that always fails, the driver makes exactly three
/// attempts — the retries spaced by the fixed delay — and then gives up.
pub proof fn lemma_three_attempts_then_failure()
    ensures
        forall|n: u32| n < FETCH_ATTEMPTS ==> (#[trigger] next_step_spec(n) is Attempt),
        forall|n: u32| n >= FETCH_ATTEMPTS ==> (#[trigger] next_step_spec(n) is GiveUp),
        forall|n: u32|
            0 < n < FETCH_ATTEMPTS ==> ((#[trigger] next_step_spec(n)) == (FetchStep::Attempt {
                delay_before_ms: FETCH_RETRY_DELAY_MS,
            })),
{
}

} // verus!
