//! The shared telemetry store: the single owner of the two latest
//! snapshots.
//!
//! One store value holds the latest solar snapshot and the latest charger
//! snapshot; the two are independent — an operation on one never touches
//! the other.  The transport shell wraps one store per snapshot behind its
//! locks; every contract here is stated against this single-owner value, so
//! whatever interleaving the locks allow, each individual operation does
//! exactly what its contract says.

use vstd::prelude::*;

use crate::charger::{default_snapshot_view, read_message, read_message_spec, WattpilotData};
use crate::solar::{default_solar, SolarData};

verus! {

/// Holder of the latest snapshot per source.
pub struct TelemetryStore {
    /// Latest solar snapshot; replaced wholesale by the scheduler.
    pub solar: SolarData,
    /// Latest charger snapshot; merged field by field by the charger
    /// client.
    pub charger: WattpilotData,
}

impl TelemetryStore {
    /// A store holding the two default snapshots.
    pub fn new() -> (r: TelemetryStore)
        ensures
            r.solar == default_solar(),
            r.charger@ == default_snapshot_view(),
    {
        TelemetryStore { solar: SolarData::default(), charger: WattpilotData::default() }
    }

    /// The latest solar snapshot.
    pub fn read_solar(&self) -> (r: SolarData)
        ensures
            r == self.solar,
    {
        self.solar
    }

    /// Replaces the solar snapshot wholesale; the charger snapshot is
    /// untouched.
    pub fn replace_solar(&mut self, v: SolarData)
        ensures
            final(self).solar == v,
            final(self).charger == old(self).charger,
    {
        self.solar = v;
    }

    /// The latest charger snapshot.
    pub fn read_charger(&self) -> (r: WattpilotData)
        ensures
            r@ == self.charger@,
    {
        self.charger.duplicate()
    }

    /// Applies one inbound charger frame to the charger snapshot; the solar
    /// snapshot is untouched.
    pub fn update_charger(&mut self, message: &str, now_ms: i64)
        ensures
            final(self).charger@ == read_message_spec(
                old(self).charger@,
                message@,
                now_ms as int,
            ),
            final(self).solar == old(self).solar,
    {
        self.charger = read_message(&self.charger, message, now_ms);
    }
}

} // verus!
