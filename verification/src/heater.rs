//! Every two seconds: how much power the cabin heater is asked for.

use crate::hardware::{DigitalInput, Inputs};
use crate::parameters::ParameterId;
use crate::power::ON;
use crate::state::{MainState, MainStateView};
use crate::value::{clamped, interpolate_clamped, interpolated, Value};
use vstd::prelude::*;

verus! {

/// No heating from this cabin temperature on.
pub const CABIN_WARM: i64 = 28_000_000;

/// Heater target while the cabin temperature is unknown.
pub const HEATER_FALLBACK_TARGET: i64 = 60_000_000;

/// The heater runs at full power while it is more than this much below its
/// target.
pub const HEATER_FULL_POWER_MARGIN: i64 = 5_000_000;

/// Heating needs at least this discharge current limit.
pub const HEATER_MIN_DISCHARGE_LIMIT: i64 = 50_000_000;

pub const FULL_POWER: i64 = 100_000_000;

pub const HALF_POWER: i64 = 50_000_000;

/// The heater's target temperature. With the ignition on it falls from 60
/// degrees at a cabin of 15 degrees to 35 degrees at a cabin of 35 degrees;
/// on a remote request it falls from 55 degrees at a cabin of 5 degrees to
/// 35 degrees at a cabin of 30 degrees.
pub open spec fn heater_target(cabin: Value, ignition: bool) -> int {
    match cabin {
        Value::Unknown => HEATER_FALLBACK_TARGET as int,
        Value::Known(c) => if ignition {
            clamped(
                interpolated(c as int, 15_000_000, 35_000_000, 60_000_000, 35_000_000),
                35_000_000,
                60_000_000,
            )
        } else {
            clamped(
                interpolated(c as int, 5_000_000, 30_000_000, 55_000_000, 35_000_000),
                35_000_000,
                55_000_000,
            )
        },
    }
}

/// The heater power request in millionths of a percent. Nothing is asked
/// for without ignition or a remote request, with the cabin already warm,
/// with the heater's temperature unknown, unless the main contactor is known
/// to be closed, or unless the discharge current limit is known to allow
/// it.
pub open spec fn heater_power_request(
    ignition: bool,
    hvac_requested: Value,
    cabin: Value,
    heater_t: Value,
    main_contactor: Value,
    discharge_limit: Value,
) -> i64 {
    let wanted = (ignition || hvac_requested.above(ON)) && (!cabin.known() || cabin.below(
        CABIN_WARM,
    ));
    let target = heater_target(cabin, ignition);
    match heater_t {
        Value::Unknown => 0,
        Value::Known(t) => if !wanted || !main_contactor.at_least(ON) || !discharge_limit.at_least(
            HEATER_MIN_DISCHARGE_LIMIT,
        ) {
            0
        } else if t < target - HEATER_FULL_POWER_MARGIN {
            FULL_POWER
        } else if t < target {
            HALF_POWER
        } else {
            0
        },
    }
}

impl MainStateView {
    /// The state after the heater decision.
    pub open spec fn after_update_heater(self, inputs: Inputs) -> MainStateView {
        self.with_value(
            ParameterId::ReqHeaterPowerPercent,
            Value::Known(
                heater_power_request(
                    inputs.digital.ignition,
                    self.value(ParameterId::HvacRequested),
                    self.value(ParameterId::CabinT),
                    self.value(ParameterId::HeaterT),
                    self.value(ParameterId::MainContactor),
                    self.value(ParameterId::BmsMaxDischargeCurrent),
                ),
            ),
            inputs.millis,
        )
    }
}

/// Computes the heater's target temperature.
pub fn compute_heater_target(cabin: Value, ignition: bool) -> (target: i64)
    ensures
        target == heater_target(cabin, ignition),
        35_000_000 <= target <= 60_000_000,
{
    match cabin {
        Value::Unknown => HEATER_FALLBACK_TARGET,
        Value::Known(c) => if ignition {
            interpolate_clamped(
                c,
                15_000_000,
                35_000_000,
                60_000_000,
                35_000_000,
                35_000_000,
                60_000_000,
            )
        } else {
            interpolate_clamped(
                c,
                5_000_000,
                30_000_000,
                55_000_000,
                35_000_000,
                35_000_000,
                55_000_000,
            )
        },
    }
}

impl MainState {
    /// Decides how much power the cabin heater is asked for and stores the
    /// request.
    pub fn update_heater(&mut self, inputs: &Inputs)
        requires
            old(self).wf(),
        ensures
            final(self)@ == old(self)@.after_update_heater(*inputs),
            final(self).wf(),
    {
        let ignition = inputs.get_digital_input(DigitalInput::Ignition);
        let cabin = self.value(ParameterId::CabinT);
        let wanted = (ignition || self.value(ParameterId::HvacRequested).is_above(ON)) && (
        !cabin.is_known() || cabin.is_below(CABIN_WARM));
        let target = compute_heater_target(cabin, ignition);
        let request: i64 = match self.value(ParameterId::HeaterT) {
            Value::Unknown => 0,
            Value::Known(t) => if !wanted || !self.value(ParameterId::MainContactor).is_at_least(ON)
                || !self.value(ParameterId::BmsMaxDischargeCurrent).is_at_least(
                HEATER_MIN_DISCHARGE_LIMIT,
            ) {
                0
            } else if t < target - HEATER_FULL_POWER_MARGIN {
                FULL_POWER
            } else if t < target {
                HALF_POWER
            } else {
                0
            },
        };
        self.set_value(ParameterId::ReqHeaterPowerPercent, Value::Known(request), inputs.millis);
    }
}

} // verus!
