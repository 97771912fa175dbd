//! Every tick: charge completion and the activation of charging equipment.

use crate::hardware::Inputs;
use crate::parameters::ParameterId;
use crate::power::ON;
use crate::state::{MainState, MainStateView};
use crate::value::Value;
use vstd::prelude::*;

verus! {

/// Charging is complete at this highest cell voltage, once the current
/// has tailed off.
pub const CHARGE_COMPLETE_VOLTAGE: i64 = 4_100_000;

/// Charging is armed again below this highest cell voltage.
pub const CHARGE_REARM_VOLTAGE: i64 = 4_040_000;

/// The charge current has tailed off below this many amperes.
pub const CHARGE_TAIL_CURRENT: i64 = 2_000_000;

/// The control pilot's duty cycle offers charging from this percentage.
pub const PILOT_MIN: i64 = 1_000_000;

/// The control pilot's duty cycle offers charging up to this percentage.
pub const PILOT_MAX: i64 = 96_000_000;

/// A measurement's count of millionths, zero where it is unknown.
pub open spec fn known_or_zero(v: Value) -> int {
    match v {
        Value::Known(m) => m as int,
        Value::Unknown => 0,
    }
}

/// The combined charge current of the fast charger and the onboard charger.
pub open spec fn charge_current(ccs: Value, obc: Value) -> int {
    known_or_zero(ccs) + known_or_zero(obc)
}

/// Whether charging equipment is to be activated: the pilot's duty cycle
/// lies in the valid band and the charge is known not to be complete.
pub open spec fn evse_wanted(pilot: Value, charge_complete: Value) -> bool {
    pilot.at_least(PILOT_MIN) && pilot.at_most(PILOT_MAX) && charge_complete.below(ON)
}

impl MainStateView {
    /// The state after the charging decision. Charge completion latches
    /// when the highest cell voltage reached `CHARGE_COMPLETE_VOLTAGE` with
    /// the current below `CHARGE_TAIL_CURRENT`, is released below
    /// `CHARGE_REARM_VOLTAGE`, and otherwise stays; both activation flags
    /// follow from it and the pilot.
    pub open spec fn after_update_charging(self, inputs: Inputs) -> MainStateView {
        let now = inputs.millis;
        let v_max = self.value(ParameterId::BatteryVMax);
        let current = charge_current(
            self.value(ParameterId::CcsCurrent),
            self.value(ParameterId::ObcDcc),
        );
        let s1 = if v_max.at_least(CHARGE_COMPLETE_VOLTAGE) && current < CHARGE_TAIL_CURRENT {
            self.with_value(ParameterId::ChargeComplete, Value::flag(true), now)
        } else if v_max.below(CHARGE_REARM_VOLTAGE) {
            self.with_value(ParameterId::ChargeComplete, Value::flag(false), now)
        } else {
            self
        };
        let activate = evse_wanted(
            s1.value(ParameterId::FoccciCPPWM),
            s1.value(ParameterId::ChargeComplete),
        );
        s1.with_value(ParameterId::ActivateEvse, Value::flag(activate), now).with_value(
            ParameterId::ActivateObc,
            Value::flag(activate),
            now,
        )
    }
}

/// A measurement's count of millionths, zero where it is unknown.
fn count_or_zero(v: Value) -> (m: i128)
    ensures
        m == known_or_zero(v),
{
    match v {
        Value::Known(m) => m as i128,
        Value::Unknown => 0,
    }
}

impl MainState {
    /// Latches or releases charge completion and decides whether charging
    /// equipment is activated.
    pub fn update_charging(&mut self, inputs: &Inputs)
        requires
            old(self).wf(),
        ensures
            final(self)@ == old(self)@.after_update_charging(*inputs),
            final(self).wf(),
    {
        let now = inputs.millis;
        let current: i128 = count_or_zero(self.value(ParameterId::CcsCurrent)) + count_or_zero(
            self.value(ParameterId::ObcDcc),
        );
        let v_max = self.value(ParameterId::BatteryVMax);
        if v_max.is_at_least(CHARGE_COMPLETE_VOLTAGE) && current < CHARGE_TAIL_CURRENT as i128 {
            self.set_value(ParameterId::ChargeComplete, Value::from_flag(true), now);
        } else if v_max.is_below(CHARGE_REARM_VOLTAGE) {
            self.set_value(ParameterId::ChargeComplete, Value::from_flag(false), now);
        }
        let pilot = self.value(ParameterId::FoccciCPPWM);
        let activate = pilot.is_at_least(PILOT_MIN) && pilot.is_at_most(PILOT_MAX) && self.value(
            ParameterId::ChargeComplete,
        ).is_below(ON);
        self.set_value(ParameterId::ActivateEvse, Value::from_flag(activate), now);
        self.set_value(ParameterId::ActivateObc, Value::from_flag(activate), now);
    }
}

} // verus!
