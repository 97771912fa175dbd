//! Every tick: the digital outputs and the pilot signal passed on to the
//! charger.

use crate::hardware::{
    action_views, push_action, Action, ActionView, DigitalInput, DigitalOutput, Inputs,
    BATTERY_COOL_SOLENOID, BATTERY_HEAT_SOLENOID, BATTERY_NEUTRAL_SOLENOID, BATTERY_PUMP,
    BRAKE_BOOSTER, COOLING_FAN,
    CP_PWM_TO_OBC, DCDC_ENABLE, HEAT_LOOP_PUMP, OBC_DCDC_12V_SUPPLY,
};
use crate::parameters::ParameterId;
use crate::power::ON;
use crate::registry::{elapsed, elapsed_ms};
use crate::state::{MainState, MainStateView};
use crate::value::{quotient, quotient_of, Value};
use vstd::prelude::*;

verus! {

/// The solenoids, the fan and the heating loop's pump are commanded anew
/// when more than this long has passed since they last were.
pub const SOLENOID_UPDATE_MS: u64 = 10_000;

/// The battery is heated up to this temperature while climate control is
/// requested.
pub const BATTERY_HEAT_TARGET_HVAC: i64 = 22_000_000;

/// The battery is heated up to this temperature otherwise.
pub const BATTERY_HEAT_TARGET: i64 = 3_000_000;

/// No heating, and cooling only, above this highest cell temperature.
pub const BATTERY_MAX_T: i64 = 30_000_000;

/// Below this lowest cell temperature the battery is heated without pause.
pub const BATTERY_COLD: i64 = 3_000_000;

/// Above this cabin temperature the battery is heated without pause.
pub const CABIN_MILD: i64 = 15_000_000;

/// Otherwise the battery is heated during the first half of every period.
pub const HEAT_DUTY_PERIOD_MS: u64 = 120_000;

pub const HEAT_DUTY_ON_MS: u64 = 60_000;

/// Cooling needs the lowest cell temperature above this.
pub const BATTERY_COOL_ABOVE: i64 = 23_000_000;

/// The fan runs above this highest cell temperature.
pub const FAN_BATTERY_T: i64 = 35_000_000;

/// The fan runs from this compressor power on.
pub const FAN_COMPRESSOR_PERCENT: i64 = 1_000_000;

/// The fan stays off for this long after the auxiliary voltage was low.
pub const FAN_AUX_LOW_LOCKOUT_MS: u64 = 10_000;

/// The heating loop's pump runs above this heater temperature.
pub const PUMP_HEATER_T: i64 = 30_000_000;

/// The 12 V supply is never cut during the first minute.
pub const POWER_CYCLE_AFTER_BOOT_MS: u64 = 60_000;

/// The 12 V supply is cut from this long after the ignition went off...
pub const POWER_CYCLE_FROM_MS: u64 = 1_000;

/// ...until this long after it went off,
pub const POWER_CYCLE_UNTIL_MS: u64 = 6_000;

/// provided the charger's current is at most this.
pub const CHARGER_IDLE_CURRENT: i64 = 100_000;

/// No recovery kick during the first two minutes.
pub const KICK_AFTER_BOOT_MS: u64 = 120_000;

/// The recovery kick recurs with this period,
pub const KICK_PERIOD_MS: u64 = 1_800_000;

/// shifted by this much against the wake schedule,
pub const KICK_SHIFT_MS: u64 = 30_000;

/// and lasts this long.
pub const KICK_LENGTH_MS: u64 = 5_000;

/// The auxiliary voltage is borderline up to this.
pub const AUX_BORDERLINE_VOLTAGE: i64 = 12_500_000;

/// The status byte of a running DC/DC converter.
pub const DCDC_RUNNING: i64 = 34_000_000;

/// Whether the battery is heated: its coldest cell is below the target, its
/// warmest cell below `BATTERY_MAX_T`, and either the battery is cold, the
/// cabin is mild, or the clock is in the first half of the duty period.
pub open spec fn heat_battery(
    hvac_requested: Value,
    t_min: Value,
    t_max: Value,
    cabin: Value,
    now: u64,
) -> bool {
    let target = if hvac_requested.above(ON) {
        BATTERY_HEAT_TARGET_HVAC
    } else {
        BATTERY_HEAT_TARGET
    };
    t_min.below(target) && t_max.below(BATTERY_MAX_T) && (t_min.below(BATTERY_COLD) || cabin.above(
        CABIN_MILD,
    ) || now % HEAT_DUTY_PERIOD_MS < HEAT_DUTY_ON_MS)
}

/// Whether the battery is cooled.
pub open spec fn cool_battery(t_min: Value, t_max: Value) -> bool {
    t_min.above(BATTERY_COOL_ABOVE) && t_max.above(BATTERY_MAX_T)
}

/// A tenth of a tenth of a measurement, cut toward zero: a percentage as a
/// fraction. Zero for an unknown measurement.
pub open spec fn hundredth(v: Value) -> Value {
    match v {
        Value::Unknown => Value::Known(0),
        Value::Known(m) => Value::Known(quotient(m as int, 100) as i64),
    }
}

impl MainStateView {
    /// Whether anything asks for the vehicle's electronics to be awake.
    pub open spec fn awake_wanted(self, inputs: Inputs) -> bool {
        inputs.digital.ignition || self.value(ParameterId::ReqWakeupAndContactor).above(ON)
            || self.value(ParameterId::Precharging).above(ON) || self.value(
            ParameterId::MainContactor,
        ).above(ON) || self.value(ParameterId::ActivateEvse).above(ON) || self.value(
            ParameterId::HvacRequested,
        ).above(ON)
    }

    /// Whether the 12 V supply is cut to power-cycle the charger: shortly
    /// after the ignition went off, while the charger draws next to nothing.
    pub open spec fn supply_power_cycle(self) -> bool {
        self.last_millis > POWER_CYCLE_AFTER_BOOT_MS && POWER_CYCLE_FROM_MS <= elapsed(
            self.last_millis,
            self.ignition_last_on_ms,
        ) <= POWER_CYCLE_UNTIL_MS && self.value(ParameterId::ObcDcc).at_most(CHARGER_IDLE_CURRENT)
    }

    /// Whether the 12 V supply is cut for a recovery kick: in a short
    /// recurring slice, while the auxiliary voltage is borderline, the
    /// DC/DC converter is not confirmed running, no precharge is active and
    /// the main contactor is closed.
    pub open spec fn supply_recovery_kick(self) -> bool {
        self.last_millis > KICK_AFTER_BOOT_MS && (self.last_millis - KICK_SHIFT_MS)
            % (KICK_PERIOD_MS as int) < KICK_LENGTH_MS && self.value(
            ParameterId::AuxVoltage,
        ).at_most(AUX_BORDERLINE_VOLTAGE) && self.value(ParameterId::DcdcStatus) != Value::Known(
            DCDC_RUNNING,
        ) && self.value(ParameterId::Precharging).below(ON) && self.value(
            ParameterId::MainContactor,
        ).above(ON)
    }

    /// Whether the charger and the DC/DC converter get their 12 V supply.
    pub open spec fn supply_enabled(self, inputs: Inputs) -> bool {
        !self.supply_power_cycle() && !self.supply_recovery_kick() && self.awake_wanted(inputs)
    }

    /// Whether the solenoids are due for an update.
    pub open spec fn solenoids_due(self, inputs: Inputs) -> bool {
        elapsed(inputs.millis, self.last_solenoid_update_ms) > SOLENOID_UPDATE_MS
    }

    /// The state after the outputs were derived: the time of the solenoid
    /// update is renewed when one was due.
    pub open spec fn after_update_outputs(self, inputs: Inputs) -> MainStateView {
        MainStateView {
            last_solenoid_update_ms: if self.solenoids_due(inputs) {
                inputs.millis
            } else {
                self.last_solenoid_update_ms
            },
            ..self
        }
    }

    /// The commands for the three solenoids, the fan and the heating loop's
    /// pump, appended to `prior`. All five are off unless the main contactor
    /// is closed; while it is closed, exactly one solenoid is on: the heating
    /// one while the battery is heated, the cooling one while it is cooled,
    /// the neutral one otherwise.
    pub open spec fn with_thermal_actions(
        self,
        prior: Seq<ActionView>,
        inputs: Inputs,
    ) -> Seq<ActionView> {
        let allow = self.value(ParameterId::MainContactor).above(ON);
        let heat = heat_battery(
            self.value(ParameterId::HvacRequested),
            self.value(ParameterId::BatteryTMin),
            self.value(ParameterId::BatteryTMax),
            self.value(ParameterId::CabinT),
            inputs.millis,
        );
        let cool = cool_battery(
            self.value(ParameterId::BatteryTMin),
            self.value(ParameterId::BatteryTMax),
        );
        let fan = allow && elapsed(inputs.millis, self.last_aux_low_ms) > FAN_AUX_LOW_LOCKOUT_MS
            && (self.value(ParameterId::BatteryTMax).above(FAN_BATTERY_T) || self.value(
            ParameterId::AcCompressorPercent,
        ).at_least(FAN_COMPRESSOR_PERCENT));
        let pump = allow && (self.value(ParameterId::OutlanderHeaterHeating).above(ON)
            || self.value(ParameterId::OutlanderHeaterPowerPercent).above(ON) || self.value(
            ParameterId::OutlanderHeaterT,
        ).above(PUMP_HEATER_T));
        prior.push(ActionView::SetDigitalOutput(BATTERY_NEUTRAL_SOLENOID, allow && !cool && !heat))
            .push(ActionView::SetDigitalOutput(BATTERY_HEAT_SOLENOID, allow && heat)).push(
            ActionView::SetDigitalOutput(BATTERY_COOL_SOLENOID, allow && cool),
        ).push(ActionView::SetDigitalOutput(COOLING_FAN, fan)).push(
            ActionView::SetDigitalOutput(HEAT_LOOP_PUMP, pump),
        )
    }

    /// The commands of one tick's outputs, appended to `prior`: the five
    /// thermal outputs when their update is due, then the wakeup line, the 12 V
    /// supply, the DC/DC enable, the battery pump, the brake booster and the
    /// pilot signal for the charger.
    pub open spec fn with_output_actions(
        self,
        prior: Seq<ActionView>,
        inputs: Inputs,
    ) -> Seq<ActionView> {
        let thermal = if self.solenoids_due(inputs) {
            self.with_thermal_actions(prior, inputs)
        } else {
            prior
        };
        let contactor = self.value(ParameterId::MainContactor).above(ON);
        thermal.push(ActionView::SetDigitalOutput(DigitalOutput::Wakeup, self.awake_wanted(inputs)))
            .push(ActionView::SetDigitalOutput(OBC_DCDC_12V_SUPPLY, self.supply_enabled(inputs)))
            .push(ActionView::SetDigitalOutput(DCDC_ENABLE, contactor)).push(
            ActionView::SetDigitalOutput(BATTERY_PUMP, contactor),
        ).push(ActionView::SetDigitalOutput(BRAKE_BOOSTER, inputs.digital.ignition)).push(
            ActionView::SetPwmOutput(
                CP_PWM_TO_OBC,
                hundredth(self.value(ParameterId::FoccciCPPWM)),
            ),
        )
    }
}

/// Converts a percentage into a fraction.
pub fn compute_hundredth(v: Value) -> (r: Value)
    ensures
        r == hundredth(v),
{
    match v {
        Value::Unknown => Value::Known(0),
        Value::Known(m) => Value::Known(quotient_of(m as i128, 100) as i64),
    }
}

impl MainState {
    fn awake_wanted(&self, inputs: &Inputs) -> (r: bool)
        requires
            self.wf(),
        ensures
            r == self@.awake_wanted(*inputs),
    {
        inputs.get_digital_input(DigitalInput::Ignition) || self.value(
            ParameterId::ReqWakeupAndContactor,
        ).is_above(ON) || self.value(ParameterId::Precharging).is_above(ON) || self.value(
            ParameterId::MainContactor,
        ).is_above(ON) || self.value(ParameterId::ActivateEvse).is_above(ON) || self.value(
            ParameterId::HvacRequested,
        ).is_above(ON)
    }

    fn supply_enabled(&self, inputs: &Inputs) -> (r: bool)
        requires
            self.wf(),
        ensures
            r == self@.supply_enabled(*inputs),
    {
        let since_ignition = elapsed_ms(self.last_millis, self.ignition_last_on_ms);
        if self.last_millis > POWER_CYCLE_AFTER_BOOT_MS && since_ignition >= POWER_CYCLE_FROM_MS
            && since_ignition <= POWER_CYCLE_UNTIL_MS && self.value(ParameterId::ObcDcc).is_at_most(
            CHARGER_IDLE_CURRENT,
        ) {
            false
        } else if self.last_millis > KICK_AFTER_BOOT_MS && (self.last_millis - KICK_SHIFT_MS)
            % KICK_PERIOD_MS < KICK_LENGTH_MS && self.value(ParameterId::AuxVoltage).is_at_most(
            AUX_BORDERLINE_VOLTAGE,
        ) && self.value(ParameterId::DcdcStatus) != Value::Known(DCDC_RUNNING) && self.value(
            ParameterId::Precharging,
        ).is_below(ON) && self.value(ParameterId::MainContactor).is_above(ON) {
            false
        } else {
            self.awake_wanted(inputs)
        }
    }

    fn push_thermal_actions(&self, inputs: &Inputs, actions: &mut Vec<Action>)
        requires
            self.wf(),
        ensures
            action_views(final(actions)@) == self@.with_thermal_actions(
                action_views(old(actions)@),
                *inputs,
            ),
    {
        let now = inputs.millis;
        let allow = self.value(ParameterId::MainContactor).is_above(ON);
        let t_min = self.value(ParameterId::BatteryTMin);
        let t_max = self.value(ParameterId::BatteryTMax);
        let target = if self.value(ParameterId::HvacRequested).is_above(ON) {
            BATTERY_HEAT_TARGET_HVAC
        } else {
            BATTERY_HEAT_TARGET
        };
        let heat = t_min.is_below(target) && t_max.is_below(BATTERY_MAX_T) && (t_min.is_below(
            BATTERY_COLD,
        ) || self.value(ParameterId::CabinT).is_above(CABIN_MILD) || now % HEAT_DUTY_PERIOD_MS
            < HEAT_DUTY_ON_MS);
        let cool = t_min.is_above(BATTERY_COOL_ABOVE) && t_max.is_above(BATTERY_MAX_T);
        let fan = allow && elapsed_ms(now, self.last_aux_low_ms) > FAN_AUX_LOW_LOCKOUT_MS && (
        t_max.is_above(FAN_BATTERY_T) || self.value(ParameterId::AcCompressorPercent).is_at_least(
            FAN_COMPRESSOR_PERCENT,
        ));
        let pump = allow && (self.value(ParameterId::OutlanderHeaterHeating).is_above(ON)
            || self.value(ParameterId::OutlanderHeaterPowerPercent).is_above(ON) || self.value(
            ParameterId::OutlanderHeaterT,
        ).is_above(PUMP_HEATER_T));
        push_action(
            actions,
            Action::SetDigitalOutput(BATTERY_NEUTRAL_SOLENOID, allow && !cool && !heat),
        );
        push_action(actions, Action::SetDigitalOutput(BATTERY_HEAT_SOLENOID, allow && heat));
        push_action(actions, Action::SetDigitalOutput(BATTERY_COOL_SOLENOID, allow && cool));
        push_action(actions, Action::SetDigitalOutput(COOLING_FAN, fan));
        push_action(actions, Action::SetDigitalOutput(HEAT_LOOP_PUMP, pump));
    }

    /// Derives the digital outputs and the pilot signal for the charger.
    pub fn update_outputs(&mut self, inputs: &Inputs, actions: &mut Vec<Action>)
        requires
            old(self).wf(),
        ensures
            final(self)@ == old(self)@.after_update_outputs(*inputs),
            final(self).wf(),
            action_views(final(actions)@) == old(self)@.with_output_actions(
                action_views(old(actions)@),
                *inputs,
            ),
    {
        let now = inputs.millis;
        let awake = self.awake_wanted(inputs);
        let supply = self.supply_enabled(inputs);
        let contactor = self.value(ParameterId::MainContactor).is_above(ON);
        if elapsed_ms(now, self.last_solenoid_update_ms) > SOLENOID_UPDATE_MS {
            self.push_thermal_actions(inputs, actions);
            self.last_solenoid_update_ms = now;
        }
        push_action(actions, Action::SetDigitalOutput(DigitalOutput::Wakeup, awake));
        push_action(actions, Action::SetDigitalOutput(OBC_DCDC_12V_SUPPLY, supply));
        push_action(actions, Action::SetDigitalOutput(DCDC_ENABLE, contactor));
        push_action(actions, Action::SetDigitalOutput(BATTERY_PUMP, contactor));
        push_action(
            actions,
            Action::SetDigitalOutput(
                BRAKE_BOOSTER,
                inputs.get_digital_input(DigitalInput::Ignition),
            ),
        );
        push_action(
            actions,
            Action::SetPwmOutput(
                CP_PWM_TO_OBC,
                compute_hundredth(self.value(ParameterId::FoccciCPPWM)),
            ),
        );
    }
}

} // verus!
