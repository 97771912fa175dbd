//! Every tick: the air-conditioning compressor.

use crate::hardware::{
    action_views, push_action, Action, ActionView, DigitalInput, Inputs, AC_COMPRESSOR_SERVO_PWM,
};
use crate::parameters::ParameterId;
use crate::power::ON;
use crate::registry::{elapsed, elapsed_ms};
use crate::state::{MainState, MainStateView};
use crate::value::{clamped, interpolate_clamped, interpolated, Value};
use vstd::prelude::*;

verus! {

/// Remote cooling starts above this cabin temperature.
pub const CABIN_HOT: i64 = 30_000_000;

/// The compressor needs more than this discharge current limit.
pub const COMPRESSOR_MIN_DISCHARGE_LIMIT: i64 = 50_000_000;

/// The compressor stays off for this long after the auxiliary voltage was
/// low.
pub const COMPRESSOR_AUX_LOW_LOCKOUT_MS: u64 = 30_000;

/// The compressor needs more than this auxiliary voltage.
pub const COMPRESSOR_MIN_AUX_VOLTAGE: i64 = 13_200_000;

/// Below this evaporator temperature too little air passes it.
pub const EVAPORATOR_MIN_T: i64 = 12_000_000;

/// Evaporator setpoint while the cabin temperature is unknown.
pub const EVAPORATOR_FALLBACK_SETPOINT: i64 = 17_000_000;

/// The evaporator may warm up this much above its setpoint while the
/// compressor is off.
pub const EVAPORATOR_HYSTERESIS: i64 = 3_000_000;

/// A DC/DC current above this locks the compressor out.
pub const DCDC_OVERCURRENT: i64 = 110_000_000;

/// Length of the lockout after a DC/DC over-current.
pub const DCDC_OVERCURRENT_LOCKOUT_MS: u64 = 60_000;

/// The soft start: millionths of a percent that the command may rise per
/// millisecond since the compressor was last off (2 % per second).
pub const RAMP_PER_MS: u64 = 2_000;

/// The soft start has reached full power after this many milliseconds.
pub const RAMP_FULL_MS: u64 = 50_000;

pub const FULL_PERCENT: i64 = 100_000_000;

/// Servo duty at 0 % compressor power.
pub const SERVO_MIN_DUTY: i64 = 50_000;

/// Servo duty at 100 % compressor power.
pub const SERVO_MAX_DUTY: i64 = 100_000;

/// Whether cooling is asked for: by the ignition, or remotely while the
/// cabin is hot.
pub open spec fn cooling_requested(ignition: bool, hvac_requested: Value, cabin: Value) -> bool {
    ignition || (hvac_requested.above(ON) && cabin.above(CABIN_HOT))
}

/// Whether the compressor may run at all.
pub open spec fn compressor_allowed(
    main_contactor: Value,
    discharge_limit: Value,
    since_aux_low_ms: int,
    aux_voltage: Value,
    evaporator_t: Value,
) -> bool {
    main_contactor.above(ON) && discharge_limit.above(COMPRESSOR_MIN_DISCHARGE_LIMIT)
        && since_aux_low_ms > COMPRESSOR_AUX_LOW_LOCKOUT_MS && aux_voltage.above(
        COMPRESSOR_MIN_AUX_VOLTAGE,
    ) && evaporator_t.above(EVAPORATOR_MIN_T)
}

/// The evaporator temperature from which the compressor runs: it falls from
/// 20 degrees at a cabin of 20 degrees to 14 degrees at a cabin of 28
/// degrees, stays between 14 and 25 degrees, and lies
/// `EVAPORATOR_HYSTERESIS` higher while the compressor is off.
pub open spec fn evaporator_setpoint(cabin: Value, compressor_percent: Value) -> int {
    let base = match cabin {
        Value::Unknown => EVAPORATOR_FALLBACK_SETPOINT as int,
        Value::Known(c) => clamped(
            interpolated(c as int, 20_000_000, 28_000_000, 20_000_000, 14_000_000),
            14_000_000,
            25_000_000,
        ),
    };
    if compressor_percent.above(ON) {
        base
    } else {
        base + EVAPORATOR_HYSTERESIS
    }
}

/// The commanded compressor power in millionths of a percent: nothing while
/// the compressor is off, else what the soft start allows after
/// `since_off_ms` milliseconds, at most 100 %.
pub open spec fn ramped_percent(activate: bool, since_off_ms: int) -> int {
    if !activate {
        0
    } else if since_off_ms >= RAMP_FULL_MS {
        FULL_PERCENT as int
    } else {
        since_off_ms * RAMP_PER_MS
    }
}

/// The servo duty in millionths for a compressor power in millionths of a
/// percent: from `SERVO_MIN_DUTY` at 0 % to `SERVO_MAX_DUTY` at 100 %.
pub open spec fn servo_duty(percent: int) -> int {
    interpolated(
        clamped(percent, 0, FULL_PERCENT as int),
        0,
        FULL_PERCENT as int,
        SERVO_MIN_DUTY as int,
        SERVO_MAX_DUTY as int,
    )
}

impl MainStateView {
    /// When a DC/DC over-current was last seen, this tick included.
    pub open spec fn overcurrent_seen(self, inputs: Inputs) -> u64 {
        if self.value(ParameterId::DcdcCurrent).above(DCDC_OVERCURRENT) {
            inputs.millis
        } else {
            self.last_dcdc_overcurrent_ts
        }
    }

    /// Whether the compressor runs this tick.
    pub open spec fn compressor_active(self, inputs: Inputs) -> bool {
        let now = inputs.millis;
        let evaporator_t = self.value(ParameterId::EvaporatorT);
        let setpoint = evaporator_setpoint(
            self.value(ParameterId::CabinT),
            self.value(ParameterId::AcCompressorPercent),
        );
        &&& cooling_requested(
            inputs.digital.ignition,
            self.value(ParameterId::HvacRequested),
            self.value(ParameterId::CabinT),
        )
        &&& compressor_allowed(
            self.value(ParameterId::MainContactor),
            self.value(ParameterId::BmsMaxDischargeCurrent),
            elapsed(now, self.last_aux_low_ms),
            self.value(ParameterId::AuxVoltage),
            evaporator_t,
        )
        &&& evaporator_t matches Value::Known(t) && t >= setpoint
        &&& elapsed(now, self.overcurrent_seen(inputs)) > DCDC_OVERCURRENT_LOCKOUT_MS
    }

    /// When the compressor was last off, this tick included.
    pub open spec fn compressor_last_off(self, inputs: Inputs) -> u64 {
        if self.compressor_active(inputs) {
            self.last_compressor_off_ts
        } else {
            inputs.millis
        }
    }

    /// The compressor power commanded this tick, in millionths of a
    /// percent.
    pub open spec fn compressor_percent(self, inputs: Inputs) -> int {
        ramped_percent(
            self.compressor_active(inputs),
            elapsed(inputs.millis, self.compressor_last_off(inputs)),
        )
    }

    /// The state after the compressor decision.
    pub open spec fn after_update_aircon(self, inputs: Inputs) -> MainStateView {
        MainStateView {
            last_dcdc_overcurrent_ts: self.overcurrent_seen(inputs),
            last_compressor_off_ts: self.compressor_last_off(inputs),
            ..self
        }.with_value(
            ParameterId::AcCompressorPercent,
            Value::Known(self.compressor_percent(inputs) as i64),
            inputs.millis,
        )
    }

    /// The commands of the compressor decision, appended to `prior`: the
    /// servo pulse for the commanded power.
    pub open spec fn with_aircon_actions(
        self,
        prior: Seq<ActionView>,
        inputs: Inputs,
    ) -> Seq<ActionView> {
        prior.push(
            ActionView::SetPwmOutput(
                AC_COMPRESSOR_SERVO_PWM,
                Value::Known(servo_duty(self.compressor_percent(inputs)) as i64),
            ),
        )
    }
}

/// Computes the evaporator temperature from which the compressor runs.
pub fn compute_evaporator_setpoint(cabin: Value, compressor_percent: Value) -> (setpoint: i64)
    ensures
        setpoint == evaporator_setpoint(cabin, compressor_percent),
        14_000_000 <= setpoint <= 28_000_000,
{
    let base: i64 = match cabin {
        Value::Unknown => EVAPORATOR_FALLBACK_SETPOINT,
        Value::Known(c) => interpolate_clamped(
            c,
            20_000_000,
            28_000_000,
            20_000_000,
            14_000_000,
            14_000_000,
            25_000_000,
        ),
    };
    if compressor_percent.is_above(ON) {
        base
    } else {
        base + EVAPORATOR_HYSTERESIS
    }
}

/// Computes the commanded compressor power under the soft start.
pub fn compute_ramped_percent(activate: bool, since_off_ms: u64) -> (percent: i64)
    ensures
        percent == ramped_percent(activate, since_off_ms as int),
        0 <= percent <= FULL_PERCENT,
{
    if !activate {
        0
    } else if since_off_ms >= RAMP_FULL_MS {
        FULL_PERCENT
    } else {
        (since_off_ms * RAMP_PER_MS) as i64
    }
}

/// Computes the servo duty for a compressor power.
pub fn compute_servo_duty(percent: i64) -> (duty: i64)
    ensures
        duty == servo_duty(percent as int),
{
    let limited: i64 = if percent < 0 {
        0
    } else if percent > FULL_PERCENT {
        FULL_PERCENT
    } else {
        percent
    };
    interpolate_clamped(limited, 0, 100_000_000, 50_000, 100_000, i32::MIN, i32::MAX)
}

impl MainState {
    /// Decides whether the compressor runs, ramps its power and commands
    /// its servo.
    pub fn update_aircon(&mut self, inputs: &Inputs, actions: &mut Vec<Action>)
        requires
            old(self).wf(),
        ensures
            final(self)@ == old(self)@.after_update_aircon(*inputs),
            final(self).wf(),
            action_views(final(actions)@) == old(self)@.with_aircon_actions(
                action_views(old(actions)@),
                *inputs,
            ),
    {
        let now = inputs.millis;
        let cabin = self.value(ParameterId::CabinT);
        let evaporator_t = self.value(ParameterId::EvaporatorT);
        let requested = inputs.get_digital_input(DigitalInput::Ignition) || (self.value(
            ParameterId::HvacRequested,
        ).is_above(ON) && cabin.is_above(CABIN_HOT));
        let allowed = self.value(ParameterId::MainContactor).is_above(ON) && self.value(
            ParameterId::BmsMaxDischargeCurrent,
        ).is_above(COMPRESSOR_MIN_DISCHARGE_LIMIT) && elapsed_ms(now, self.last_aux_low_ms)
            > COMPRESSOR_AUX_LOW_LOCKOUT_MS && self.value(ParameterId::AuxVoltage).is_above(
            COMPRESSOR_MIN_AUX_VOLTAGE,
        ) && evaporator_t.is_above(EVAPORATOR_MIN_T);
        let setpoint = compute_evaporator_setpoint(
            cabin,
            self.value(ParameterId::AcCompressorPercent),
        );
        if self.value(ParameterId::DcdcCurrent).is_above(DCDC_OVERCURRENT) {
            self.last_dcdc_overcurrent_ts = now;
        }
        let activate = requested && allowed && evaporator_t.is_at_least(setpoint) && elapsed_ms(
            now,
            self.last_dcdc_overcurrent_ts,
        ) > DCDC_OVERCURRENT_LOCKOUT_MS;
        if !activate {
            self.last_compressor_off_ts = now;
        }
        let since_off = elapsed_ms(now, self.last_compressor_off_ts);
        let percent = compute_ramped_percent(activate, since_off);
        self.set_value(ParameterId::AcCompressorPercent, Value::Known(percent), now);
        push_action(
            actions,
            Action::SetPwmOutput(
                AC_COMPRESSOR_SERVO_PWM,
                Value::Known(compute_servo_duty(percent)),
            ),
        );
    }
}

} // verus!
