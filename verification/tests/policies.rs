use ipdmrust::aircon::{compute_evaporator_setpoint, compute_ramped_percent, compute_servo_duty};
use ipdmrust::can_tx::compute_charge_current_request;
use ipdmrust::hardware::{
    Action, AnalogInputs, DigitalInputs, DigitalOutput, Inputs, LogEvent, PwmOutput,
    AC_COMPRESSOR_SERVO_PWM, BATTERY_COOL_SOLENOID, BATTERY_HEAT_SOLENOID,
    BATTERY_NEUTRAL_SOLENOID, COOLING_FAN,
    CP_PWM_TO_OBC, HEAT_LOOP_PUMP, OBC_DCDC_12V_SUPPLY,
};
use ipdmrust::heater::compute_heater_target;
use ipdmrust::outputs::compute_hundredth;
use ipdmrust::parameters::ParameterId;
use ipdmrust::state::MainState;
use ipdmrust::value::{interpolate_clamped, quotient_of, Value};

const U: i64 = 1_000_000;

fn inputs_at(millis: u64) -> Inputs {
    let off = DigitalInputs {
        group1_oc: false,
        group2_oc: false,
        group3_oc: false,
        group4_oc: false,
        ignition: false,
        m7: false,
        m8: false,
        m9: false,
        m10: false,
        m11: false,
        m12: false,
        m13: false,
    };
    let none = AnalogInputs {
        aux_voltage: Value::Unknown,
        pcb_t: Value::Unknown,
        current1: Value::Unknown,
        current2: Value::Unknown,
        current3: Value::Unknown,
        current4: Value::Unknown,
        current_l: Value::Unknown,
        m1: Value::Unknown,
        m2: Value::Unknown,
        m3: Value::Unknown,
        m4: Value::Unknown,
        m5: Value::Unknown,
        m6: Value::Unknown,
    };
    Inputs { millis, digital: off, analog: none, evaporator_t: Value::Unknown }
}

fn with_ignition(millis: u64) -> Inputs {
    let mut inputs = inputs_at(millis);
    inputs.digital.ignition = true;
    inputs
}

fn set(state: &mut MainState, id: ParameterId, units: i64) {
    state.set_value(id, Value::Known(units * U), 0);
}

fn digital(actions: &[Action], output: DigitalOutput) -> Option<bool> {
    actions.iter().rev().find_map(|a| match a {
        Action::SetDigitalOutput(o, on) if *o == output => Some(*on),
        _ => None,
    })
}

fn pwm(actions: &[Action], output: PwmOutput) -> Option<Value> {
    actions.iter().rev().find_map(|a| match a {
        Action::SetPwmOutput(o, duty) if *o == output => Some(*duty),
        _ => None,
    })
}

/// The commands for the heating, the cooling and the neutral solenoid.
fn thermal(t_min: i64, t_max: i64) -> (Option<bool>, Option<bool>, Option<bool>) {
    let mut state = MainState::new();
    set(&mut state, ParameterId::MainContactor, 1);
    set(&mut state, ParameterId::BatteryTMin, t_min);
    set(&mut state, ParameterId::BatteryTMax, t_max);
    let mut actions = Vec::new();
    state.update_outputs(&inputs_at(10_001), &mut actions);
    assert_eq!(state.last_solenoid_update_ms, 10_001);
    (
        digital(&actions, BATTERY_HEAT_SOLENOID),
        digital(&actions, BATTERY_COOL_SOLENOID),
        digital(&actions, BATTERY_NEUTRAL_SOLENOID),
    )
}

#[test]
fn cold_battery_is_heated() {
    assert_eq!(thermal(2, 20), (Some(true), Some(false), Some(false)));
}

#[test]
fn hot_battery_is_cooled() {
    assert_eq!(thermal(24, 31), (Some(false), Some(true), Some(false)));
}

#[test]
fn temperate_battery_is_neither_heated_nor_cooled() {
    assert_eq!(thermal(15, 25), (Some(false), Some(false), Some(true)));
}

#[test]
fn cooling_solenoid_is_commanded_on() {
    let mut state = MainState::new();
    set(&mut state, ParameterId::MainContactor, 1);
    set(&mut state, ParameterId::HvacRequested, 0);
    set(&mut state, ParameterId::BatteryTMin, 24);
    set(&mut state, ParameterId::BatteryTMax, 31);
    let mut actions = Vec::new();
    state.update_outputs(&inputs_at(20_000), &mut actions);
    assert_eq!(
        &actions[..3],
        &[
            Action::SetDigitalOutput(DigitalOutput::LOUT3, false),
            Action::SetDigitalOutput(DigitalOutput::LOUT2, false),
            Action::SetDigitalOutput(DigitalOutput::LOUT1, true),
        ]
    );
}

#[test]
fn thermal_thresholds_are_strict() {
    let neither = (Some(false), Some(false), Some(true));
    assert_eq!(thermal(3, 20), neither);
    assert_eq!(thermal(2, 30), neither);
    assert_eq!(thermal(23, 31), neither);
    assert_eq!(thermal(24, 30), neither);
}

#[test]
fn battery_heating_pauses_in_the_second_half_of_the_duty_period() {
    let run = |millis: u64, cabin: Option<i64>| {
        let mut state = MainState::new();
        set(&mut state, ParameterId::MainContactor, 1);
        set(&mut state, ParameterId::HvacRequested, 1);
        set(&mut state, ParameterId::BatteryTMin, 10);
        set(&mut state, ParameterId::BatteryTMax, 20);
        if let Some(c) = cabin {
            set(&mut state, ParameterId::CabinT, c);
        }
        let mut actions = Vec::new();
        state.update_outputs(&inputs_at(millis), &mut actions);
        digital(&actions, BATTERY_HEAT_SOLENOID)
    };
    assert_eq!(run(130_000, None), Some(true));
    assert_eq!(run(179_999, None), Some(true));
    assert_eq!(run(180_000, None), Some(false));
    assert_eq!(run(70_000, Some(15)), Some(false));
    assert_eq!(run(70_000, Some(16)), Some(true));
}

#[test]
fn thermal_outputs_are_off_without_the_main_contactor() {
    for contactor in [None, Some(0)] {
        let mut state = MainState::new();
        if let Some(c) = contactor {
            set(&mut state, ParameterId::MainContactor, c);
        }
        set(&mut state, ParameterId::BatteryTMin, 2);
        set(&mut state, ParameterId::BatteryTMax, 40);
        set(&mut state, ParameterId::OutlanderHeaterT, 50);
        let mut actions = Vec::new();
        state.update_outputs(&inputs_at(20_000), &mut actions);
        assert_eq!(
            &actions[..5],
            &[
                Action::SetDigitalOutput(BATTERY_NEUTRAL_SOLENOID, false),
                Action::SetDigitalOutput(BATTERY_HEAT_SOLENOID, false),
                Action::SetDigitalOutput(BATTERY_COOL_SOLENOID, false),
                Action::SetDigitalOutput(COOLING_FAN, false),
                Action::SetDigitalOutput(HEAT_LOOP_PUMP, false),
            ]
        );
    }
}

#[test]
fn thermal_outputs_are_commanded_only_when_due() {
    let mut state = MainState::new();
    set(&mut state, ParameterId::MainContactor, 1);
    let mut actions = Vec::new();
    state.update_outputs(&inputs_at(10_000), &mut actions);
    assert_eq!(digital(&actions, BATTERY_NEUTRAL_SOLENOID), None);
    assert_eq!(state.last_solenoid_update_ms, 0);
    assert_eq!(actions.len(), 6);
    actions.clear();
    state.update_outputs(&inputs_at(10_001), &mut actions);
    assert_eq!(actions.len(), 11);
    assert_eq!(digital(&actions, BATTERY_NEUTRAL_SOLENOID), Some(true));
    assert_eq!(digital(&actions, BATTERY_COOL_SOLENOID), Some(false));
}

#[test]
fn fan_and_pump_follow_their_causes() {
    let mut state = MainState::new();
    set(&mut state, ParameterId::MainContactor, 1);
    set(&mut state, ParameterId::BatteryTMax, 36);
    set(&mut state, ParameterId::OutlanderHeaterT, 31);
    let mut actions = Vec::new();
    state.update_outputs(&inputs_at(10_001), &mut actions);
    assert_eq!(digital(&actions, COOLING_FAN), Some(true));
    assert_eq!(digital(&actions, HEAT_LOOP_PUMP), Some(true));

    let mut state = MainState::new();
    set(&mut state, ParameterId::MainContactor, 1);
    set(&mut state, ParameterId::BatteryTMax, 36);
    state.last_aux_low_ms = 15_000;
    let mut actions = Vec::new();
    state.update_outputs(&inputs_at(25_000), &mut actions);
    assert_eq!(digital(&actions, COOLING_FAN), Some(false));
    assert_eq!(digital(&actions, HEAT_LOOP_PUMP), Some(false));

    let mut state = MainState::new();
    set(&mut state, ParameterId::MainContactor, 1);
    set(&mut state, ParameterId::AcCompressorPercent, 1);
    set(&mut state, ParameterId::OutlanderHeaterHeating, 1);
    let mut actions = Vec::new();
    state.update_outputs(&inputs_at(10_001), &mut actions);
    assert_eq!(digital(&actions, COOLING_FAN), Some(true));
    assert_eq!(digital(&actions, HEAT_LOOP_PUMP), Some(true));
}

#[test]
fn outputs_mirror_ignition_and_contactor() {
    let mut state = MainState::new();
    let mut actions = Vec::new();
    state.update_outputs(&inputs_at(100), &mut actions);
    assert_eq!(
        actions,
        vec![
            Action::SetDigitalOutput(DigitalOutput::Wakeup, false),
            Action::SetDigitalOutput(DigitalOutput::HOUT1, false),
            Action::SetDigitalOutput(DigitalOutput::HOUT6, false),
            Action::SetDigitalOutput(DigitalOutput::HOUT4, false),
            Action::SetDigitalOutput(DigitalOutput::HOUT10, false),
            Action::SetPwmOutput(PwmOutput::SPWM1, Value::Known(0)),
        ]
    );
    actions.clear();
    set(&mut state, ParameterId::MainContactor, 1);
    set(&mut state, ParameterId::FoccciCPPWM, 53);
    state.update_outputs(&with_ignition(100), &mut actions);
    assert_eq!(
        actions,
        vec![
            Action::SetDigitalOutput(DigitalOutput::Wakeup, true),
            Action::SetDigitalOutput(DigitalOutput::HOUT1, true),
            Action::SetDigitalOutput(DigitalOutput::HOUT6, true),
            Action::SetDigitalOutput(DigitalOutput::HOUT4, true),
            Action::SetDigitalOutput(DigitalOutput::HOUT10, true),
            Action::SetPwmOutput(PwmOutput::SPWM1, Value::Known(530_000)),
        ]
    );
    assert_eq!(CP_PWM_TO_OBC, PwmOutput::SPWM1);
    assert_eq!(OBC_DCDC_12V_SUPPLY, DigitalOutput::HOUT1);
}

#[test]
fn wakeup_line_follows_each_request() {
    for id in [
        ParameterId::ReqWakeupAndContactor,
        ParameterId::Precharging,
        ParameterId::MainContactor,
        ParameterId::ActivateEvse,
        ParameterId::HvacRequested,
    ] {
        let mut state = MainState::new();
        set(&mut state, id, 1);
        let mut actions = Vec::new();
        state.update_outputs(&inputs_at(100), &mut actions);
        assert_eq!(digital(&actions, DigitalOutput::Wakeup), Some(true), "{:?}", id);
        assert_eq!(digital(&actions, OBC_DCDC_12V_SUPPLY), Some(true), "{:?}", id);
    }
}

#[test]
fn supply_is_cut_shortly_after_the_ignition_went_off() {
    let supply = |last_millis: u64, ignition_last_on: u64, obc_current: Option<i64>| {
        let mut state = MainState::new();
        set(&mut state, ParameterId::HvacRequested, 1);
        if let Some(c) = obc_current {
            state.set_value(ParameterId::ObcDcc, Value::Known(c), 0);
        }
        state.last_millis = last_millis;
        state.ignition_last_on_ms = ignition_last_on;
        let mut actions = Vec::new();
        state.update_outputs(&inputs_at(last_millis + 20), &mut actions);
        assert_eq!(digital(&actions, DigitalOutput::Wakeup), Some(true));
        digital(&actions, OBC_DCDC_12V_SUPPLY)
    };
    assert_eq!(supply(100_000, 99_000, Some(100_000)), Some(false));
    assert_eq!(supply(100_000, 94_000, Some(0)), Some(false));
    assert_eq!(supply(100_000, 99_001, Some(0)), Some(true));
    assert_eq!(supply(100_000, 93_999, Some(0)), Some(true));
    assert_eq!(supply(100_000, 99_000, Some(100_001)), Some(true));
    assert_eq!(supply(100_000, 99_000, None), Some(true));
    assert_eq!(supply(60_000, 59_000, Some(0)), Some(true));
    assert_eq!(supply(100_000, 100_020, Some(0)), Some(true));
}

#[test]
fn supply_gets_a_recovery_kick() {
    let supply = |last_millis: u64, aux: i64, status: Option<i64>, precharging: Option<i64>| {
        let mut state = MainState::new();
        set(&mut state, ParameterId::MainContactor, 1);
        state.set_value(ParameterId::AuxVoltage, Value::Known(aux), 0);
        if let Some(s) = status {
            set(&mut state, ParameterId::DcdcStatus, s);
        }
        if let Some(p) = precharging {
            set(&mut state, ParameterId::Precharging, p);
        }
        state.last_millis = last_millis;
        state.ignition_last_on_ms = 0;
        let mut actions = Vec::new();
        state.update_outputs(&inputs_at(last_millis + 20), &mut actions);
        digital(&actions, OBC_DCDC_12V_SUPPLY)
    };
    let in_slice = 1_800_000 + 30_000 + 4_999;
    assert_eq!(supply(in_slice, 12_500_000, None, Some(0)), Some(false));
    assert_eq!(supply(in_slice, 12_500_000, Some(0x21), Some(0)), Some(false));
    assert_eq!(supply(in_slice + 1, 12_500_000, None, Some(0)), Some(true));
    assert_eq!(supply(in_slice, 12_500_001, None, Some(0)), Some(true));
    assert_eq!(supply(in_slice, 12_500_000, Some(0x22), Some(0)), Some(true));
    assert_eq!(supply(in_slice, 12_500_000, None, Some(1)), Some(true));
    assert_eq!(supply(in_slice, 12_500_000, None, None), Some(true));
    assert_eq!(supply(30_000 + 100, 12_000_000, None, Some(0)), Some(true));
}

#[test]
fn pilot_duty_is_passed_on_as_a_fraction() {
    assert_eq!(compute_hundredth(Value::Unknown), Value::Known(0));
    assert_eq!(compute_hundredth(Value::Known(96 * U)), Value::Known(960_000));
    assert_eq!(compute_hundredth(Value::Known(199)), Value::Known(1));
    assert_eq!(compute_hundredth(Value::Known(-199)), Value::Known(-1));
    assert_eq!(compute_hundredth(Value::Known(i64::MIN)), Value::Known(i64::MIN / 100));
}

fn cooling_state(now: u64) -> MainState {
    let mut state = MainState::new();
    set(&mut state, ParameterId::MainContactor, 1);
    set(&mut state, ParameterId::BmsMaxDischargeCurrent, 100);
    set(&mut state, ParameterId::AuxVoltage, 14);
    set(&mut state, ParameterId::EvaporatorT, 25);
    state.last_millis = now;
    state
}

#[test]
fn compressor_starts_softly() {
    let now = 200_000;
    let mut state = cooling_state(now);
    state.last_compressor_off_ts = now - 1000;
    let mut actions = Vec::new();
    state.update_aircon(&with_ignition(now), &mut actions);
    let percent = state.value(ParameterId::AcCompressorPercent);
    assert_eq!(percent, Value::Known(2 * U));
    assert!(percent.is_at_most(2 * U));
    assert_eq!(state.last_compressor_off_ts, now - 1000);
    assert_eq!(actions, vec![Action::SetPwmOutput(PwmOutput::M12, Value::Known(51_000))]);
}

#[test]
fn compressor_reaches_full_power_and_stays_there() {
    let now = 200_000;
    let mut state = cooling_state(now);
    state.last_compressor_off_ts = now - 60_000;
    let mut actions = Vec::new();
    state.update_aircon(&with_ignition(now), &mut actions);
    assert_eq!(state.value(ParameterId::AcCompressorPercent), Value::Known(100 * U));
    assert_eq!(pwm(&actions, AC_COMPRESSOR_SERVO_PWM), Some(Value::Known(100_000)));
    assert_eq!(compute_ramped_percent(true, 0), 0);
    assert_eq!(compute_ramped_percent(true, 1), 2_000);
    assert_eq!(compute_ramped_percent(true, 49_999), 99_998_000);
    assert_eq!(compute_ramped_percent(true, 50_000), 100 * U);
    assert_eq!(compute_ramped_percent(true, u64::MAX), 100 * U);
    assert_eq!(compute_ramped_percent(false, 60_000), 0);
}

#[test]
fn compressor_needs_every_condition() {
    let now = 200_000;
    let active = |change: &dyn Fn(&mut MainState), inputs: Inputs| {
        let mut state = cooling_state(now);
        state.last_compressor_off_ts = 0;
        change(&mut state);
        let mut actions = Vec::new();
        state.update_aircon(&inputs, &mut actions);
        let on = state.value(ParameterId::AcCompressorPercent) == Value::Known(100 * U);
        if !on {
            assert_eq!(state.value(ParameterId::AcCompressorPercent), Value::Known(0));
            assert_eq!(state.last_compressor_off_ts, now);
            assert_eq!(pwm(&actions, AC_COMPRESSOR_SERVO_PWM), Some(Value::Known(50_000)));
        }
        on
    };
    assert!(active(&|_| {}, with_ignition(now)));
    assert!(!active(&|_| {}, inputs_at(now)));
    assert!(!active(&|s| set(s, ParameterId::HvacRequested, 1), inputs_at(now)));
    assert!(!active(
        &|s| {
            set(s, ParameterId::HvacRequested, 1);
            set(s, ParameterId::CabinT, 30);
        },
        inputs_at(now)
    ));
    assert!(active(
        &|s| {
            set(s, ParameterId::HvacRequested, 1);
            set(s, ParameterId::CabinT, 31);
        },
        inputs_at(now)
    ));
    assert!(!active(&|s| set(s, ParameterId::MainContactor, 0), with_ignition(now)));
    assert!(!active(&|s| set(s, ParameterId::BmsMaxDischargeCurrent, 50), with_ignition(now)));
    assert!(!active(&|s| s.last_aux_low_ms = now - 30_000, with_ignition(now)));
    assert!(active(&|s| s.last_aux_low_ms = now - 30_001, with_ignition(now)));
    assert!(!active(
        &|s| s.set_value(ParameterId::AuxVoltage, Value::Known(13_200_000), 0),
        with_ignition(now)
    ));
    assert!(!active(&|s| set(s, ParameterId::EvaporatorT, 12), with_ignition(now)));
    assert!(!active(&|s| set(s, ParameterId::EvaporatorT, 19), with_ignition(now)));
    assert!(active(&|s| set(s, ParameterId::EvaporatorT, 20), with_ignition(now)));
    assert!(!active(&|s| s.last_dcdc_overcurrent_ts = now - 60_000, with_ignition(now)));
    for id in [
        ParameterId::MainContactor,
        ParameterId::BmsMaxDischargeCurrent,
        ParameterId::AuxVoltage,
        ParameterId::EvaporatorT,
    ] {
        assert!(!active(&|s| s.set_value(id, Value::Unknown, 0), with_ignition(now)));
    }
}

#[test]
fn overcurrent_locks_the_compressor_out_for_a_minute() {
    let now = 200_000;
    let mut state = cooling_state(now);
    set(&mut state, ParameterId::DcdcCurrent, 111);
    let mut actions = Vec::new();
    state.update_aircon(&with_ignition(now), &mut actions);
    assert_eq!(state.last_dcdc_overcurrent_ts, now);
    assert_eq!(state.value(ParameterId::AcCompressorPercent), Value::Known(0));
    set(&mut state, ParameterId::DcdcCurrent, 110);
    state.update_aircon(&with_ignition(now + 60_000), &mut actions);
    assert_eq!(state.value(ParameterId::AcCompressorPercent), Value::Known(0));
    assert_eq!(state.last_compressor_off_ts, now + 60_000);
    state.update_aircon(&with_ignition(now + 60_001), &mut actions);
    assert_eq!(state.last_compressor_off_ts, now + 60_000);
    assert_eq!(state.value(ParameterId::AcCompressorPercent), Value::Known(2_000));
    assert_eq!(state.last_dcdc_overcurrent_ts, now);
}

#[test]
fn evaporator_setpoint_follows_the_cabin() {
    let off = Value::Known(0);
    let on = Value::Known(50 * U);
    assert_eq!(compute_evaporator_setpoint(Value::Unknown, off), 20 * U);
    assert_eq!(compute_evaporator_setpoint(Value::Unknown, on), 17 * U);
    assert_eq!(compute_evaporator_setpoint(Value::Unknown, Value::Unknown), 20 * U);
    assert_eq!(compute_evaporator_setpoint(Value::Known(24 * U), on), 17 * U);
    assert_eq!(compute_evaporator_setpoint(Value::Known(24 * U), off), 20 * U);
    assert_eq!(compute_evaporator_setpoint(Value::Known(20 * U), on), 20 * U);
    assert_eq!(compute_evaporator_setpoint(Value::Known(21 * U), on), 19_250_000);
    assert_eq!(compute_evaporator_setpoint(Value::Known(28 * U), on), 14 * U);
    assert_eq!(compute_evaporator_setpoint(Value::Known(40 * U), on), 14 * U);
    assert_eq!(compute_evaporator_setpoint(Value::Known(0), on), 25 * U);
    assert_eq!(compute_evaporator_setpoint(Value::Known(i64::MIN), off), 28 * U);
    assert_eq!(compute_evaporator_setpoint(Value::Known(i64::MAX), off), 17 * U);
}

#[test]
fn servo_duty_spans_five_to_ten_percent() {
    assert_eq!(compute_servo_duty(0), 50_000);
    assert_eq!(compute_servo_duty(100 * U), 100_000);
    assert_eq!(compute_servo_duty(50 * U), 75_000);
    assert_eq!(compute_servo_duty(2 * U), 51_000);
    assert_eq!(compute_servo_duty(1_999), 50_000);
    assert_eq!(compute_servo_duty(-5), 50_000);
    assert_eq!(compute_servo_duty(i64::MAX), 100_000);
}

#[test]
fn heater_target_follows_the_cabin() {
    assert_eq!(compute_heater_target(Value::Unknown, true), 60 * U);
    assert_eq!(compute_heater_target(Value::Unknown, false), 60 * U);
    assert_eq!(compute_heater_target(Value::Known(20 * U), true), 53_750_000);
    assert_eq!(compute_heater_target(Value::Known(20 * U), false), 43 * U);
    assert_eq!(compute_heater_target(Value::Known(15 * U), true), 60 * U);
    assert_eq!(compute_heater_target(Value::Known(0), true), 60 * U);
    assert_eq!(compute_heater_target(Value::Known(35 * U), true), 35 * U);
    assert_eq!(compute_heater_target(Value::Known(90 * U), true), 35 * U);
    assert_eq!(compute_heater_target(Value::Known(5 * U), false), 55 * U);
    assert_eq!(compute_heater_target(Value::Known(-20 * U), false), 55 * U);
    assert_eq!(compute_heater_target(Value::Known(30 * U), false), 35 * U);
    assert_eq!(compute_heater_target(Value::Known(i64::MAX), false), 35 * U);
    assert_eq!(compute_heater_target(Value::Known(i64::MIN), true), 60 * U);
}

fn heater_request(change: &dyn Fn(&mut MainState), inputs: Inputs) -> Value {
    let mut state = MainState::new();
    set(&mut state, ParameterId::MainContactor, 1);
    set(&mut state, ParameterId::BmsMaxDischargeCurrent, 50);
    set(&mut state, ParameterId::CabinT, 20);
    set(&mut state, ParameterId::HeaterT, 40);
    change(&mut state);
    state.update_heater(&inputs);
    assert_eq!(
        state.registry.params[ParameterId::ReqHeaterPowerPercent.index()].update_timestamp,
        inputs.millis
    );
    state.value(ParameterId::ReqHeaterPowerPercent)
}

#[test]
fn heater_power_steps_down_towards_the_target() {
    let ignition = with_ignition(2000);
    assert_eq!(heater_request(&|_| {}, ignition), Value::Known(100 * U));
    assert_eq!(
        heater_request(&|s| s.set_value(ParameterId::HeaterT, Value::Known(48_749_999), 0), ignition),
        Value::Known(100 * U)
    );
    assert_eq!(
        heater_request(&|s| s.set_value(ParameterId::HeaterT, Value::Known(48_750_000), 0), ignition),
        Value::Known(50 * U)
    );
    assert_eq!(
        heater_request(&|s| s.set_value(ParameterId::HeaterT, Value::Known(53_749_999), 0), ignition),
        Value::Known(50 * U)
    );
    assert_eq!(
        heater_request(&|s| s.set_value(ParameterId::HeaterT, Value::Known(53_750_000), 0), ignition),
        Value::Known(0)
    );
    // remote request: the target is 43 degrees at a cabin of 20
    let remote = |s: &mut MainState| set(s, ParameterId::HvacRequested, 1);
    assert_eq!(heater_request(&remote, inputs_at(2000)), Value::Known(50 * U));
    assert_eq!(
        heater_request(
            &|s| {
                set(s, ParameterId::HvacRequested, 1);
                set(s, ParameterId::HeaterT, 37);
            },
            inputs_at(2000)
        ),
        Value::Known(100 * U)
    );
}

#[test]
fn heater_is_off_without_cause_or_measurements() {
    let ignition = with_ignition(2000);
    assert_eq!(heater_request(&|_| {}, inputs_at(2000)), Value::Known(0));
    assert_eq!(heater_request(&|s| set(s, ParameterId::CabinT, 28), ignition), Value::Known(0));
    assert_eq!(
        heater_request(&|s| set(s, ParameterId::MainContactor, 0), ignition),
        Value::Known(0)
    );
    assert_eq!(
        heater_request(
            &|s| s.set_value(ParameterId::BmsMaxDischargeCurrent, Value::Known(49_999_999), 0),
            ignition
        ),
        Value::Known(0)
    );
    for id in [
        ParameterId::HeaterT,
        ParameterId::MainContactor,
        ParameterId::BmsMaxDischargeCurrent,
    ] {
        assert_eq!(
            heater_request(&|s| s.set_value(id, Value::Unknown, 0), ignition),
            Value::Known(0),
            "{:?}",
            id
        );
    }
    // an unknown cabin temperature falls back to a target of 60 degrees
    assert_eq!(
        heater_request(
            &|s| {
                s.set_value(ParameterId::CabinT, Value::Unknown, 0);
                set(s, ParameterId::HeaterT, 56);
            },
            ignition
        ),
        Value::Known(50 * U)
    );
}

fn charging(v_max: i64, ccs: Option<i64>, obc: Option<i64>, before: Option<i64>) -> Value {
    let mut state = MainState::new();
    state.set_value(ParameterId::BatteryVMax, Value::Known(v_max), 0);
    if let Some(c) = ccs {
        state.set_value(ParameterId::CcsCurrent, Value::Known(c), 0);
    }
    if let Some(c) = obc {
        state.set_value(ParameterId::ObcDcc, Value::Known(c), 0);
    }
    if let Some(b) = before {
        set(&mut state, ParameterId::ChargeComplete, b);
    }
    state.update_charging(&inputs_at(500));
    state.value(ParameterId::ChargeComplete)
}

#[test]
fn charge_completion_latches_and_rearms() {
    assert_eq!(charging(4_100_000, None, None, None), Value::Known(U));
    assert_eq!(charging(4_100_000, Some(U), Some(999_999), Some(0)), Value::Known(U));
    assert_eq!(charging(4_100_000, Some(U), Some(U), Some(0)), Value::Known(0));
    assert_eq!(charging(4_099_999, None, None, Some(0)), Value::Known(0));
    assert_eq!(charging(4_099_999, None, None, Some(1)), Value::Known(U));
    assert_eq!(charging(4_099_999, None, None, None), Value::Unknown);
    assert_eq!(charging(4_040_000, None, None, Some(1)), Value::Known(U));
    assert_eq!(charging(4_039_999, None, None, Some(1)), Value::Known(0));
    assert_eq!(charging(4_200_000, Some(5 * U), None, Some(1)), Value::Known(U));
    assert_eq!(charging(4_200_000, Some(5 * U), Some(-4 * U), Some(0)), Value::Known(U));
    let mut state = MainState::new();
    state.update_charging(&inputs_at(500));
    assert_eq!(state.value(ParameterId::ChargeComplete), Value::Unknown);
}

#[test]
fn charging_equipment_needs_pilot_and_open_charge() {
    let evse = |pilot: Option<i64>, complete: Option<i64>| {
        let mut state = MainState::new();
        if let Some(p) = pilot {
            state.set_value(ParameterId::FoccciCPPWM, Value::Known(p), 0);
        }
        if let Some(c) = complete {
            set(&mut state, ParameterId::ChargeComplete, c);
        }
        state.update_charging(&inputs_at(750));
        let evse = state.value(ParameterId::ActivateEvse);
        assert_eq!(state.value(ParameterId::ActivateObc), evse);
        assert_eq!(
            state.registry.params[ParameterId::ActivateEvse.index()].update_timestamp,
            750
        );
        evse
    };
    assert_eq!(evse(Some(50 * U), Some(0)), Value::Known(U));
    assert_eq!(evse(Some(U), Some(0)), Value::Known(U));
    assert_eq!(evse(Some(96 * U), Some(0)), Value::Known(U));
    assert_eq!(evse(Some(999_999), Some(0)), Value::Known(0));
    assert_eq!(evse(Some(96_000_001), Some(0)), Value::Known(0));
    assert_eq!(evse(Some(50 * U), Some(1)), Value::Known(0));
    assert_eq!(evse(Some(50 * U), None), Value::Known(0));
    assert_eq!(evse(None, Some(0)), Value::Known(0));
}

#[test]
fn charger_current_follows_the_voltage_ratio_and_the_limits() {
    let request = |ac: i64, dc: i64, bms: i64| {
        compute_charge_current_request(Value::Known(ac), Value::Known(dc), Value::Known(bms))
    };
    assert_eq!(request(230 * U, 300 * U, 60 * U), 7_666_666);
    assert_eq!(request(230 * U, 300 * U, 5 * U), 5 * U);
    assert_eq!(request(400 * U, 100 * U, 60 * U), 12 * U);
    assert_eq!(request(120 * U, 100 * U, 60 * U), 12 * U);
    assert_eq!(request(230 * U, 300 * U, -U), 0);
    assert_eq!(request(-230 * U, 300 * U, 60 * U), 0);
    assert_eq!(request(230 * U, 0, 60 * U), 0);
    assert_eq!(request(0, 300 * U, 60 * U), 0);
    assert_eq!(request(i64::MAX, 1, i64::MAX), 12 * U);
    assert_eq!(request(i64::MIN, -1, i64::MAX), 12 * U);
    let known = Value::Known(300 * U);
    assert_eq!(compute_charge_current_request(Value::Unknown, known, known), 0);
    assert_eq!(compute_charge_current_request(known, Value::Unknown, known), 0);
    assert_eq!(compute_charge_current_request(known, known, Value::Unknown), 0);
}

fn wake(change: &dyn Fn(&mut MainState), inputs: Inputs) -> (Value, u64) {
    let mut state = MainState::new();
    change(&mut state);
    state.manage_power(&inputs);
    (state.value(ParameterId::ReqWakeupAndContactor), state.last_aux_low_ms)
}

#[test]
fn wakeup_is_requested_by_ignition_charging_and_climate() {
    assert_eq!(wake(&|_| {}, inputs_at(1000)).0, Value::Known(0));
    assert_eq!(wake(&|_| {}, with_ignition(1000)).0, Value::Known(U));
    assert_eq!(wake(&|s| set(s, ParameterId::ActivateEvse, 1), inputs_at(1000)).0, Value::Known(U));
    // climate control alone does not wake while no state of charge was seen
    assert_eq!(wake(&|s| set(s, ParameterId::HvacRequested, 1), inputs_at(1000)).0, Value::Known(0));
    assert_eq!(
        wake(&|s| set(s, ParameterId::HvacRequested, 1), with_ignition(1000)).0,
        Value::Known(U)
    );
    let low_soc = |s: &mut MainState| {
        set(s, ParameterId::HvacRequested, 1);
        s.set_value(ParameterId::LastSeenSoc, Value::Known(9_999_999), 0);
    };
    assert_eq!(wake(&low_soc, inputs_at(1000)).0, Value::Known(0));
    assert_eq!(wake(&low_soc, with_ignition(1000)).0, Value::Known(U));
    let enough_soc = |s: &mut MainState| {
        set(s, ParameterId::HvacRequested, 1);
        set(s, ParameterId::LastSeenSoc, 10);
    };
    assert_eq!(wake(&enough_soc, inputs_at(1000)).0, Value::Known(U));
}

#[test]
fn scheduled_wake_windows() {
    let hour = 3_600_000u64;
    let day = 24 * hour;
    let charged = |s: &mut MainState| set(s, ParameterId::LastSeenSoc, 10);
    assert_eq!(wake(&charged, inputs_at(day)).0, Value::Known(U));
    assert_eq!(wake(&charged, inputs_at(day + hour - 1)).0, Value::Known(U));
    assert_eq!(wake(&charged, inputs_at(day + hour)).0, Value::Known(0));
    assert_eq!(wake(&charged, inputs_at(hour / 2)).0, Value::Known(0));
    assert_eq!(wake(&charged, inputs_at(2 * hour)).0, Value::Known(0));
    // every four hours for half an hour while the auxiliary battery was low
    let low = |s: &mut MainState| {
        set(s, ParameterId::LastSeenSoc, 10);
        set(s, ParameterId::AuxVoltage, 11);
    };
    assert_eq!(wake(&low, inputs_at(4 * hour)), (Value::Known(U), 4 * hour));
    assert_eq!(wake(&low, inputs_at(4 * hour + hour / 2)).0, Value::Known(0));
    let was_low = |s: &mut MainState| {
        set(s, ParameterId::LastSeenSoc, 10);
        s.last_aux_low_ms = 3 * hour + 1;
    };
    assert_eq!(wake(&was_low, inputs_at(4 * hour)), (Value::Known(U), 3 * hour + 1));
    let long_ago = |s: &mut MainState| {
        set(s, ParameterId::LastSeenSoc, 10);
        s.last_aux_low_ms = 3 * hour;
    };
    assert_eq!(wake(&long_ago, inputs_at(4 * hour)).0, Value::Known(0));
    let not_low = |s: &mut MainState| {
        set(s, ParameterId::LastSeenSoc, 10);
        set(s, ParameterId::AuxVoltage, 12);
        s.last_aux_low_ms = 0;
    };
    assert_eq!(wake(&not_low, inputs_at(8 * hour)), (Value::Known(0), 0));
    let empty = |s: &mut MainState| set(s, ParameterId::LastSeenSoc, 9);
    assert_eq!(wake(&empty, inputs_at(day)).0, Value::Known(0));
}

#[test]
fn no_scheduled_wake_while_no_state_of_charge_was_seen() {
    let hour = 3_600_000u64;
    let day = 24 * hour;
    assert_eq!(wake(&|_| {}, inputs_at(day)).0, Value::Known(0));
    let low = |s: &mut MainState| set(s, ParameterId::AuxVoltage, 11);
    assert_eq!(wake(&low, inputs_at(4 * hour)), (Value::Known(0), 4 * hour));
    assert_eq!(wake(&|_| {}, with_ignition(day)).0, Value::Known(U));
    let charging = |s: &mut MainState| set(s, ParameterId::ActivateEvse, 1);
    assert_eq!(wake(&charging, inputs_at(day + 2 * hour)).0, Value::Known(U));
}

#[test]
fn local_parameters_are_refreshed_each_tick() {
    let mut state = MainState::new();
    let mut inputs = inputs_at(4321);
    inputs.analog.aux_voltage = Value::Known(13_700_000);
    inputs.analog.pcb_t = Value::Known(31_500_000);
    inputs.evaporator_t = Value::Known(18 * U);
    set(&mut state, ParameterId::Soc, 80);
    state.update_parameters(&inputs);
    assert_eq!(state.value(ParameterId::TicksMs), Value::Known(4321 * U));
    assert_eq!(state.value(ParameterId::AuxVoltage), Value::Known(13_700_000));
    assert_eq!(state.value(ParameterId::PcbT), Value::Known(31_500_000));
    assert_eq!(state.value(ParameterId::EvaporatorT), Value::Known(18 * U));
    assert_eq!(state.value(ParameterId::LastSeenSoc), Value::Known(80 * U));
    for id in [ParameterId::TicksMs, ParameterId::AuxVoltage, ParameterId::LastSeenSoc] {
        assert_eq!(state.registry.params[id.index()].update_timestamp, 4321);
    }
    // the state of charge itself came from a frame at time 0 and is still fresh
    assert_eq!(state.value(ParameterId::Soc), Value::Known(80 * U));
    state.update_parameters(&inputs_at(5000));
    assert_eq!(state.value(ParameterId::Soc), Value::Unknown);
    assert_eq!(state.value(ParameterId::LastSeenSoc), Value::Known(80 * U));
    assert_eq!(state.value(ParameterId::AuxVoltage), Value::Unknown);
}

#[test]
fn implausible_state_of_charge_is_not_remembered() {
    for (soc, kept) in [(499_999, false), (500_000, true), (100_500_000, true), (100_500_001, false)]
    {
        let mut state = MainState::new();
        state.set_value(ParameterId::Soc, Value::Known(soc), 0);
        state.update_parameters(&inputs_at(10));
        let expected = if kept { Value::Known(soc) } else { Value::Unknown };
        assert_eq!(state.value(ParameterId::LastSeenSoc), expected);
    }
    let mut state = MainState::new();
    state.update_parameters(&inputs_at(u64::MAX));
    assert_eq!(state.value(ParameterId::TicksMs), Value::Unknown);
}

#[test]
fn fault_inputs_are_logged_and_ignition_is_noted() {
    let mut state = MainState::new();
    let mut inputs = with_ignition(900);
    inputs.digital.group2_oc = true;
    inputs.digital.group4_oc = true;
    let mut actions = Vec::new();
    state.read_inputs(&inputs, &mut actions);
    assert_eq!(
        actions,
        vec![
            Action::Log(LogEvent::InputFault(ipdmrust::hardware::DigitalInput::Group2OC)),
            Action::Log(LogEvent::InputFault(ipdmrust::hardware::DigitalInput::Group4OC)),
        ]
    );
    assert_eq!(state.ignition_last_on_ms, 900);
    actions.clear();
    state.read_inputs(&inputs_at(950), &mut actions);
    assert!(actions.is_empty());
    assert_eq!(state.ignition_last_on_ms, 900);
}

#[test]
fn interpolation_and_division_round_toward_zero() {
    assert_eq!(quotient_of(7, 2), 3);
    assert_eq!(quotient_of(-7, 2), -3);
    assert_eq!(quotient_of(7, -2), -3);
    assert_eq!(quotient_of(-7, -2), 3);
    assert_eq!(interpolate_clamped(5, 0, 10, 0, 100, -1000, 1000), 50);
    assert_eq!(interpolate_clamped(15, 0, 10, 0, 100, -1000, 1000), 150);
    assert_eq!(interpolate_clamped(15, 0, 10, 0, 100, 0, 100), 100);
    assert_eq!(interpolate_clamped(-3, 0, 10, 0, 100, -10, 100), -10);
    assert_eq!(interpolate_clamped(1, 0, 3, 0, 10, -1000, 1000), 3);
    assert_eq!(interpolate_clamped(-1, 0, 3, 0, 10, -1000, 1000), -3);
    assert_eq!(interpolate_clamped(1, 0, 3, 10, 0, -1000, 1000), 7);
    assert_eq!(interpolate_clamped(7, 4, 4, 9, 5, -1000, 1000), 9);
    assert_eq!(interpolate_clamped(1, 3, 0, 10, 0, -1000, 1000), 4);
}

#[test]
fn values_compare_false_when_unknown() {
    let v = Value::Known(5);
    assert!(v.is_known() && v.is_above(4) && v.is_below(6) && v.is_at_least(5) && v.is_at_most(5));
    assert!(!v.is_above(5) && !v.is_below(5) && !v.is_at_least(6) && !v.is_at_most(4));
    let u = Value::Unknown;
    assert!(!u.is_known());
    assert!(!u.is_above(i64::MIN) && !u.is_below(i64::MAX));
    assert!(!u.is_at_least(i64::MIN) && !u.is_at_most(i64::MAX));
    assert_eq!(Value::from_flag(true), Value::Known(U));
    assert_eq!(Value::from_flag(false), Value::Known(0));
    assert_eq!(Value::from_raw(-27, U), Value::Known(-27 * U));
    assert_eq!(Value::from_raw(u64::MAX as i128, 1), Value::Unknown);
    assert_eq!(Value::from_raw(i64::MIN as i128, 1), Value::Known(i64::MIN));
    assert_eq!(Value::from_raw(i64::MIN as i128, -1), Value::Unknown);
    assert_eq!(Value::Known(1_999_999).quantize(1, 1, 0, 255), 1);
    assert_eq!(Value::Known(-1_999_999).quantize(1, 1, -128, 127), -1);
    assert_eq!(Value::Known(-999_999).quantize(1, 1, -128, 127), 0);
    assert_eq!(Value::Known(300 * U).quantize(1, 1, 0, 255), 255);
    assert_eq!(Value::Known(-300 * U).quantize(1, 1, -128, 127), -128);
    assert_eq!(Value::Unknown.quantize(10, 1, -5, 5), 0);
    assert_eq!(Value::Known(3 * U).quantize(256, 3, 0, 65535), 256);
    assert_eq!(Value::Known(i64::MAX).quantize(u32::MAX, 1, 0, 65535), 65535);
}
