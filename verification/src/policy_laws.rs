//! Facts about the policies: what unknown measurements lead to, the soft
//! start, and what the telemetry frames give back.

use crate::aircon::{
    ramped_percent, servo_duty, FULL_PERCENT, RAMP_FULL_MS, RAMP_PER_MS, SERVO_MAX_DUTY,
    SERVO_MIN_DUTY,
};
use crate::bit_laws::{lemma_be_round_trip, lemma_be_stored_elsewhere};
use crate::bits::{be_stored, be_unsigned, two_pow};
use crate::can_tx::{
    blank_payload, charge_current_request, heater_command, input_flags, sample,
    telemetry_inputs_payload, OBC_CURRENT_LIMIT,
};
use crate::charging::evse_wanted;
use crate::hardware::{
    ActionView, Inputs, BATTERY_COOL_SOLENOID, BATTERY_HEAT_SOLENOID, BATTERY_NEUTRAL_SOLENOID,
    COOLING_FAN,
    HEAT_LOOP_PUMP,
};
use crate::heater::heater_power_request;
use crate::outputs::{cool_battery, heat_battery};
use crate::parameters::ParameterId;
use crate::power::{wakeup_requested, ON, SOC_REMOTE_FLOOR};
use crate::state::MainStateView;
use crate::value::Value;
use vstd::prelude::*;

verus! {

/// Soft start: the commanded compressor power never exceeds what the ramp
/// of `RAMP_PER_MS` allows after the time since the compressor was last off,
/// never exceeds 100 %, reaches 100 % after `RAMP_FULL_MS`, and never falls
/// while the compressor stays on.
pub proof fn lemma_soft_start(since_off_ms: int, later_ms: int)
    requires
        0 <= since_off_ms <= later_ms,
    ensures
        0 <= ramped_percent(true, since_off_ms) <= since_off_ms * RAMP_PER_MS,
        ramped_percent(true, since_off_ms) <= FULL_PERCENT,
        since_off_ms >= RAMP_FULL_MS ==> ramped_percent(true, since_off_ms) == FULL_PERCENT,
        ramped_percent(true, since_off_ms) <= ramped_percent(true, later_ms),
        ramped_percent(false, since_off_ms) == 0,
{
}

/// The servo duty stays between its two ends, whatever power is commanded.
pub proof fn lemma_servo_duty_range(percent: int)
    ensures
        SERVO_MIN_DUTY <= servo_duty(percent) <= SERVO_MAX_DUTY,
{
    let p = crate::value::clamped(percent, 0, FULL_PERCENT as int);
    assert(0 <= (p * 50_000) / 100_000_000 <= 50_000) by (nonlinear_arith)
        requires
            0 <= p <= 100_000_000,
    ;
}

/// The battery is never heated and cooled at once.
pub proof fn lemma_heat_cool_exclusive(
    hvac_requested: Value,
    t_min: Value,
    t_max: Value,
    cabin: Value,
    now: u64,
)
    ensures
        !(heat_battery(hvac_requested, t_min, t_max, cabin, now) && cool_battery(t_min, t_max)),
{
}

/// With a cell temperature unknown the battery is neither heated nor
/// cooled.
pub proof fn lemma_thermal_needs_temperatures(
    hvac_requested: Value,
    t_min: Value,
    t_max: Value,
    cabin: Value,
    now: u64,
)
    requires
        t_min is Unknown || t_max is Unknown,
    ensures
        !heat_battery(hvac_requested, t_min, t_max, cabin, now),
        !cool_battery(t_min, t_max),
{
}

/// Unless the main contactor is known to be closed, the three solenoids,
/// the fan and the heating loop's pump are all commanded off.
pub proof fn lemma_thermal_off_without_contactor(s: MainStateView, inputs: Inputs)
    requires
        !s.value(ParameterId::MainContactor).above(ON),
    ensures
        s.with_thermal_actions(Seq::empty(), inputs) == seq![
            ActionView::SetDigitalOutput(BATTERY_NEUTRAL_SOLENOID, false),
            ActionView::SetDigitalOutput(BATTERY_HEAT_SOLENOID, false),
            ActionView::SetDigitalOutput(BATTERY_COOL_SOLENOID, false),
            ActionView::SetDigitalOutput(COOLING_FAN, false),
            ActionView::SetDigitalOutput(HEAT_LOOP_PUMP, false),
        ],
{
    assert(s.with_thermal_actions(Seq::empty(), inputs) =~= seq![
        ActionView::SetDigitalOutput(BATTERY_NEUTRAL_SOLENOID, false),
        ActionView::SetDigitalOutput(BATTERY_HEAT_SOLENOID, false),
        ActionView::SetDigitalOutput(BATTERY_COOL_SOLENOID, false),
        ActionView::SetDigitalOutput(COOLING_FAN, false),
        ActionView::SetDigitalOutput(HEAT_LOOP_PUMP, false),
    ]);
}

/// While the main contactor is known to be closed, the three solenoid
/// commands are the first three of the thermal commands, and exactly one of
/// them is on: heating, cooling or neutral.
pub proof fn lemma_one_solenoid_on(s: MainStateView, inputs: Inputs)
    requires
        s.value(ParameterId::MainContactor).above(ON),
    ensures
        ({
            let heat = heat_battery(
                s.value(ParameterId::HvacRequested),
                s.value(ParameterId::BatteryTMin),
                s.value(ParameterId::BatteryTMax),
                s.value(ParameterId::CabinT),
                inputs.millis,
            );
            let cool = cool_battery(
                s.value(ParameterId::BatteryTMin),
                s.value(ParameterId::BatteryTMax),
            );
            let commands = s.with_thermal_actions(Seq::empty(), inputs);
            &&& commands.len() == 5
            &&& commands[0] == ActionView::SetDigitalOutput(
                BATTERY_NEUTRAL_SOLENOID,
                !heat && !cool,
            )
            &&& commands[1] == ActionView::SetDigitalOutput(BATTERY_HEAT_SOLENOID, heat)
            &&& commands[2] == ActionView::SetDigitalOutput(BATTERY_COOL_SOLENOID, cool)
            &&& !(heat && cool)
        }),
{
}

/// While no state of charge was seen, or the one last seen is below the
/// floor, neither climate control nor a wake window wakes the vehicle: only
/// the ignition and active charging equipment do.
pub proof fn lemma_wake_needs_charge(
    ignition: bool,
    activate_evse: Value,
    last_seen_soc: Value,
    hvac_requested: Value,
    wake_window: bool,
)
    requires
        !last_seen_soc.at_least(SOC_REMOTE_FLOOR),
    ensures
        wakeup_requested(ignition, activate_evse, last_seen_soc, hvac_requested, wake_window) == (
        ignition || activate_evse.above(ON)),
{
}

/// The heater is asked for nothing while its temperature, the state of the
/// main contactor or the discharge current limit is unknown.
pub proof fn lemma_heater_needs_measurements(
    ignition: bool,
    hvac_requested: Value,
    cabin: Value,
    heater_t: Value,
    main_contactor: Value,
    discharge_limit: Value,
)
    requires
        heater_t is Unknown || main_contactor is Unknown || discharge_limit is Unknown,
    ensures
        heater_power_request(
            ignition,
            hvac_requested,
            cabin,
            heater_t,
            main_contactor,
            discharge_limit,
        ) == 0,
        heater_command(Value::Known(0)) == 0,
        heater_command(Value::Unknown) == 0,
{
}

/// The compressor stays off while one of the measurements that allow it is
/// unknown.
pub proof fn lemma_compressor_needs_measurements(s: MainStateView, inputs: Inputs)
    requires
        s.wf(),
        s.value(ParameterId::MainContactor) is Unknown || s.value(
            ParameterId::BmsMaxDischargeCurrent,
        ) is Unknown || s.value(ParameterId::AuxVoltage) is Unknown || s.value(
            ParameterId::EvaporatorT,
        ) is Unknown,
    ensures
        !s.compressor_active(inputs),
        s.compressor_percent(inputs) == 0,
        s.after_update_aircon(inputs).value(ParameterId::AcCompressorPercent) == Value::Known(0),
        s.after_update_aircon(inputs).last_compressor_off_ts == inputs.millis,
{
}

/// Charging equipment is not activated while the pilot's duty cycle or the
/// completion of the charge is unknown, and the charger is asked for no
/// current while a measurement that its current follows from is unknown.
pub proof fn lemma_charging_needs_measurements(
    pilot: Value,
    charge_complete: Value,
    ac_voltage: Value,
    dc_voltage: Value,
    bms_limit: Value,
)
    ensures
        pilot is Unknown || charge_complete is Unknown ==> !evse_wanted(pilot, charge_complete),
        ac_voltage is Unknown || dc_voltage is Unknown || bms_limit is Unknown
            ==> charge_current_request(ac_voltage, dc_voltage, bms_limit) == 0,
        0 <= charge_current_request(ac_voltage, dc_voltage, bms_limit) <= OBC_CURRENT_LIMIT,
{
}

/// What five writes into disjoint runs give back: each run holds its own
/// value, reduced to the run's width.
proof fn lemma_five_fields(p: Seq<u8>, v0: int, v1: int, v2: int, v3: int, v4: int)
    requires
        p.len() == 8,
        0 <= v0,
        0 <= v1,
        0 <= v2,
        0 <= v3,
        0 <= v4,
    ensures
        ({
            let done = be_stored(
                be_stored(
                    be_stored(be_stored(be_stored(p, 0, 8, v0), 16, 12, v1), 28, 12, v2),
                    40,
                    12,
                    v3,
                ),
                52,
                12,
                v4,
            );
            &&& done.len() == 8
            &&& be_unsigned(done, 0, 8) == v0 % 256
            &&& be_unsigned(done, 16, 12) == v1 % 4096
            &&& be_unsigned(done, 28, 12) == v2 % 4096
            &&& be_unsigned(done, 40, 12) == v3 % 4096
            &&& be_unsigned(done, 52, 12) == v4 % 4096
        }),
{
    let p0 = be_stored(p, 0, 8, v0);
    lemma_be_round_trip(p, 0, 8, v0);
    lemma_field_kept(p0, 16, v1, 0, 8);
    let p1 = be_stored(p0, 16, 12, v1);
    lemma_field_kept(p1, 28, v2, 0, 8);
    lemma_field_kept(p1, 28, v2, 16, 12);
    let p2 = be_stored(p1, 28, 12, v2);
    lemma_field_kept(p2, 40, v3, 0, 8);
    lemma_field_kept(p2, 40, v3, 16, 12);
    lemma_field_kept(p2, 40, v3, 28, 12);
    let p3 = be_stored(p2, 40, 12, v3);
    lemma_field_kept(p3, 52, v4, 0, 8);
    lemma_field_kept(p3, 52, v4, 16, 12);
    lemma_field_kept(p3, 52, v4, 28, 12);
    lemma_field_kept(p3, 52, v4, 40, 12);
    assert(two_pow(8) == 256) by {
        reveal_with_fuel(two_pow, 9);
    }
}

/// A 12-bit write into an eight-byte payload holds its value afterwards and
/// keeps what an earlier run held.
proof fn lemma_field_kept(data: Seq<u8>, start: int, value: int, other_start: int, other_len: nat)
    requires
        data.len() == 8,
        0 <= start,
        start + 12 <= 64,
        0 <= other_start,
        other_start + other_len <= start,
        0 <= value,
    ensures
        be_stored(data, start, 12, value).len() == 8,
        be_unsigned(be_stored(data, start, 12, value), start, 12) == value % 4096,
        be_unsigned(be_stored(data, start, 12, value), other_start, other_len) == be_unsigned(
            data,
            other_start,
            other_len,
        ),
{
    lemma_be_round_trip(data, start, 12, value);
    lemma_be_stored_elsewhere(data, start, 12, value, other_start, other_len);
    assert(two_pow(12) == 4096) by {
        reveal_with_fuel(two_pow, 13);
    }
}

/// The payload of the first telemetry frame, written out as its writes.
proof fn lemma_telemetry_inputs_written(
    inputs: Inputs,
    flags: int,
    m1: int,
    m2: int,
    m3: int,
    m4: int,
)
    requires
        flags == input_flags(inputs),
        m1 == sample(inputs.analog.m1, 128, 1),
        m2 == sample(inputs.analog.m2, 128, 1),
        m3 == sample(inputs.analog.m3, 128, 1),
        m4 == sample(inputs.analog.m4, 128, 1),
    ensures
        telemetry_inputs_payload(inputs) == be_stored(
            be_stored(
                be_stored(
                    be_stored(be_stored(blank_payload(), 0, 8, flags), 16, 12, m1),
                    28,
                    12,
                    m2,
                ),
                40,
                12,
                m3,
            ),
            52,
            12,
            m4,
        ),
        blank_payload().len() == 8,
{
}

/// What the first telemetry frame gives back: its first byte holds the
/// input flags, and each 12-bit field from bit 16 on the low 12 bits of its
/// channel's sample.
pub proof fn lemma_telemetry_inputs_fields(inputs: Inputs)
    ensures
        telemetry_inputs_payload(inputs).len() == 8,
        be_unsigned(telemetry_inputs_payload(inputs), 0, 8) == input_flags(inputs),
        be_unsigned(telemetry_inputs_payload(inputs), 16, 12) == sample(inputs.analog.m1, 128, 1)
            % 4096,
        be_unsigned(telemetry_inputs_payload(inputs), 28, 12) == sample(inputs.analog.m2, 128, 1)
            % 4096,
        be_unsigned(telemetry_inputs_payload(inputs), 40, 12) == sample(inputs.analog.m3, 128, 1)
            % 4096,
        be_unsigned(telemetry_inputs_payload(inputs), 52, 12) == sample(inputs.analog.m4, 128, 1)
            % 4096,
{
    let flags = input_flags(inputs);
    let m1 = sample(inputs.analog.m1, 128, 1);
    let m2 = sample(inputs.analog.m2, 128, 1);
    let m3 = sample(inputs.analog.m3, 128, 1);
    let m4 = sample(inputs.analog.m4, 128, 1);
    lemma_input_flags_range(inputs);
    vstd::arithmetic::div_mod::lemma_small_mod(flags as nat, 256);
    lemma_sample_range(inputs.analog.m1, 128, 1);
    lemma_sample_range(inputs.analog.m2, 128, 1);
    lemma_sample_range(inputs.analog.m3, 128, 1);
    lemma_sample_range(inputs.analog.m4, 128, 1);
    lemma_telemetry_inputs_written(inputs, flags, m1, m2, m3, m4);
    lemma_five_fields(blank_payload(), flags, m1, m2, m3, m4);
}

/// A sample fits 16 bits.
pub proof fn lemma_sample_range(v: Value, numer: int, denom: int)
    ensures
        0 <= sample(v, numer, denom) <= 65535,
{
}

/// The input flags fit one byte.
pub proof fn lemma_input_flags_range(inputs: Inputs)
    ensures
        0 <= input_flags(inputs) <= 255,
{
}

} // verus!
