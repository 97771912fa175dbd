//! The frames that the controller sends, by cadence.

use crate::bits::{be_stored, write_be_unsigned};
use crate::frame::{Frame, FrameId, FrameView, MAX_FRAME_BYTES, MAX_STANDARD_ID};
use crate::hardware::{
    action_views, push_action, Action, ActionView, AnalogInput, DigitalInput, Inputs, LogEvent,
};
use crate::parameters::ParameterId;
use crate::power::ON;
use crate::state::{MainState, MainStateView};
use crate::value::{clamped, quotient, quotient_of, truncated, Value};
use vstd::prelude::*;

verus! {

/// Setting frame to the battery manager.
pub const BMS_SETTING_FRAME: u16 = 0x120;

/// The battery manager's setting for the charge completion voltage.
pub const CHARGE_COMPLETE_VOLTAGE_SETTING: u8 = 0;

/// Charge completion voltage in millivolts while none is requested.
pub const DEFAULT_CHARGE_COMPLETE_MV: u16 = 4120;

/// Telemetry: digital inputs and analog channels M1 to M4.
pub const TELEMETRY_INPUTS_FRAME: u16 = 0x204;

/// Telemetry: analog channels M5, M6 and the auxiliary voltage.
pub const TELEMETRY_ANALOG_FRAME: u16 = 0x205;

/// Telemetry: the current sensors.
pub const TELEMETRY_CURRENT_FRAME: u16 = 0x206;

/// Command frame to the cabin heater.
pub const HEATER_COMMAND_FRAME: u16 = 0x188;

/// Command frame to the onboard charger.
pub const CHARGER_COMMAND_FRAME: u16 = 0x286;

/// Status frame for legacy consumers.
pub const STATUS_FRAME: u16 = 0x200;

/// Setting frame to the inverter controller.
pub const INVERTER_SETTING_FRAME: u16 = 0x320;

/// The inverter controller's setting that disables the inverter.
pub const INVERTER_DISABLE_SETTING: u8 = 1;

/// Status frame with the climate values.
pub const CLIMATE_FRAME: u16 = 0x208;

/// Keep-alive frame for the heater and the charger.
pub const HV_STATUS_FRAME: u16 = 0x285;

/// Heater command above this requested power: high.
pub const HEATER_HIGH_ABOVE: i64 = 70_000_000;

/// Heater command above this requested power: low.
pub const HEATER_LOW_ABOVE: i64 = 30_000_000;

pub const HEATER_HIGH_COMMAND: u8 = 0xA2;

pub const HEATER_LOW_COMMAND: u8 = 0x32;

/// The charger's voltage setpoint in tenths of a volt.
pub const CHARGE_VOLTAGE_SETPOINT: u16 = 3020;

/// The user's limit for the current on the AC side, in millionths of an
/// ampere.
pub const USER_AC_CURRENT: i64 = 10_000_000;

/// The charger's own limit for the DC current, in millionths of an ampere.
pub const OBC_CURRENT_LIMIT: i64 = 12_000_000;

/// A standard data frame, or the log line that takes its place when the
/// payload is longer than a frame's or the identifier wider than 11 bits,
/// appended to `prior`.
pub open spec fn with_normal_frame(
    prior: Seq<ActionView>,
    frame_id: u16,
    data: Seq<u8>,
) -> Seq<ActionView> {
    if frame_id <= MAX_STANDARD_ID && data.len() <= MAX_FRAME_BYTES {
        prior.push(ActionView::SendCan(FrameView { id: FrameId::Standard(frame_id), data }))
    } else {
        prior.push(ActionView::Log(LogEvent::InvalidFrame { frame_id }))
    }
}

/// The payload of a setting frame: the setting's number, then its last
/// known and its new value, each as two bytes with the high byte first.
pub open spec fn setting_payload(setting_id: u8, old_value: u16, new_value: u16) -> Seq<u8> {
    seq![
        setting_id,
        (old_value / 256) as u8,
        (old_value % 256) as u8,
        (new_value / 256) as u8,
        (new_value % 256) as u8,
        0u8,
        0u8,
        0u8,
    ]
}

/// Eight zero bytes.
pub open spec fn blank_payload() -> Seq<u8> {
    seq![0u8, 0u8, 0u8, 0u8, 0u8, 0u8, 0u8, 0u8]
}

/// A measurement multiplied by `numer / denom` as an unsigned 16-bit count:
/// cut toward zero and limited to what 16 bits hold; zero where unknown.
pub open spec fn sample(v: Value, numer: int, denom: int) -> int {
    clamped(truncated(v, numer, denom), 0, 65535)
}

/// A measurement as a byte holding a two's-complement number: cut toward
/// zero and limited to -128..127; zero where unknown.
pub open spec fn signed_byte(v: Value) -> int {
    let whole = clamped(truncated(v, 1, 1), -128, 127);
    if whole < 0 {
        whole + 256
    } else {
        whole
    }
}

/// One where the flag is set, else zero.
pub open spec fn bit(on: bool) -> int {
    if on {
        1
    } else {
        0
    }
}

/// The digital inputs packed into one byte, ignition in bit 0, M7 to M13
/// in bits 1 to 7.
pub open spec fn input_flags(inputs: Inputs) -> int {
    bit(inputs.digital.ignition) + 2 * bit(inputs.digital.m7) + 4 * bit(inputs.digital.m8) + 8
        * bit(inputs.digital.m9) + 16 * bit(inputs.digital.m10) + 32 * bit(inputs.digital.m11)
        + 64 * bit(inputs.digital.m12) + 128 * bit(inputs.digital.m13)
}

/// The fault inputs packed into one byte, group 1 in bit 0 to group 4 in
/// bit 3.
pub open spec fn fault_flags(inputs: Inputs) -> int {
    bit(inputs.digital.group1_oc) + 2 * bit(inputs.digital.group2_oc) + 4 * bit(
        inputs.digital.group3_oc,
    ) + 8 * bit(inputs.digital.group4_oc)
}

/// Payload of the first telemetry frame: the input flags in the first
/// byte, then from bit 16 on the channels M1 to M4 in 1/128 volt, 12 bits
/// each, big-endian.
pub open spec fn telemetry_inputs_payload(inputs: Inputs) -> Seq<u8> {
    let p0 = be_stored(blank_payload(), 0, 8, input_flags(inputs));
    let p1 = be_stored(p0, 16, 12, sample(inputs.analog.m1, 128, 1));
    let p2 = be_stored(p1, 28, 12, sample(inputs.analog.m2, 128, 1));
    let p3 = be_stored(p2, 40, 12, sample(inputs.analog.m3, 128, 1));
    be_stored(p3, 52, 12, sample(inputs.analog.m4, 128, 1))
}

/// Payload of the second telemetry frame: the channels M5 and M6 from bit
/// 0 on and the auxiliary voltage from bit 52 on, in 1/128 volt, 12 bits
/// each, big-endian.
pub open spec fn telemetry_analog_payload(inputs: Inputs, aux_voltage: Value) -> Seq<u8> {
    let p0 = be_stored(blank_payload(), 0, 12, sample(inputs.analog.m5, 128, 1));
    let p1 = be_stored(p0, 12, 12, sample(inputs.analog.m6, 128, 1));
    be_stored(p1, 52, 12, sample(aux_voltage, 128, 1))
}

/// Payload of the third telemetry frame: the four current sensors in 1/256
/// and the large one in 3/256 of their unit, 12 bits each from bit 0 on,
/// big-endian.
pub open spec fn telemetry_current_payload(inputs: Inputs) -> Seq<u8> {
    let p0 = be_stored(blank_payload(), 0, 12, sample(inputs.analog.current1, 256, 1));
    let p1 = be_stored(p0, 12, 12, sample(inputs.analog.current2, 256, 1));
    let p2 = be_stored(p1, 24, 12, sample(inputs.analog.current3, 256, 1));
    let p3 = be_stored(p2, 36, 12, sample(inputs.analog.current4, 256, 1));
    be_stored(p3, 48, 12, sample(inputs.analog.current_l, 256, 3))
}

/// The heater's command byte for a requested power.
pub open spec fn heater_command(requested: Value) -> u8 {
    if requested.above(HEATER_HIGH_ABOVE) {
        HEATER_HIGH_COMMAND
    } else if requested.above(HEATER_LOW_ABOVE) {
        HEATER_LOW_COMMAND
    } else {
        0
    }
}

/// The DC current asked of the charger in millionths of an ampere: the
/// user's AC limit carried over to the DC side by the ratio of the two
/// voltages, at most the charger's own limit and the battery's charge
/// current limit, at least zero. Nothing is asked for while one of the three
/// measurements is unknown or the DC voltage reads zero.
pub open spec fn charge_current_request(
    ac_voltage: Value,
    dc_voltage: Value,
    bms_limit: Value,
) -> int {
    match (ac_voltage, dc_voltage, bms_limit) {
        (Value::Known(ac), Value::Known(dc), Value::Known(limit)) => if dc == 0 {
            0
        } else {
            let wanted = quotient(ac * USER_AC_CURRENT, dc as int);
            let by_charger = if wanted < OBC_CURRENT_LIMIT {
                wanted
            } else {
                OBC_CURRENT_LIMIT as int
            };
            let by_battery = if by_charger < limit {
                by_charger
            } else {
                limit as int
            };
            if by_battery > 0 {
                by_battery
            } else {
                0
            }
        },
        _ => 0,
    }
}

impl MainStateView {
    /// The last known and the requested charge completion voltage in
    /// millivolts.
    pub open spec fn charge_complete_setting(self) -> (int, int) {
        (
            sample(self.value(ParameterId::BmsChargeCompleteVoltageSetting), 1, 1),
            match self.value(ParameterId::ChargeCompleteVoltageSettingRequested) {
                Value::Unknown => DEFAULT_CHARGE_COMPLETE_MV as int,
                requested => sample(requested, 1, 1),
            },
        )
    }

    /// The frames of the 500 ms cadence, appended to `prior`: the setting
    /// frame for the charge completion voltage where the battery manager's
    /// last known setting differs from the requested one, then the three
    /// telemetry frames.
    pub open spec fn with_can_500ms(self, prior: Seq<ActionView>, inputs: Inputs) -> Seq<
        ActionView,
    > {
        let (old_value, new_value) = self.charge_complete_setting();
        let a0 = if old_value != new_value {
            with_normal_frame(
                prior,
                BMS_SETTING_FRAME,
                setting_payload(
                    CHARGE_COMPLETE_VOLTAGE_SETTING,
                    old_value as u16,
                    new_value as u16,
                ),
            )
        } else {
            prior
        };
        let a1 = with_normal_frame(a0, TELEMETRY_INPUTS_FRAME, telemetry_inputs_payload(inputs));
        let a2 = with_normal_frame(
            a1,
            TELEMETRY_ANALOG_FRAME,
            telemetry_analog_payload(inputs, self.value(ParameterId::AuxVoltage)),
        );
        with_normal_frame(a2, TELEMETRY_CURRENT_FRAME, telemetry_current_payload(inputs))
    }

    /// The charger's current command in tenths of an ampere: zero unless
    /// the main contactor is closed and charging equipment is active.
    pub open spec fn charger_current_command(self) -> int {
        if self.value(ParameterId::MainContactor).above(ON) && self.value(
            ParameterId::ActivateEvse,
        ).above(ON) {
            charge_current_request(
                self.value(ParameterId::AcVoltage),
                self.value(ParameterId::ObcDcv),
                self.value(ParameterId::BmsMaxChargeCurrent),
            ) / 100_000
        } else {
            0
        }
    }

    /// Whether legacy consumers are told to disable the inverter: a charge
    /// plug is present.
    pub open spec fn inverter_disable_requested(self) -> bool {
        self.value(ParameterId::FoccciPlugPresent).at_least(ON)
    }

    /// Payload of the heater's command frame.
    pub open spec fn heater_command_payload(self) -> Seq<u8> {
        seq![
            0x03u8,
            0x50u8,
            heater_command(self.value(ParameterId::ReqHeaterPowerPercent)),
            0x4Du8,
            0u8,
            0u8,
            0u8,
            0u8,
        ]
    }

    /// Payload of the charger's command frame: the voltage setpoint in
    /// tenths of a volt, high byte first, then the current command.
    pub open spec fn charger_command_payload(self) -> Seq<u8> {
        seq![
            (CHARGE_VOLTAGE_SETPOINT / 256) as u8,
            (CHARGE_VOLTAGE_SETPOINT % 256) as u8,
            self.charger_current_command() as u8,
            0u8,
            0u8,
            0u8,
            0u8,
            0u8,
        ]
    }

    /// Payload of the legacy status frame: the request bits (contactor in
    /// bit 0, inverter disable in bit 3, ignition in bit 6, bit 7 always
    /// set), the DC voltage and the charger's DC current in tenths, each
    /// high byte first, the board temperature, the charger's state for the
    /// charging controller, and the fault flags.
    pub open spec fn status_payload(self, inputs: Inputs) -> Seq<u8> {
        let dc_voltage = sample(self.value(ParameterId::ObcDcv), 10, 1);
        let dc_current = sample(self.value(ParameterId::ObcDcc), 10, 1);
        seq![
            (bit(self.value(ParameterId::ReqWakeupAndContactor).above(ON)) + 8 * bit(
                self.inverter_disable_requested(),
            ) + 64 * bit(inputs.digital.ignition) + 128) as u8,
            (dc_voltage / 256) as u8,
            (dc_voltage % 256) as u8,
            (dc_current / 256) as u8,
            (dc_current % 256) as u8,
            signed_byte(self.value(ParameterId::PcbT)) as u8,
            (2 * bit(self.value(ParameterId::ActivateObc).above(ON))) as u8,
            fault_flags(inputs) as u8,
        ]
    }

    /// Payload of the climate frame: the evaporator temperature and the
    /// compressor power in whole units.
    pub open spec fn climate_payload(self) -> Seq<u8> {
        seq![
            0u8,
            signed_byte(self.value(ParameterId::EvaporatorT)) as u8,
            clamped(truncated(self.value(ParameterId::AcCompressorPercent), 1, 1), 0, 255) as u8,
            0u8,
            0u8,
            0u8,
            0u8,
            0u8,
        ]
    }

    /// The frames of the 200 ms cadence, appended to `prior`: heater
    /// command, charger command, legacy status, the inverter's disable
    /// setting where a plug is present, and the climate values.
    pub open spec fn with_can_200ms(self, prior: Seq<ActionView>, inputs: Inputs) -> Seq<
        ActionView,
    > {
        let a1 = with_normal_frame(prior, HEATER_COMMAND_FRAME, self.heater_command_payload());
        let a2 = with_normal_frame(a1, CHARGER_COMMAND_FRAME, self.charger_command_payload());
        let a3 = with_normal_frame(a2, STATUS_FRAME, self.status_payload(inputs));
        let a4 = if self.inverter_disable_requested() {
            with_normal_frame(
                a3,
                INVERTER_SETTING_FRAME,
                setting_payload(INVERTER_DISABLE_SETTING, 0, 1),
            )
        } else {
            a3
        };
        with_normal_frame(a4, CLIMATE_FRAME, self.climate_payload())
    }

    /// Payload of the keep-alive frame.
    pub open spec fn hv_status_payload(self) -> Seq<u8> {
        seq![
            0x00u8,
            0x00u8,
            if self.value(ParameterId::ActivateObc).above(ON) {
                0xB6u8
            } else {
                0x14u8
            },
            0x21u8,
            0x90u8,
            0xFEu8,
            0x0Cu8,
            0x10u8,
        ]
    }

    /// The frame of the 30 ms cadence, appended to `prior`: the keep-alive
    /// for heater and charger while the main contactor is closed.
    pub open spec fn with_can_30ms(self, prior: Seq<ActionView>) -> Seq<ActionView> {
        if self.value(ParameterId::MainContactor).above(ON) {
            with_normal_frame(prior, HV_STATUS_FRAME, self.hv_status_payload())
        } else {
            prior
        }
    }
}

/// Queues a standard data frame; a frame that cannot be built, because its
/// payload is longer than a frame's or its identifier wider than 11 bits,
/// is logged and not sent.
pub fn send_normal_frame(frame_id: u16, data: &[u8], actions: &mut Vec<Action>)
    ensures
        action_views(final(actions)@) == with_normal_frame(
            action_views(old(actions)@),
            frame_id,
            data@,
        ),
{
    match Frame::new_data(frame_id, data) {
        Some(frame) => {
            push_action(actions, Action::SendCan(frame));
        },
        None => {
            push_action(actions, Action::Log(LogEvent::InvalidFrame { frame_id }));
        },
    }
}

/// Eight bytes as a payload.
fn payload_of(b0: u8, b1: u8, b2: u8, b3: u8, b4: u8, b5: u8, b6: u8, b7: u8) -> (payload: Vec<u8>)
    ensures
        payload@ == seq![b0, b1, b2, b3, b4, b5, b6, b7],
{
    let mut payload: Vec<u8> = Vec::new();
    payload.push(b0);
    payload.push(b1);
    payload.push(b2);
    payload.push(b3);
    payload.push(b4);
    payload.push(b5);
    payload.push(b6);
    payload.push(b7);
    assert(payload@ =~= seq![b0, b1, b2, b3, b4, b5, b6, b7]);
    payload
}

/// Queues a setting frame.
pub fn send_setting_frame(
    frame_id: u16,
    setting_id: u8,
    old_value: u16,
    new_value: u16,
    actions: &mut Vec<Action>,
)
    ensures
        action_views(final(actions)@) == with_normal_frame(
            action_views(old(actions)@),
            frame_id,
            setting_payload(setting_id, old_value, new_value),
        ),
{
    let payload = payload_of(
        setting_id,
        (old_value / 256) as u8,
        (old_value % 256) as u8,
        (new_value / 256) as u8,
        (new_value % 256) as u8,
        0,
        0,
        0,
    );
    send_normal_frame(frame_id, payload.as_slice(), actions);
}

/// A measurement as an unsigned 16-bit count of `denom / numer` units.
fn sample_of(v: Value, numer: u32, denom: u32) -> (r: u16)
    requires
        denom > 0,
    ensures
        r == sample(v, numer as int, denom as int),
{
    v.quantize(numer, denom, 0, 65535) as u16
}

/// A measurement as a byte holding a two's-complement number.
fn signed_byte_of(v: Value) -> (r: u8)
    ensures
        r == signed_byte(v),
{
    let whole: i32 = v.quantize(1, 1, -128, 127);
    if whole < 0 {
        (whole + 256) as u8
    } else {
        whole as u8
    }
}

fn bit_of(on: bool) -> (r: u8)
    ensures
        r == bit(on),
{
    if on {
        1
    } else {
        0
    }
}

/// Writes one 12-bit sample into a blank or partly filled payload.
fn put_sample(payload: &mut Vec<u8>, start: u8, len: u8, value: u16)
    requires
        old(payload)@.len() == 8,
        1 <= len <= 16,
        start + len <= 64,
    ensures
        final(payload)@ == be_stored(old(payload)@, start as int, len as nat, value as int),
        final(payload)@.len() == 8,
{
    let _ = write_be_unsigned(payload, start, len, value as u64);
    proof {
        crate::bit_laws::lemma_be_stored_bits(
            old(payload)@,
            start as int,
            len as nat,
            value as int,
            0,
        );
    }
}

/// Computes the DC current asked of the charger.
pub fn compute_charge_current_request(
    ac_voltage: Value,
    dc_voltage: Value,
    bms_limit: Value,
) -> (r: i64)
    ensures
        r == charge_current_request(ac_voltage, dc_voltage, bms_limit),
        0 <= r <= OBC_CURRENT_LIMIT,
{
    match (ac_voltage, dc_voltage, bms_limit) {
        (Value::Known(ac), Value::Known(dc), Value::Known(limit)) => {
            if dc == 0 {
                0
            } else {
                assert(-0x1_0000_0000_0000_0000_0000_0000 < ac * USER_AC_CURRENT
                    < 0x1_0000_0000_0000_0000_0000_0000) by (nonlinear_arith)
                    requires
                        -0x1_0000_0000_0000_0000 < ac < 0x1_0000_0000_0000_0000,
                        USER_AC_CURRENT == 10_000_000,
                ;
                let wanted: i128 = quotient_of(ac as i128 * USER_AC_CURRENT as i128, dc as i128);
                let by_charger: i128 = if wanted < OBC_CURRENT_LIMIT as i128 {
                    wanted
                } else {
                    OBC_CURRENT_LIMIT as i128
                };
                let by_battery: i128 = if by_charger < limit as i128 {
                    by_charger
                } else {
                    limit as i128
                };
                if by_battery > 0 {
                    by_battery as i64
                } else {
                    0
                }
            }
        },
        _ => 0,
    }
}

impl MainState {
    /// Queues the frames of the 500 ms cadence.
    pub fn send_can_500ms(&self, inputs: &Inputs, actions: &mut Vec<Action>)
        requires
            self.wf(),
        ensures
            action_views(final(actions)@) == self@.with_can_500ms(
                action_views(old(actions)@),
                *inputs,
            ),
    {
        let old_value = sample_of(self.value(ParameterId::BmsChargeCompleteVoltageSetting), 1, 1);
        let new_value = match self.value(ParameterId::ChargeCompleteVoltageSettingRequested) {
            Value::Unknown => DEFAULT_CHARGE_COMPLETE_MV,
            requested => sample_of(requested, 1, 1),
        };
        if old_value != new_value {
            send_setting_frame(
                BMS_SETTING_FRAME,
                CHARGE_COMPLETE_VOLTAGE_SETTING,
                old_value,
                new_value,
                actions,
            );
        }
        let flags: u8 = bit_of(inputs.get_digital_input(DigitalInput::Ignition)) + 2 * bit_of(
            inputs.get_digital_input(DigitalInput::M7),
        ) + 4 * bit_of(inputs.get_digital_input(DigitalInput::M8)) + 8 * bit_of(
            inputs.get_digital_input(DigitalInput::M9),
        ) + 16 * bit_of(inputs.get_digital_input(DigitalInput::M10)) + 32 * bit_of(
            inputs.get_digital_input(DigitalInput::M11),
        ) + 64 * bit_of(inputs.get_digital_input(DigitalInput::M12)) + 128 * bit_of(
            inputs.get_digital_input(DigitalInput::M13),
        );
        let mut first = payload_of(0, 0, 0, 0, 0, 0, 0, 0);
        put_sample(&mut first, 0, 8, flags as u16);
        put_sample(&mut first, 16, 12, sample_of(inputs.get_analog_input(AnalogInput::M1), 128, 1));
        put_sample(&mut first, 28, 12, sample_of(inputs.get_analog_input(AnalogInput::M2), 128, 1));
        put_sample(&mut first, 40, 12, sample_of(inputs.get_analog_input(AnalogInput::M3), 128, 1));
        put_sample(&mut first, 52, 12, sample_of(inputs.get_analog_input(AnalogInput::M4), 128, 1));
        send_normal_frame(TELEMETRY_INPUTS_FRAME, first.as_slice(), actions);

        let mut second = payload_of(0, 0, 0, 0, 0, 0, 0, 0);
        put_sample(&mut second, 0, 12, sample_of(inputs.get_analog_input(AnalogInput::M5), 128, 1));
        put_sample(
            &mut second,
            12,
            12,
            sample_of(inputs.get_analog_input(AnalogInput::M6), 128, 1),
        );
        put_sample(&mut second, 52, 12, sample_of(self.value(ParameterId::AuxVoltage), 128, 1));
        send_normal_frame(TELEMETRY_ANALOG_FRAME, second.as_slice(), actions);

        let mut third = payload_of(0, 0, 0, 0, 0, 0, 0, 0);
        put_sample(
            &mut third,
            0,
            12,
            sample_of(inputs.get_analog_input(AnalogInput::Current1), 256, 1),
        );
        put_sample(
            &mut third,
            12,
            12,
            sample_of(inputs.get_analog_input(AnalogInput::Current2), 256, 1),
        );
        put_sample(
            &mut third,
            24,
            12,
            sample_of(inputs.get_analog_input(AnalogInput::Current3), 256, 1),
        );
        put_sample(
            &mut third,
            36,
            12,
            sample_of(inputs.get_analog_input(AnalogInput::Current4), 256, 1),
        );
        put_sample(
            &mut third,
            48,
            12,
            sample_of(inputs.get_analog_input(AnalogInput::CurrentL), 256, 3),
        );
        send_normal_frame(TELEMETRY_CURRENT_FRAME, third.as_slice(), actions);
    }

    /// Queues the frames of the 200 ms cadence.
    pub fn send_can_200ms(&self, inputs: &Inputs, actions: &mut Vec<Action>)
        requires
            self.wf(),
        ensures
            action_views(final(actions)@) == self@.with_can_200ms(
                action_views(old(actions)@),
                *inputs,
            ),
    {
        let requested = self.value(ParameterId::ReqHeaterPowerPercent);
        let command: u8 = if requested.is_above(HEATER_HIGH_ABOVE) {
            HEATER_HIGH_COMMAND
        } else if requested.is_above(HEATER_LOW_ABOVE) {
            HEATER_LOW_COMMAND
        } else {
            0
        };
        let heater = payload_of(0x03, 0x50, command, 0x4D, 0, 0, 0, 0);
        send_normal_frame(HEATER_COMMAND_FRAME, heater.as_slice(), actions);

        let current: u8 = if self.value(ParameterId::MainContactor).is_above(ON) && self.value(
            ParameterId::ActivateEvse,
        ).is_above(ON) {
            (compute_charge_current_request(
                self.value(ParameterId::AcVoltage),
                self.value(ParameterId::ObcDcv),
                self.value(ParameterId::BmsMaxChargeCurrent),
            ) / 100_000) as u8
        } else {
            0
        };
        let charger = payload_of(
            (CHARGE_VOLTAGE_SETPOINT / 256) as u8,
            (CHARGE_VOLTAGE_SETPOINT % 256) as u8,
            current,
            0,
            0,
            0,
            0,
            0,
        );
        send_normal_frame(CHARGER_COMMAND_FRAME, charger.as_slice(), actions);

        let inverter_disable = self.value(ParameterId::FoccciPlugPresent).is_at_least(ON);
        let dc_voltage = sample_of(self.value(ParameterId::ObcDcv), 10, 1);
        let dc_current = sample_of(self.value(ParameterId::ObcDcc), 10, 1);
        let requests: u8 = bit_of(self.value(ParameterId::ReqWakeupAndContactor).is_above(ON)) + 8
            * bit_of(inverter_disable) + 64 * bit_of(
            inputs.get_digital_input(DigitalInput::Ignition),
        ) + 128;
        let faults: u8 = bit_of(inputs.get_digital_input(DigitalInput::Group1OC)) + 2 * bit_of(
            inputs.get_digital_input(DigitalInput::Group2OC),
        ) + 4 * bit_of(inputs.get_digital_input(DigitalInput::Group3OC)) + 8 * bit_of(
            inputs.get_digital_input(DigitalInput::Group4OC),
        );
        let status = payload_of(
            requests,
            (dc_voltage / 256) as u8,
            (dc_voltage % 256) as u8,
            (dc_current / 256) as u8,
            (dc_current % 256) as u8,
            signed_byte_of(self.value(ParameterId::PcbT)),
            2 * bit_of(self.value(ParameterId::ActivateObc).is_above(ON)),
            faults,
        );
        send_normal_frame(STATUS_FRAME, status.as_slice(), actions);
        if inverter_disable {
            send_setting_frame(INVERTER_SETTING_FRAME, INVERTER_DISABLE_SETTING, 0, 1, actions);
        }
        let climate = payload_of(
            0,
            signed_byte_of(self.value(ParameterId::EvaporatorT)),
            self.value(ParameterId::AcCompressorPercent).quantize(1, 1, 0, 255) as u8,
            0,
            0,
            0,
            0,
            0,
        );
        send_normal_frame(CLIMATE_FRAME, climate.as_slice(), actions);
    }

    /// Queues the frame of the 30 ms cadence.
    pub fn send_can_30ms(&self, actions: &mut Vec<Action>)
        requires
            self.wf(),
        ensures
            action_views(final(actions)@) == self@.with_can_30ms(action_views(old(actions)@)),
    {
        if self.value(ParameterId::MainContactor).is_above(ON) {
            let command: u8 = if self.value(ParameterId::ActivateObc).is_above(ON) {
                0xB6
            } else {
                0x14
            };
            let payload = payload_of(0x00, 0x00, command, 0x21, 0x90, 0xFE, 0x0C, 0x10);
            send_normal_frame(HV_STATUS_FRAME, payload.as_slice(), actions);
        }
    }
}

} // verus!
