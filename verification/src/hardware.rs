//! The hardware boundary as plain values: what one tick reads, and the
//! commands that it hands back.

use crate::frame::{Frame, FrameView};
use crate::value::Value;
use vstd::prelude::*;

verus! {

/// Analog channels by logical name.
#[derive(Clone, Copy, Debug, PartialEq, Eq, Hash, Structural)]
pub enum AnalogInput {
    AuxVoltage,
    PcbT,
    Current1,
    Current2,
    Current3,
    Current4,
    CurrentL,
    M1,
    M2,
    M3,
    M4,
    M5,
    M6,
}

/// Digital inputs by logical name.
#[derive(Clone, Copy, Debug, PartialEq, Eq, Hash, Structural)]
pub enum DigitalInput {
    /// Over-current on HOUT1..3.
    Group1OC,
    /// Over-current on HOUT4..6.
    Group2OC,
    /// Over-current on HOUT7..10.
    Group3OC,
    /// Over-current on HOUT11, HOUT12 or the wakeup line.
    Group4OC,
    Ignition,
    M7,
    M8,
    M9,
    M10,
    M11,
    M12,
    M13,
}

/// Digital outputs by logical name.
#[derive(Clone, Copy, Debug, PartialEq, Eq, Hash, Structural)]
pub enum DigitalOutput {
    Wakeup,
    HOUT1,
    HOUT2,
    HOUT3,
    HOUT4,
    HOUT5,
    HOUT6,
    HOUT7,
    HOUT8,
    HOUT9,
    HOUT10,
    HOUT11,
    HOUT12,
    LOUT1,
    LOUT2,
    LOUT3,
    LOUT4,
    LOUT5,
    LOUT6,
}

/// Pulse-width outputs by logical name.
#[derive(Clone, Copy, Debug, PartialEq, Eq, Hash, Structural)]
pub enum PwmOutput {
    LCUR1,
    SPWM1,
    SPWM2,
    LPWM2,
    LPWM3,
    M12,
}

/// 12 V supply of the charger and the DC/DC converter.
pub const OBC_DCDC_12V_SUPPLY: DigitalOutput = DigitalOutput::HOUT1;

/// Enable line of the DC/DC converter.
pub const DCDC_ENABLE: DigitalOutput = DigitalOutput::HOUT6;

/// Battery coolant pump.
pub const BATTERY_PUMP: DigitalOutput = DigitalOutput::HOUT4;

/// Brake booster.
pub const BRAKE_BOOSTER: DigitalOutput = DigitalOutput::HOUT10;

/// Solenoid that routes coolant past both heater and chiller.
pub const BATTERY_NEUTRAL_SOLENOID: DigitalOutput = DigitalOutput::LOUT3;

/// Solenoid that routes coolant through the heater.
pub const BATTERY_HEAT_SOLENOID: DigitalOutput = DigitalOutput::LOUT2;

/// Solenoid that routes coolant through the chiller.
pub const BATTERY_COOL_SOLENOID: DigitalOutput = DigitalOutput::LOUT1;

/// Radiator fan.
pub const COOLING_FAN: DigitalOutput = DigitalOutput::LOUT4;

/// Pump of the heating loop.
pub const HEAT_LOOP_PUMP: DigitalOutput = DigitalOutput::LOUT5;

/// Control-pilot duty passed on to the charger.
pub const CP_PWM_TO_OBC: PwmOutput = PwmOutput::SPWM1;

/// Servo pulse to the compressor's motor controller.
pub const AC_COMPRESSOR_SERVO_PWM: PwmOutput = PwmOutput::M12;

/// The digital inputs as read at one tick.
#[derive(Clone, Copy, Debug, PartialEq, Eq, Structural)]
pub struct DigitalInputs {
    pub group1_oc: bool,
    pub group2_oc: bool,
    pub group3_oc: bool,
    pub group4_oc: bool,
    pub ignition: bool,
    pub m7: bool,
    pub m8: bool,
    pub m9: bool,
    pub m10: bool,
    pub m11: bool,
    pub m12: bool,
    pub m13: bool,
}

/// The analog channels as read at one tick, in the channel's unit.
#[derive(Clone, Copy, Debug, PartialEq, Eq, Structural)]
pub struct AnalogInputs {
    pub aux_voltage: Value,
    pub pcb_t: Value,
    pub current1: Value,
    pub current2: Value,
    pub current3: Value,
    pub current4: Value,
    pub current_l: Value,
    pub m1: Value,
    pub m2: Value,
    pub m3: Value,
    pub m4: Value,
    pub m5: Value,
    pub m6: Value,
}

/// Everything that one tick reads from the hardware.
#[derive(Clone, Copy, Debug, PartialEq, Eq, Structural)]
pub struct Inputs {
    /// The monotonic clock in milliseconds.
    pub millis: u64,
    pub digital: DigitalInputs,
    pub analog: AnalogInputs,
    /// Evaporator temperature in degrees Celsius, linearised from the
    /// thermistor on channel `M1`.
    pub evaporator_t: Value,
}

impl Inputs {
    pub open spec fn spec_digital(&self, input: DigitalInput) -> bool {
        match input {
            DigitalInput::Group1OC => self.digital.group1_oc,
            DigitalInput::Group2OC => self.digital.group2_oc,
            DigitalInput::Group3OC => self.digital.group3_oc,
            DigitalInput::Group4OC => self.digital.group4_oc,
            DigitalInput::Ignition => self.digital.ignition,
            DigitalInput::M7 => self.digital.m7,
            DigitalInput::M8 => self.digital.m8,
            DigitalInput::M9 => self.digital.m9,
            DigitalInput::M10 => self.digital.m10,
            DigitalInput::M11 => self.digital.m11,
            DigitalInput::M12 => self.digital.m12,
            DigitalInput::M13 => self.digital.m13,
        }
    }

    /// The state of one digital input.
    #[verifier::when_used_as_spec(spec_digital)]
    pub fn get_digital_input(&self, input: DigitalInput) -> (on: bool)
        ensures
            on == self.spec_digital(input),
    {
        match input {
            DigitalInput::Group1OC => self.digital.group1_oc,
            DigitalInput::Group2OC => self.digital.group2_oc,
            DigitalInput::Group3OC => self.digital.group3_oc,
            DigitalInput::Group4OC => self.digital.group4_oc,
            DigitalInput::Ignition => self.digital.ignition,
            DigitalInput::M7 => self.digital.m7,
            DigitalInput::M8 => self.digital.m8,
            DigitalInput::M9 => self.digital.m9,
            DigitalInput::M10 => self.digital.m10,
            DigitalInput::M11 => self.digital.m11,
            DigitalInput::M12 => self.digital.m12,
            DigitalInput::M13 => self.digital.m13,
        }
    }

    pub open spec fn spec_analog(&self, input: AnalogInput) -> Value {
        match input {
            AnalogInput::AuxVoltage => self.analog.aux_voltage,
            AnalogInput::PcbT => self.analog.pcb_t,
            AnalogInput::Current1 => self.analog.current1,
            AnalogInput::Current2 => self.analog.current2,
            AnalogInput::Current3 => self.analog.current3,
            AnalogInput::Current4 => self.analog.current4,
            AnalogInput::CurrentL => self.analog.current_l,
            AnalogInput::M1 => self.analog.m1,
            AnalogInput::M2 => self.analog.m2,
            AnalogInput::M3 => self.analog.m3,
            AnalogInput::M4 => self.analog.m4,
            AnalogInput::M5 => self.analog.m5,
            AnalogInput::M6 => self.analog.m6,
        }
    }

    /// The reading of one analog channel.
    #[verifier::when_used_as_spec(spec_analog)]
    pub fn get_analog_input(&self, input: AnalogInput) -> (reading: Value)
        ensures
            reading == self.spec_analog(input),
    {
        match input {
            AnalogInput::AuxVoltage => self.analog.aux_voltage,
            AnalogInput::PcbT => self.analog.pcb_t,
            AnalogInput::Current1 => self.analog.current1,
            AnalogInput::Current2 => self.analog.current2,
            AnalogInput::Current3 => self.analog.current3,
            AnalogInput::Current4 => self.analog.current4,
            AnalogInput::CurrentL => self.analog.current_l,
            AnalogInput::M1 => self.analog.m1,
            AnalogInput::M2 => self.analog.m2,
            AnalogInput::M3 => self.analog.m3,
            AnalogInput::M4 => self.analog.m4,
            AnalogInput::M5 => self.analog.m5,
            AnalogInput::M6 => self.analog.m6,
        }
    }
}

/// Something worth a line in the log.
#[derive(Clone, Copy, Debug, PartialEq, Eq, Structural)]
pub enum LogEvent {
    /// A fault input is active.
    InputFault(DigitalInput),
    /// The periodic sign of life.
    Running,
    /// A frame was not sent because it cannot be built.
    InvalidFrame { frame_id: u16 },
    /// A parameter moved by at least its log threshold.
    ParameterChanged { id: usize, value: Value },
}

/// One command to the hardware.
#[derive(Clone, Debug, PartialEq, Eq)]
pub enum Action {
    SetDigitalOutput(DigitalOutput, bool),
    /// Duty in millionths: 0 is off, `MICRO` is fully on.
    SetPwmOutput(PwmOutput, Value),
    SendCan(Frame),
    Log(LogEvent),
    /// A received frame that is to be logged.
    LogCan(Frame),
}

/// A command as plain mathematical values.
pub ghost enum ActionView {
    SetDigitalOutput(DigitalOutput, bool),
    SetPwmOutput(PwmOutput, Value),
    SendCan(FrameView),
    Log(LogEvent),
    LogCan(FrameView),
}

impl View for Action {
    type V = ActionView;

    open spec fn view(&self) -> ActionView {
        match self {
            Action::SetDigitalOutput(output, on) => ActionView::SetDigitalOutput(*output, *on),
            Action::SetPwmOutput(output, duty) => ActionView::SetPwmOutput(*output, *duty),
            Action::SendCan(frame) => ActionView::SendCan(frame@),
            Action::Log(event) => ActionView::Log(*event),
            Action::LogCan(frame) => ActionView::LogCan(frame@),
        }
    }
}

/// The commands of a list, each as plain values.
pub open spec fn action_views(actions: Seq<Action>) -> Seq<ActionView> {
    Seq::new(actions.len(), |i: int| actions[i]@)
}

/// Appends one command to a list.
pub fn push_action(actions: &mut Vec<Action>, action: Action)
    ensures
        action_views(final(actions)@) == action_views(old(actions)@).push(action@),
{
    actions.push(action);
    assert(action_views(actions@) =~= action_views(old(actions)@).push(action@));
}

} // verus!
