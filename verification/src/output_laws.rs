//! Facts about what a tick hands back: every frame that it sends is one
//! that the bus can carry.

use crate::can_tx::{
    setting_payload, telemetry_analog_payload, telemetry_current_payload,
    telemetry_inputs_payload, with_normal_frame, BMS_SETTING_FRAME, CHARGER_COMMAND_FRAME,
    CHARGE_COMPLETE_VOLTAGE_SETTING, CLIMATE_FRAME, HEATER_COMMAND_FRAME, HV_STATUS_FRAME,
    INVERTER_DISABLE_SETTING, INVERTER_SETTING_FRAME, STATUS_FRAME, TELEMETRY_ANALOG_FRAME,
    TELEMETRY_CURRENT_FRAME, TELEMETRY_INPUTS_FRAME,
};
use crate::frame::FrameView;
use crate::hardware::{ActionView, DigitalInput, Inputs, LogEvent};
use crate::parameters::{ParameterId, NUM_PARAMETERS};
use crate::power::with_fault_log;
use crate::registry::elapsed;
use crate::state::MainStateView;
use vstd::prelude::*;

verus! {

/// Every frame among the commands has a valid identifier and at most eight
/// data bytes.
pub open spec fn frames_sendable(actions: Seq<ActionView>) -> bool {
    forall|i: int|
        0 <= i < actions.len() ==> ((#[trigger] actions[i]) matches ActionView::SendCan(frame)
            ==> frame.wf())
}

/// One more command that sends no frame, or a frame that the bus can
/// carry, keeps the commands sendable.
pub proof fn lemma_push_sendable(prior: Seq<ActionView>, action: ActionView)
    requires
        frames_sendable(prior),
        action matches ActionView::SendCan(frame) ==> frame.wf(),
    ensures
        frames_sendable(prior.push(action)),
{
    assert forall|i: int| 0 <= i < prior.push(action).len() implies ((
    #[trigger] prior.push(action)[i]) matches ActionView::SendCan(frame) ==> frame.wf()) by {
        if i < prior.len() {
            assert(prior.push(action)[i] == prior[i]);
        }
    }
}

/// Queuing a frame keeps the commands sendable, whatever identifier and
/// payload were asked for: what the bus cannot carry is logged instead.
pub proof fn lemma_normal_frame_sendable(prior: Seq<ActionView>, frame_id: u16, data: Seq<u8>)
    requires
        frames_sendable(prior),
    ensures
        frames_sendable(with_normal_frame(prior, frame_id, data)),
{
    lemma_push_sendable(prior, with_normal_frame(prior, frame_id, data).last());
}

/// The parameter log sends no frame.
pub proof fn lemma_parameter_log_sendable(s: MainStateView, prior: Seq<ActionView>, upto: nat)
    requires
        frames_sendable(prior),
    ensures
        frames_sendable(s.with_parameter_log(prior, upto)),
    decreases upto,
{
    if upto > 0 {
        let before = s.with_parameter_log(prior, (upto - 1) as nat);
        lemma_parameter_log_sendable(s, prior, (upto - 1) as nat);
        if s.logged_at(upto - 1) {
            lemma_push_sendable(before, s.with_parameter_log(prior, upto).last());
        }
    }
}

/// The frames of the three cadences keep the commands sendable.
pub proof fn lemma_cadence_frames_sendable(s: MainStateView, prior: Seq<ActionView>, inputs: Inputs)
    requires
        frames_sendable(prior),
    ensures
        frames_sendable(s.with_can_500ms(prior, inputs)),
        frames_sendable(s.with_can_200ms(prior, inputs)),
        frames_sendable(s.with_can_30ms(prior)),
{
    lemma_telemetry_frames_sendable(s, prior, inputs);
    lemma_command_frames_sendable(s, prior, inputs);
    if s.with_can_30ms(prior) != prior {
        lemma_normal_frame_sendable(
            prior,
            HV_STATUS_FRAME,
            s.hv_status_payload(),
        );
    }
}

proof fn lemma_telemetry_frames_sendable(s: MainStateView, prior: Seq<ActionView>, inputs: Inputs)
    requires
        frames_sendable(prior),
    ensures
        frames_sendable(s.with_can_500ms(prior, inputs)),
{
    let (old_value, new_value) = s.charge_complete_setting();
    let payload = setting_payload(
        CHARGE_COMPLETE_VOLTAGE_SETTING,
        old_value as u16,
        new_value as u16,
    );
    let a0 = if old_value != new_value {
        with_normal_frame(prior, BMS_SETTING_FRAME, payload)
    } else {
        prior
    };
    lemma_normal_frame_sendable(prior, BMS_SETTING_FRAME, payload);
    let p1 = telemetry_inputs_payload(inputs);
    let a1 = with_normal_frame(a0, TELEMETRY_INPUTS_FRAME, p1);
    lemma_normal_frame_sendable(a0, TELEMETRY_INPUTS_FRAME, p1);
    let p2 = telemetry_analog_payload(
        inputs,
        s.value(ParameterId::AuxVoltage),
    );
    let a2 = with_normal_frame(a1, TELEMETRY_ANALOG_FRAME, p2);
    lemma_normal_frame_sendable(a1, TELEMETRY_ANALOG_FRAME, p2);
    let p3 = telemetry_current_payload(inputs);
    lemma_normal_frame_sendable(a2, TELEMETRY_CURRENT_FRAME, p3);
}

proof fn lemma_command_frames_sendable(s: MainStateView, prior: Seq<ActionView>, inputs: Inputs)
    requires
        frames_sendable(prior),
    ensures
        frames_sendable(s.with_can_200ms(prior, inputs)),
{
    let heater = s.heater_command_payload();
    let a1 = with_normal_frame(prior, HEATER_COMMAND_FRAME, heater);
    lemma_normal_frame_sendable(prior, HEATER_COMMAND_FRAME, heater);
    let charger = s.charger_command_payload();
    let a2 = with_normal_frame(a1, CHARGER_COMMAND_FRAME, charger);
    lemma_normal_frame_sendable(a1, CHARGER_COMMAND_FRAME, charger);
    let a3 = with_normal_frame(a2, STATUS_FRAME, s.status_payload(inputs));
    lemma_normal_frame_sendable(a2, STATUS_FRAME, s.status_payload(inputs));
    let setting = setting_payload(INVERTER_DISABLE_SETTING, 0, 1);
    let a4 = if s.inverter_disable_requested() {
        with_normal_frame(a3, INVERTER_SETTING_FRAME, setting)
    } else {
        a3
    };
    lemma_normal_frame_sendable(a3, INVERTER_SETTING_FRAME, setting);
    lemma_normal_frame_sendable(a4, CLIMATE_FRAME, s.climate_payload());
}

/// The fault log sends no frame.
proof fn lemma_fault_log_sendable(prior: Seq<ActionView>, inputs: Inputs)
    requires
        frames_sendable(prior),
    ensures
        frames_sendable(with_fault_log(prior, inputs)),
{
    let a1 = if inputs.digital.group1_oc {
        prior.push(ActionView::Log(LogEvent::InputFault(DigitalInput::Group1OC)))
    } else {
        prior
    };
    lemma_push_sendable(prior, ActionView::Log(LogEvent::InputFault(DigitalInput::Group1OC)));
    let a2 = if inputs.digital.group2_oc {
        a1.push(ActionView::Log(LogEvent::InputFault(DigitalInput::Group2OC)))
    } else {
        a1
    };
    lemma_push_sendable(a1, ActionView::Log(LogEvent::InputFault(DigitalInput::Group2OC)));
    let a3 = if inputs.digital.group3_oc {
        a2.push(ActionView::Log(LogEvent::InputFault(DigitalInput::Group3OC)))
    } else {
        a2
    };
    lemma_push_sendable(a2, ActionView::Log(LogEvent::InputFault(DigitalInput::Group3OC)));
    lemma_push_sendable(a3, ActionView::Log(LogEvent::InputFault(DigitalInput::Group4OC)));
}

/// The log of received frames sends no frame.
pub proof fn lemma_frame_log_sendable(
    s: MainStateView,
    prior: Seq<ActionView>,
    frames: Seq<FrameView>,
)
    requires
        frames_sendable(prior),
    ensures
        frames_sendable(s.with_frame_log(prior, frames)),
    decreases frames.len(),
{
    if frames.len() > 0 {
        lemma_frame_log_sendable(s, prior, frames.drop_last());
        lemma_push_sendable(
            s.with_frame_log(prior, frames.drop_last()),
            ActionView::LogCan(frames.last()),
        );
    }
}

/// Every frame that an iteration of the control loop sends has a valid
/// identifier and at most eight data bytes, whatever the state, the
/// received frames and the inputs.
pub proof fn lemma_iteration_frames_sendable(
    s: MainStateView,
    frames: Seq<FrameView>,
    inputs: Inputs,
)
    ensures
        frames_sendable(s.iterated(frames, inputs).1),
{
    lemma_frame_log_sendable(s, Seq::empty(), frames);
    lemma_tick_frames_sendable(
        s.after_frames(frames, inputs.millis),
        s.with_frame_log(Seq::empty(), frames),
        inputs,
    );
}

/// What runs every tick sends no frame.
proof fn lemma_always_sendable(s: MainStateView, prior: Seq<ActionView>, inputs: Inputs)
    requires
        frames_sendable(prior),
    ensures
        frames_sendable(s.ticked_always(prior, inputs).1),
{
    let a2 = with_fault_log(prior, inputs);
    lemma_fault_log_sendable(prior, inputs);
    let s3 = MainStateView {
        dt_ms: elapsed(inputs.millis, s.last_millis) as u64,
        ..s
    }.after_update_parameters(inputs).after_read_inputs(inputs).after_manage_power(inputs);
    let thermal = if s3.solenoids_due(inputs) {
        s3.with_thermal_actions(a2, inputs)
    } else {
        a2
    };
    assert(frames_sendable(thermal));
    let a4 = s3.with_output_actions(a2, inputs);
    assert(frames_sendable(a4));
    let s5 = s3.after_update_outputs(inputs).after_update_charging(inputs);
    lemma_push_sendable(a4, s5.with_aircon_actions(a4, inputs).last());
}

/// Every frame that a tick sends has a valid identifier and at most eight
/// data bytes, whatever the state and the inputs.
pub proof fn lemma_tick_frames_sendable(s: MainStateView, prior: Seq<ActionView>, inputs: Inputs)
    requires
        frames_sendable(prior),
    ensures
        frames_sendable(s.ticked(prior, inputs).1),
{
    let (s1, a1) = s.ticked_always(prior, inputs);
    lemma_always_sendable(s, prior, inputs);
    let (s2, a2) = s1.ticked_heater(a1, inputs);
    let (s3, a3) = s2.ticked_telemetry(a2, inputs);
    let t = MainStateView { last_can_500ms: inputs.millis, ..s2 };
    lemma_cadence_frames_sendable(t, a2, inputs);
    lemma_parameter_log_sendable(
        t,
        t.with_can_500ms(a2, inputs),
        NUM_PARAMETERS as nat,
    );
    assert(frames_sendable(a3));
    let (s4, a4) = s3.ticked_commands(a3, inputs);
    lemma_cadence_frames_sendable(
        MainStateView { last_can_200ms: inputs.millis, ..s3 },
        a3,
        inputs,
    );
    assert(frames_sendable(a4));
    let (s5, a5) = s4.ticked_keep_alive(a4, inputs);
    lemma_cadence_frames_sendable(
        MainStateView { last_can_30ms: inputs.millis, ..s4 },
        a4,
        inputs,
    );
    assert(frames_sendable(a5));
    let (s6, a6) = s5.ticked_sign_of_life(a5, inputs);
    lemma_push_sendable(a5, ActionView::Log(LogEvent::Running));
}

} // verus!
