use ipdmrust::can_tx::{send_normal_frame, send_setting_frame};
use ipdmrust::frame::{Frame, FrameId};
use ipdmrust::hardware::{Action, AnalogInputs, DigitalInputs, Inputs, LogEvent};
use ipdmrust::parameters::ParameterId;
use ipdmrust::state::MainState;
use ipdmrust::value::Value;

const U: i64 = 1_000_000;

fn quiet(millis: u64) -> Inputs {
    Inputs {
        millis,
        digital: DigitalInputs {
            group1_oc: false,
            group2_oc: false,
            group3_oc: false,
            group4_oc: false,
            ignition: false,
            m7: false,
            m8: false,
            m9: false,
            m10: false,
            m11: false,
            m12: false,
            m13: false,
        },
        analog: AnalogInputs {
            aux_voltage: Value::Unknown,
            pcb_t: Value::Unknown,
            current1: Value::Unknown,
            current2: Value::Unknown,
            current3: Value::Unknown,
            current4: Value::Unknown,
            current_l: Value::Unknown,
            m1: Value::Unknown,
            m2: Value::Unknown,
            m3: Value::Unknown,
            m4: Value::Unknown,
            m5: Value::Unknown,
            m6: Value::Unknown,
        },
        evaporator_t: Value::Unknown,
    }
}

fn sent(id: u16, data: [u8; 8]) -> Action {
    Action::SendCan(Frame { id: FrameId::Standard(id), data: data.to_vec() })
}

#[test]
fn keep_alive_is_sent_while_the_contactor_is_closed() {
    let mut state = MainState::new();
    let mut actions = Vec::new();
    state.send_can_30ms(&mut actions);
    assert!(actions.is_empty());
    state.set_value(ParameterId::MainContactor, Value::Known(U), 0);
    state.send_can_30ms(&mut actions);
    assert_eq!(actions, vec![sent(0x285, [0x00, 0x00, 0x14, 0x21, 0x90, 0xFE, 0x0C, 0x10])]);
    actions.clear();
    state.set_value(ParameterId::ActivateObc, Value::Known(U), 0);
    state.send_can_30ms(&mut actions);
    assert_eq!(actions, vec![sent(0x285, [0x00, 0x00, 0xB6, 0x21, 0x90, 0xFE, 0x0C, 0x10])]);
    actions.clear();
    state.set_value(ParameterId::MainContactor, Value::Known(500_000), 0);
    state.send_can_30ms(&mut actions);
    assert!(actions.is_empty());
}

#[test]
fn command_frames_with_nothing_known() {
    let state = MainState::new();
    let mut actions = Vec::new();
    state.send_can_200ms(&quiet(200), &mut actions);
    assert_eq!(
        actions,
        vec![
            sent(0x188, [0x03, 0x50, 0x00, 0x4D, 0, 0, 0, 0]),
            sent(0x286, [0x0B, 0xCC, 0x00, 0, 0, 0, 0, 0]),
            sent(0x200, [0x80, 0, 0, 0, 0, 0, 0, 0]),
            sent(0x208, [0, 0, 0, 0, 0, 0, 0, 0]),
        ]
    );
}

#[test]
fn command_frames_carry_requests_and_measurements() {
    let mut state = MainState::new();
    let known = |state: &mut MainState, id, micro| state.set_value(id, Value::Known(micro), 0);
    known(&mut state, ParameterId::ReqHeaterPowerPercent, 100 * U);
    known(&mut state, ParameterId::MainContactor, U);
    known(&mut state, ParameterId::ActivateEvse, U);
    known(&mut state, ParameterId::ActivateObc, U);
    known(&mut state, ParameterId::AcVoltage, 230 * U);
    known(&mut state, ParameterId::ObcDcv, 302 * U);
    known(&mut state, ParameterId::ObcDcc, 7_500_000);
    known(&mut state, ParameterId::BmsMaxChargeCurrent, 60 * U);
    known(&mut state, ParameterId::ReqWakeupAndContactor, U);
    known(&mut state, ParameterId::FoccciPlugPresent, U);
    known(&mut state, ParameterId::PcbT, -5_500_000);
    known(&mut state, ParameterId::EvaporatorT, 12_900_000);
    known(&mut state, ParameterId::AcCompressorPercent, 100 * U);
    let mut inputs = quiet(200);
    inputs.digital.ignition = true;
    inputs.digital.group1_oc = true;
    inputs.digital.group3_oc = true;
    let mut actions = Vec::new();
    state.send_can_200ms(&inputs, &mut actions);
    // 230 V / 302 V * 10 A = 7.61 A, sent in tenths
    assert_eq!(
        actions,
        vec![
            sent(0x188, [0x03, 0x50, 0xA2, 0x4D, 0, 0, 0, 0]),
            sent(0x286, [0x0B, 0xCC, 76, 0, 0, 0, 0, 0]),
            sent(0x200, [0xC9, 0x0B, 0xCC, 0x00, 0x4B, 0xFB, 0x02, 0x05]),
            sent(0x320, [0x01, 0x00, 0x00, 0x00, 0x01, 0, 0, 0]),
            sent(0x208, [0x00, 12, 100, 0, 0, 0, 0, 0]),
        ]
    );
}

#[test]
fn heater_command_is_quantized() {
    let command = |percent: i64| {
        let mut state = MainState::new();
        state.set_value(ParameterId::ReqHeaterPowerPercent, Value::Known(percent), 0);
        let mut actions = Vec::new();
        state.send_can_200ms(&quiet(200), &mut actions);
        match &actions[0] {
            Action::SendCan(f) => f.data[2],
            other => panic!("{:?}", other),
        }
    };
    assert_eq!(command(0), 0x00);
    assert_eq!(command(30 * U), 0x00);
    assert_eq!(command(30 * U + 1), 0x32);
    assert_eq!(command(50 * U), 0x32);
    assert_eq!(command(70 * U), 0x32);
    assert_eq!(command(70 * U + 1), 0xA2);
    assert_eq!(command(100 * U), 0xA2);
}

#[test]
fn charger_current_command_needs_contactor_and_equipment() {
    let command = |contactor: bool, evse: bool, bms: Option<i64>| {
        let mut state = MainState::new();
        state.set_value(ParameterId::MainContactor, Value::from_flag(contactor), 0);
        state.set_value(ParameterId::ActivateEvse, Value::from_flag(evse), 0);
        state.set_value(ParameterId::AcVoltage, Value::Known(240 * U), 0);
        state.set_value(ParameterId::ObcDcv, Value::Known(120 * U), 0);
        if let Some(limit) = bms {
            state.set_value(ParameterId::BmsMaxChargeCurrent, Value::Known(limit), 0);
        }
        let mut actions = Vec::new();
        state.send_can_200ms(&quiet(200), &mut actions);
        match &actions[1] {
            Action::SendCan(f) => (f.id, f.data[2]),
            other => panic!("{:?}", other),
        }
    };
    let id = FrameId::Standard(0x286);
    assert_eq!(command(true, true, Some(60 * U)), (id, 120));
    assert_eq!(command(true, true, Some(3_990_000)), (id, 39));
    assert_eq!(command(true, true, None), (id, 0));
    assert_eq!(command(false, true, Some(60 * U)), (id, 0));
    assert_eq!(command(true, false, Some(60 * U)), (id, 0));
}

#[test]
fn setting_frame_is_sent_only_on_a_difference() {
    let frames = |known: Option<i64>, requested: Option<i64>| {
        let mut state = MainState::new();
        if let Some(k) = known {
            state.set_value(ParameterId::BmsChargeCompleteVoltageSetting, Value::Known(k * U), 0);
        }
        if let Some(r) = requested {
            state.set_value(
                ParameterId::ChargeCompleteVoltageSettingRequested,
                Value::Known(r * U),
                0,
            );
        }
        let mut actions = Vec::new();
        state.send_can_500ms(&quiet(500), &mut actions);
        actions
    };
    let all = frames(None, None);
    assert_eq!(all.len(), 4);
    assert_eq!(all[0], sent(0x120, [0x00, 0x00, 0x00, 0x10, 0x18, 0, 0, 0]));
    assert_eq!(frames(Some(4120), None).len(), 3);
    assert_eq!(frames(Some(4100), Some(4100)).len(), 3);
    assert_eq!(
        frames(Some(4120), Some(4100))[0],
        sent(0x120, [0x00, 0x10, 0x18, 0x10, 0x04, 0, 0, 0])
    );
    assert_eq!(
        frames(Some(70_000), Some(-5))[0],
        sent(0x120, [0x00, 0xFF, 0xFF, 0x00, 0x00, 0, 0, 0])
    );
}

#[test]
fn telemetry_frames_pack_flags_and_samples() {
    let mut state = MainState::new();
    state.set_value(ParameterId::BmsChargeCompleteVoltageSetting, Value::Known(4120 * U), 0);
    state.set_value(ParameterId::AuxVoltage, Value::Known(13_500_000), 0);
    let mut inputs = quiet(500);
    inputs.digital.ignition = true;
    inputs.digital.m8 = true;
    inputs.analog.m1 = Value::Known(1_500_000);
    inputs.analog.m2 = Value::Known(2 * U);
    inputs.analog.m3 = Value::Known(0);
    inputs.analog.m4 = Value::Known(31_990_000);
    inputs.analog.m5 = Value::Known(U);
    inputs.analog.m6 = Value::Known(500_000);
    inputs.analog.current1 = Value::Known(U);
    inputs.analog.current2 = Value::Known(500_000);
    inputs.analog.current3 = Value::Unknown;
    inputs.analog.current4 = Value::Known(2 * U);
    inputs.analog.current_l = Value::Known(3 * U);
    let mut actions = Vec::new();
    state.send_can_500ms(&inputs, &mut actions);
    assert_eq!(
        actions,
        vec![
            sent(0x204, [0x05, 0x00, 0x0C, 0x01, 0x00, 0x00, 0x0F, 0xFE]),
            sent(0x205, [0x08, 0x00, 0x40, 0x00, 0x00, 0x00, 0x06, 0xC0]),
            sent(0x206, [0x10, 0x00, 0x80, 0x00, 0x02, 0x00, 0x10, 0x00]),
        ]
    );
}

#[test]
fn telemetry_samples_are_cut_to_twelve_bits_and_never_negative() {
    let mut state = MainState::new();
    state.set_value(ParameterId::BmsChargeCompleteVoltageSetting, Value::Known(4120 * U), 0);
    let mut inputs = quiet(500);
    inputs.digital.m7 = true;
    inputs.digital.m9 = true;
    inputs.digital.m10 = true;
    inputs.digital.m11 = true;
    inputs.digital.m12 = true;
    inputs.digital.m13 = true;
    inputs.analog.m1 = Value::Known(40 * U);
    inputs.analog.m2 = Value::Known(-3 * U);
    inputs.analog.m3 = Value::Known(7_812);
    inputs.analog.m4 = Value::Known(7_813);
    inputs.analog.current_l = Value::Known(11_718);
    inputs.analog.current1 = Value::Known(1_000 * U);
    let mut actions = Vec::new();
    state.send_can_500ms(&inputs, &mut actions);
    // 40 V is 5120 = 0x1400 steps, of which the low 12 bits are sent; the
    // current of 1000 units saturates at 65535 = 0xFFFF steps
    assert_eq!(actions[0], sent(0x204, [0xFA, 0x00, 0x40, 0x00, 0x00, 0x00, 0x00, 0x01]));
    assert_eq!(actions[2], sent(0x206, [0xFF, 0xF0, 0x00, 0x00, 0x00, 0x00, 0x00, 0x00]));
    inputs.analog.current_l = Value::Known(11_719);
    actions.clear();
    state.send_can_500ms(&inputs, &mut actions);
    assert_eq!(actions[2], sent(0x206, [0xFF, 0xF0, 0x00, 0x00, 0x00, 0x00, 0x00, 0x10]));
}

#[test]
fn oversized_payload_is_logged_and_not_sent() {
    let mut actions = Vec::new();
    send_normal_frame(0x123, &[0; 9], &mut actions);
    assert_eq!(actions, vec![Action::Log(LogEvent::InvalidFrame { frame_id: 0x123 })]);
    send_normal_frame(0x123, &[1, 2, 3], &mut actions);
    assert_eq!(
        actions[1],
        Action::SendCan(Frame { id: FrameId::Standard(0x123), data: vec![1, 2, 3] })
    );
    send_normal_frame(0x7FF, &[], &mut actions);
    assert_eq!(
        actions[2],
        Action::SendCan(Frame { id: FrameId::Standard(0x7FF), data: vec![] })
    );
    send_normal_frame(0x800, &[1], &mut actions);
    assert_eq!(actions[3], Action::Log(LogEvent::InvalidFrame { frame_id: 0x800 }));
    assert_eq!(actions.len(), 4);
}

#[test]
fn setting_frame_layout() {
    let mut actions = Vec::new();
    send_setting_frame(0x320, 7, 0x1234, 0xABCD, &mut actions);
    assert_eq!(actions, vec![sent(0x320, [7, 0x12, 0x34, 0xAB, 0xCD, 0, 0, 0])]);
}
