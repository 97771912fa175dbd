use ipdmrust::frame::{Frame, FrameId};
use ipdmrust::hardware::{
    Action, AnalogInputs, DigitalInput, DigitalInputs, DigitalOutput, Inputs, LogEvent, PwmOutput,
    AnalogInput,
};
use ipdmrust::parameters::{ParameterId, NUM_PARAMETERS};
use ipdmrust::state::MainState;
use ipdmrust::value::Value;

const U: i64 = 1_000_000;

fn quiet(millis: u64) -> Inputs {
    Inputs {
        millis,
        digital: DigitalInputs {
            group1_oc: false,
            group2_oc: false,
            group3_oc: false,
            group4_oc: false,
            ignition: false,
            m7: false,
            m8: false,
            m9: false,
            m10: false,
            m11: false,
            m12: false,
            m13: false,
        },
        analog: AnalogInputs {
            aux_voltage: Value::Known(14 * U),
            pcb_t: Value::Known(25 * U),
            current1: Value::Unknown,
            current2: Value::Unknown,
            current3: Value::Unknown,
            current4: Value::Unknown,
            current_l: Value::Unknown,
            m1: Value::Known(2 * U),
            m2: Value::Unknown,
            m3: Value::Unknown,
            m4: Value::Unknown,
            m5: Value::Unknown,
            m6: Value::Unknown,
        },
        evaporator_t: Value::Known(18 * U),
    }
}

fn frame(id: u16, data: &[u8]) -> Frame {
    Frame::new_data(id, data).unwrap()
}

fn frame_ids(actions: &[Action]) -> Vec<u16> {
    actions
        .iter()
        .filter_map(|a| match a {
            Action::SendCan(Frame { id: FrameId::Standard(id), .. }) => Some(*id),
            _ => None,
        })
        .collect()
}

fn logs(actions: &[Action]) -> Vec<LogEvent> {
    actions
        .iter()
        .filter_map(|a| match a {
            Action::Log(e) => Some(*e),
            _ => None,
        })
        .collect()
}

#[test]
fn new_state_is_blank_and_consistent() {
    let state = MainState::new();
    assert!(state.is_consistent());
    assert_eq!(state.registry.len(), NUM_PARAMETERS);
    assert_eq!(state.last_logged_values, vec![Value::Unknown; NUM_PARAMETERS]);
    assert_eq!(state.update_counter, 0);
    assert!(!state.log_can);
    assert_eq!(state.last_millis, 0);
    assert_eq!(state.watch_filter.as_str(), "");
    for id in [ParameterId::TicksMs, ParameterId::Soc, ParameterId::DcdcCurrent] {
        assert_eq!(state.value(id), Value::Unknown);
    }
    let mut broken = MainState::new();
    broken.last_logged_values.pop();
    assert!(!broken.is_consistent());
    let mut broken = MainState::new();
    broken.registry.params[3].id = 4;
    assert!(!broken.is_consistent());
}

#[test]
fn first_tick_commands_the_outputs_and_nothing_else() {
    let mut state = MainState::new();
    let actions = state.update(&quiet(0));
    assert_eq!(
        actions,
        vec![
            Action::SetDigitalOutput(DigitalOutput::Wakeup, false),
            Action::SetDigitalOutput(DigitalOutput::HOUT1, false),
            Action::SetDigitalOutput(DigitalOutput::HOUT6, false),
            Action::SetDigitalOutput(DigitalOutput::HOUT4, false),
            Action::SetDigitalOutput(DigitalOutput::HOUT10, false),
            Action::SetPwmOutput(PwmOutput::SPWM1, Value::Known(0)),
            Action::SetPwmOutput(PwmOutput::M12, Value::Known(50_000)),
        ]
    );
    assert_eq!(state.update_counter, 1);
    assert_eq!(state.last_millis, 0);
    assert_eq!(state.dt_ms, 0);
    assert_eq!(state.value(ParameterId::TicksMs), Value::Known(0));
    assert_eq!(state.value(ParameterId::AuxVoltage), Value::Known(14 * U));
    assert_eq!(state.value(ParameterId::PcbT), Value::Known(25 * U));
    assert_eq!(state.value(ParameterId::EvaporatorT), Value::Known(18 * U));
    assert_eq!(state.value(ParameterId::ReqWakeupAndContactor), Value::Known(0));
    assert_eq!(state.value(ParameterId::ActivateEvse), Value::Known(0));
    assert_eq!(state.value(ParameterId::AcCompressorPercent), Value::Known(0));
    assert_eq!(state.value(ParameterId::ReqHeaterPowerPercent), Value::Unknown);
    assert!(state.is_consistent());
}

#[test]
fn cadences_run_when_their_time_has_come() {
    let mut state = MainState::new();
    state.update(&quiet(0));
    let actions = state.update(&quiet(29));
    assert!(frame_ids(&actions).is_empty());
    assert_eq!(state.last_can_30ms, 0);
    assert_eq!(state.dt_ms, 29);
    state.update(&quiet(30));
    assert_eq!(state.last_can_30ms, 30);
    assert_eq!(state.last_can_200ms, 0);
    let actions = state.update(&quiet(199));
    assert!(frame_ids(&actions).is_empty());
    let actions = state.update(&quiet(200));
    assert_eq!(frame_ids(&actions), vec![0x188, 0x286, 0x200, 0x208]);
    assert_eq!(state.last_can_200ms, 200);
    let actions = state.update(&quiet(499));
    assert_eq!(frame_ids(&actions), vec![0x188, 0x286, 0x200, 0x208]);
    assert_eq!(state.last_can_200ms, 499);
    let actions = state.update(&quiet(500));
    assert_eq!(frame_ids(&actions), vec![0x120, 0x204, 0x205, 0x206]);
    assert_eq!(state.last_can_500ms, 500);
    assert_eq!(state.last_heater_update_ms, 0);
    assert_eq!(state.value(ParameterId::ReqHeaterPowerPercent), Value::Unknown);
    state.update(&quiet(2000));
    assert_eq!(state.last_heater_update_ms, 2000);
    assert_eq!(state.value(ParameterId::ReqHeaterPowerPercent), Value::Known(0));
    assert_eq!(state.update_counter, 8);
}

#[test]
fn keep_alive_goes_out_while_the_contactor_is_closed() {
    let mut state = MainState::new();
    state.update(&quiet(1000));
    state.on_can(&frame(0x100, &[0x04]), 1000);
    let actions = state.update(&quiet(1030));
    assert_eq!(frame_ids(&actions), vec![0x285]);
    assert_eq!(
        actions.iter().filter(|a| matches!(a, Action::SetDigitalOutput(_, true))).count(),
        4
    );
    let actions = state.update(&quiet(1059));
    assert!(frame_ids(&actions).is_empty());
    let actions = state.update(&quiet(1060));
    assert_eq!(frame_ids(&actions), vec![0x285]);
}

#[test]
fn sign_of_life_every_fifteen_seconds() {
    let mut state = MainState::new();
    assert!(!logs(&state.update(&quiet(14_999))).contains(&LogEvent::Running));
    let actions = state.update(&quiet(15_000));
    assert_eq!(actions.last(), Some(&Action::Log(LogEvent::Running)));
    assert_eq!(state.last_test_print_ms, 15_000);
    assert!(!logs(&state.update(&quiet(29_999))).contains(&LogEvent::Running));
    assert!(logs(&state.update(&quiet(30_000))).contains(&LogEvent::Running));
}

#[test]
fn parameters_are_logged_when_they_moved_enough() {
    let mut state = MainState::new();
    let aux = ParameterId::AuxVoltage.index();
    let evaporator = ParameterId::EvaporatorT.index();
    let compressor = ParameterId::AcCompressorPercent.index();
    let first = logs(&state.update(&quiet(500)));
    assert_eq!(
        first,
        vec![
            LogEvent::ParameterChanged { id: aux, value: Value::Known(14 * U) },
            LogEvent::ParameterChanged { id: evaporator, value: Value::Known(18 * U) },
            LogEvent::ParameterChanged { id: compressor, value: Value::Known(0) },
        ]
    );
    assert_eq!(state.last_logged_values[aux], Value::Known(14 * U));
    let mut inputs = quiet(1000);
    inputs.analog.aux_voltage = Value::Known(14_099_999);
    inputs.evaporator_t = Value::Known(13 * U);
    assert_eq!(
        logs(&state.update(&inputs)),
        vec![LogEvent::ParameterChanged { id: evaporator, value: Value::Known(13 * U) }]
    );
    let mut inputs = quiet(1500);
    inputs.analog.aux_voltage = Value::Known(13_900_000);
    inputs.evaporator_t = Value::Unknown;
    assert_eq!(
        logs(&state.update(&inputs)),
        vec![
            LogEvent::ParameterChanged { id: aux, value: Value::Known(13_900_000) },
            LogEvent::ParameterChanged { id: evaporator, value: Value::Unknown },
        ]
    );
    assert_eq!(state.last_logged_values[evaporator], Value::Unknown);
    let mut inputs = quiet(2000);
    inputs.analog.aux_voltage = Value::Known(13_900_000);
    inputs.evaporator_t = Value::Unknown;
    assert!(logs(&state.update(&inputs)).is_empty());
}

#[test]
fn watch_filter_limits_the_parameter_log() {
    let mut state = MainState::new();
    state.on_console_command("watch EVAP");
    let evaporator = ParameterId::EvaporatorT.index();
    assert_eq!(
        logs(&state.update(&quiet(500))),
        vec![LogEvent::ParameterChanged { id: evaporator, value: Value::Known(18 * U) }]
    );
    assert_eq!(state.last_logged_values[ParameterId::AuxVoltage.index()], Value::Unknown);
    state.on_console_command("clear");
    let after = logs(&state.update(&quiet(1000)));
    assert_eq!(after.len(), 2);
    assert!(after
        .contains(&LogEvent::ParameterChanged { id: 1, value: Value::Known(14 * U) }));
}

#[test]
fn received_frame_is_stamped_with_the_tick_time() {
    let mut state = MainState::new();
    let frames = vec![frame(0x101, &[0, 0, 0, 0xE5, 0, 0, 0, 0])];
    let actions = state.iterate(&frames, &quiet(40));
    assert!(!actions.iter().any(|a| matches!(a, Action::LogCan(_))));
    let p = state.registry.params[ParameterId::BatteryTMin.index()];
    assert_eq!(p.value, Value::Known(-27_000_000));
    assert_eq!(p.update_timestamp, 40);
    state.iterate(&Vec::new(), &quiet(60));
    let p = state.registry.params[ParameterId::BatteryTMin.index()];
    assert_eq!((p.value, p.update_timestamp), (Value::Known(-27 * U), 40));
}

#[test]
fn frame_taken_in_after_a_long_pause_is_fresh() {
    let mut state = MainState::new();
    state.iterate(&vec![frame(0x404, &[0, 21])], &quiet(1_000));
    state.iterate(&Vec::new(), &quiet(100_000));
    assert_eq!(state.value(ParameterId::CabinT), Value::Unknown);
    state.iterate(&vec![frame(0x404, &[0, 22])], &quiet(200_000));
    let p = state.registry.params[ParameterId::CabinT.index()];
    assert_eq!((p.value, p.update_timestamp), (Value::Known(22 * U), 200_000));
}

#[test]
fn frame_taken_in_by_hand_is_stamped_with_the_given_clock() {
    let mut state = MainState::new();
    state.update(&quiet(123_456));
    let logged = state.on_can(&frame(0x101, &[0, 0, 0, 0xE5, 0, 0, 0, 0]), 123_460);
    assert!(!logged);
    let p = state.registry.params[ParameterId::BatteryTMin.index()];
    assert_eq!((p.value, p.update_timestamp), (Value::Known(-27_000_000), 123_460));
}

#[test]
fn value_goes_stale_after_five_seconds_without_frames() {
    let t0 = 40_000;
    let mut state = MainState::new();
    state.iterate(&vec![frame(0x404, &[0, 21])], &quiet(t0));
    state.iterate(&Vec::new(), &quiet(t0 + 4999));
    assert_eq!(state.value(ParameterId::CabinT), Value::Known(21 * U));
    state.iterate(&Vec::new(), &quiet(t0 + 5000));
    assert_eq!(state.value(ParameterId::CabinT), Value::Unknown);
    state.iterate(&vec![frame(0x404, &[0, 22])], &quiet(t0 + 5020));
    assert_eq!(state.value(ParameterId::CabinT), Value::Known(22 * U));
}

#[test]
fn frames_are_applied_in_order_before_the_tick() {
    let mut state = MainState::new();
    state.update(&quiet(60_000));
    let frames = vec![
        frame(0x100, &[0x04]),
        frame(0x404, &[0, 10]),
        frame(0x404, &[0, 31]),
        frame(0x570, &[2, 0, 0, 0, 1]),
        frame(0x102, &[0, 0, 0, 0, 0x03, 0xE8, 200]),
    ];
    let mut inputs = quiet(60_020);
    inputs.evaporator_t = Value::Known(30 * U);
    inputs.analog.aux_voltage = Value::Known(14 * U);
    let actions = state.iterate(&frames, &inputs);
    assert_eq!(state.value(ParameterId::CabinT), Value::Known(31 * U));
    assert_eq!(state.value(ParameterId::MainContactor), Value::Known(U));
    assert_eq!(state.value(ParameterId::LastSeenSoc), Value::Known(200 * 392_157));
    assert_eq!(state.value(ParameterId::ReqWakeupAndContactor), Value::Known(U));
    assert!(actions.contains(&Action::SetDigitalOutput(DigitalOutput::Wakeup, true)));
    assert!(actions.contains(&Action::SetDigitalOutput(DigitalOutput::HOUT6, true)));
    // remote cooling of a hot cabin has begun: the soft start is at its foot
    assert_eq!(state.last_compressor_off_ts, 60_000);
    assert_eq!(state.value(ParameterId::AcCompressorPercent), Value::Known(40_000));
    assert_eq!(actions.last(), Some(&Action::SetPwmOutput(PwmOutput::M12, Value::Known(50_020))));
    for id in [ParameterId::CabinT, ParameterId::MainContactor, ParameterId::HvacRequested] {
        assert_eq!(state.registry.params[id.index()].update_timestamp, 60_020);
    }
    let mut same = MainState::new();
    same.update(&quiet(60_000));
    let mut again = Vec::new();
    same.receive(&frames, 60_020, &mut again);
    assert!(again.is_empty());
    same.tick(&inputs, &mut again);
    assert_eq!(again, actions);
    assert_eq!(same.registry, state.registry);
}

#[test]
fn frame_logging_is_asked_for_standard_frames_when_switched_on() {
    let mut state = MainState::new();
    let standard = frame(0x404, &[0, 21]);
    let extended = Frame { id: FrameId::Extended(0x404), data: vec![0, 21] };
    assert!(!state.on_can(&standard, 0));
    state.on_console_command("log can");
    assert!(state.on_can(&standard, 0));
    assert!(!state.on_can(&extended, 0));
    let frames = vec![standard.clone(), extended.clone(), frame(0x7FF, &[])];
    let actions = state.iterate(&frames, &quiet(20));
    assert_eq!(
        &actions[..3],
        &[
            Action::LogCan(standard.clone()),
            Action::LogCan(frame(0x7FF, &[])),
            Action::SetDigitalOutput(DigitalOutput::Wakeup, false),
        ]
    );
    state.on_console_command("log can");
    assert!(!state.on_can(&standard, 0));
    let actions = state.iterate(&frames, &quiet(40));
    assert!(!actions.iter().any(|a| matches!(a, Action::LogCan(_))));
}

#[test]
fn tick_counter_starts_over() {
    let mut state = MainState::new();
    state.update_counter = u32::MAX;
    state.update(&quiet(10));
    assert_eq!(state.update_counter, 0);
}

#[test]
fn clock_running_backwards_counts_as_no_time_passed() {
    let mut state = MainState::new();
    state.update(&quiet(100_000));
    let actions = state.update(&quiet(50_000));
    assert_eq!(state.dt_ms, 0);
    assert_eq!(state.last_millis, 50_000);
    assert!(frame_ids(&actions).is_empty());
    assert_eq!(state.last_can_200ms, 100_000);
}

#[test]
fn inputs_are_read_by_name() {
    let mut inputs = quiet(0);
    inputs.digital.m9 = true;
    inputs.digital.group3_oc = true;
    inputs.analog.current_l = Value::Known(7);
    assert!(inputs.get_digital_input(DigitalInput::M9));
    assert!(inputs.get_digital_input(DigitalInput::Group3OC));
    assert!(!inputs.get_digital_input(DigitalInput::Ignition));
    assert!(!inputs.get_digital_input(DigitalInput::M10));
    assert_eq!(inputs.get_analog_input(AnalogInput::CurrentL), Value::Known(7));
    assert_eq!(inputs.get_analog_input(AnalogInput::AuxVoltage), Value::Known(14 * U));
    assert_eq!(inputs.get_analog_input(AnalogInput::M1), Value::Known(2 * U));
    assert_eq!(inputs.get_analog_input(AnalogInput::M6), Value::Unknown);
}
