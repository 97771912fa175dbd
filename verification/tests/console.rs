use ipdmrust::can_simulator::{frame_for_step, CanSimulator};
use ipdmrust::command_accumulator::CommandAccumulator;
use ipdmrust::console::{parse_console_command, ConsoleCommand};
use ipdmrust::frame::FrameId;
use ipdmrust::logging::{has_moved, name_passes};
use ipdmrust::names::{get_single_arg, same_text, starts_with, string_contains_case_insensitive};
use ipdmrust::parameters::{ParameterId, NUM_PARAMETERS};
use ipdmrust::state::MainState;
use ipdmrust::value::Value;

#[test]
fn command_words_are_recognized() {
    assert_eq!(parse_console_command("reboot"), ConsoleCommand::Reboot);
    assert_eq!(parse_console_command("dfu"), ConsoleCommand::ActivateDfu);
    assert_eq!(parse_console_command("panic"), ConsoleCommand::Panic);
    assert_eq!(parse_console_command("log can"), ConsoleCommand::ToggleCanLog);
    assert_eq!(parse_console_command("print"), ConsoleCommand::PrintAll);
    assert_eq!(parse_console_command("p"), ConsoleCommand::PrintAll);
    assert_eq!(parse_console_command("print bat"), ConsoleCommand::PrintFiltered);
    assert_eq!(parse_console_command("p bat"), ConsoleCommand::PrintFiltered);
    assert_eq!(parse_console_command("p "), ConsoleCommand::PrintFiltered);
    assert_eq!(parse_console_command("watch T"), ConsoleCommand::Watch);
    assert_eq!(parse_console_command("w T"), ConsoleCommand::Watch);
    assert_eq!(parse_console_command("clear"), ConsoleCommand::Clear);
    assert_eq!(parse_console_command("c"), ConsoleCommand::Clear);
    for other in ["", "Reboot", "reboot ", " reboot", "printer", "watch", "w", "log", "clear x", "x"]
    {
        assert_eq!(parse_console_command(other), ConsoleCommand::Unknown, "{:?}", other);
    }
}

#[test]
fn commands_change_only_what_they_name() {
    let mut state = MainState::new();
    let registry = state.registry.clone();
    assert_eq!(state.on_console_command("log can"), ConsoleCommand::ToggleCanLog);
    assert!(state.log_can);
    assert_eq!(state.on_console_command("log can"), ConsoleCommand::ToggleCanLog);
    assert!(!state.log_can);
    assert_eq!(state.on_console_command("watch Bat T"), ConsoleCommand::Watch);
    assert_eq!(state.watch_filter.as_str(), "Bat T");
    assert_eq!(state.on_console_command("w x"), ConsoleCommand::Watch);
    assert_eq!(state.watch_filter.as_str(), "x");
    for (line, result) in [
        ("reboot", ConsoleCommand::Reboot),
        ("dfu", ConsoleCommand::ActivateDfu),
        ("panic", ConsoleCommand::Panic),
        ("print", ConsoleCommand::PrintAll),
        ("p soc", ConsoleCommand::PrintFiltered),
        ("nonsense", ConsoleCommand::Unknown),
    ] {
        assert_eq!(state.on_console_command(line), result);
        assert_eq!(state.watch_filter.as_str(), "x");
        assert!(!state.log_can);
    }
    assert_eq!(state.on_console_command("c"), ConsoleCommand::Clear);
    assert_eq!(state.watch_filter.as_str(), "");
    assert_eq!(state.registry, registry);
    assert!(state.is_consistent());
}

#[test]
fn watch_filter_that_does_not_fit_is_not_taken() {
    let mut state = MainState::new();
    state.on_console_command("watch keep");
    let fits = format!("watch {}", "a".repeat(50));
    let too_long = format!("watch {}", "a".repeat(51));
    let too_wide = format!("w {}", "\u{e4}".repeat(26));
    assert_eq!(state.on_console_command(&too_long), ConsoleCommand::Unknown);
    assert_eq!(state.watch_filter.as_str(), "keep");
    assert_eq!(state.on_console_command(&too_wide), ConsoleCommand::Unknown);
    assert_eq!(state.watch_filter.as_str(), "keep");
    assert_eq!(state.on_console_command(&fits), ConsoleCommand::Watch);
    assert_eq!(state.watch_filter.as_str(), "a".repeat(50));
    assert_eq!(state.on_console_command("w "), ConsoleCommand::Watch);
    assert_eq!(state.watch_filter.as_str(), "");
}

#[test]
fn help_lists_the_commands() {
    let lines = MainState::new().list_console_commands();
    assert_eq!(lines.len(), 7);
    assert_eq!(lines[0], "  dfu  - Activate DFU mode");
    assert_eq!(lines[2], "  log can  - Enable logging of CAN messages on console");
    assert_eq!(lines[6], "  clear | c - Clear watch filter");
}

#[test]
fn print_lists_parameters_by_name() {
    let state = MainState::new();
    assert_eq!(state.print_parameters(), (0..NUM_PARAMETERS).collect::<Vec<_>>());
    assert_eq!(state.print_parameters_filtered(""), (0..NUM_PARAMETERS).collect::<Vec<_>>());
    assert_eq!(
        state.print_parameters_filtered("bat t"),
        vec![ParameterId::BatteryTMin.index(), ParameterId::BatteryTMax.index()]
    );
    assert_eq!(
        state.print_parameters_filtered("SOC"),
        vec![ParameterId::Soc.index(), ParameterId::LastSeenSoc.index()]
    );
    assert_eq!(state.print_parameters_filtered("no such name"), Vec::<usize>::new());
    assert_eq!(
        state.print_parameters_filtered(get_single_arg("p %")),
        vec![ParameterId::AcCompressorPercent.index()]
    );
}

#[test]
fn argument_is_what_follows_the_first_space() {
    assert_eq!(get_single_arg("print bat"), "bat");
    assert_eq!(get_single_arg("watch Bat T min"), "Bat T min");
    assert_eq!(get_single_arg("p "), "");
    assert_eq!(get_single_arg("p  x"), " x");
    assert_eq!(get_single_arg("print"), "print");
    assert_eq!(get_single_arg(""), "");
    assert_eq!(get_single_arg(" x"), "x");
    assert_eq!(get_single_arg("\u{e4}\u{f6} \u{fc}x"), "\u{fc}x");
}

#[test]
fn names_are_matched_without_regard_to_ascii_case() {
    assert!(string_contains_case_insensitive("Bat T min", "bat"));
    assert!(string_contains_case_insensitive("Bat T min", "T MIN"));
    assert!(string_contains_case_insensitive("Bat T min", "Bat T min"));
    assert!(string_contains_case_insensitive("Bat T min", "n"));
    assert!(string_contains_case_insensitive("Bat T min", ""));
    assert!(string_contains_case_insensitive("", ""));
    assert!(!string_contains_case_insensitive("Bat T min", "max"));
    assert!(!string_contains_case_insensitive("Bat T min", "Bat T min "));
    assert!(!string_contains_case_insensitive("", "a"));
    assert!(!string_contains_case_insensitive("aab", "abb"));
    assert!(string_contains_case_insensitive("aaab", "aab"));
    assert!(string_contains_case_insensitive("[x]", "[X]"));
    assert!(!string_contains_case_insensitive("@", "`"));
    assert!(!string_contains_case_insensitive("[", "{"));
    assert!(string_contains_case_insensitive("gr\u{f6}\u{df}e", "R\u{f6}"));
    assert!(!string_contains_case_insensitive("gr\u{f6}\u{df}e", "\u{d6}"));
    assert!(name_passes("anything", ""));
    assert!(name_passes("SoC", "oc"));
    assert!(!name_passes("SoC", "x"));
}

#[test]
fn texts_are_compared_character_by_character() {
    assert!(same_text("", ""));
    assert!(same_text("log can", "log can"));
    assert!(!same_text("log can", "log  can"));
    assert!(!same_text("log can", "log ca"));
    assert!(!same_text("a", "A"));
    assert!(starts_with("print x", "print "));
    assert!(starts_with("print", ""));
    assert!(starts_with("p", "p"));
    assert!(!starts_with("p", "p "));
    assert!(!starts_with("xprint ", "print "));
}

#[test]
fn movement_is_measured_against_the_threshold() {
    let k = Value::Known;
    assert!(has_moved(k(100), k(0), 100));
    assert!(has_moved(k(0), k(100), 100));
    assert!(!has_moved(k(99), k(0), 100));
    assert!(!has_moved(k(0), k(99), 100));
    assert!(has_moved(k(5), k(5), 0));
    assert!(has_moved(k(i64::MAX), k(i64::MIN), u64::MAX));
    assert!(!has_moved(k(i64::MAX), k(i64::MIN + 1), u64::MAX));
    assert!(has_moved(Value::Unknown, k(0), u64::MAX));
    assert!(has_moved(k(0), Value::Unknown, u64::MAX));
    assert!(!has_moved(Value::Unknown, Value::Unknown, 0));
}

fn typed(accumulator: &mut CommandAccumulator, text: &str) -> Vec<String> {
    text.chars()
        .filter_map(|c| accumulator.put(c))
        .map(|line| line.as_str().to_string())
        .collect()
}

#[test]
fn lines_are_collected_until_their_end() {
    let mut accumulator = CommandAccumulator::new();
    assert_eq!(typed(&mut accumulator, "log can"), Vec::<String>::new());
    assert_eq!(accumulator.buf.as_str(), "log can");
    assert_eq!(typed(&mut accumulator, "\n"), vec!["log can"]);
    assert_eq!(accumulator.buf.as_str(), "");
    assert_eq!(typed(&mut accumulator, "\n\r\r\n"), Vec::<String>::new());
    assert_eq!(typed(&mut accumulator, "p\rw x\r\nc\n"), vec!["p", "w x", "c"]);
}

#[test]
fn delete_takes_the_last_character_away() {
    let mut accumulator = CommandAccumulator::new();
    assert_eq!(typed(&mut accumulator, "\u{7f}pq\u{7f}\u{7f}\u{7f}rex\u{7f}boot\n"), vec!["reboot"]);
    assert_eq!(typed(&mut accumulator, "a\u{e4}\u{7f}\u{20ac}\u{7f}b\n"), vec!["ab"]);
}

#[test]
fn characters_that_do_not_fit_are_dropped() {
    let mut accumulator = CommandAccumulator::new();
    let long = "x".repeat(49);
    assert!(typed(&mut accumulator, &long).is_empty());
    // one byte is left: a two-byte character does not fit, a one-byte one does
    assert!(accumulator.put('\u{e4}').is_none());
    assert_eq!(accumulator.buf.as_str(), long);
    assert!(accumulator.put('y').is_none());
    assert!(accumulator.put('z').is_none());
    assert_eq!(typed(&mut accumulator, "\n"), vec![format!("{}y", long)]);
    assert!(typed(&mut accumulator, &"\u{20ac}".repeat(17)).is_empty());
    assert_eq!(typed(&mut accumulator, "\r"), vec!["\u{20ac}".repeat(16)]);
}

#[test]
fn simulator_emits_its_sequence() {
    let mut simulator = CanSimulator::new();
    assert!(simulator.dequeue().is_none());
    let mut ids = Vec::new();
    for step in 0..46u64 {
        simulator.update(step * 20);
        assert_eq!(simulator.i, step + 1);
        while let Some(frame) = simulator.dequeue() {
            assert!(frame.data.len() <= 8);
            ids.push(frame.id);
        }
    }
    let once: Vec<FrameId> = [
        0x1DA, 0x55A, 0x300, 0x301, 0x1D4, 0x50B, 0x11A, 0x100, 0x101, 0x102, 0x104, 0x506, 0x398,
        0x188, 0x285, 0x377, 0x389, 0x38A,
    ]
    .iter()
    .map(|id| FrameId::Standard(*id))
    .collect();
    assert_eq!(ids, [once.clone(), once].concat());
    assert!(frame_for_step(11).is_none());
    assert!(frame_for_step(15).is_none());
    assert!(frame_for_step(23).is_none());
    assert_eq!(frame_for_step(5).unwrap().data, vec![0x00, 0x00, 0x06, 0xC0, 0x00, 0x00, 0x00]);
    assert_eq!(
        frame_for_step(8).unwrap().data,
        vec![0x19, 0xE1, 0x9F, 0x07, 0x0B, 0x00, 0x0B, 0x0B]
    );
}

#[test]
fn full_queue_drops_its_oldest_frame() {
    let mut simulator = CanSimulator::new();
    for step in 0..11u64 {
        simulator.update(step);
    }
    let mut ids = Vec::new();
    while let Some(frame) = simulator.dequeue() {
        ids.push(frame.id);
    }
    assert_eq!(ids.len(), 10);
    assert_eq!(ids[0], FrameId::Standard(0x55A));
    assert_eq!(ids[9], FrameId::Standard(0x104));
    assert!(simulator.dequeue().is_none());
    simulator.i = u64::MAX;
    simulator.update(0);
    assert_eq!(simulator.i, 0);
    // u64::MAX % 23 == 5
    assert_eq!(simulator.dequeue().map(|f| f.id), Some(FrameId::Standard(0x50B)));
    assert!(simulator.dequeue().is_none());
}

#[test]
fn simulated_frames_feed_the_registry() {
    let mut simulator = CanSimulator::new();
    let mut state = MainState::new();
    for step in 0..23u64 {
        simulator.update(step * 20);
        while let Some(frame) = simulator.dequeue() {
            state.on_can(&frame, step * 20);
        }
    }
    assert_eq!(state.value(ParameterId::MainContactor), Value::Known(1_000_000));
    assert_eq!(state.value(ParameterId::BatteryVMax), Value::Known(4_150_000));
    assert_eq!(state.value(ParameterId::HeaterT), Value::Known(51_000_000));
    assert_eq!(state.value(ParameterId::ObcDcv), Value::Known(302_000_000));
    assert_eq!(state.value(ParameterId::DcdcStatus), Value::Known(34_000_000));
    assert_eq!(state.value(ParameterId::CruiseActive), Value::Known(0));
    assert_eq!(state.value(ParameterId::FoccciCPPWM), Value::Known(0));
    assert_eq!(state.value(ParameterId::HvacRequested), Value::Unknown);
}
