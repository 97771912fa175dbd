//! The console's commands.

use crate::names::{begins_with, get_single_arg, same_text, single_arg, starts_with};
use crate::state::{MainState, MainStateView};
use crate::text::{fits_text, text_clear, text_try_push_str, TEXT_CAPACITY};
use vstd::prelude::*;

verus! {

/// What a command line asks for.
#[derive(Clone, Copy, Debug, PartialEq, Eq, Structural)]
pub enum ConsoleCommand {
    /// `reboot`
    Reboot,
    /// `dfu`: start the bootloader.
    ActivateDfu,
    /// `panic`: a deliberate fault.
    Panic,
    /// `log can`: switch the logging of received frames on or off.
    ToggleCanLog,
    /// `print` or `p`: list every parameter.
    PrintAll,
    /// `print <filter>` or `p <filter>`: list the parameters whose name
    /// contains the filter.
    PrintFiltered,
    /// `watch <filter>` or `w <filter>`: log only parameters whose name
    /// contains the filter.
    Watch,
    /// `clear` or `c`: log all parameters again.
    Clear,
    /// Anything else.
    Unknown,
}

/// What a command line asks for.
pub open spec fn parsed(command: Seq<char>) -> ConsoleCommand {
    if command == "reboot"@ {
        ConsoleCommand::Reboot
    } else if command == "dfu"@ {
        ConsoleCommand::ActivateDfu
    } else if command == "panic"@ {
        ConsoleCommand::Panic
    } else if command == "log can"@ {
        ConsoleCommand::ToggleCanLog
    } else if command == "print"@ || command == "p"@ {
        ConsoleCommand::PrintAll
    } else if begins_with(command, "print "@) || begins_with(command, "p "@) {
        ConsoleCommand::PrintFiltered
    } else if begins_with(command, "watch "@) || begins_with(command, "w "@) {
        ConsoleCommand::Watch
    } else if command == "clear"@ || command == "c"@ {
        ConsoleCommand::Clear
    } else {
        ConsoleCommand::Unknown
    }
}

/// The lines that describe the commands.
pub open spec fn console_help() -> Seq<&'static str> {
    seq![
        "  dfu  - Activate DFU mode",
        "  panic  - Call panic!()",
        "  log can  - Enable logging of CAN messages on console",
        "  print | p - Print all parameter values",
        "  print | p <filter> - Print parameter values, filter by name",
        "  watch | w <filter> - Set watch filter",
        "  clear | c - Clear watch filter",
    ]
}

/// Reads a command line.
pub fn parse_console_command(command: &str) -> (c: ConsoleCommand)
    ensures
        c == parsed(command@),
{
    if same_text(command, "reboot") {
        ConsoleCommand::Reboot
    } else if same_text(command, "dfu") {
        ConsoleCommand::ActivateDfu
    } else if same_text(command, "panic") {
        ConsoleCommand::Panic
    } else if same_text(command, "log can") {
        ConsoleCommand::ToggleCanLog
    } else if same_text(command, "print") || same_text(command, "p") {
        ConsoleCommand::PrintAll
    } else if starts_with(command, "print ") || starts_with(command, "p ") {
        ConsoleCommand::PrintFiltered
    } else if starts_with(command, "watch ") || starts_with(command, "w ") {
        ConsoleCommand::Watch
    } else if same_text(command, "clear") || same_text(command, "c") {
        ConsoleCommand::Clear
    } else {
        ConsoleCommand::Unknown
    }
}

impl MainStateView {
    /// What a command line comes to: what it asks for, except that a watch
    /// filter too long for the filter's buffer is not taken.
    pub open spec fn console_result(self, command: Seq<char>) -> ConsoleCommand {
        if parsed(command) == ConsoleCommand::Watch && !fits_text(single_arg(command)) {
            ConsoleCommand::Unknown
        } else {
            parsed(command)
        }
    }

    /// The state after a command line: frame logging toggled, the watch
    /// filter set or cleared, or nothing changed.
    pub open spec fn after_console_command(self, command: Seq<char>) -> MainStateView {
        match self.console_result(command) {
            ConsoleCommand::ToggleCanLog => MainStateView { log_can: !self.log_can, ..self },
            ConsoleCommand::Watch => MainStateView { watch_filter: single_arg(command), ..self },
            ConsoleCommand::Clear => MainStateView { watch_filter: Seq::empty(), ..self },
            _ => self,
        }
    }
}

impl MainState {
    /// Carries out what a command line changes in the state, and returns
    /// what is left for the caller to do; `Unknown` where the line was
    /// not understood.
    pub fn on_console_command(&mut self, command: &str) -> (result: ConsoleCommand)
        ensures
            result == old(self)@.console_result(command@),
            final(self)@ == old(self)@.after_console_command(command@),
            old(self).wf() ==> final(self).wf(),
    {
        let asked = parse_console_command(command);
        match asked {
            ConsoleCommand::ToggleCanLog => {
                self.log_can = !self.log_can;
                asked
            },
            ConsoleCommand::Watch => {
                let filter = get_single_arg(command);
                if filter.as_bytes().len() <= TEXT_CAPACITY {
                    text_clear(&mut self.watch_filter);
                    assert(Seq::<char>::empty() + filter@ =~= filter@);
                    let _ = text_try_push_str(&mut self.watch_filter, filter);
                    asked
                } else {
                    ConsoleCommand::Unknown
                }
            },
            ConsoleCommand::Clear => {
                text_clear(&mut self.watch_filter);
                asked
            },
            _ => asked,
        }
    }

    /// The lines that describe the commands.
    pub fn list_console_commands(&self) -> (lines: Vec<&'static str>)
        ensures
            lines@ == console_help(),
    {
        let mut lines: Vec<&'static str> = Vec::new();
        lines.push("  dfu  - Activate DFU mode");
        lines.push("  panic  - Call panic!()");
        lines.push("  log can  - Enable logging of CAN messages on console");
        lines.push("  print | p - Print all parameter values");
        lines.push("  print | p <filter> - Print parameter values, filter by name");
        lines.push("  watch | w <filter> - Set watch filter");
        lines.push("  clear | c - Clear watch filter");
        assert(lines@ =~= console_help());
        lines
    }
}

} // verus!
