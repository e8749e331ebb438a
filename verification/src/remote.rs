//! The remote control of the panel: the lines that it writes to the
//! panel's socket.

use vstd::prelude::*;
use vstd::string::*;
use crate::command::{command_line, RunelCommand};
use crate::mode::RunelMode;

verus! {

/// The line that carries a command.
pub open spec fn sent_line(command: RunelCommand) -> Seq<char> {
    command_line(command) + "\n"@
}

/// The line that carries one line of a mode program: it sets the custom
/// widget.
pub open spec fn custom_line(text: Seq<char>) -> Seq<char> {
    "set:custom:"@ + text + "\n"@
}

/// The line to write for a command.
pub fn line_of(command: &RunelCommand) -> (line: String)
    ensures
        line@ == sent_line(*command),
{
    let mut line = command.to_string();
    line.append("\n");
    line
}

/// The name of the mode program to run for a command: a switch to the
/// layout of a mode program has one, any other command has none.
pub fn program_of(command: &RunelCommand) -> (name: Option<&str>)
    requires
        *command matches RunelCommand::Mode { mode: RunelMode::Custom, command: program }
            ==> program is Some,
    ensures
        match *command {
            RunelCommand::Mode { mode: RunelMode::Custom, command: Some(program) } => name
                matches Some(n) && n@ == program@,
            _ => name is None,
        },
{
    if command.is_custom() {
        command.mode_command()
    } else {
        None
    }
}

/// The line to write for one line of the mode program.
pub fn send_mode(text: String) -> (line: String)
    ensures
        line@ == custom_line(text@),
{
    let command = RunelCommand::SetWidget { widget: crate::widget::RunelWidget::Custom, value: text };
    proof {
        reveal_strlit("set:");
        reveal_strlit("custom");
        reveal_strlit(":");
        reveal_strlit("set:custom:");
        assert("set:"@ + "custom"@ + ":"@ == "set:custom:"@);
    }
    line_of(&command)
}

} // verus!
