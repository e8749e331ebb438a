//! The printer for the title of the focused window.

use vstd::prelude::*;
use crate::command::RunelCommand;
use crate::error::PrinterError;
use crate::widget::RunelWidget;

verus! {

/// The printer for the title of the focused window: runs a program that
/// writes one title per line.
pub struct Title;

impl Title {
    pub fn new() -> Self {
        Title
    }

    /// The command for a line of the program.
    pub fn command(line: String) -> (command: RunelCommand)
        ensures
            command matches RunelCommand::SetWidget { widget, value } && widget
                == RunelWidget::Title && value@ == line@,
    {
        RunelCommand::SetWidget { widget: RunelWidget::Title, value: line }
    }

    /// The error with which the printer ends when the program's lines do.
    pub fn unreachable() -> (e: PrinterError)
        ensures
            e matches PrinterError::Unreachable(name) && name@ == "title"@,
    {
        PrinterError::Unreachable("title".to_owned())
    }
}

} // verus!
