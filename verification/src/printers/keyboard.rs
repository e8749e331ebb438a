//! The printer for the keyboard's layout.

use vstd::prelude::*;
use crate::command::RunelCommand;
use crate::error::PrinterError;
use crate::widget::RunelWidget;

verus! {

/// The printer for the keyboard's layout: asks the display's keyboard
/// extension for the layout and follows its changes.
pub struct Keyboard;

/// A step of setting the keyboard extension up, with how it went.
#[derive(Clone, Copy, Debug, PartialEq, Eq, Structural)]
pub enum Setup {
    /// The display answered, or did not, whether it has the extension.
    Extension { reply: Option<bool> },
    /// The extension was set up, or not.
    Prepared { done: bool },
    /// The id of the core keyboard, or -1.
    Device { id: i32 },
    /// The device's keymap was compiled, or not.
    Keymap { compiled: bool },
}

/// What stands in the way after a step of the setup, if anything.
pub open spec fn setup_fault(step: Setup) -> Option<Seq<char>> {
    match step {
        Setup::Extension { reply: Some(true) } => None,
        Setup::Extension { reply: Some(false) } => Some("xkb: not supported"@),
        Setup::Extension { reply: None } => Some("xkb: no reply"@),
        Setup::Prepared { done } => if done {
            None
        } else {
            Some("xkb: setup extension"@)
        },
        Setup::Device { id } => if id == -1 {
            Some("xkb: get core kbd device"@)
        } else {
            None
        },
        Setup::Keymap { compiled } => if compiled {
            None
        } else {
            Some("xkb: keymap from device"@)
        },
    }
}

impl Keyboard {
    pub fn new() -> Self {
        Keyboard
    }

    /// Judges a step of the setup: the printer goes on, or ends with the
    /// error for what failed.
    pub fn check(step: Setup) -> (judged: Result<(), PrinterError>)
        ensures
            match setup_fault(step) {
                None => judged is Ok,
                Some(fault) => judged matches Err(PrinterError::KbdError(what)) && what@ == fault,
            },
    {
        match step {
            Setup::Extension { reply: Some(true) } => Ok(()),
            Setup::Extension { reply: Some(false) } => Err(
                PrinterError::KbdError("xkb: not supported"),
            ),
            Setup::Extension { reply: None } => Err(PrinterError::KbdError("xkb: no reply")),
            Setup::Prepared { done } => if done {
                Ok(())
            } else {
                Err(PrinterError::KbdError("xkb: setup extension"))
            },
            Setup::Device { id } => if id == -1 {
                Err(PrinterError::KbdError("xkb: get core kbd device"))
            } else {
                Ok(())
            },
            Setup::Keymap { compiled } => if compiled {
                Ok(())
            } else {
                Err(PrinterError::KbdError("xkb: keymap from device"))
            },
        }
    }

    /// Takes `group` as the layout group shown, unless it is shown
    /// already. Returns whether the layout's name is to be sent.
    pub fn on_group(last: &mut u8, group: u8) -> (changed: bool)
        ensures
            *final(last) == group,
            changed == (*old(last) != group),
    {
        if *last != group {
            *last = group;
            true
        } else {
            false
        }
    }

    /// The command for the layout named `layout`.
    pub fn command(layout: String) -> (command: RunelCommand)
        ensures
            command matches RunelCommand::SetWidget { widget, value } && widget
                == RunelWidget::Keyboard && value@ == layout@,
    {
        RunelCommand::SetWidget { widget: RunelWidget::Keyboard, value: layout }
    }

    /// The error with which the printer ends when the display has gone.
    pub fn unreachable() -> (e: PrinterError)
        ensures
            e matches PrinterError::Unreachable(name) && name@ == "xkb"@,
    {
        PrinterError::Unreachable("xkb".to_owned())
    }
}

} // verus!
