//! The printer for the date and the time of day.

use vstd::prelude::*;
use crate::command::RunelCommand;
use crate::widget::RunelWidget;

verus! {

/// A printer that formats the local time every so many seconds, for one
/// widget.
pub struct DateTime<'b> {
    seconds: u64,
    widget: RunelWidget,
    format: &'b str,
}

impl<'b> DateTime<'b> {
    /// The seconds between two readings.
    pub closed spec fn pause(&self) -> u64 {
        self.seconds
    }

    /// The widget that shows the time.
    pub closed spec fn target(&self) -> RunelWidget {
        self.widget
    }

    /// The format in which the time is written.
    pub closed spec fn pattern(&self) -> Seq<char> {
        self.format@
    }

    /// A printer that writes the local time in `format` for `widget`, every
    /// `seconds` seconds.
    pub fn new(seconds: u64, widget: RunelWidget, format: &'b str) -> (printer: DateTime<'b>)
        ensures
            printer.pause() == seconds,
            printer.target() == widget,
            printer.pattern() == format@,
    {
        DateTime { seconds, widget, format }
    }

    /// The seconds between two readings.
    pub fn seconds(&self) -> (seconds: u64)
        ensures
            seconds == self.pause(),
    {
        self.seconds
    }

    /// The widget that shows the time.
    pub fn widget(&self) -> (widget: RunelWidget)
        ensures
            widget == self.target(),
    {
        self.widget
    }

    /// The format in which the time is written.
    pub fn format(&self) -> (format: &'b str)
        ensures
            format@ == self.pattern(),
    {
        self.format
    }

    /// The command for the time `now`, written in the printer's format.
    pub fn command(&self, now: String) -> (command: RunelCommand)
        ensures
            command matches RunelCommand::SetWidget { widget, value } && widget == self.target()
                && value@ == now@,
    {
        RunelCommand::SetWidget { widget: self.widget, value: now }
    }
}

} // verus!
