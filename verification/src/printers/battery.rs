//! The printer for the battery.

use vstd::prelude::*;
use vstd::string::*;
use crate::command::RunelCommand;
use crate::text::{str_eq, trim, trimmed, without_last};
use crate::widget::RunelWidget;

verus! {

/// The printer for the battery: reads the battery's state every so many
/// seconds.
pub struct Battery(u64);

/// The battery's value: its status and its charge, each as the system
/// writes it but without the white space around it, with a blank between.
pub open spec fn battery_value(status: Seq<char>, capacity: Seq<char>) -> Seq<char> {
    trimmed(status) + " "@ + trimmed(capacity)
}

/// The sign for a status: `-` while discharging, `+` while charging, `?`
/// where the status is unknown and `=` when full. Any other status is
/// written out, with a blank after it.
pub open spec fn status_sign(status: Seq<char>) -> Seq<char> {
    if status == "Discharging"@ {
        "-"@
    } else if status == "Charging"@ {
        "+"@
    } else if status == "Unknown"@ {
        "?"@
    } else if status == "Full"@ {
        "="@
    } else {
        status + " "@
    }
}

/// The battery's line in the short form: the sign of the status, which
/// comes with a line feed at its end, and the charge as it comes.
pub open spec fn battery_line(status: Seq<char>, capacity: Seq<char>) -> Seq<char> {
    status_sign(without_last(status)) + capacity
}

impl Battery {
    /// The seconds between two readings.
    pub closed spec fn pause(&self) -> u64 {
        self.0
    }

    /// A printer that reads the battery every `seconds` seconds.
    pub fn new(seconds: u64) -> (printer: Battery)
        ensures
            printer.pause() == seconds,
    {
        Battery(seconds)
    }

    /// The seconds between two readings.
    pub fn seconds(&self) -> (seconds: u64)
        ensures
            seconds == self.pause(),
    {
        self.0
    }

    /// The command for a reading: `status` and `capacity` are what the two
    /// files of the battery hold.
    pub fn command(status: &str, capacity: &str) -> (command: RunelCommand)
        ensures
            command matches RunelCommand::SetWidget { widget, value } && widget
                == RunelWidget::Battery && value@ == battery_value(status@, capacity@),
    {
        let mut value = String::from_str(trim(status));
        value.append(" ");
        value.append(trim(capacity));
        RunelCommand::SetWidget { widget: RunelWidget::Battery, value }
    }

    /// The line for a reading in the short form.
    pub fn line(status: String, capacity: &str) -> (line: String)
        ensures
            line@ == battery_line(status@, capacity@),
    {
        let mut line = status;
        line.pop();
        if str_eq(line.as_str(), "Discharging") {
            line = String::from_str("-");
        } else if str_eq(line.as_str(), "Charging") {
            line = String::from_str("+");
        } else if str_eq(line.as_str(), "Unknown") {
            line = String::from_str("?");
        } else if str_eq(line.as_str(), "Full") {
            line = String::from_str("=");
        } else {
            line.append(" ");
        }
        line.append(capacity);
        line
    }
}

} // verus!
