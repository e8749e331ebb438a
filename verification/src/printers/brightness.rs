//! The printer for the screen's brightness.

use vstd::prelude::*;
use crate::command::RunelCommand;
use crate::text::{decimal, str_eq, u8_to_string};
use crate::widget::RunelWidget;

verus! {

/// The printer for the screen's brightness: watches the backlight's
/// directory and reads the level when it was written.
pub struct Brightness;

/// The directory that is watched.
pub const BACKLIGHT_DIR: &'static str = "/sys/class/backlight/intel_backlight";

/// The file that holds the level.
pub const BRIGHTNESS: &'static str = "/sys/class/backlight/intel_backlight/brightness";

/// The file that holds the highest level.
pub const MAX_BRIGHTNESS: &'static str = "/sys/class/backlight/intel_backlight/max_brightness";

/// Whether an event in the watched directory tells of a new level: a file
/// was modified, it is no directory, and its name is `brightness`.
pub open spec fn tells_of_level(modified: bool, is_dir: bool, name: Option<Seq<char>>) -> bool {
    modified && !is_dir && name == Some("brightness"@)
}

impl Brightness {
    pub fn new() -> Self {
        Brightness
    }

    /// Whether an event in the watched directory tells of a new level.
    /// `name` is the name of the file, where the event has one that is
    /// text.
    pub fn is_level_event(modified: bool, is_dir: bool, name: Option<&str>) -> (tells: bool)
        ensures
            tells == tells_of_level(
                modified,
                is_dir,
                match name {
                    Some(n) => Some(n@),
                    None => None,
                },
            ),
    {
        if modified && !is_dir {
            match name {
                Some(n) => str_eq(n, "brightness"),
                None => false,
            }
        } else {
            false
        }
    }

    /// The command for a level, in hundredths of the highest.
    pub fn command(level: u8) -> (command: RunelCommand)
        ensures
            command matches RunelCommand::SetWidget { widget, value } && widget
                == RunelWidget::Brightness && value@ == decimal(level as nat),
    {
        RunelCommand::SetWidget { widget: RunelWidget::Brightness, value: u8_to_string(level) }
    }

    /// Takes `level` as the level shown, unless it is shown already.
    /// Returns the line to print, where there is one.
    pub fn show(current: &mut u8, level: u8) -> (line: Option<String>)
        ensures
            *final(current) == level,
            match line {
                Some(text) => *old(current) != level && text@ == decimal(level as nat),
                None => *old(current) == level,
            },
    {
        if *current != level {
            *current = level;
            Some(u8_to_string(level))
        } else {
            None
        }
    }
}

} // verus!
