//! The printer for the sound's volume.

use vstd::prelude::*;
use vstd::string::*;
use crate::command::RunelCommand;
use crate::error::PrinterError;
use crate::text::{decimal, u8_to_string};
use crate::widget::RunelWidget;

verus! {

/// The printer for the sound's volume: follows the events of the mixer.
pub struct Volume;

/// The volume of the master control, in hundredths of its range, and
/// whether it is muted.
#[derive(Clone, Copy, Debug, PartialEq, Eq, Structural)]
pub struct VolumeState {
    volume: u8,
    muted: bool,
}

/// A state as it is written: the volume, a blank, and `off` where the
/// sound is muted, `on` where it is not.
pub open spec fn volume_line(volume: u8, muted: bool) -> Seq<char> {
    decimal(volume as nat) + " "@ + if muted {
        "off"@
    } else {
        "on"@
    }
}

impl VolumeState {
    /// The volume, in hundredths of the range.
    pub closed spec fn spec_volume(&self) -> u8 {
        self.volume
    }

    /// Whether the sound is muted.
    pub closed spec fn spec_muted(&self) -> bool {
        self.muted
    }

    /// No volume, not muted.
    pub fn new() -> (state: VolumeState)
        ensures
            state.spec_volume() == 0,
            !state.spec_muted(),
    {
        VolumeState { volume: 0, muted: false }
    }

    /// The volume, in hundredths of the range.
    pub fn volume(&self) -> (volume: u8)
        ensures
            volume == self.spec_volume(),
    {
        self.volume
    }

    /// Whether the sound is muted.
    pub fn muted(&self) -> (muted: bool)
        ensures
            muted == self.spec_muted(),
    {
        self.muted
    }

    /// Takes over a reading of the master control, where the mixer has
    /// one: its volume and its playback switch, which is 0 when the sound
    /// is muted. Returns whether the state has changed; without a reading
    /// it has not.
    pub fn update_current_state(&mut self, reading: Option<(u8, i32)>) -> (is_new: bool)
        ensures
            match reading {
                Some((volume, switch)) => {
                    &&& final(self).spec_volume() == volume
                    &&& final(self).spec_muted() == (switch == 0)
                    &&& is_new == (old(self).spec_volume() != volume || old(self).spec_muted()
                        != (switch == 0))
                },
                None => *final(self) == *old(self) && !is_new,
            },
    {
        match reading {
            Some((volume, switch)) => {
                let muted = switch == 0;
                let is_new = self.volume != volume || self.muted != muted;
                self.volume = volume;
                self.muted = muted;
                is_new
            },
            None => false,
        }
    }

    /// The state as it is written.
    pub fn to_string(&self) -> (s: String)
        ensures
            s@ == volume_line(self.spec_volume(), self.spec_muted()),
    {
        let mut s = u8_to_string(self.volume);
        s.append(" ");
        if self.muted {
            s.append("off");
        } else {
            s.append("on");
        }
        s
    }
}

impl Volume {
    pub fn new() -> Self {
        Volume
    }

    /// Takes over a reading of the master control and gives the command
    /// that shows it. A mixer without a master control ends the printer.
    pub fn command(state: &mut VolumeState, reading: Option<(u8, i32)>) -> (command: Result<
        RunelCommand,
        PrinterError,
    >)
        ensures
            match reading {
                Some((volume, switch)) => {
                    &&& final(state).spec_volume() == volume
                    &&& final(state).spec_muted() == (switch == 0)
                    &&& command matches Ok(RunelCommand::SetWidget { widget, value })
                    &&& widget == RunelWidget::Volume
                    &&& value@ == volume_line(volume, switch == 0)
                },
                None => *final(state) == *old(state) && command matches Err(
                    PrinterError::SelemNotFound,
                ),
            },
    {
        match reading {
            Some(_) => {
                state.update_current_state(reading);
                Ok(RunelCommand::SetWidget { widget: RunelWidget::Volume, value: state.to_string() })
            },
            None => Err(PrinterError::SelemNotFound),
        }
    }
}

} // verus!
