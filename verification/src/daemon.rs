//! The panel's loop: what each command that the printers send does to the
//! panel, and when the bar is drawn again.

use vstd::prelude::*;
use crate::command::RunelCommand;
use crate::error::XDisplayError;
use crate::panel::Panel;
use crate::text::strip_newlines;

verus! {

/// What the loop does after a command.
#[derive(Debug)]
pub enum Turn<E> {
    /// The panel has changed: send this line to the bar.
    Draw(String),
    /// Nothing has changed.
    Idle,
    /// Look the colours up in the X resources and hand the answers to
    /// [`on_reloaded`].
    Reload,
    /// Leave the loop.
    Quit,
    /// Leave the loop with this error.
    Fail(E),
}

/// Handles what a printer sent: a command is carried out on the panel, and
/// the bar is drawn again if that changed anything; an error ends the
/// loop.
pub fn on_command<E>(panel: &mut Panel, sent: Result<RunelCommand, E>) -> (turn: Turn<E>)
    requires
        old(panel).wf(),
    ensures
        final(panel).wf(),
        final(panel).colors() == old(panel).colors(),
        match sent {
            Ok(RunelCommand::SetWidget { widget, value }) => {
                &&& final(panel).current_mode() == old(panel).current_mode()
                &&& forall|other: crate::widget::RunelWidget|
                    other != widget ==> final(panel).value(other) == old(panel).value(other)
                &&& if old(panel).value(widget) != value@ {
                    &&& final(panel).value(widget) == strip_newlines(value@)
                    &&& turn matches Turn::Draw(line)
                    &&& line@ == final(panel).markup()
                } else {
                    &&& final(panel).value(widget) == old(panel).value(widget)
                    &&& turn is Idle
                }
            },
            Ok(RunelCommand::Mode { mode, .. }) => {
                &&& final(panel).current_mode() == mode
                &&& final(panel).widgets() == old(panel).widgets()
                &&& if old(panel).current_mode() != mode {
                    turn matches Turn::Draw(line) && line@ == final(panel).markup()
                } else {
                    turn is Idle
                }
            },
            Ok(RunelCommand::Reload) => {
                &&& turn is Reload
                &&& final(panel).widgets() == old(panel).widgets()
                &&& final(panel).current_mode() == old(panel).current_mode()
            },
            Ok(RunelCommand::Quit) => {
                &&& turn is Quit
                &&& final(panel).widgets() == old(panel).widgets()
                &&& final(panel).current_mode() == old(panel).current_mode()
            },
            Err(e) => {
                &&& turn == Turn::Fail(e)
                &&& final(panel).widgets() == old(panel).widgets()
                &&& final(panel).current_mode() == old(panel).current_mode()
            },
        },
{
    let status = match sent {
        Ok(RunelCommand::SetWidget { widget, value }) => panel.set(widget, value),
        Ok(RunelCommand::Mode { mode, .. }) => panel.mode(mode),
        Ok(RunelCommand::Reload) => {
            return Turn::Reload;
        },
        Ok(RunelCommand::Quit) => {
            return Turn::Quit;
        },
        Err(e) => {
            return Turn::Fail(e);
        },
    };
    if status.is_updated() {
        Turn::Draw(panel.to_string())
    } else {
        Turn::Idle
    }
}

/// Finishes a reload: the panel takes the colours that the X resources
/// hold, and the line for the bar is handed back. Where the display could
/// not be opened the panel stays as it is and the error ends the loop.
pub fn on_reloaded(panel: &mut Panel, answers: Result<[Option<String>; 9], XDisplayError>) -> (line:
    Result<String, XDisplayError>)
    requires
        old(panel).wf(),
    ensures
        final(panel).wf(),
        final(panel).widgets() == old(panel).widgets(),
        final(panel).current_mode() == old(panel).current_mode(),
        final(panel).colors().names() == old(panel).colors().names(),
        final(panel).colors().places() == old(panel).colors().places(),
        match answers {
            Ok(a) => {
                &&& final(panel).colors().texts() == a@.map_values(
                    |answer: Option<String>| crate::colors::answer_text(answer),
                )
                &&& line matches Ok(text)
                &&& text@ == final(panel).markup()
            },
            Err(_) => line is Err && final(panel).colors().texts() == old(
                panel,
            ).colors().texts(),
        },
{
    match panel.reload(answers) {
        Ok(_) => Ok(panel.to_string()),
        Err(e) => Err(e),
    }
}

} // verus!
