//! The command language of the panel: one command per line.
//!
//! ```text
//! set:<widget>:<value>    give a widget a value
//! mode:<name>             switch to a mode; `default` is the panel's own
//! reload                  read the colours again
//! quit                    stop
//! ```
//!
//! The last two may also be written `command:reload` and `command:quit`.

use vstd::prelude::*;
use vstd::string::*;
use crate::error::RunelParseError;
use crate::mode::{layout_name, layout_of, RunelMode};
use crate::text::{chars_of, find_char, first_index, str_eq, string_of};
use crate::widget::{lemma_widget_names, names_widget, widget_name, RunelWidget};

verus! {

/// A command.
#[derive(Debug)]
pub enum RunelCommand {
    /// Give `widget` the value `value`.
    SetWidget { widget: RunelWidget, value: String },
    /// Switch to the layout `mode`; `command` is the name of the mode
    /// program, where there is one.
    Mode { mode: RunelMode, command: Option<String> },
    /// Read the colours again.
    Reload,
    /// Stop.
    Quit,
}

/// What a line parses to: a command, or the reason why it is none.
pub ghost enum Parsed {
    SetWidget { widget: RunelWidget, value: Seq<char> },
    Mode { mode: RunelMode, command: Option<Seq<char>> },
    Reload,
    Quit,
    InvalidSyntax,
    InvalidCommand(Seq<char>),
    InvalidSetSyntax,
    InvalidWidget(Seq<char>),
}

/// A command, with its texts as sequences of characters.
pub open spec fn command_view(command: RunelCommand) -> Parsed {
    match command {
        RunelCommand::SetWidget { widget, value } => Parsed::SetWidget { widget, value: value@ },
        RunelCommand::Mode { mode, command } => Parsed::Mode {
            mode,
            command: match command {
                Some(name) => Some(name@),
                None => None,
            },
        },
        RunelCommand::Reload => Parsed::Reload,
        RunelCommand::Quit => Parsed::Quit,
    }
}

/// The outcome of parsing, with its texts as sequences of characters.
pub open spec fn parsed_view(parsed: Result<RunelCommand, RunelParseError>) -> Parsed {
    match parsed {
        Ok(command) => command_view(command),
        Err(RunelParseError::InvalidSyntax) => Parsed::InvalidSyntax,
        Err(RunelParseError::InvalidCommand(word)) => Parsed::InvalidCommand(word@),
        Err(RunelParseError::InvalidSetSyntax) => Parsed::InvalidSetSyntax,
        Err(RunelParseError::InvalidWidget(word)) => Parsed::InvalidWidget(word@),
    }
}

/// What follows `set:` parses to: the widget named before the first `:`
/// and, as its value, all that follows that `:`.
pub open spec fn parse_set_spec(s: Seq<char>) -> Parsed {
    let n = first_index(s, ':') as int;
    if n >= s.len() {
        Parsed::InvalidSetSyntax
    } else if names_widget(s.take(n)) {
        Parsed::SetWidget {
            widget: choose|widget: RunelWidget| widget_name(widget) == s.take(n),
            value: s.skip(n + 1),
        }
    } else {
        Parsed::InvalidWidget(s.take(n))
    }
}

/// What follows `mode:` parses to: the panel's own layout for `default`,
/// and for any other name the mode program of that name.
pub open spec fn parse_mode_spec(s: Seq<char>) -> Parsed {
    Parsed::Mode {
        mode: layout_of(s),
        command: if s == "default"@ {
            None
        } else {
            Some(s)
        },
    }
}

/// What a line parses to.
pub open spec fn parse_spec(s: Seq<char>) -> Parsed {
    let n = first_index(s, ':') as int;
    if s == "reload"@ {
        Parsed::Reload
    } else if s == "quit"@ {
        Parsed::Quit
    } else if n >= s.len() {
        Parsed::InvalidSyntax
    } else if s.take(n) == "set"@ {
        parse_set_spec(s.skip(n + 1))
    } else if s.take(n) == "mode"@ {
        parse_mode_spec(s.skip(n + 1))
    } else if s.take(n) == "command"@ && s.skip(n + 1) == "reload"@ {
        Parsed::Reload
    } else if s.take(n) == "command"@ && s.skip(n + 1) == "quit"@ {
        Parsed::Quit
    } else {
        Parsed::InvalidCommand(s.take(n))
    }
}

/// A command as it is written on a line.
pub open spec fn command_line(command: RunelCommand) -> Seq<char> {
    match command {
        RunelCommand::SetWidget { widget, value } => "set:"@ + widget_name(widget) + ":"@ + value@,
        RunelCommand::Mode { mode, .. } => "mode:"@ + layout_name(mode),
        RunelCommand::Reload => "reload"@,
        RunelCommand::Quit => "quit"@,
    }
}

impl RunelCommand {
    /// The name of the mode program, for a switch to one.
    pub fn mode_command(&self) -> (name: Option<&str>)
        ensures
            match *self {
                RunelCommand::Mode { command: Some(cmd), .. } => name matches Some(n) && n@
                    == cmd@,
                _ => name is None,
            },
    {
        match self {
            RunelCommand::Mode { command: Some(cmd), .. } => Some(cmd.as_str()),
            _ => None,
        }
    }

    /// Whether the command switches to the layout of a mode program.
    pub fn is_custom(&self) -> (custom: bool)
        ensures
            custom == (*self matches RunelCommand::Mode { mode, .. } && mode
                == RunelMode::Custom),
    {
        match self {
            RunelCommand::Mode { mode: RunelMode::Custom, .. } => true,
            _ => false,
        }
    }

    /// Parses what follows `set:`.
    pub fn parse_set(s: &str) -> (parsed: Result<RunelCommand, RunelParseError>)
        ensures
            parsed_view(parsed) == parse_set_spec(s@),
    {
        let cs = chars_of(s);
        let n = find_char(&cs, 0, ':');
        assert(cs@.skip(0) == cs@);
        if n >= cs.len() {
            return Err(RunelParseError::InvalidSetSyntax);
        }
        let name = string_of(&cs, 0, n);
        assert(cs@.subrange(0, n as int) == cs@.take(n as int));
        match RunelWidget::from_str(name.as_str()) {
            Ok(widget) => {
                let value = string_of(&cs, n + 1, cs.len());
                proof {
                    assert(cs@.subrange(n + 1, cs.len() as int) == cs@.skip(n + 1));
                    let chosen = choose|w: RunelWidget| widget_name(w) == s@.take(n as int);
                    lemma_widget_names(widget, chosen);
                }
                Ok(RunelCommand::SetWidget { widget, value })
            },
            Err(e) => Err(e),
        }
    }

    /// Parses what follows `mode:`.
    pub fn parse_mode(s: &str) -> (parsed: Result<RunelCommand, RunelParseError>)
        ensures
            parsed_view(parsed) == parse_mode_spec(s@),
    {
        Ok(
            RunelCommand::Mode {
                mode: RunelMode::from_str(s),
                command: if str_eq(s, "default") {
                    None
                } else {
                    Some(s.to_owned())
                },
            },
        )
    }

    /// Parses a line.
    pub fn from_str(s: &str) -> (parsed: Result<RunelCommand, RunelParseError>)
        ensures
            parsed_view(parsed) == parse_spec(s@),
    {
        if str_eq(s, "reload") {
            return Ok(RunelCommand::Reload);
        }
        if str_eq(s, "quit") {
            return Ok(RunelCommand::Quit);
        }
        let cs = chars_of(s);
        let n = find_char(&cs, 0, ':');
        assert(cs@.skip(0) == cs@);
        if n >= cs.len() {
            return Err(RunelParseError::InvalidSyntax);
        }
        let head = string_of(&cs, 0, n);
        let rest = string_of(&cs, n + 1, cs.len());
        assert(cs@.subrange(0, n as int) == cs@.take(n as int));
        assert(cs@.subrange(n + 1, cs.len() as int) == cs@.skip(n + 1));
        if str_eq(head.as_str(), "set") {
            RunelCommand::parse_set(rest.as_str())
        } else if str_eq(head.as_str(), "mode") {
            RunelCommand::parse_mode(rest.as_str())
        } else if str_eq(head.as_str(), "command") && str_eq(rest.as_str(), "reload") {
            Ok(RunelCommand::Reload)
        } else if str_eq(head.as_str(), "command") && str_eq(rest.as_str(), "quit") {
            Ok(RunelCommand::Quit)
        } else {
            Err(RunelParseError::InvalidCommand(head))
        }
    }

    /// The command as it is written on a line.
    pub fn to_string(&self) -> (s: String)
        ensures
            s@ == command_line(*self),
    {
        match self {
            RunelCommand::SetWidget { widget, value } => {
                let mut s = String::from_str("set:");
                s.append(widget.name());
                s.append(":");
                s.append(value.as_str());
                s
            },
            RunelCommand::Mode { mode, .. } => {
                let mut s = String::from_str("mode:");
                let name = mode.to_string();
                s.append(name.as_str());
                s
            },
            RunelCommand::Reload => String::from_str("reload"),
            RunelCommand::Quit => String::from_str("quit"),
        }
    }
}

} // verus!
