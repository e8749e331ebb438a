//! The errors of the command language and of the colour lookup.

use vstd::prelude::*;
use vstd::string::*;

verus! {

/// Why a line is no command.
#[derive(Debug)]
pub enum RunelParseError {
    /// The line has no `:`.
    InvalidSyntax,
    /// The word before the first `:` names no command.
    InvalidCommand(String),
    /// What follows `set:` has no `:`.
    InvalidSetSyntax,
    /// The word after `set:` names no widget.
    InvalidWidget(String),
}

/// `regex::Error`: why a pattern did not compile.
#[verifier::external_type_specification]
#[verifier::external_body]
pub struct ExRegexError(regex::Error);

/// Why a printer stopped.
#[derive(Debug)]
pub enum PrinterError {
    /// The pattern for the window manager's socket did not compile.
    RegexError(regex::Error),
    /// No socket of the window manager was found.
    BspwmNotFound,
    /// The mixer has no master control.
    SelemNotFound,
    /// A line from the socket is no command.
    RunelParseError(RunelParseError),
    /// The stream of the named printer ended, which it never should.
    Unreachable(String),
    /// The keyboard extension of the display failed in the way named.
    KbdError(&'static str),
}

/// The X display could not be opened.
#[derive(Debug)]
pub struct XDisplayError;

/// The message of a parse error.
pub open spec fn parse_error_message(e: RunelParseError) -> Seq<char> {
    match e {
        RunelParseError::InvalidSyntax =>
            "Could not find ':' char. The command syntax is wrong"@,
        RunelParseError::InvalidCommand(s) => "'"@ + s@ + "' is not a valid command"@,
        RunelParseError::InvalidSetSyntax =>
            "Syntax for 'set' command is not valid: could not find ':' char or the value is empty"@,
        RunelParseError::InvalidWidget(s) => "Non existent widget '"@ + s@ + "'"@,
    }
}

impl RunelParseError {
    /// The error's message.
    pub fn to_string(&self) -> (s: String)
        ensures
            s@ == parse_error_message(*self),
    {
        match self {
            RunelParseError::InvalidSyntax => String::from_str(
                "Could not find ':' char. The command syntax is wrong",
            ),
            RunelParseError::InvalidCommand(name) => {
                let mut s = String::from_str("'");
                s.append(name.as_str());
                s.append("' is not a valid command");
                s
            },
            RunelParseError::InvalidSetSyntax => String::from_str(
                "Syntax for 'set' command is not valid: could not find ':' char or the value is empty",
            ),
            RunelParseError::InvalidWidget(name) => {
                let mut s = String::from_str("Non existent widget '");
                s.append(name.as_str());
                s.append("'");
                s
            },
        }
    }
}

/// The message of a printer's error, but for that of a pattern, which the
/// pattern's compiler words.
pub open spec fn printer_error_message(e: PrinterError) -> Seq<char> {
    match e {
        PrinterError::RegexError(_) => Seq::empty(),
        PrinterError::BspwmNotFound => "Can't find bspwm socket"@,
        PrinterError::SelemNotFound => "Can't find alsa selem"@,
        PrinterError::RunelParseError(e) => parse_error_message(e),
        PrinterError::Unreachable(name) => "Reached unreachable in main loop of printer '"@ + name@
            + "'"@,
        PrinterError::KbdError(what) => what@,
    }
}

/// `regex::Error`'s `Display`, as a string. Nothing is said of the wording.
#[verifier::external_body]
fn regex_error_message(e: &regex::Error) -> String {
    format!("{}", e)
}

impl PrinterError {
    /// The error's message.
    pub fn to_string(&self) -> (s: String)
        ensures
            !(*self is RegexError) ==> s@ == printer_error_message(*self),
    {
        match self {
            PrinterError::RegexError(e) => regex_error_message(e),
            PrinterError::BspwmNotFound => String::from_str("Can't find bspwm socket"),
            PrinterError::SelemNotFound => String::from_str("Can't find alsa selem"),
            PrinterError::RunelParseError(e) => e.to_string(),
            PrinterError::Unreachable(name) => {
                let mut s = String::from_str("Reached unreachable in main loop of printer '");
                s.append(name.as_str());
                s.append("'");
                s
            },
            PrinterError::KbdError(what) => String::from_str(what),
        }
    }
}

impl XDisplayError {
    /// The error's message.
    pub fn to_string(&self) -> (s: String)
        ensures
            s@ == "Could not get XDisplay"@,
    {
        String::from_str("Could not get XDisplay")
    }
}

} // verus!
