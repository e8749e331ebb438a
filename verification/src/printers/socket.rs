//! The printer for the commands that come over the panel's socket.

use vstd::prelude::*;
use vstd::string::*;
use crate::command::{parse_spec, parsed_view, RunelCommand};
use crate::error::PrinterError;

verus! {

/// The printer for the commands that come over the panel's socket.
pub struct Socket;

impl Socket {
    pub fn new() -> Self {
        Socket
    }

    /// Parses a line from the socket. A line that is no command ends the
    /// printer with the parse error.
    pub fn on_line(line: &str) -> (parsed: Result<RunelCommand, PrinterError>)
        ensures
            match parsed {
                Ok(command) => parse_spec(line@) == parsed_view(Ok(command)),
                Err(PrinterError::RunelParseError(e)) => parse_spec(line@) == parsed_view(Err(e)),
                Err(_) => false,
            },
    {
        match RunelCommand::from_str(line) {
            Ok(command) => Ok(command),
            Err(e) => Err(PrinterError::RunelParseError(e)),
        }
    }

    /// The error with which the printer ends when a part of it has gone:
    /// the listener (`socket listener: ` and the reason), a connection (the
    /// reason and `: socket connection`), or the printer's own loop
    /// (`socket`).
    pub fn unreachable(before: &str, reason: &str, after: &str) -> (e: PrinterError)
        ensures
            e matches PrinterError::Unreachable(what) && what@ == before@ + reason@ + after@,
    {
        let mut what = String::from_str(before);
        what.append(reason);
        what.append(after);
        PrinterError::Unreachable(what)
    }
}

} // verus!
