//! The printer for the window manager: where its socket is, and what
//! becomes of the lines that come over it.

use vstd::prelude::*;
use crate::command::RunelCommand;
use crate::error::PrinterError;
use crate::widget::RunelWidget;

verus! {

/// `regex::Regex`: a compiled pattern.
#[verifier::external_type_specification]
#[verifier::external_body]
pub struct ExRegex(regex::Regex);

/// What `regex::Regex::new` makes of a pattern: the compiled pattern, or the
/// reason why there is none.
pub uninterp spec fn compiled(pattern: Seq<char>) -> Result<regex::Regex, regex::Error>;

/// Whether `regex::Regex::is_match` finds a match for `re` anywhere in
/// `haystack`.
pub uninterp spec fn matches_somewhere(re: regex::Regex, haystack: Seq<char>) -> bool;

/// `regex::Regex::new`: compiles the pattern with the default settings.
/// What comes of it depends on the pattern alone.
#[verifier::external_body]
fn compile(pattern: &str) -> (made: Result<regex::Regex, regex::Error>)
    ensures
        made == compiled(pattern@),
{
    regex::Regex::new(pattern)
}

/// `regex::Regex::is_match`: whether the pattern matches anywhere in the
/// haystack. The answer depends on the compiled pattern and the haystack
/// alone.
#[verifier::external_body]
fn is_match(re: &regex::Regex, haystack: &str) -> (found: bool)
    ensures
        found == matches_somewhere(*re, haystack@),
{
    re.is_match(haystack)
}

/// The pattern of the path of the window manager's socket.
pub const SOCKET_PATTERN: &'static str = r"bspwm(\w+)?_(\d+)?_(\d+)?-socket";

/// The request that subscribes to the window manager's reports.
pub const SUBSCRIBE: &'static str = "subscribe\x00report\x00";

/// The printer for the window manager's reports.
pub struct Bspwm;

/// Whether `re` matches none of the first `n` of `entries`.
pub open spec fn none_before(re: regex::Regex, entries: Seq<String>, n: int) -> bool {
    forall|j: int| 0 <= j < n ==> !matches_somewhere(re, (#[trigger] entries[j])@)
}

/// Where the socket is among `entries`, the paths found in the directory
/// of sockets: the first that `pattern` matches.
pub open spec fn socket_among(pattern: Seq<char>, entries: Seq<String>, found: Result<
    String,
    PrinterError,
>) -> bool {
    match compiled(pattern) {
        Err(why) => found == Err::<String, PrinterError>(PrinterError::RegexError(why)),
        Ok(re) => match found {
            Ok(path) => exists|i: int|
                0 <= i < entries.len() && none_before(re, entries, i) && matches_somewhere(
                    re,
                    (#[trigger] entries[i])@,
                ) && path@ == entries[i]@,
            Err(e) => e is BspwmNotFound && none_before(re, entries, entries.len() as int),
        },
    }
}

/// Picks out the first of `entries` that the compiled pattern matches.
pub fn first_match(re: &regex::Regex, entries: &Vec<String>) -> (at: Option<usize>)
    ensures
        match at {
            Some(i) => i < entries.len() && none_before(*re, entries@, i as int)
                && matches_somewhere(*re, entries@[i as int]@),
            None => none_before(*re, entries@, entries@.len() as int),
        },
{
    let mut i: usize = 0;
    while i < entries.len()
        invariant
            i <= entries.len(),
            none_before(*re, entries@, i as int),
        decreases entries.len() - i,
    {
        if is_match(re, entries[i].as_str()) {
            return Some(i);
        }
        i += 1;
    }
    None
}

impl Bspwm {
    pub fn new() -> Self {
        Bspwm
    }

    /// Finds the window manager's socket among `entries`, the paths found
    /// in the directory of sockets: the first that matches
    /// [`SOCKET_PATTERN`].
    pub fn find_socket(entries: &Vec<String>) -> (found: Result<String, PrinterError>)
        ensures
            socket_among(SOCKET_PATTERN@, entries@, found),
    {
        match compile(SOCKET_PATTERN) {
            Err(why) => Err(PrinterError::RegexError(why)),
            Ok(re) => match first_match(&re, entries) {
                Some(i) => Ok(entries[i].clone()),
                None => Err(PrinterError::BspwmNotFound),
            },
        }
    }

    /// The command for a line of the window manager.
    pub fn command(line: String) -> (command: RunelCommand)
        ensures
            command matches RunelCommand::SetWidget { widget, value } && widget
                == RunelWidget::Bspwm && value@ == line@,
    {
        RunelCommand::SetWidget { widget: RunelWidget::Bspwm, value: line }
    }

    /// The error with which the printer ends when the stream of lines does.
    pub fn unreachable() -> (e: PrinterError)
        ensures
            e matches PrinterError::Unreachable(name) && name@ == "bspwm"@,
    {
        PrinterError::Unreachable("bspwm".to_owned())
    }
}

} // verus!
