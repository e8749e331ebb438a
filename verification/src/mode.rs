//! Mode descriptors: the name of a mode and the program that drives it.

use vstd::prelude::*;
use vstd::string::*;
use crate::text::str_eq;

verus! {

/// A mode: its name and the path of its executable.
#[derive(Debug)]
pub struct Mode {
    pub mode: String,
    pub path: String,
}

/// The message for a mode whose executable is missing.
pub open spec fn missing_mode(name: Seq<char>) -> Seq<char> {
    "Mode \""@ + name + "\" does not exists"@
}

impl Mode {
    /// Accepts `s` as a mode name if `path`, the place where its executable
    /// is looked for, holds a regular file (`is_file`).
    pub fn from_str(s: &str, path: String, is_file: bool) -> (parsed: Result<Mode, String>)
        ensures
            is_file ==> (parsed matches Ok(m) && m.mode@ == s@ && m.path@ == path@),
            !is_file ==> (parsed matches Err(e) && e@ == missing_mode(s@)),
    {
        if !is_file {
            let mut e = String::from_str("Mode \"");
            e.append(s);
            e.append("\" does not exists");
            Err(e)
        } else {
            Ok(Mode { mode: s.to_owned(), path })
        }
    }

    /// The mode's name, as it is shown and sent.
    pub fn to_string(&self) -> (s: String)
        ensures
            s@ == self.mode@,
    {
        self.mode.clone()
    }
}

impl PartialEq for Mode {
    /// Two modes are the same mode when their names are equal.
    fn eq(&self, other: &Self) -> (same: bool) {
        str_eq(self.mode.as_str(), other.mode.as_str())
    }
}

impl vstd::std_specs::cmp::PartialEqSpecImpl for Mode {
    open spec fn obeys_eq_spec() -> bool {
        true
    }

    open spec fn eq_spec(&self, other: &Self) -> bool {
        self.mode@ == other.mode@
    }
}

/// The two layouts of the panel.
#[derive(Debug, Clone, Copy, PartialEq, Eq, Hash, Structural)]
pub enum RunelMode {
    /// The panel's own widgets.
    Default,
    /// The line of a mode program in place of the panel's own widgets.
    Custom,
}

/// The layout that a mode name stands for: `default` for the panel's own,
/// any other name for that of a mode program.
pub open spec fn layout_of(name: Seq<char>) -> RunelMode {
    if name == "default"@ {
        RunelMode::Default
    } else {
        RunelMode::Custom
    }
}

/// The name under which a layout is written in a command.
pub open spec fn layout_name(mode: RunelMode) -> Seq<char> {
    match mode {
        RunelMode::Default => "default"@,
        RunelMode::Custom => "custom"@,
    }
}

impl RunelMode {
    /// The layout that the mode name `s` stands for.
    pub fn from_str(s: &str) -> (mode: RunelMode)
        ensures
            mode == layout_of(s@),
    {
        if str_eq(s, "default") {
            RunelMode::Default
        } else {
            RunelMode::Custom
        }
    }

    /// The layout's name.
    pub fn to_string(&self) -> (s: String)
        ensures
            s@ == layout_name(*self),
    {
        match self {
            RunelMode::Default => String::from_str("default"),
            RunelMode::Custom => String::from_str("custom"),
        }
    }
}

} // verus!
