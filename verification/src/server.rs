//! The aggregator: composes the bar's line from the current values whenever
//! a source reports a change.

use vstd::prelude::*;
use vstd::string::*;
use crate::color::{drawn, Color};

verus! {

/// The values that the bar shows.
#[derive(Debug)]
pub struct Bar {
    /// The window manager's status.
    pub wmstatus: String,
    /// The title of the focused window.
    pub title: String,
    /// The line of the active mode.
    pub mode: String,
}

impl Default for Bar {
    /// A bar whose values are all empty.
    fn default() -> (bar: Bar)
        ensures
            bar.wmstatus@.len() == 0,
            bar.title@.len() == 0,
            bar.mode@.len() == 0,
    {
        Bar { wmstatus: String::new(), title: String::new(), mode: String::new() }
    }
}

/// The bar's line: the status and the title on the left, the title drawn in
/// `title`, and the mode's line on the right.
pub open spec fn bar_line(
    title: Option<Seq<char>>,
    wmstatus: Seq<char>,
    text: Seq<char>,
    mode: Seq<char>,
) -> Seq<char> {
    "%{l} "@ + wmstatus + " "@ + drawn(title, text) + "%{r} "@ + mode + " \n"@
}

impl Bar {
    /// The line that shows these values, with the title drawn in `title`.
    pub open spec fn line(&self, title: &Color) -> Seq<char> {
        bar_line(title.spec_text(), self.wmstatus@, self.title@, self.mode@)
    }
}

/// Appends the bar's line to `out`.
pub fn print_bar(title: &Color, out: &mut String, bar: &Bar)
    ensures
        final(out)@ == old(out)@ + bar.line(title),
{
    out.append("%{l} ");
    out.append(bar.wmstatus.as_str());
    out.append(" ");
    title.draw(bar.title.as_str()).write_to(out);
    out.append("%{r} ");
    out.append(bar.mode.as_str());
    out.append(" \n");
}

/// Handles one message of the sources: on a notification `buf` is
/// overwritten with the line to send to the bar, and an error is handed
/// back, which ends the loop.
pub fn redraw<E>(title: &Color, buf: &mut String, bar: &Bar, message: Result<(), E>) -> (outcome:
    Result<(), E>)
    ensures
        message is Ok ==> outcome is Ok && final(buf)@ == bar.line(title),
        message matches Err(e) ==> outcome == Err::<(), E>(e),
        message is Err ==> final(buf)@ == old(buf)@,
{
    match message {
        Ok(()) => {
            *buf = String::new();
            print_bar(title, buf, bar);
            Ok(())
        },
        Err(e) => Err(e),
    }
}

/// The position of the first error among `notes`, or their number if there
/// is none.
pub open spec fn first_failure<E>(notes: Seq<Result<Bar, E>>) -> int
    decreases notes.len(),
{
    if notes.len() == 0 {
        0
    } else if notes[0] is Err {
        0
    } else {
        1 + first_failure(notes.drop_first())
    }
}

/// Whether `line` is the line sent for the notification `note`.
pub open spec fn is_line_of<E>(line: String, note: Result<Bar, E>, title: &Color) -> bool {
    note matches Ok(bar) && line@ == bar.line(title)
}

/// Runs the aggregator over a recorded stream: each entry is a notification
/// together with the values as they stood when it was handled, or the error
/// of a source. Returns the lines sent to the bar, one for each notification
/// before the first error and in the same order, and that error if there is
/// one.
pub fn run<E>(title: &Color, notes: Vec<Result<Bar, E>>) -> (outcome: (Vec<String>, Option<E>))
    ensures
        outcome.0@.len() == first_failure(notes@),
        forall|i: int|
            0 <= i < outcome.0@.len() ==> is_line_of(#[trigger] outcome.0@[i], notes@[i], title),
        match outcome.1 {
            Some(e) => first_failure(notes@) < notes@.len() && notes@[first_failure(notes@)]
                == Err::<Bar, E>(e),
            None => first_failure(notes@) == notes@.len(),
        },
{
    let mut lines: Vec<String> = Vec::new();
    let mut buf = String::new();
    assert(notes@.skip(0) == notes@);
    for note in it: notes
        invariant
            it.seq() == notes@,
            lines@.len() == it.index(),
            first_failure(notes@) == it.index() + first_failure(notes@.skip(it.index() as int)),
            forall|i: int|
                0 <= i < lines@.len() ==> is_line_of(#[trigger] lines@[i], notes@[i], title),
    {
        proof {
            let rest = notes@.skip(it.index() as int);
            assert(rest[0] == notes@[it.index() as int]);
            assert(rest.drop_first() == notes@.skip(it.index() + 1));
            assert(note == notes@[it.index() as int]);
        }
        match note {
            Ok(bar) => {
                let _ = redraw::<E>(title, &mut buf, &bar, Ok(()));
                let ghost before = lines@;
                lines.push(buf.clone());
                assert(forall|i: int| 0 <= i < before.len() ==> lines@[i] == before[i]);
            },
            Err(e) => {
                return (lines, Some(e));
            },
        }
    }
    (lines, None)
}

} // verus!
