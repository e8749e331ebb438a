//! The window manager's status as a line of its own: each report is
//! printed once, in the colours given.

use vstd::prelude::*;
use vstd::string::*;
use crate::color::{drawn, Color};
use crate::text::{chars_of, find_char, first_index, lemma_first_index_bounds, str_eq, string_of};

verus! {

/// The colours of the window manager's status.
pub struct Colors {
    /// The colour of a free desktop.
    pub free: Color,
    /// The colour of a monitor.
    pub monitor: Color,
    /// The colour of an occupied desktop.
    pub occupied: Color,
    /// The colour of an urgent desktop.
    pub urgent: Color,
    /// The colour of the focused node's state.
    pub state: Color,
}

/// One item of a report as it is printed: `marker` is the item's first
/// character, `name` the rest. A monitor, a free, an occupied or an urgent
/// desktop is set off by dashes where it is the focused one (a capital
/// marker), and the state of the focused node follows a blank. Items of
/// another kind are not printed.
pub open spec fn item_line(marker: char, name: Seq<char>, c: &Colors) -> Seq<char> {
    if marker == 'm' {
        " "@ + drawn(c.monitor.spec_text(), name) + "  "@
    } else if marker == 'M' {
        "-"@ + drawn(c.monitor.spec_text(), name) + "- "@
    } else if marker == 'f' {
        " "@ + drawn(c.free.spec_text(), name) + "  "@
    } else if marker == 'F' {
        "-"@ + drawn(c.free.spec_text(), name) + "- "@
    } else if marker == 'o' {
        " "@ + drawn(c.occupied.spec_text(), name) + "  "@
    } else if marker == 'O' {
        "-"@ + drawn(c.occupied.spec_text(), name) + "- "@
    } else if marker == 'u' {
        " "@ + drawn(c.urgent.spec_text(), name) + "  "@
    } else if marker == 'U' {
        "-"@ + drawn(c.urgent.spec_text(), name) + "- "@
    } else if marker == 'L' || marker == 'T' || marker == 'G' {
        " "@ + drawn(c.state.spec_text(), name)
    } else {
        Seq::empty()
    }
}

/// One item of a report as it is printed. An item of fewer than two
/// characters has no name and is not printed.
pub open spec fn segment_line(segment: Seq<char>, c: &Colors) -> Seq<char> {
    if segment.len() < 2 {
        Seq::empty()
    } else {
        item_line(segment[0], segment.skip(1), c)
    }
}

/// The items of a report, which `:` separates, as they are printed.
pub open spec fn segments_line(s: Seq<char>, c: &Colors) -> Seq<char>
    decreases s.len(),
{
    let n = first_index(s, ':') as int;
    if n >= s.len() {
        segment_line(s, c)
    } else {
        segment_line(s.take(n), c) + segments_line(s.skip(n + 1), c)
    }
}

/// A report as it is printed, without the line feed. The report's first
/// character is not part of any item; a report that is empty or starts
/// outside ASCII prints as nothing.
pub open spec fn report_line(report: Seq<char>, c: &Colors) -> Seq<char> {
    if report.len() == 0 || report[0] >= '\u{80}' {
        Seq::empty()
    } else {
        segments_line(report.skip(1), c)
    }
}

/// Appends `before + name in colour + after`.
fn write_named(
    out: &mut String,
    before: &str,
    color: &Color,
    cs: &Vec<char>,
    from: usize,
    to: usize,
    after: &str,
)
    requires
        from <= to <= cs.len(),
    ensures
        final(out)@ == old(out)@ + (before@ + drawn(
            color.spec_text(),
            cs@.subrange(from as int, to as int),
        ) + after@),
{
    let name = string_of(cs, from, to);
    out.append(before);
    color.draw(name.as_str()).write_to(out);
    out.append(after);
}

fn write_item(out: &mut String, cs: &Vec<char>, from: usize, to: usize, c: &Colors)
    requires
        from <= to <= cs.len(),
    ensures
        final(out)@ == old(out)@ + segment_line(cs@.subrange(from as int, to as int), c),
{
    if to - from < 2 {
        return ;
    }
    let marker = cs[from];
    assert(cs@.subrange(from as int, to as int).skip(1) == cs@.subrange(from + 1, to as int));
    assert(cs@.subrange(from as int, to as int)[0] == marker);
    proof {
        reveal_strlit("");
    }
    if marker == 'm' {
        write_named(out, " ", &c.monitor, cs, from + 1, to, "  ");
    } else if marker == 'M' {
        write_named(out, "-", &c.monitor, cs, from + 1, to, "- ");
    } else if marker == 'f' {
        write_named(out, " ", &c.free, cs, from + 1, to, "  ");
    } else if marker == 'F' {
        write_named(out, "-", &c.free, cs, from + 1, to, "- ");
    } else if marker == 'o' {
        write_named(out, " ", &c.occupied, cs, from + 1, to, "  ");
    } else if marker == 'O' {
        write_named(out, "-", &c.occupied, cs, from + 1, to, "- ");
    } else if marker == 'u' {
        write_named(out, " ", &c.urgent, cs, from + 1, to, "  ");
    } else if marker == 'U' {
        write_named(out, "-", &c.urgent, cs, from + 1, to, "- ");
    } else if marker == 'L' || marker == 'T' || marker == 'G' {
        write_named(out, " ", &c.state, cs, from + 1, to, "");
        assert(" "@ + drawn(c.state.spec_text(), cs@.subrange(from + 1, to as int)) + ""@ == " "@
            + drawn(c.state.spec_text(), cs@.subrange(from + 1, to as int)));
    }
}

/// Appends a report to `out` as it is printed, with a line feed after it.
pub fn print_bspwm(c: &Colors, out: &mut String, bspwm: &str)
    ensures
        final(out)@ == old(out)@ + (report_line(bspwm@, c) + "\n"@),
{
    let cs = chars_of(bspwm);
    let mut line = String::new();
    if !(cs.len() == 0 || cs[0] >= '\u{80}') {
        let mut start: usize = 1;
        let mut more = true;
        while more
            invariant
                1 <= start <= cs.len(),
                more ==> line@ + segments_line(cs@.skip(start as int), c) == segments_line(
                    cs@.skip(1),
                    c,
                ),
                !more ==> line@ == segments_line(cs@.skip(1), c),
            decreases cs.len() - start + (if more { 1int } else { 0int }),
        {
            let end = find_char(&cs, start, ':');
            let ghost rest = cs@.skip(start as int);
            let ghost before = line@;
            proof {
                lemma_first_index_bounds(rest, ':');
                assert(rest.take(end - start) == cs@.subrange(start as int, end as int));
                if end >= cs.len() {
                    assert(rest == cs@.subrange(start as int, end as int));
                } else {
                    assert(rest.skip(end - start + 1) == cs@.skip(end + 1));
                }
            }
            write_item(&mut line, &cs, start, end, c);
            if end >= cs.len() {
                more = false;
            } else {
                start = end + 1;
            }
            assert(more ==> line@ + segments_line(cs@.skip(start as int), c) == before
                + segments_line(rest, c));
        }
    }
    line.append("\n");
    out.append(line.as_str());
}

/// Handles a report of the window manager, which comes with a line feed
/// at its end: a report that differs from `last`, the one before it, is
/// printed to `out`. The report takes the place of `last`.
pub fn on_report(c: &Colors, out: &mut String, last: &mut String, report: String) -> (printed:
    bool)
    ensures
        final(last)@ == crate::text::without_last(report@),
        printed == (old(last)@ != final(last)@),
        final(out)@ == if printed {
            old(out)@ + (report_line(final(last)@, c) + "\n"@)
        } else {
            old(out)@
        },
{
    let mut new_buf = report;
    new_buf.pop();
    let printed = !str_eq(new_buf.as_str(), last.as_str());
    if printed {
        print_bspwm(c, out, new_buf.as_str());
    }
    *last = new_buf;
    printed
}

} // verus!
