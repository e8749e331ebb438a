//! The widgets of the panel: what each one holds and how the bar shows it.

use vstd::prelude::*;
use vstd::string::*;
use crate::colors::{Color, Colors};
use crate::text::{
    chars_of, find_char, first_index, lemma_first_index_bounds, push_range, str_eq,
    strip_newlines, without_newlines,
};

verus! {

/// Whether a widget took a new value.
#[derive(Clone, Copy, Debug, PartialEq, Eq, Structural)]
pub enum WidgetStatus {
    Updated,
    NotUpdated,
}

impl WidgetStatus {
    /// Whether the widget took a new value, so that the bar is to be drawn
    /// again.
    pub fn is_updated(&self) -> (updated: bool)
        ensures
            updated == (*self == WidgetStatus::Updated),
    {
        match self {
            WidgetStatus::Updated => true,
            WidgetStatus::NotUpdated => false,
        }
    }
}

/// A widget and its value.
#[derive(Debug)]
pub enum Widget {
    /// The window manager's report on monitors, desktops and the focused
    /// node.
    Bspwm { v: String },
    /// The title of the focused window.
    Title { v: String },
    /// A value under the heading `h`.
    Info { v: String, h: &'static str },
    /// A fixed piece of markup.
    Text { v: String },
}

/// One item of the window manager's report as the bar shows it: `marker` is
/// the item's first character, `text` the rest. A monitor, a free, an
/// occupied or an urgent desktop is set off by dashes where it is the
/// focused one (a capital marker), and the state of the focused node
/// follows a blank. Items of another kind are not shown.
pub open spec fn item_markup(marker: char, text: Seq<char>, c: &Colors) -> Seq<char> {
    if marker == 'm' {
        c.monitor.switch() + " "@ + text + "  "@
    } else if marker == 'M' {
        c.monitor.switch() + "-"@ + text + "- "@
    } else if marker == 'f' {
        c.free.switch() + " "@ + text + "  "@
    } else if marker == 'F' {
        c.free.switch() + "-"@ + text + "- "@
    } else if marker == 'o' {
        c.occupied.switch() + " "@ + text + "  "@
    } else if marker == 'O' {
        c.occupied.switch() + "-"@ + text + "- "@
    } else if marker == 'u' {
        c.urgent.switch() + " "@ + text + "  "@
    } else if marker == 'U' {
        c.urgent.switch() + "-"@ + text + "- "@
    } else if marker == 'L' || marker == 'T' || marker == 'G' {
        " "@ + c.state.switch() + text
    } else {
        Seq::empty()
    }
}

/// One item of the report as the bar shows it. An item of fewer than two
/// characters has no text and is not shown.
pub open spec fn segment_markup(segment: Seq<char>, c: &Colors) -> Seq<char> {
    if segment.len() < 2 {
        Seq::empty()
    } else {
        item_markup(segment[0], segment.skip(1), c)
    }
}

/// The items of a report, which `:` separates, as the bar shows them.
pub open spec fn segments_markup(s: Seq<char>, c: &Colors) -> Seq<char>
    decreases s.len(),
{
    let n = first_index(s, ':') as int;
    if n >= s.len() {
        segment_markup(s, c)
    } else {
        segment_markup(s.take(n), c) + segments_markup(s.skip(n + 1), c)
    }
}

/// The window manager's report as the bar shows it. The report's first
/// character is not part of any item; a report that is empty or starts
/// outside ASCII shows nothing.
pub open spec fn bspwm_markup(v: Seq<char>, c: &Colors) -> Seq<char> {
    if v.len() == 0 || v[0] >= '\u{80}' {
        Seq::empty()
    } else {
        segments_markup(v.skip(1), c)
    }
}

/// Appends `colour + " " + text + "  "`: an item that is not focused.
fn write_plain(out: &mut String, color: &Color, cs: &Vec<char>, from: usize, to: usize)
    requires
        from <= to <= cs.len(),
    ensures
        final(out)@ == old(out)@ + (color.switch() + " "@ + cs@.subrange(from as int, to as int)
            + "  "@),
{
    color.write_to(out);
    out.append(" ");
    push_range(out, cs, from, to);
    out.append("  ");
}

/// Appends `colour + "-" + text + "- "`: the focused item.
fn write_focused(out: &mut String, color: &Color, cs: &Vec<char>, from: usize, to: usize)
    requires
        from <= to <= cs.len(),
    ensures
        final(out)@ == old(out)@ + (color.switch() + "-"@ + cs@.subrange(from as int, to as int)
            + "- "@),
{
    color.write_to(out);
    out.append("-");
    push_range(out, cs, from, to);
    out.append("- ");
}

/// Appends `" " + colour + text`: the state of the focused node.
fn write_state(out: &mut String, color: &Color, cs: &Vec<char>, from: usize, to: usize)
    requires
        from <= to <= cs.len(),
    ensures
        final(out)@ == old(out)@ + (" "@ + color.switch() + cs@.subrange(from as int, to as int)),
{
    out.append(" ");
    color.write_to(out);
    push_range(out, cs, from, to);
}

fn write_item(out: &mut String, cs: &Vec<char>, from: usize, to: usize, c: &Colors)
    requires
        from <= to <= cs.len(),
    ensures
        final(out)@ == old(out)@ + segment_markup(cs@.subrange(from as int, to as int), c),
{
    if to - from < 2 {
        return ;
    }
    let marker = cs[from];
    assert(cs@.subrange(from as int, to as int).skip(1) == cs@.subrange(from + 1, to as int));
    assert(cs@.subrange(from as int, to as int)[0] == marker);
    if marker == 'm' {
        write_plain(out, &c.monitor, cs, from + 1, to);
    } else if marker == 'M' {
        write_focused(out, &c.monitor, cs, from + 1, to);
    } else if marker == 'f' {
        write_plain(out, &c.free, cs, from + 1, to);
    } else if marker == 'F' {
        write_focused(out, &c.free, cs, from + 1, to);
    } else if marker == 'o' {
        write_plain(out, &c.occupied, cs, from + 1, to);
    } else if marker == 'O' {
        write_focused(out, &c.occupied, cs, from + 1, to);
    } else if marker == 'u' {
        write_plain(out, &c.urgent, cs, from + 1, to);
    } else if marker == 'U' {
        write_focused(out, &c.urgent, cs, from + 1, to);
    } else if marker == 'L' || marker == 'T' || marker == 'G' {
        write_state(out, &c.state, cs, from + 1, to);
    }
}

fn write_bspwm(out: &mut String, v: &str, c: &Colors)
    ensures
        final(out)@ == old(out)@ + bspwm_markup(v@, c),
{
    let cs = chars_of(v);
    if cs.len() == 0 || cs[0] >= '\u{80}' {
        return ;
    }
    let mut start: usize = 1;
    let mut more = true;
    while more
        invariant
            1 <= start <= cs.len(),
            more ==> out@ + segments_markup(cs@.skip(start as int), c) == old(out)@
                + segments_markup(cs@.skip(1), c),
            !more ==> out@ == old(out)@ + segments_markup(cs@.skip(1), c),
        decreases cs.len() - start + (if more { 1int } else { 0int }),
    {
        let end = find_char(&cs, start, ':');
        let ghost rest = cs@.skip(start as int);
        let ghost before = out@;
        proof {
            lemma_first_index_bounds(rest, ':');
            assert(rest.take(end - start) == cs@.subrange(start as int, end as int));
            if end >= cs.len() {
                assert(rest == cs@.subrange(start as int, end as int));
            } else {
                assert(rest.skip(end - start + 1) == cs@.skip(end + 1));
            }
        }
        write_item(out, &cs, start, end, c);
        if end >= cs.len() {
            more = false;
        } else {
            start = end + 1;
        }
        assert(more ==> out@ + segments_markup(cs@.skip(start as int), c) == before
            + segments_markup(rest, c));
    }
}

impl Widget {
    /// The widget's value.
    pub open spec fn value(&self) -> Seq<char> {
        match *self {
            Widget::Bspwm { v } => v@,
            Widget::Title { v } => v@,
            Widget::Info { v, .. } => v@,
            Widget::Text { v } => v@,
        }
    }

    /// Whether the two widgets are of one kind, and under one heading if
    /// they have one.
    pub open spec fn same_kind(&self, other: &Widget) -> bool {
        match (*self, *other) {
            (Widget::Bspwm { .. }, Widget::Bspwm { .. }) => true,
            (Widget::Title { .. }, Widget::Title { .. }) => true,
            (Widget::Info { h: a, .. }, Widget::Info { h: b, .. }) => a@ == b@,
            (Widget::Text { .. }, Widget::Text { .. }) => true,
            _ => false,
        }
    }

    /// The widget as the bar shows it, in the colours `c`.
    pub open spec fn markup(&self, c: &Colors) -> Seq<char> {
        match *self {
            Widget::Bspwm { v } => bspwm_markup(v@, c),
            Widget::Title { v } => c.title.switch() + v@,
            Widget::Info { v, h } => c.info_head.switch() + h@ + "  "@ + c.info.switch() + v@,
            Widget::Text { v } => v@,
        }
    }

    /// The widget for the window manager's report, empty.
    pub fn new_bspwm() -> (w: Widget)
        ensures
            w is Bspwm,
            w.value().len() == 0,
    {
        Widget::Bspwm { v: String::new() }
    }

    /// The widget for the window's title, empty.
    pub fn new_title() -> (w: Widget)
        ensures
            w is Title,
            w.value().len() == 0,
    {
        Widget::Title { v: String::new() }
    }

    /// A widget for a value under the heading `h`, empty.
    pub fn new_info(h: &'static str) -> (w: Widget)
        ensures
            w matches Widget::Info { h: head, .. } && head@ == h@,
            w.value().len() == 0,
    {
        Widget::Info { h, v: String::new() }
    }

    /// A widget that shows `v` as it is.
    pub fn new_text(v: &str) -> (w: Widget)
        ensures
            w is Text,
            w.value() == v@,
    {
        Widget::Text { v: v.to_owned() }
    }

    /// Gives the widget the value `v`, without its line feeds, unless `v` is
    /// the value it has.
    pub fn set(&mut self, v: String) -> (status: WidgetStatus)
        ensures
            status == if old(self).value() != v@ {
                WidgetStatus::Updated
            } else {
                WidgetStatus::NotUpdated
            },
            final(self).same_kind(old(self)),
            final(self).value() == if old(self).value() != v@ {
                strip_newlines(v@)
            } else {
                old(self).value()
            },
    {
        if !str_eq(self.v(), v.as_str()) {
            let stripped = without_newlines(v.as_str());
            match self {
                Widget::Bspwm { v: val } => {
                    *val = stripped;
                },
                Widget::Title { v: val } => {
                    *val = stripped;
                },
                Widget::Info { v: val, .. } => {
                    *val = stripped;
                },
                Widget::Text { v: val } => {
                    *val = stripped;
                },
            }
            WidgetStatus::Updated
        } else {
            WidgetStatus::NotUpdated
        }
    }

    /// The widget's value.
    pub fn v(&self) -> (v: &str)
        ensures
            v@ == self.value(),
    {
        match self {
            Widget::Bspwm { v } => v.as_str(),
            Widget::Title { v } => v.as_str(),
            Widget::Info { v, .. } => v.as_str(),
            Widget::Text { v } => v.as_str(),
        }
    }

    /// Appends the widget as the bar shows it, in the colours `c`.
    pub fn write_to(&self, out: &mut String, c: &Colors)
        ensures
            final(out)@ == old(out)@ + self.markup(c),
    {
        match self {
            Widget::Bspwm { v } => {
                write_bspwm(out, v.as_str(), c);
            },
            Widget::Title { v } => {
                c.title.write_to(out);
                out.append(v.as_str());
            },
            Widget::Info { v, h } => {
                c.info_head.write_to(out);
                out.append(h);
                out.append("  ");
                c.info.write_to(out);
                out.append(v.as_str());
            },
            Widget::Text { v } => {
                out.append(v.as_str());
            },
        }
    }

    /// The widget as the bar shows it, in the colours `c`.
    pub fn to_string(&self, c: &Colors) -> (s: String)
        ensures
            s@ == self.markup(c),
    {
        let mut s = String::new();
        self.write_to(&mut s, c);
        s
    }
}

} // verus!
