//! The panel: the widgets, their colours and the layout in which the bar
//! shows them.

use vstd::prelude::*;
use vstd::string::*;
use crate::colors::Colors;
use crate::error::XDisplayError;
use crate::mode::RunelMode;
use crate::text::strip_newlines;
use crate::widget::RunelWidget;
use crate::widgets::{Widget, WidgetStatus};

verus! {

/// The place of a widget in the panel's table.
pub open spec fn slot(widget: RunelWidget) -> int {
    match widget {
        RunelWidget::Space => 0,
        RunelWidget::Left => 1,
        RunelWidget::Right => 2,
        RunelWidget::Custom => 3,
        RunelWidget::Bspwm => 4,
        RunelWidget::Title => 5,
        RunelWidget::Timer => 6,
        RunelWidget::Keyboard => 7,
        RunelWidget::Brightness => 8,
        RunelWidget::Volume => 9,
        RunelWidget::Battery => 10,
        RunelWidget::Date => 11,
        RunelWidget::Clock => 12,
    }
}

/// Whether `w` is of the kind that the panel has for `widget`: markup for
/// the blank, the two alignment marks and the custom line, the report and
/// the title each of their own kind, and a value under a one-letter heading
/// for the rest.
pub open spec fn fits(w: Widget, widget: RunelWidget) -> bool {
    match widget {
        RunelWidget::Space | RunelWidget::Left | RunelWidget::Right | RunelWidget::Custom => w
            is Text,
        RunelWidget::Bspwm => w is Bspwm,
        RunelWidget::Title => w is Title,
        RunelWidget::Timer => w matches Widget::Info { h, .. } && h@ == "T"@,
        RunelWidget::Keyboard => w matches Widget::Info { h, .. } && h@ == "K"@,
        RunelWidget::Brightness => w matches Widget::Info { h, .. } && h@ == "L"@,
        RunelWidget::Volume => w matches Widget::Info { h, .. } && h@ == "V"@,
        RunelWidget::Battery => w matches Widget::Info { h, .. } && h@ == "B"@,
        RunelWidget::Date => w matches Widget::Info { h, .. } && h@ == "D"@,
        RunelWidget::Clock => w matches Widget::Info { h, .. } && h@ == "C"@,
    }
}

/// The value that a widget starts with.
pub open spec fn first_value(widget: RunelWidget) -> Seq<char> {
    match widget {
        RunelWidget::Space => " "@,
        RunelWidget::Left => "%{l}"@,
        RunelWidget::Right => "%{r}"@,
        _ => Seq::empty(),
    }
}

/// Whether `ws` is a table of the panel's widgets: one of the fitting kind
/// in each widget's place.
pub open spec fn is_table(ws: Seq<Widget>) -> bool {
    &&& ws.len() == 13
    &&& forall|widget: RunelWidget| fits(#[trigger] ws[slot(widget)], widget)
}

/// The widgets that a layout shows, from left to right.
pub open spec fn layout(mode: RunelMode) -> Seq<RunelWidget> {
    match mode {
        RunelMode::Default => seq![
            RunelWidget::Left,
            RunelWidget::Space,
            RunelWidget::Bspwm,
            RunelWidget::Space,
            RunelWidget::Title,
            RunelWidget::Right,
            RunelWidget::Space,
            RunelWidget::Timer,
            RunelWidget::Space,
            RunelWidget::Space,
            RunelWidget::Keyboard,
            RunelWidget::Space,
            RunelWidget::Space,
            RunelWidget::Brightness,
            RunelWidget::Space,
            RunelWidget::Space,
            RunelWidget::Volume,
            RunelWidget::Space,
            RunelWidget::Space,
            RunelWidget::Battery,
            RunelWidget::Space,
            RunelWidget::Space,
            RunelWidget::Date,
            RunelWidget::Space,
            RunelWidget::Space,
            RunelWidget::Clock,
            RunelWidget::Space,
        ],
        RunelMode::Custom => seq![
            RunelWidget::Left,
            RunelWidget::Space,
            RunelWidget::Bspwm,
            RunelWidget::Space,
            RunelWidget::Title,
            RunelWidget::Right,
            RunelWidget::Space,
            RunelWidget::Custom,
            RunelWidget::Space,
        ],
    }
}

/// The widgets `shown`, taken from the table `ws`, as the bar shows them
/// one after the other in the colours `c`.
pub open spec fn row_markup(shown: Seq<RunelWidget>, ws: Seq<Widget>, c: &Colors) -> Seq<char>
    decreases shown.len(),
{
    if shown.len() == 0 {
        Seq::empty()
    } else {
        row_markup(shown.drop_last(), ws, c) + ws[slot(shown.last())].markup(c)
    }
}

fn slot_of(widget: RunelWidget) -> (at: usize)
    ensures
        at == slot(widget),
{
    match widget {
        RunelWidget::Space => 0,
        RunelWidget::Left => 1,
        RunelWidget::Right => 2,
        RunelWidget::Custom => 3,
        RunelWidget::Bspwm => 4,
        RunelWidget::Title => 5,
        RunelWidget::Timer => 6,
        RunelWidget::Keyboard => 7,
        RunelWidget::Brightness => 8,
        RunelWidget::Volume => 9,
        RunelWidget::Battery => 10,
        RunelWidget::Date => 11,
        RunelWidget::Clock => 12,
    }
}

/// The panel's widgets, each with its first value, in the order of their
/// places.
pub fn rwidgets() -> (ws: Vec<Widget>)
    ensures
        is_table(ws@),
        forall|widget: RunelWidget| (#[trigger] ws@[slot(widget)]).value() == first_value(widget),
{
    let mut ws: Vec<Widget> = Vec::new();
    ws.push(Widget::new_text(" "));
    ws.push(Widget::new_text("%{l}"));
    ws.push(Widget::new_text("%{r}"));
    ws.push(Widget::new_text(""));
    ws.push(Widget::new_bspwm());
    ws.push(Widget::new_title());
    ws.push(Widget::new_info("T"));
    ws.push(Widget::new_info("K"));
    ws.push(Widget::new_info("L"));
    ws.push(Widget::new_info("V"));
    ws.push(Widget::new_info("B"));
    ws.push(Widget::new_info("D"));
    ws.push(Widget::new_info("C"));
    proof {
        reveal_strlit("");
    }
    ws
}

/// The widgets that the layout `mode` shows, from left to right.
pub fn rmodes(mode: RunelMode) -> (shown: Vec<RunelWidget>)
    ensures
        shown@ == layout(mode),
{
    let mut shown: Vec<RunelWidget> = Vec::new();
    shown.push(RunelWidget::Left);
    shown.push(RunelWidget::Space);
    shown.push(RunelWidget::Bspwm);
    shown.push(RunelWidget::Space);
    shown.push(RunelWidget::Title);
    shown.push(RunelWidget::Right);
    shown.push(RunelWidget::Space);
    match mode {
        RunelMode::Default => {
            shown.push(RunelWidget::Timer);
            shown.push(RunelWidget::Space);
            shown.push(RunelWidget::Space);
            shown.push(RunelWidget::Keyboard);
            shown.push(RunelWidget::Space);
            shown.push(RunelWidget::Space);
            shown.push(RunelWidget::Brightness);
            shown.push(RunelWidget::Space);
            shown.push(RunelWidget::Space);
            shown.push(RunelWidget::Volume);
            shown.push(RunelWidget::Space);
            shown.push(RunelWidget::Space);
            shown.push(RunelWidget::Battery);
            shown.push(RunelWidget::Space);
            shown.push(RunelWidget::Space);
            shown.push(RunelWidget::Date);
            shown.push(RunelWidget::Space);
            shown.push(RunelWidget::Space);
            shown.push(RunelWidget::Clock);
            shown.push(RunelWidget::Space);
        },
        RunelMode::Custom => {
            shown.push(RunelWidget::Custom);
            shown.push(RunelWidget::Space);
        },
    }
    shown
}

/// The panel.
pub struct Panel {
    colors: Colors,
    widgets: Vec<Widget>,
    current_mode: RunelMode,
}

impl Panel {
    /// The panel holds one widget of the fitting kind in each widget's
    /// place. Every panel that `new` made and these methods changed does.
    pub open spec fn wf(&self) -> bool {
        is_table(self.widgets())
    }

    /// The panel's colours.
    pub closed spec fn colors(&self) -> &Colors {
        &self.colors
    }

    /// The panel's widgets, in the order of their places.
    pub closed spec fn widgets(&self) -> Seq<Widget> {
        self.widgets@
    }

    /// The layout that the panel shows.
    pub closed spec fn current_mode(&self) -> RunelMode {
        self.current_mode
    }

    /// The value of `widget`.
    pub open spec fn value(&self, widget: RunelWidget) -> Seq<char> {
        self.widgets()[slot(widget)].value()
    }

    /// The panel as the bar shows it: the background, a blank, and the
    /// widgets of the current layout.
    pub open spec fn markup(&self) -> Seq<char> {
        self.colors().bg.switch() + " "@ + row_markup(
            layout(self.current_mode()),
            self.widgets(),
            self.colors(),
        )
    }

    /// A panel in the colours `colors`, showing its own layout, each widget
    /// with its first value.
    pub fn new(colors: Colors) -> (panel: Panel)
        ensures
            panel.wf(),
            panel.colors() == colors,
            panel.current_mode() == RunelMode::Default,
            forall|widget: RunelWidget| panel.value(widget) == first_value(widget),
    {
        Panel { current_mode: RunelMode::Default, widgets: rwidgets(), colors }
    }

    /// Gives `widget` the value `value`, without its line feeds, unless
    /// `value` is the value it has.
    pub fn set(&mut self, widget: RunelWidget, value: String) -> (status: WidgetStatus)
        requires
            old(self).wf(),
        ensures
            final(self).wf(),
            status == if old(self).value(widget) != value@ {
                WidgetStatus::Updated
            } else {
                WidgetStatus::NotUpdated
            },
            final(self).value(widget) == if old(self).value(widget) != value@ {
                strip_newlines(value@)
            } else {
                old(self).value(widget)
            },
            forall|other: RunelWidget|
                other != widget ==> final(self).value(other) == old(self).value(other),
            final(self).colors() == old(self).colors(),
            final(self).current_mode() == old(self).current_mode(),
    {
        let at = slot_of(widget);
        let mut wid = self.widgets.remove(at);
        let status = wid.set(value);
        self.widgets.insert(at, wid);
        status
    }

    /// Switches to the layout `mode`, unless the panel shows it already.
    pub fn mode(&mut self, mode: RunelMode) -> (status: WidgetStatus)
        ensures
            status == if old(self).current_mode() != mode {
                WidgetStatus::Updated
            } else {
                WidgetStatus::NotUpdated
            },
            final(self).current_mode() == mode,
            final(self).widgets() == old(self).widgets(),
            final(self).colors() == old(self).colors(),
    {
        if self.current_mode != mode {
            self.current_mode = mode;
            WidgetStatus::Updated
        } else {
            WidgetStatus::NotUpdated
        }
    }

    /// Takes the colours anew from what the X resources hold: `answers` is
    /// what the lookup of the nine resources gave, or the failure to open
    /// the display, which is handed back.
    pub fn reload(&mut self, answers: Result<[Option<String>; 9], XDisplayError>) -> (status:
        Result<WidgetStatus, XDisplayError>)
        ensures
            final(self).widgets() == old(self).widgets(),
            final(self).current_mode() == old(self).current_mode(),
            final(self).colors().names() == old(self).colors().names(),
            final(self).colors().places() == old(self).colors().places(),
            match answers {
                Ok(a) => status == Ok::<WidgetStatus, XDisplayError>(WidgetStatus::Updated)
                    && final(self).colors().texts() == a@.map_values(
                    |answer: Option<String>| crate::colors::answer_text(answer),
                ),
                Err(_) => status is Err && final(self).colors().texts() == old(
                    self,
                ).colors().texts(),
            },
    {
        match self.colors.query_xresources(answers) {
            Ok(()) => Ok(WidgetStatus::Updated),
            Err(e) => Err(e),
        }
    }

    /// The panel as the bar shows it.
    pub fn to_string(&self) -> (s: String)
        requires
            self.wf(),
        ensures
            s@ == self.markup(),
    {
        let mut s = String::new();
        self.colors.bg.write_to(&mut s);
        s.append(" ");
        let ghost head = s@;
        let shown = rmodes(self.current_mode);
        let mut i: usize = 0;
        while i < shown.len()
            invariant
                i <= shown.len(),
                is_table(self.widgets@),
                s@ == head + row_markup(shown@.take(i as int), self.widgets@, &self.colors),
            decreases shown.len() - i,
        {
            let at = slot_of(shown[i]);
            assert(fits(self.widgets@[slot(shown@[i as int])], shown@[i as int]));
            assert(shown@.take(i + 1).drop_last() == shown@.take(i as int));
            self.widgets[at].write_to(&mut s, &self.colors);
            i += 1;
        }
        assert(shown@.take(shown.len() as int) == shown@);
        s
    }
}

} // verus!
