//! The names of the widgets.

use vstd::prelude::*;
use vstd::string::*;
use crate::error::RunelParseError;
use crate::text::str_eq;

verus! {

/// A widget of the panel.
#[derive(Debug, Eq, PartialEq, Hash, Copy, Clone, Structural)]
pub enum RunelWidget {
    Space,
    Left,
    Right,
    Custom,
    Bspwm,
    Title,
    Timer,
    Keyboard,
    Brightness,
    Volume,
    Battery,
    Date,
    Clock,
}

/// The name under which a widget is written in a command.
pub open spec fn widget_name(widget: RunelWidget) -> Seq<char> {
    match widget {
        RunelWidget::Space => "space"@,
        RunelWidget::Left => "left"@,
        RunelWidget::Right => "right"@,
        RunelWidget::Custom => "custom"@,
        RunelWidget::Bspwm => "bspwm"@,
        RunelWidget::Title => "title"@,
        RunelWidget::Timer => "timer"@,
        RunelWidget::Keyboard => "keyboard"@,
        RunelWidget::Brightness => "brightness"@,
        RunelWidget::Volume => "volume"@,
        RunelWidget::Battery => "battery"@,
        RunelWidget::Date => "date"@,
        RunelWidget::Clock => "clock"@,
    }
}

/// Whether `s` is the name of a widget.
pub open spec fn names_widget(s: Seq<char>) -> bool {
    exists|widget: RunelWidget| widget_name(widget) == s
}

/// No two widgets have the same name, and no name holds a `:`.
pub proof fn lemma_widget_names(a: RunelWidget, b: RunelWidget)
    ensures
        widget_name(a) == widget_name(b) ==> a == b,
        !widget_name(a).contains(':'),
{
    reveal_strlit("space");
    reveal_strlit("left");
    reveal_strlit("right");
    reveal_strlit("custom");
    reveal_strlit("bspwm");
    reveal_strlit("title");
    reveal_strlit("timer");
    reveal_strlit("keyboard");
    reveal_strlit("brightness");
    reveal_strlit("volume");
    reveal_strlit("battery");
    reveal_strlit("date");
    reveal_strlit("clock");
    if widget_name(a) == widget_name(b) {
        assert(widget_name(a).len() == widget_name(b).len());
        assert(widget_name(a)[0] == widget_name(b)[0]);
        assert(widget_name(a)[2] == widget_name(b)[2]);
    }
}

impl RunelWidget {
    /// The widget that `s` names.
    pub fn from_str(s: &str) -> (parsed: Result<RunelWidget, RunelParseError>)
        ensures
            match parsed {
                Ok(widget) => widget_name(widget) == s@,
                Err(e) => {
                    &&& !names_widget(s@)
                    &&& e matches RunelParseError::InvalidWidget(name)
                    &&& name@ == s@
                },
            },
    {
        if str_eq(s, "space") {
            Ok(RunelWidget::Space)
        } else if str_eq(s, "left") {
            Ok(RunelWidget::Left)
        } else if str_eq(s, "right") {
            Ok(RunelWidget::Right)
        } else if str_eq(s, "custom") {
            Ok(RunelWidget::Custom)
        } else if str_eq(s, "bspwm") {
            Ok(RunelWidget::Bspwm)
        } else if str_eq(s, "title") {
            Ok(RunelWidget::Title)
        } else if str_eq(s, "timer") {
            Ok(RunelWidget::Timer)
        } else if str_eq(s, "keyboard") {
            Ok(RunelWidget::Keyboard)
        } else if str_eq(s, "brightness") {
            Ok(RunelWidget::Brightness)
        } else if str_eq(s, "volume") {
            Ok(RunelWidget::Volume)
        } else if str_eq(s, "battery") {
            Ok(RunelWidget::Battery)
        } else if str_eq(s, "date") {
            Ok(RunelWidget::Date)
        } else if str_eq(s, "clock") {
            Ok(RunelWidget::Clock)
        } else {
            assert(!names_widget(s@)) by {
                assert forall|widget: RunelWidget| widget_name(widget) != s@ by {}
            }
            Err(RunelParseError::InvalidWidget(s.to_owned()))
        }
    }

    /// The widget's name.
    pub fn to_string(&self) -> (s: String)
        ensures
            s@ == widget_name(*self),
    {
        String::from_str(self.name())
    }

    /// The widget's name.
    pub fn name(&self) -> (s: &'static str)
        ensures
            s@ == widget_name(*self),
    {
        match self {
            RunelWidget::Space => "space",
            RunelWidget::Left => "left",
            RunelWidget::Right => "right",
            RunelWidget::Custom => "custom",
            RunelWidget::Bspwm => "bspwm",
            RunelWidget::Title => "title",
            RunelWidget::Timer => "timer",
            RunelWidget::Keyboard => "keyboard",
            RunelWidget::Brightness => "brightness",
            RunelWidget::Volume => "volume",
            RunelWidget::Battery => "battery",
            RunelWidget::Date => "date",
            RunelWidget::Clock => "clock",
        }
    }
}

} // verus!
