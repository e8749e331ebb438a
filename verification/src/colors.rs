//! The colours of the panel, each tied to the X resource that sets it.

use vstd::prelude::*;
use vstd::string::*;
use crate::error::XDisplayError;

verus! {

/// Whether a colour paints the background or the text.
#[derive(Debug, Clone, Copy, PartialEq, Eq, Structural)]
pub enum ColorPlace {
    Background,
    Foreground,
}

/// A colour of the panel.
#[derive(Debug)]
pub struct Color {
    /// The colour's text, such as `#rrggbb`, if it is set.
    pub color: Option<String>,
    place: ColorPlace,
    xres: &'static str,
}

/// The letter that the bar's markup has for a place.
pub open spec fn place_letter(place: ColorPlace) -> Seq<char> {
    match place {
        ColorPlace::Background => "B"@,
        ColorPlace::Foreground => "F"@,
    }
}

/// The markup that switches the bar to a colour: nothing where no colour is
/// set.
pub open spec fn color_switch(place: ColorPlace, color: Option<Seq<char>>) -> Seq<char> {
    match color {
        Some(c) => "%{"@ + place_letter(place) + c + "}"@,
        None => Seq::empty(),
    }
}

impl Color {
    /// The colour's text, if it is set.
    pub closed spec fn spec_color(&self) -> Option<Seq<char>> {
        match self.color {
            Some(c) => Some(c@),
            None => None,
        }
    }

    /// What the colour paints.
    pub closed spec fn spec_place(&self) -> ColorPlace {
        self.place
    }

    /// The name of the X resource that sets the colour.
    pub closed spec fn spec_xres(&self) -> Seq<char> {
        self.xres@
    }

    /// The markup that switches the bar to this colour.
    pub open spec fn switch(&self) -> Seq<char> {
        color_switch(self.spec_place(), self.spec_color())
    }

    /// A background colour set by the resource `xres`.
    pub fn new_background(color: Option<String>, xres: &'static str) -> (c: Color)
        ensures
            c.spec_place() == ColorPlace::Background,
            c.spec_xres() == xres@,
            match color {
                Some(text) => c.spec_color() == Some(text@),
                None => c.spec_color() is None,
            },
    {
        Color { color, place: ColorPlace::Background, xres }
    }

    /// A text colour set by the resource `xres`.
    pub fn new_foreground(color: Option<String>, xres: &'static str) -> (c: Color)
        ensures
            c.spec_place() == ColorPlace::Foreground,
            c.spec_xres() == xres@,
            match color {
                Some(text) => c.spec_color() == Some(text@),
                None => c.spec_color() is None,
            },
    {
        Color { color, place: ColorPlace::Foreground, xres }
    }

    /// The name of the X resource that sets the colour.
    pub fn xres(&self) -> (name: &'static str)
        ensures
            name@ == self.spec_xres(),
    {
        self.xres
    }

    /// Takes over what the X resources hold for this colour; the colour is
    /// unset where they hold nothing.
    pub fn query_xrdb(&mut self, answer: &Option<String>)
        ensures
            final(self).spec_place() == old(self).spec_place(),
            final(self).spec_xres() == old(self).spec_xres(),
            match *answer {
                Some(text) => final(self).spec_color() == Some(text@),
                None => final(self).spec_color() is None,
            },
    {
        self.color = answer.clone();
    }

    /// Appends the markup that switches the bar to this colour.
    pub fn write_to(&self, out: &mut String)
        ensures
            final(out)@ == old(out)@ + self.switch(),
    {
        match &self.color {
            Some(c) => {
                out.append("%{");
                match self.place {
                    ColorPlace::Background => out.append("B"),
                    ColorPlace::Foreground => out.append("F"),
                }
                out.append(c.as_str());
                out.append("}");
            },
            None => {},
        }
    }

    /// The markup that switches the bar to this colour.
    pub fn to_string(&self) -> (s: String)
        ensures
            s@ == self.switch(),
    {
        let mut s = String::new();
        self.write_to(&mut s);
        s
    }
}

/// The colours of the panel.
#[derive(Debug)]
pub struct Colors {
    pub bg: Color,
    pub free: Color,
    pub monitor: Color,
    pub occupied: Color,
    pub urgent: Color,
    pub state: Color,
    pub title: Color,
    pub info: Color,
    pub info_head: Color,
}

/// The text of an answer of the X resources.
pub open spec fn answer_text(answer: Option<String>) -> Option<Seq<char>> {
    match answer {
        Some(text) => Some(text@),
        None => None,
    }
}

/// The names of the X resources that set the panel's colours.
pub open spec fn resource_names() -> Seq<Seq<char>> {
    seq![
        "runel.bg"@,
        "runel.free"@,
        "runel.monitor"@,
        "runel.occupied"@,
        "runel.urgent"@,
        "runel.state"@,
        "runel.title"@,
        "runel.info"@,
        "runel.info_head"@,
    ]
}

/// What the panel's colours paint: the first the background, the others
/// text.
pub open spec fn color_places() -> Seq<ColorPlace> {
    Seq::new(
        9,
        |i: int|
            if i == 0 {
                ColorPlace::Background
            } else {
                ColorPlace::Foreground
            },
    )
}

impl Colors {
    /// The colours' texts, in the order of the fields.
    pub open spec fn texts(&self) -> Seq<Option<Seq<char>>> {
        seq![
            self.bg.spec_color(),
            self.free.spec_color(),
            self.monitor.spec_color(),
            self.occupied.spec_color(),
            self.urgent.spec_color(),
            self.state.spec_color(),
            self.title.spec_color(),
            self.info.spec_color(),
            self.info_head.spec_color(),
        ]
    }

    /// The names of the X resources that set the colours, in the order of
    /// the fields.
    pub open spec fn names(&self) -> Seq<Seq<char>> {
        seq![
            self.bg.spec_xres(),
            self.free.spec_xres(),
            self.monitor.spec_xres(),
            self.occupied.spec_xres(),
            self.urgent.spec_xres(),
            self.state.spec_xres(),
            self.title.spec_xres(),
            self.info.spec_xres(),
            self.info_head.spec_xres(),
        ]
    }

    /// What each colour paints, in the order of the fields.
    pub open spec fn places(&self) -> Seq<ColorPlace> {
        seq![
            self.bg.spec_place(),
            self.free.spec_place(),
            self.monitor.spec_place(),
            self.occupied.spec_place(),
            self.urgent.spec_place(),
            self.state.spec_place(),
            self.title.spec_place(),
            self.info.spec_place(),
            self.info_head.spec_place(),
        ]
    }

    /// The panel's colours, none of them set: the background, and eight
    /// colours for text.
    pub fn new() -> (colors: Colors)
        ensures
            colors.texts() == Seq::new(9, |i: int| None::<Seq<char>>),
            colors.places() == color_places(),
            colors.names() == resource_names(),
    {
        Colors {
            bg: Color::new_background(None, "runel.bg"),
            free: Color::new_foreground(None, "runel.free"),
            monitor: Color::new_foreground(None, "runel.monitor"),
            occupied: Color::new_foreground(None, "runel.occupied"),
            urgent: Color::new_foreground(None, "runel.urgent"),
            state: Color::new_foreground(None, "runel.state"),
            title: Color::new_foreground(None, "runel.title"),
            info: Color::new_foreground(None, "runel.info"),
            info_head: Color::new_foreground(None, "runel.info_head"),
        }
    }

    /// The names of the X resources to look up, in the order of the fields.
    pub fn resources(&self) -> (names: [&'static str; 9])
        ensures
            names@.len() == 9,
            forall|i: int| 0 <= i < 9 ==> (#[trigger] names@[i])@ == self.names()[i],
    {
        [
            self.bg.xres(),
            self.free.xres(),
            self.monitor.xres(),
            self.occupied.xres(),
            self.urgent.xres(),
            self.state.xres(),
            self.title.xres(),
            self.info.xres(),
            self.info_head.xres(),
        ]
    }

    /// The panel's colours as the X resources set them. `answers` is what
    /// the lookup of the nine resources gave, or the failure to open the
    /// display.
    pub fn new_from_xresources(answers: Result<[Option<String>; 9], XDisplayError>) -> (made:
        Result<Colors, XDisplayError>)
        ensures
            match answers {
                Ok(a) => {
                    &&& made matches Ok(colors)
                    &&& colors.places() == color_places()
                    &&& colors.names() == resource_names()
                    &&& colors.texts() == a@.map_values(
                        |answer: Option<String>| answer_text(answer),
                    )
                },
                Err(_) => made is Err,
            },
    {
        let mut colors = Colors::new();
        match colors.query_xresources(answers) {
            Ok(()) => Ok(colors),
            Err(e) => Err(e),
        }
    }

    /// Takes over what the X resources hold for each colour. Where the
    /// display could not be opened, the colours stay as they are and the
    /// error is handed back.
    pub fn query_xresources(&mut self, answers: Result<[Option<String>; 9], XDisplayError>) -> (done:
        Result<(), XDisplayError>)
        ensures
            final(self).names() == old(self).names(),
            final(self).places() == old(self).places(),
            match answers {
                Ok(a) => done is Ok && final(self).texts() == a@.map_values(
                    |answer: Option<String>| answer_text(answer),
                ),
                Err(_) => done is Err && final(self).texts() == old(self).texts(),
            },
    {
        match answers {
            Ok(a) => {
                self.bg.query_xrdb(&a[0]);
                self.free.query_xrdb(&a[1]);
                self.monitor.query_xrdb(&a[2]);
                self.occupied.query_xrdb(&a[3]);
                self.urgent.query_xrdb(&a[4]);
                self.state.query_xrdb(&a[5]);
                self.title.query_xrdb(&a[6]);
                self.info.query_xrdb(&a[7]);
                self.info_head.query_xrdb(&a[8]);
                Ok(())
            },
            Err(e) => Err(e),
        }
    }
}

} // verus!
