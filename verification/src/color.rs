//! A foreground colour for a piece of the bar.

use vstd::prelude::*;
use vstd::string::*;
use crate::text::chars_of;

verus! {

/// A colour in the form `#rrggbb`, or none.
#[derive(Debug)]
pub struct Color(Option<String>);

/// A text together with the colour to draw it in.
pub struct DrawColor<'a>(&'a Color, &'a str);

/// Whether `c` is one of `0-9`, `a-f`, `A-F`.
pub open spec fn is_hex_digit(c: char) -> bool {
    ||| '0' <= c <= '9'
    ||| 'a' <= c <= 'f'
    ||| 'A' <= c <= 'F'
}

/// Whether `s` is `#` followed by six hexadecimal digits.
pub open spec fn is_hex_color(s: Seq<char>) -> bool {
    &&& s.len() == 7
    &&& s[0] == '#'
    &&& forall|i: int| 1 <= i < 7 ==> is_hex_digit(#[trigger] s[i])
}

/// The message for a text that is no colour.
pub open spec fn invalid_color(s: Seq<char>) -> Seq<char> {
    "Invalid hex color: "@ + s
}

/// `element` as the bar draws it in colour `color`.
pub open spec fn drawn(color: Option<Seq<char>>, element: Seq<char>) -> Seq<char> {
    match color {
        Some(c) => "%{F"@ + c + "}"@ + element + "%{F-}"@,
        None => element,
    }
}

fn hex_digit(c: char) -> (hex: bool)
    ensures
        hex == is_hex_digit(c),
{
    ('0' <= c && c <= '9') || ('a' <= c && c <= 'f') || ('A' <= c && c <= 'F')
}

impl Color {
    /// The colour's text, if there is a colour.
    pub closed spec fn spec_text(&self) -> Option<Seq<char>> {
        match self.0 {
            Some(c) => Some(c@),
            None => None,
        }
    }

    /// Reads a colour: the empty text is no colour, `#rrggbb` is that
    /// colour, and anything else is refused.
    pub fn from_str(s: &str) -> (parsed: Result<Color, String>)
        ensures
            match parsed {
                Ok(color) => {
                    &&& s@.len() == 0 || is_hex_color(s@)
                    &&& color.spec_text() == if s@.len() == 0 {
                        None
                    } else {
                        Some(s@)
                    }
                },
                Err(e) => s@.len() != 0 && !is_hex_color(s@) && e@ == invalid_color(s@),
            },
    {
        let cs = chars_of(s);
        if cs.len() == 0 {
            return Ok(Color(None));
        }
        let mut valid = cs.len() == 7 && cs[0] == '#';
        if valid {
            let mut i: usize = 1;
            while i < 7
                invariant
                    1 <= i <= 7,
                    cs@.len() == 7,
                    valid == forall|j: int| 1 <= j < i ==> is_hex_digit(#[trigger] cs@[j]),
                decreases 7 - i,
            {
                if !hex_digit(cs[i]) {
                    valid = false;
                }
                i += 1;
            }
        }
        if valid {
            Ok(Color(Some(s.to_owned())))
        } else {
            let mut e = String::from_str("Invalid hex color: ");
            e.append(s);
            Err(e)
        }
    }

    /// Pairs `element` with this colour, ready to be drawn.
    pub fn draw<'a>(&'a self, element: &'a str) -> (pair: DrawColor<'a>)
        ensures
            pair.color() == self,
            pair.element() == element@,
    {
        DrawColor(self, element)
    }

    /// The colour's text, if there is a colour.
    pub fn as_ref(&self) -> (text: &Option<String>)
        ensures
            match *text {
                Some(c) => self.spec_text() == Some(c@),
                None => self.spec_text() is None,
            },
    {
        &self.0
    }
}

impl<'a> DrawColor<'a> {
    /// The colour to draw in.
    pub closed spec fn color(&self) -> &Color {
        self.0
    }

    /// The text to draw.
    pub closed spec fn element(&self) -> Seq<char> {
        self.1@
    }

    /// The text in the bar's markup: wrapped in the colour's switch where
    /// there is a colour, as it is where there is none.
    pub fn to_string(&self) -> (s: String)
        ensures
            s@ == drawn(self.color().spec_text(), self.element()),
    {
        let mut s = String::new();
        self.write_to(&mut s);
        s
    }

    /// Appends the text in the bar's markup to `out`.
    pub fn write_to(&self, out: &mut String)
        ensures
            final(out)@ == old(out)@ + drawn(self.color().spec_text(), self.element()),
    {
        match &self.0.0 {
            Some(c) => {
                out.append("%{F");
                out.append(c.as_str());
                out.append("}");
                out.append(self.1);
                out.append("%{F-}");
            },
            None => {
                out.append(self.1);
            },
        }
    }
}

} // verus!
