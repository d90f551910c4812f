//! The colors that a style can name: the terminal's default, a color of the
//! 256-color palette, or a 24-bit color.

use crate::color256::{
    key_index, lemma_color256_round_trip, lemma_no_key_no_color, name_key, Color256,
};
use crate::rgbcolor::{lemma_rgb_round_trip, RgbColor};
use crate::style::{Style, StyleView};
use crate::text::{chars_of, eq_nocase, is_plain, is_word, range_eq_nocase};
use crate::{ConversionError, ParseColorError};
use vstd::prelude::*;
use vstd::string::*;

verus! {

/// An enum of the different color types
#[derive(Clone, Copy, Debug, PartialEq, Eq, Structural, PartialOrd, Ord, Hash)]
pub enum Color {
    /// The terminal's default foreground or background color
    Default,
    Color256(Color256),
    Rgb(RgbColor),
}

/// What can be given where a color is asked for: a color of any of the
/// three kinds, a palette index, or a triple of red, green and blue.
pub trait IntoColor: Sized {
    /// The color that the value stands for.
    spec fn color(self) -> Color;

    fn into_color(self) -> (r: Color)
        ensures
            r == self.color(),
    ;
}

impl IntoColor for Color {
    open spec fn color(self) -> Color {
        self
    }

    fn into_color(self) -> (r: Color) {
        self
    }
}

impl IntoColor for Color256 {
    open spec fn color(self) -> Color {
        Color::Color256(self)
    }

    fn into_color(self) -> (r: Color) {
        Color::Color256(self)
    }
}

impl IntoColor for RgbColor {
    open spec fn color(self) -> Color {
        Color::Rgb(self)
    }

    fn into_color(self) -> (r: Color) {
        Color::Rgb(self)
    }
}

impl IntoColor for u8 {
    open spec fn color(self) -> Color {
        Color::Color256(Color256(self))
    }

    fn into_color(self) -> (r: Color) {
        Color::Color256(Color256(self))
    }
}

impl IntoColor for (u8, u8, u8) {
    open spec fn color(self) -> Color {
        Color::Rgb(RgbColor(self.0, self.1, self.2))
    }

    fn into_color(self) -> (r: Color) {
        Color::Rgb(RgbColor(self.0, self.1, self.2))
    }
}

impl Color {
    /// The color that a word denotes: `default` in any ASCII case, else a
    /// color of the palette, else a 24-bit color.
    pub open spec fn from_text(s: Seq<char>) -> Option<Color> {
        if eq_nocase(s, "default"@) {
            Some(Color::Default)
        } else {
            match Color256::from_text(s) {
                Some(c) => Some(Color::Color256(c)),
                None => match RgbColor::from_text(s) {
                    Some(c) => Some(Color::Rgb(c)),
                    None => None,
                },
            }
        }
    }

    /// The canonical word for the color.
    pub open spec fn text(self) -> Seq<char> {
        match self {
            Color::Default => "default"@,
            Color::Color256(c) => c.text(),
            Color::Rgb(c) => c.text(),
        }
    }

    /// Return a new [`Style`] that uses this color as the foreground color
    pub fn as_foreground(self) -> (r: Style)
        ensures
            r@ == StyleView::empty().with_foreground(Some(self)),
    {
        Style::new().foreground(Some(self))
    }

    /// Return a new [`Style`] that uses this color as the background color
    pub fn as_background(self) -> (r: Style)
        ensures
            r@ == StyleView::empty().with_background(Some(self)),
    {
        Style::new().background(Some(self))
    }

    /// Return a new [`Style`] that uses this color as the foreground color and
    /// `bg` as the background color
    pub fn on<C: IntoColor>(self, bg: C) -> (r: Style)
        ensures
            r@ == StyleView::empty().with_foreground(Some(self)).with_background(Some(bg.color())),
    {
        Style::new().foreground(Some(self)).background(Some(bg.into_color()))
    }

    /// The color for a place that has no notion of the terminal's default:
    /// a color of the palette or a 24-bit color is handed on as it is, and
    /// `Default`, which has no counterpart there, is an error.
    pub fn concrete(self) -> (r: Result<Color, ConversionError>)
        ensures
            r == if self is Default {
                Err::<Color, ConversionError>(ConversionError)
            } else {
                Ok::<Color, ConversionError>(self)
            },
    {
        match self {
            Color::Default => Err(ConversionError),
            c => Ok(c),
        }
    }

    /// Reads a color from a word. Any word that denotes none is returned in
    /// the error.
    pub fn parse(s: &str) -> (r: Result<Color, ParseColorError>)
        ensures
            match Color::from_text(s@) {
                Some(c) => r == Ok::<Color, ParseColorError>(c),
                None => r is Err && r->Err_0.0@ == s@,
            },
    {
        let cs = chars_of(s);
        assert(cs@.subrange(0, cs@.len() as int) =~= s@);
        if range_eq_nocase(&cs, 0, cs.len(), "default") {
            return Ok(Color::Default);
        }
        match Color256::parse(s) {
            Ok(c) => Ok(Color::Color256(c)),
            Err(_) => match RgbColor::parse(s) {
                Ok(c) => Ok(Color::Rgb(c)),
                Err(e) => Err(e),
            },
        }
    }

    /// The canonical word for the color.
    pub fn to_string(self) -> (r: String)
        ensures
            r@ == self.text(),
    {
        match self {
            Color::Default => String::from_str("default"),
            Color::Color256(c) => c.to_string(),
            Color::Rgb(c) => c.to_string(),
        }
    }
}

/// The canonical word of a color is a plain word, is none of `none`, `on`
/// and `not`, and denotes the color.
pub proof fn lemma_color_round_trip(c: Color)
    ensures
        Color::from_text(c.text()) == Some(c),
        is_plain(c.text()),
        !eq_nocase(c.text(), "none"@),
        !eq_nocase(c.text(), "on"@),
        !eq_nocase(c.text(), "not"@),
{
    reveal_strlit("default");
    reveal_strlit("none");
    reveal_strlit("on");
    reveal_strlit("not");
    let t = c.text();
    match c {
        Color::Default => {},
        Color::Color256(p) => {
            lemma_color256_round_trip(p);
        },
        Color::Rgb(p) => {
            reveal_strlit("color(");
            lemma_rgb_round_trip(p);
            assert(t[0] == '#');
            lemma_no_key_no_color(t);
            if t.len() >= 6 {
                assert(t.subrange(0, 6)[0] == '#');
            }
        },
    }
}

/// A word of lower-case letters, digits and `_` that is not `default` and
/// has the key of no name denotes no color.
pub proof fn lemma_word_without_color(s: Seq<char>)
    requires
        is_word(s),
        key_index(name_key(s)) is None,
        !eq_nocase(s, "default"@),
    ensures
        Color::from_text(s) is None,
{
    reveal_strlit("color(");
    reveal_strlit("rgb(");
    lemma_no_key_no_color(s);
    if s.len() >= 6 {
        assert(s.subrange(0, 6)[5] == s[5]);
    }
    if s.len() >= 4 {
        assert(s.subrange(0, 4)[3] == s[3]);
    }
    if s.len() > 0 {
        assert(s[0] != '#');
    }
}

impl Default for Color {
    fn default() -> (r: Color)
        ensures
            r == Color::Default,
    {
        Color::Default
    }
}

impl std::str::FromStr for Color {
    type Err = ParseColorError;

    fn from_str(s: &str) -> (r: Result<Color, ParseColorError>)
        ensures
            match Color::from_text(s@) {
                Some(c) => r == Ok::<Color, ParseColorError>(c),
                None => r is Err && r->Err_0.0@ == s@,
            },
    {
        Color::parse(s)
    }
}

impl From<Color256> for Color {
    fn from(value: Color256) -> (r: Color) {
        Color::Color256(value)
    }
}

impl vstd::std_specs::convert::FromSpecImpl<Color256> for Color {
    open spec fn obeys_from_spec() -> bool {
        true
    }

    open spec fn from_spec(value: Color256) -> Color {
        Color::Color256(value)
    }
}

impl From<RgbColor> for Color {
    fn from(value: RgbColor) -> (r: Color) {
        Color::Rgb(value)
    }
}

impl vstd::std_specs::convert::FromSpecImpl<RgbColor> for Color {
    open spec fn obeys_from_spec() -> bool {
        true
    }

    open spec fn from_spec(value: RgbColor) -> Color {
        Color::Rgb(value)
    }
}

impl From<u8> for Color {
    fn from(value: u8) -> (r: Color) {
        Color::Color256(Color256(value))
    }
}

impl vstd::std_specs::convert::FromSpecImpl<u8> for Color {
    open spec fn obeys_from_spec() -> bool {
        true
    }

    open spec fn from_spec(value: u8) -> Color {
        Color::Color256(Color256(value))
    }
}

impl From<(u8, u8, u8)> for Color {
    fn from(value: (u8, u8, u8)) -> (r: Color) {
        Color::Rgb(RgbColor(value.0, value.1, value.2))
    }
}

impl vstd::std_specs::convert::FromSpecImpl<(u8, u8, u8)> for Color {
    open spec fn obeys_from_spec() -> bool {
        true
    }

    open spec fn from_spec(value: (u8, u8, u8)) -> Color {
        Color::Rgb(RgbColor(value.0, value.1, value.2))
    }
}

} // verus!
