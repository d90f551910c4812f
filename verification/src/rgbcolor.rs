//! 24-bit colors and the two forms in which they are written.

use crate::text::{
    chars_of, copy_range, decimal_byte, eq_nocase, find, find_char, hex_byte, hex_text, is_plain,
    lemma_hex_round_trip, parse_decimal_byte, parse_hex_byte, push_hex, range_eq_nocase,
    strip_prefix_nocase,
};
use crate::color::{Color, IntoColor};
use crate::style::{Style, StyleView};
use crate::ParseColorError;
use vstd::prelude::*;
use vstd::string::*;

verus! {

/// A 24-bit color composed of red, green, and blue components
///
/// An `RgbColor` is read from `#` followed by six hexadecimal digits, or
/// from a word of the form `rgb({red},{green},{blue})` whose components are
/// decimal numerals from 0 through 255. It is written as `#` followed by six
/// lower-case hexadecimal digits.
#[derive(Clone, Copy, Debug, PartialEq, Eq, Structural, PartialOrd, Ord, Hash)]
pub struct RgbColor(
    /// Red
    pub u8,
    /// Green
    pub u8,
    /// Blue
    pub u8,
);

impl RgbColor {
    /// The color that a word of the form `#xxxxxx` denotes: exactly six
    /// hexadecimal digits, two for each of red, green and blue.
    pub open spec fn hex_form(s: Seq<char>) -> Option<RgbColor> {
        if s.len() == 7 && s[0] == '#' {
            match (hex_byte(s.subrange(1, 3)), hex_byte(s.subrange(3, 5)), hex_byte(
                s.subrange(5, 7),
            )) {
                (Some(r), Some(g), Some(b)) => Some(RgbColor(r, g, b)),
                _ => None,
            }
        } else {
            None
        }
    }

    /// The color that three decimal bytes with a comma between each two
    /// denote, with nothing else among them.
    pub open spec fn components(s: Seq<char>) -> Option<RgbColor> {
        let i = find_char(s, ',', 0);
        let j = find_char(s, ',', i + 1);
        if i < s.len() && j < s.len() {
            match (
                decimal_byte(s.subrange(0, i)),
                decimal_byte(s.subrange(i + 1, j)),
                decimal_byte(s.subrange(j + 1, s.len() as int)),
            ) {
                (Some(r), Some(g), Some(b)) => Some(RgbColor(r, g, b)),
                _ => None,
            }
        } else {
            None
        }
    }

    /// The color that a word of the form `rgb(r,g,b)` denotes: `rgb(` in any
    /// ASCII case, three components, and `)`.
    pub open spec fn decimal_form(s: Seq<char>) -> Option<RgbColor> {
        match strip_prefix_nocase(s, "rgb("@) {
            Some(rest) => if rest.len() > 0 && rest.last() == ')' {
                RgbColor::components(rest.drop_last())
            } else {
                None
            },
            None => None,
        }
    }

    /// The color that a word denotes, in either form.
    pub open spec fn from_text(s: Seq<char>) -> Option<RgbColor> {
        match RgbColor::hex_form(s) {
            Some(c) => Some(c),
            None => RgbColor::decimal_form(s),
        }
    }

    /// The canonical word for the color: `#` and two lower-case hexadecimal
    /// digits for each of red, green and blue.
    pub open spec fn text(self) -> Seq<char> {
        seq!['#'] + hex_text(self.0) + hex_text(self.1) + hex_text(self.2)
    }

    /// Return the red component
    pub fn red(self) -> (r: u8)
        ensures
            r == self.0,
    {
        self.0
    }

    /// Return the green component
    pub fn green(self) -> (r: u8)
        ensures
            r == self.1,
    {
        self.1
    }

    /// Return the blue component
    pub fn blue(self) -> (r: u8)
        ensures
            r == self.2,
    {
        self.2
    }

    /// Return a new [`Style`] that uses this color as the foreground color
    pub fn as_foreground(self) -> (r: Style)
        ensures
            r@ == StyleView::empty().with_foreground(Some(Color::Rgb(self))),
    {
        Style::new().foreground(Some(Color::Rgb(self)))
    }

    /// Return a new [`Style`] that uses this color as the background color
    pub fn as_background(self) -> (r: Style)
        ensures
            r@ == StyleView::empty().with_background(Some(Color::Rgb(self))),
    {
        Style::new().background(Some(Color::Rgb(self)))
    }

    /// Return a new [`Style`] that uses this color as the foreground color and
    /// `bg` as the background color
    pub fn on<C: IntoColor>(self, bg: C) -> (r: Style)
        ensures
            r@ == StyleView::empty().with_foreground(Some(Color::Rgb(self))).with_background(
                Some(bg.color()),
            ),
    {
        Style::new().foreground(Some(Color::Rgb(self))).background(Some(bg.into_color()))
    }

    /// Reads three decimal bytes with a comma between each two.
    pub fn parse_components(cs: &Vec<char>) -> (r: Option<RgbColor>)
        ensures
            r == RgbColor::components(cs@),
    {
        let n = cs.len();
        let i = find(cs, ',', 0);
        if i >= n {
            return None;
        }
        let j = find(cs, ',', i + 1);
        if j >= n {
            return None;
        }
        match (
            parse_decimal_byte(cs, 0, i),
            parse_decimal_byte(cs, i + 1, j),
            parse_decimal_byte(cs, j + 1, n),
        ) {
            (Some(r), Some(g), Some(b)) => Some(RgbColor(r, g, b)),
            _ => None,
        }
    }

    /// Reads a color from `#xxxxxx` or from `rgb(r,g,b)`. Any other word is
    /// returned in the error.
    pub fn parse(s: &str) -> (r: Result<RgbColor, ParseColorError>)
        ensures
            match RgbColor::from_text(s@) {
                Some(c) => r == Ok::<RgbColor, ParseColorError>(c),
                None => r is Err && r->Err_0.0@ == s@,
            },
    {
        let cs = chars_of(s);
        let n = cs.len();
        if n == 7 && cs[0] == '#' {
            match (parse_hex_byte(&cs, 1), parse_hex_byte(&cs, 3), parse_hex_byte(&cs, 5)) {
                (Some(r), Some(g), Some(b)) => {
                    return Ok(RgbColor(r, g, b));
                },
                _ => {},
            }
        }
        proof {
            reveal_strlit("rgb(");
        }
        if n >= 5 && range_eq_nocase(&cs, 0, 4, "rgb(") && cs[n - 1] == ')' {
            let ghost rest = s@.subrange(4, n as int);
            assert(rest.drop_last() =~= cs@.subrange(4, n - 1));
            assert(rest.last() == cs@[n - 1]);
            let inner = copy_range(&cs, 4, n - 1);
            if let Some(c) = RgbColor::parse_components(&inner) {
                return Ok(c);
            }
        } else {
            proof {
                if n >= 4 && eq_nocase(s@.subrange(0, 4), "rgb("@) {
                    let rest = s@.subrange(4, n as int);
                    if n == 4 {
                        assert(rest.len() == 0);
                    } else {
                        assert(rest.last() == cs@[n - 1]);
                    }
                }
            }
        }
        Err(ParseColorError(s.to_owned()))
    }

    /// The canonical word for the color.
    pub fn to_string(self) -> (r: String)
        ensures
            r@ == self.text(),
    {
        let mut r = String::from_str("#");
        proof {
            reveal_strlit("#");
            assert("#"@ =~= seq!['#']);
        }
        push_hex(&mut r, self.0);
        push_hex(&mut r, self.1);
        push_hex(&mut r, self.2);
        r
    }
}

/// The canonical word of a color is a plain word of seven characters that
/// begins with `#`, and denotes the color.
pub proof fn lemma_rgb_round_trip(c: RgbColor)
    ensures
        RgbColor::from_text(c.text()) == Some(c),
        is_plain(c.text()),
        c.text().len() == 7,
        c.text()[0] == '#',
{
    let t = c.text();
    lemma_hex_round_trip(c.0);
    lemma_hex_round_trip(c.1);
    lemma_hex_round_trip(c.2);
    assert(t.subrange(1, 3) =~= hex_text(c.0));
    assert(t.subrange(3, 5) =~= hex_text(c.1));
    assert(t.subrange(5, 7) =~= hex_text(c.2));
}

impl std::str::FromStr for RgbColor {
    type Err = ParseColorError;

    fn from_str(s: &str) -> (r: Result<RgbColor, ParseColorError>)
        ensures
            match RgbColor::from_text(s@) {
                Some(c) => r == Ok::<RgbColor, ParseColorError>(c),
                None => r is Err && r->Err_0.0@ == s@,
            },
    {
        RgbColor::parse(s)
    }
}

impl From<(u8, u8, u8)> for RgbColor {
    fn from(value: (u8, u8, u8)) -> (r: RgbColor) {
        RgbColor(value.0, value.1, value.2)
    }
}

impl vstd::std_specs::convert::FromSpecImpl<(u8, u8, u8)> for RgbColor {
    open spec fn obeys_from_spec() -> bool {
        true
    }

    open spec fn from_spec(value: (u8, u8, u8)) -> RgbColor {
        RgbColor(value.0, value.1, value.2)
    }
}

impl From<RgbColor> for (u8, u8, u8) {
    fn from(value: RgbColor) -> (r: (u8, u8, u8)) {
        (value.0, value.1, value.2)
    }
}

impl vstd::std_specs::convert::FromSpecImpl<RgbColor> for (u8, u8, u8) {
    open spec fn obeys_from_spec() -> bool {
        true
    }

    open spec fn from_spec(value: RgbColor) -> (u8, u8, u8) {
        (value.0, value.1, value.2)
    }
}

} // verus!
