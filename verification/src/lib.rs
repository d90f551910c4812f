//! Terminal text styles: colors and attributes, their textual syntax, and
//! the composition of styles.
//!
//! A style is written as words between ASCII whitespace, in any order:
//!
//! - a color word, for the foreground color;
//! - `on` and a color word, for the background color;
//! - the name of an attribute, or its short alias, to enable it: `bold` or
//!   `b`, `dim` or `d`, `italic` or `i`, `underline` or `u`, `blink`,
//!   `blink2`, `reverse` or `r`, `conceal` or `c`, `strike` or `s`,
//!   `underline2` or `uu`, `frame`, `encircle`, `overline`;
//! - `not` and the name of an attribute, to disable it.
//!
//! A color word is `default`, the name of a color of the 256-color palette,
//! `color(N)` with an index from 0 through 255, `#xxxxxx` with six
//! hexadecimal digits, or `rgb(R,G,B)` with three numbers from 0 through
//! 255. Keywords and names are read in any ASCII case. Of two colors for the
//! same ground, and of an attribute that is both enabled and disabled, the
//! last one read counts. The empty text and `none` denote the empty style.
//!
//! Every value is modelled mathematically: a string by its characters, an
//! [`AttributeSet`] by the set of its members, a [`Style`] by a
//! [`StyleView`]. Each function states what it returns over these models,
//! and the module [`laws`] states what holds of several functions together:
//! above all, that a style which is written and read again is unchanged.
//!
//! This library does not render styles as escape sequences.

use vstd::prelude::*;

pub mod attributes;
pub mod color;
pub mod color256;
pub mod laws;
pub mod rgbcolor;
pub mod style;
pub mod text;

pub use crate::attributes::{
    Attribute, AttributeIter, AttributeSet, AttributeSetIter, IntoAttributeSet,
    ParseAttributeError,
};
pub use crate::color::{Color, IntoColor};
pub use crate::color256::Color256;
pub use crate::rgbcolor::RgbColor;
pub use crate::style::{ParseStyleError, Style, StyleFault, StyleView};

verus! {

/// Error returned when parsing a color string fails
#[derive(Clone, Debug, PartialEq, Eq)]
pub struct ParseColorError(
    /// The invalid color string
    pub String,
);

/// Error returned when conversion between a type of this library and a
/// type of another styling library fails, because the value has no
/// counterpart there
#[derive(Clone, Copy, Debug, PartialEq, Eq, Structural)]
pub struct ConversionError;

} // verus!
