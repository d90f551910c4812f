//! Text attributes and sets of them.
//!
//! An [`AttributeSet`] is stored as a bit mask and modelled by the
//! mathematical set of its members (`set@`).

use crate::text::{chars_of, eq_nocase, range_eq_nocase};
use vstd::prelude::*;
use vstd::string::*;

verus! {

/// Individual effects that can be applied to text in a terminal, in their
/// canonical order.
#[derive(Clone, Copy, Debug, PartialEq, Eq, Structural, PartialOrd, Ord, Hash)]
pub enum Attribute {
    Bold,
    Dim,
    Italic,
    Underline,
    Blink,
    /// Fast blinking
    Blink2,
    /// Reverse video
    Reverse,
    /// Concealed/hidden
    Conceal,
    /// Strikethrough
    Strike,
    /// Double-underline
    Underline2,
    Frame,
    Encircle,
    Overline,
}

/// Error returned when parsing an attribute fails
#[derive(Clone, Debug, PartialEq, Eq)]
pub struct ParseAttributeError(
    /// The invalid attribute string
    pub String,
);

/// The number of attributes.
pub const ATTRIBUTE_COUNT: u8 = 13;

/// The bits of all attributes together.
pub const ALL_BITS: u16 = 0x1fff;

impl Attribute {
    /// The place of the attribute in the canonical order, from 0.
    pub open spec fn index(self) -> int {
        match self {
            Attribute::Bold => 0,
            Attribute::Dim => 1,
            Attribute::Italic => 2,
            Attribute::Underline => 3,
            Attribute::Blink => 4,
            Attribute::Blink2 => 5,
            Attribute::Reverse => 6,
            Attribute::Conceal => 7,
            Attribute::Strike => 8,
            Attribute::Underline2 => 9,
            Attribute::Frame => 10,
            Attribute::Encircle => 11,
            Attribute::Overline => 12,
        }
    }

    /// The attribute at a place of the canonical order.
    pub open spec fn at(i: int) -> Attribute {
        if i == 0 {
            Attribute::Bold
        } else if i == 1 {
            Attribute::Dim
        } else if i == 2 {
            Attribute::Italic
        } else if i == 3 {
            Attribute::Underline
        } else if i == 4 {
            Attribute::Blink
        } else if i == 5 {
            Attribute::Blink2
        } else if i == 6 {
            Attribute::Reverse
        } else if i == 7 {
            Attribute::Conceal
        } else if i == 8 {
            Attribute::Strike
        } else if i == 9 {
            Attribute::Underline2
        } else if i == 10 {
            Attribute::Frame
        } else if i == 11 {
            Attribute::Encircle
        } else {
            Attribute::Overline
        }
    }

    /// The bit that stands for the attribute in a mask: bit `index()`.
    pub open spec fn mask(self) -> u16 {
        match self {
            Attribute::Bold => 0x0001,
            Attribute::Dim => 0x0002,
            Attribute::Italic => 0x0004,
            Attribute::Underline => 0x0008,
            Attribute::Blink => 0x0010,
            Attribute::Blink2 => 0x0020,
            Attribute::Reverse => 0x0040,
            Attribute::Conceal => 0x0080,
            Attribute::Strike => 0x0100,
            Attribute::Underline2 => 0x0200,
            Attribute::Frame => 0x0400,
            Attribute::Encircle => 0x0800,
            Attribute::Overline => 0x1000,
        }
    }

    /// The long name of the attribute.
    pub open spec fn name(self) -> Seq<char> {
        match self {
            Attribute::Bold => "bold"@,
            Attribute::Dim => "dim"@,
            Attribute::Italic => "italic"@,
            Attribute::Underline => "underline"@,
            Attribute::Blink => "blink"@,
            Attribute::Blink2 => "blink2"@,
            Attribute::Reverse => "reverse"@,
            Attribute::Conceal => "conceal"@,
            Attribute::Strike => "strike"@,
            Attribute::Underline2 => "underline2"@,
            Attribute::Frame => "frame"@,
            Attribute::Encircle => "encircle"@,
            Attribute::Overline => "overline"@,
        }
    }

    /// The attribute that a word names: its long name or its short alias,
    /// in any ASCII case.
    pub open spec fn named(s: Seq<char>) -> Option<Attribute> {
        if eq_nocase(s, "bold"@) || eq_nocase(s, "b"@) {
            Some(Attribute::Bold)
        } else if eq_nocase(s, "dim"@) || eq_nocase(s, "d"@) {
            Some(Attribute::Dim)
        } else if eq_nocase(s, "italic"@) || eq_nocase(s, "i"@) {
            Some(Attribute::Italic)
        } else if eq_nocase(s, "underline"@) || eq_nocase(s, "u"@) {
            Some(Attribute::Underline)
        } else if eq_nocase(s, "blink"@) {
            Some(Attribute::Blink)
        } else if eq_nocase(s, "blink2"@) {
            Some(Attribute::Blink2)
        } else if eq_nocase(s, "reverse"@) || eq_nocase(s, "r"@) {
            Some(Attribute::Reverse)
        } else if eq_nocase(s, "conceal"@) || eq_nocase(s, "c"@) {
            Some(Attribute::Conceal)
        } else if eq_nocase(s, "strike"@) || eq_nocase(s, "s"@) {
            Some(Attribute::Strike)
        } else if eq_nocase(s, "underline2"@) || eq_nocase(s, "uu"@) {
            Some(Attribute::Underline2)
        } else if eq_nocase(s, "frame"@) {
            Some(Attribute::Frame)
        } else if eq_nocase(s, "encircle"@) {
            Some(Attribute::Encircle)
        } else if eq_nocase(s, "overline"@) {
            Some(Attribute::Overline)
        } else {
            None
        }
    }

    /// All attributes in canonical order.
    pub open spec fn all() -> Seq<Attribute> {
        Seq::new(ATTRIBUTE_COUNT as nat, |i: int| Attribute::at(i))
    }

    /// Returns an iterator over all [`Attribute`] variants
    pub fn iter() -> (r: AttributeIter)
        ensures
            r@ == Attribute::all(),
    {
        let r = AttributeIter { front: 0, back: ATTRIBUTE_COUNT };
        assert(r@ =~= Attribute::all());
        r
    }

    /// The place of the attribute in the canonical order.
    pub fn ordinal(self) -> (r: u8)
        ensures
            r == self.index(),
            r < ATTRIBUTE_COUNT,
    {
        match self {
            Attribute::Bold => 0,
            Attribute::Dim => 1,
            Attribute::Italic => 2,
            Attribute::Underline => 3,
            Attribute::Blink => 4,
            Attribute::Blink2 => 5,
            Attribute::Reverse => 6,
            Attribute::Conceal => 7,
            Attribute::Strike => 8,
            Attribute::Underline2 => 9,
            Attribute::Frame => 10,
            Attribute::Encircle => 11,
            Attribute::Overline => 12,
        }
    }

    /// The attribute at place `i` of the canonical order.
    pub fn from_ordinal(i: u8) -> (r: Attribute)
        requires
            i < ATTRIBUTE_COUNT,
        ensures
            r == Attribute::at(i as int),
            r.index() == i,
    {
        match i {
            0 => Attribute::Bold,
            1 => Attribute::Dim,
            2 => Attribute::Italic,
            3 => Attribute::Underline,
            4 => Attribute::Blink,
            5 => Attribute::Blink2,
            6 => Attribute::Reverse,
            7 => Attribute::Conceal,
            8 => Attribute::Strike,
            9 => Attribute::Underline2,
            10 => Attribute::Frame,
            11 => Attribute::Encircle,
            _ => Attribute::Overline,
        }
    }

    /// The bit of the attribute in a mask.
    pub fn bit(self) -> (r: u16)
        ensures
            r == self.mask(),
    {
        match self {
            Attribute::Bold => 0x0001,
            Attribute::Dim => 0x0002,
            Attribute::Italic => 0x0004,
            Attribute::Underline => 0x0008,
            Attribute::Blink => 0x0010,
            Attribute::Blink2 => 0x0020,
            Attribute::Reverse => 0x0040,
            Attribute::Conceal => 0x0080,
            Attribute::Strike => 0x0100,
            Attribute::Underline2 => 0x0200,
            Attribute::Frame => 0x0400,
            Attribute::Encircle => 0x0800,
            Attribute::Overline => 0x1000,
        }
    }

    /// Return the long name of the attribute
    pub fn as_str(self) -> (r: &'static str)
        ensures
            r@ == self.name(),
    {
        match self {
            Attribute::Bold => "bold",
            Attribute::Dim => "dim",
            Attribute::Italic => "italic",
            Attribute::Underline => "underline",
            Attribute::Blink => "blink",
            Attribute::Blink2 => "blink2",
            Attribute::Reverse => "reverse",
            Attribute::Conceal => "conceal",
            Attribute::Strike => "strike",
            Attribute::Underline2 => "underline2",
            Attribute::Frame => "frame",
            Attribute::Encircle => "encircle",
            Attribute::Overline => "overline",
        }
    }

    /// The long name of the attribute, as an owned string.
    pub fn to_string(self) -> (r: String)
        ensures
            r@ == self.name(),
    {
        String::from_str(self.as_str())
    }

    /// Reads an attribute from its long name or short alias, in any ASCII
    /// case. Any other word is returned in the error.
    pub fn parse(s: &str) -> (r: Result<Attribute, ParseAttributeError>)
        ensures
            match Attribute::named(s@) {
                Some(a) => r == Ok::<Attribute, ParseAttributeError>(a),
                None => r is Err && r->Err_0.0@ == s@,
            },
    {
        let cs = chars_of(s);
        let n = cs.len();
        assert(cs@.subrange(0, n as int) =~= s@);
        if range_eq_nocase(&cs, 0, n, "bold") || range_eq_nocase(&cs, 0, n, "b") {
            Ok(Attribute::Bold)
        } else if range_eq_nocase(&cs, 0, n, "dim") || range_eq_nocase(&cs, 0, n, "d") {
            Ok(Attribute::Dim)
        } else if range_eq_nocase(&cs, 0, n, "italic") || range_eq_nocase(&cs, 0, n, "i") {
            Ok(Attribute::Italic)
        } else if range_eq_nocase(&cs, 0, n, "underline") || range_eq_nocase(&cs, 0, n, "u") {
            Ok(Attribute::Underline)
        } else if range_eq_nocase(&cs, 0, n, "blink") {
            Ok(Attribute::Blink)
        } else if range_eq_nocase(&cs, 0, n, "blink2") {
            Ok(Attribute::Blink2)
        } else if range_eq_nocase(&cs, 0, n, "reverse") || range_eq_nocase(&cs, 0, n, "r") {
            Ok(Attribute::Reverse)
        } else if range_eq_nocase(&cs, 0, n, "conceal") || range_eq_nocase(&cs, 0, n, "c") {
            Ok(Attribute::Conceal)
        } else if range_eq_nocase(&cs, 0, n, "strike") || range_eq_nocase(&cs, 0, n, "s") {
            Ok(Attribute::Strike)
        } else if range_eq_nocase(&cs, 0, n, "underline2") || range_eq_nocase(&cs, 0, n, "uu") {
            Ok(Attribute::Underline2)
        } else if range_eq_nocase(&cs, 0, n, "frame") {
            Ok(Attribute::Frame)
        } else if range_eq_nocase(&cs, 0, n, "encircle") {
            Ok(Attribute::Encircle)
        } else if range_eq_nocase(&cs, 0, n, "overline") {
            Ok(Attribute::Overline)
        } else {
            Err(ParseAttributeError(s.to_owned()))
        }
    }
}

impl std::str::FromStr for Attribute {
    type Err = ParseAttributeError;

    fn from_str(s: &str) -> (r: Result<Attribute, ParseAttributeError>)
        ensures
            match Attribute::named(s@) {
                Some(a) => r == Ok::<Attribute, ParseAttributeError>(a),
                None => r is Err && r->Err_0.0@ == s@,
            },
    {
        Attribute::parse(s)
    }
}

/// A mask of exactly one attribute.
spec fn single_bit(m: u16) -> bool {
    m == 0x0001 || m == 0x0002 || m == 0x0004 || m == 0x0008 || m == 0x0010 || m == 0x0020 || m
        == 0x0040 || m == 0x0080 || m == 0x0100 || m == 0x0200 || m == 0x0400 || m == 0x0800 || m
        == 0x1000
}

/// How the operations on masks act on each single attribute bit.
proof fn lemma_mask_algebra(x: u16, y: u16, m: u16)
    by (bit_vector)
    requires
        m == 0x0001 || m == 0x0002 || m == 0x0004 || m == 0x0008 || m == 0x0010 || m == 0x0020 || m
            == 0x0040 || m == 0x0080 || m == 0x0100 || m == 0x0200 || m == 0x0400 || m == 0x0800
            || m == 0x1000,
    ensures
        0u16 & m == 0,
        0x1fffu16 & m != 0,
        m & m != 0,
        ((x | y) & m != 0) == (x & m != 0 || y & m != 0),
        ((x & y) & m != 0) == (x & m != 0 && y & m != 0),
        ((x ^ y) & m != 0) == ((x & m != 0) != (y & m != 0)),
        ((x & !y) & m != 0) == (x & m != 0 && y & m == 0),
        ((!x & 0x1fffu16) & m != 0) == (x & m == 0),
{
}

/// Masks within the thirteen attribute bits stay within them.
proof fn lemma_mask_bounds(x: u16, y: u16)
    by (bit_vector)
    requires
        x <= 0x1fff,
        y <= 0x1fff,
    ensures
        x | y <= 0x1fff,
        x & y <= 0x1fff,
        x ^ y <= 0x1fff,
        x & !y <= 0x1fff,
        !x & 0x1fffu16 <= 0x1fff,
{
}

/// A mask within the thirteen attribute bits is determined by those bits.
proof fn lemma_mask_equal(x: u16, y: u16)
    by (bit_vector)
    requires
        x <= 0x1fff,
        y <= 0x1fff,
        (x & 0x0001 != 0) == (y & 0x0001 != 0),
        (x & 0x0002 != 0) == (y & 0x0002 != 0),
        (x & 0x0004 != 0) == (y & 0x0004 != 0),
        (x & 0x0008 != 0) == (y & 0x0008 != 0),
        (x & 0x0010 != 0) == (y & 0x0010 != 0),
        (x & 0x0020 != 0) == (y & 0x0020 != 0),
        (x & 0x0040 != 0) == (y & 0x0040 != 0),
        (x & 0x0080 != 0) == (y & 0x0080 != 0),
        (x & 0x0100 != 0) == (y & 0x0100 != 0),
        (x & 0x0200 != 0) == (y & 0x0200 != 0),
        (x & 0x0400 != 0) == (y & 0x0400 != 0),
        (x & 0x0800 != 0) == (y & 0x0800 != 0),
        (x & 0x1000 != 0) == (y & 0x1000 != 0),
    ensures
        x == y,
{
}

/// The mask whose bits are set as the thirteen flags say, in canonical order.
#[verifier::opaque]
spec fn bits_of(
    b0: bool,
    b1: bool,
    b2: bool,
    b3: bool,
    b4: bool,
    b5: bool,
    b6: bool,
    b7: bool,
    b8: bool,
    b9: bool,
    b10: bool,
    b11: bool,
    b12: bool,
) -> u16 {
    bit_if(b0, 0x0001) | bit_if(b1, 0x0002) | bit_if(b2, 0x0004) | bit_if(b3, 0x0008) | bit_if(
        b4,
        0x0010,
    ) | bit_if(b5, 0x0020) | bit_if(b6, 0x0040) | bit_if(b7, 0x0080) | bit_if(b8, 0x0100) | bit_if(
        b9,
        0x0200,
    ) | bit_if(b10, 0x0400) | bit_if(b11, 0x0800) | bit_if(b12, 0x1000)
}

/// The bit `m` where the flag is set, else no bit.
spec fn bit_if(flag: bool, m: u16) -> u16 {
    if flag {
        m
    } else {
        0
    }
}

/// Each bit of `bits_of` is set exactly where its flag is.
proof fn lemma_bits_of(
    b0: bool,
    b1: bool,
    b2: bool,
    b3: bool,
    b4: bool,
    b5: bool,
    b6: bool,
    b7: bool,
    b8: bool,
    b9: bool,
    b10: bool,
    b11: bool,
    b12: bool,
)
    by (bit_vector)
    ensures
        bits_of(b0, b1, b2, b3, b4, b5, b6, b7, b8, b9, b10, b11, b12) <= 0x1fff,
        (bits_of(b0, b1, b2, b3, b4, b5, b6, b7, b8, b9, b10, b11, b12) & 0x0001 != 0) == b0,
        (bits_of(b0, b1, b2, b3, b4, b5, b6, b7, b8, b9, b10, b11, b12) & 0x0002 != 0) == b1,
        (bits_of(b0, b1, b2, b3, b4, b5, b6, b7, b8, b9, b10, b11, b12) & 0x0004 != 0) == b2,
        (bits_of(b0, b1, b2, b3, b4, b5, b6, b7, b8, b9, b10, b11, b12) & 0x0008 != 0) == b3,
        (bits_of(b0, b1, b2, b3, b4, b5, b6, b7, b8, b9, b10, b11, b12) & 0x0010 != 0) == b4,
        (bits_of(b0, b1, b2, b3, b4, b5, b6, b7, b8, b9, b10, b11, b12) & 0x0020 != 0) == b5,
        (bits_of(b0, b1, b2, b3, b4, b5, b6, b7, b8, b9, b10, b11, b12) & 0x0040 != 0) == b6,
        (bits_of(b0, b1, b2, b3, b4, b5, b6, b7, b8, b9, b10, b11, b12) & 0x0080 != 0) == b7,
        (bits_of(b0, b1, b2, b3, b4, b5, b6, b7, b8, b9, b10, b11, b12) & 0x0100 != 0) == b8,
        (bits_of(b0, b1, b2, b3, b4, b5, b6, b7, b8, b9, b10, b11, b12) & 0x0200 != 0) == b9,
        (bits_of(b0, b1, b2, b3, b4, b5, b6, b7, b8, b9, b10, b11, b12) & 0x0400 != 0) == b10,
        (bits_of(b0, b1, b2, b3, b4, b5, b6, b7, b8, b9, b10, b11, b12) & 0x0800 != 0) == b11,
        (bits_of(b0, b1, b2, b3, b4, b5, b6, b7, b8, b9, b10, b11, b12) & 0x1000 != 0) == b12,
{
}

/// The number of attributes that have a terminal modifier: the first nine.
pub const MODIFIER_COUNT: u8 = 9;

/// The bits of the attributes that have a terminal modifier.
pub const MODIFIER_BITS: u16 = 0x01ff;

/// The bits of the attributes that have a terminal modifier, but for the
/// two kinds of blinking.
pub const BLINKLESS_BITS: u16 = 0x01cf;

/// Masking with the modifier bits keeps the bits of the first nine
/// attributes and drops the others.
proof fn lemma_modifier_mask(x: u16, m: u16)
    by (bit_vector)
    requires
        m == 0x0001 || m == 0x0002 || m == 0x0004 || m == 0x0008 || m == 0x0010 || m == 0x0020 || m
            == 0x0040 || m == 0x0080 || m == 0x0100 || m == 0x0200 || m == 0x0400 || m == 0x0800
            || m == 0x1000,
    ensures
        x & 0x01ffu16 <= 0x01ff,
        ((x & 0x01ffu16) & m != 0) == (x & m != 0 && m <= 0x0100),
{
}

/// How a mask of modifiers is read bit by bit, with both kinds of blinking
/// taken as one.
proof fn lemma_modifier_read(x: u16, m: u16)
    by (bit_vector)
    requires
        m == 0x0001 || m == 0x0002 || m == 0x0004 || m == 0x0008 || m == 0x0010 || m == 0x0020 || m
            == 0x0040 || m == 0x0080 || m == 0x0100 || m == 0x0200 || m == 0x0400 || m == 0x0800
            || m == 0x1000,
    ensures
        (x & 0x01cfu16) | (if x & 0x0030 != 0 {
            0x0010u16
        } else {
            0u16
        }) <= 0x1fff,
        (((x & 0x01cfu16) | (if x & 0x0030 != 0 {
            0x0010u16
        } else {
            0u16
        })) & m != 0) == (if m == 0x0010 {
            x & 0x0030 != 0
        } else {
            m != 0x0020 && m <= 0x0100 && x & m != 0
        }),
{
}

/// A set of [`Attribute`] values.
///
/// `AttributeSet` values can be combined with bitwise operators and can be
/// iterated over.
#[derive(Clone, Copy, Debug, PartialEq, Eq, Structural, PartialOrd, Ord, Hash)]
pub struct AttributeSet {
    bits: u16,
}

impl View for AttributeSet {
    type V = Set<Attribute>;

    /// The attributes that the set holds.
    closed spec fn view(&self) -> Set<Attribute> {
        Set::new(|a: Attribute| self.bits & a.mask() != 0)
    }
}

/// What can be given where a set of attributes is asked for: a set, or a
/// single attribute, which stands for the set that holds just it.
pub trait IntoAttributeSet: Sized {
    /// The members of the set that the value stands for.
    spec fn members(self) -> Set<Attribute>;

    fn into_set(self) -> (r: AttributeSet)
        ensures
            r@ == self.members(),
    ;
}

impl IntoAttributeSet for AttributeSet {
    open spec fn members(self) -> Set<Attribute> {
        self@
    }

    fn into_set(self) -> (r: AttributeSet) {
        self
    }
}

impl IntoAttributeSet for Attribute {
    open spec fn members(self) -> Set<Attribute> {
        set![self]
    }

    fn into_set(self) -> (r: AttributeSet) {
        let r = AttributeSet { bits: self.bit() };
        proof {
            assert forall|a: Attribute| r@.contains(a) == (a == self) by {
                lemma_mask_algebra(self.mask(), a.mask(), a.mask());
                lemma_single_bits_differ(self, a);
            }
            assert(r@ =~= set![self]);
        }
        r
    }
}

/// The bits of two attributes meet only where the attributes are the same.
proof fn lemma_single_bits_differ(a: Attribute, b: Attribute)
    ensures
        (a.mask() & b.mask() != 0) == (a == b),
{
    let x = a.mask();
    let y = b.mask();
    assert(single_bit(x) && single_bit(y) ==> (x & y != 0) == (x == y)) by (bit_vector);
}

impl AttributeSet {
    /// Only the thirteen attribute bits are ever set.
    #[verifier::type_invariant]
    pub closed spec fn wf(self) -> bool {
        self.bits <= ALL_BITS
    }

    /// Two sets with the same members are the same set.
    pub proof fn lemma_extensional(a: AttributeSet, b: AttributeSet)
        requires
            a.wf(),
            b.wf(),
            a@ == b@,
        ensures
            a == b,
    {
        assert forall|t: Attribute| (a.bits & t.mask() != 0) == (b.bits & t.mask() != 0) by {
            assert(a@.contains(t) == (a.bits & t.mask() != 0));
            assert(b@.contains(t) == (b.bits & t.mask() != 0));
        }
        assert((a.bits & Attribute::Bold.mask() != 0) == (b.bits & Attribute::Bold.mask() != 0));
        assert((a.bits & Attribute::Dim.mask() != 0) == (b.bits & Attribute::Dim.mask() != 0));
        assert((a.bits & Attribute::Italic.mask() != 0) == (b.bits & Attribute::Italic.mask()
            != 0));
        assert((a.bits & Attribute::Underline.mask() != 0) == (b.bits
            & Attribute::Underline.mask() != 0));
        assert((a.bits & Attribute::Blink.mask() != 0) == (b.bits & Attribute::Blink.mask() != 0));
        assert((a.bits & Attribute::Blink2.mask() != 0) == (b.bits & Attribute::Blink2.mask()
            != 0));
        assert((a.bits & Attribute::Reverse.mask() != 0) == (b.bits & Attribute::Reverse.mask()
            != 0));
        assert((a.bits & Attribute::Conceal.mask() != 0) == (b.bits & Attribute::Conceal.mask()
            != 0));
        assert((a.bits & Attribute::Strike.mask() != 0) == (b.bits & Attribute::Strike.mask()
            != 0));
        assert((a.bits & Attribute::Underline2.mask() != 0) == (b.bits
            & Attribute::Underline2.mask() != 0));
        assert((a.bits & Attribute::Frame.mask() != 0) == (b.bits & Attribute::Frame.mask() != 0));
        assert((a.bits & Attribute::Encircle.mask() != 0) == (b.bits & Attribute::Encircle.mask()
            != 0));
        assert((a.bits & Attribute::Overline.mask() != 0) == (b.bits & Attribute::Overline.mask()
            != 0));
        lemma_mask_equal(a.bits, b.bits);
    }

    /// The set with the given members.
    pub closed spec fn of(s: Set<Attribute>) -> AttributeSet {
        AttributeSet {
            bits: bits_of(
                s.contains(Attribute::Bold),
                s.contains(Attribute::Dim),
                s.contains(Attribute::Italic),
                s.contains(Attribute::Underline),
                s.contains(Attribute::Blink),
                s.contains(Attribute::Blink2),
                s.contains(Attribute::Reverse),
                s.contains(Attribute::Conceal),
                s.contains(Attribute::Strike),
                s.contains(Attribute::Underline2),
                s.contains(Attribute::Frame),
                s.contains(Attribute::Encircle),
                s.contains(Attribute::Overline),
            ),
        }
    }

    /// `of(s)` is a set, and its members are those of `s`.
    pub proof fn lemma_of(s: Set<Attribute>)
        ensures
            AttributeSet::of(s).wf(),
            AttributeSet::of(s)@ == s,
    {
        let r = AttributeSet::of(s);
        assert forall|a: Attribute| r@.contains(a) == s.contains(a) by {
            AttributeSet::lemma_of_member(s, a);
        }
        AttributeSet::lemma_of_member(s, Attribute::Bold);
        assert(r@ =~= s);
    }

    /// The bit of an attribute is set in `of(s)` exactly where `s` holds the
    /// attribute, and no other bits are.
    proof fn lemma_of_member(s: Set<Attribute>, a: Attribute)
        ensures
            AttributeSet::of(s).bits <= ALL_BITS,
            (AttributeSet::of(s).bits & a.mask() != 0) == s.contains(a),
    {
        lemma_bits_of(
            s.contains(Attribute::Bold),
            s.contains(Attribute::Dim),
            s.contains(Attribute::Italic),
            s.contains(Attribute::Underline),
            s.contains(Attribute::Blink),
            s.contains(Attribute::Blink2),
            s.contains(Attribute::Reverse),
            s.contains(Attribute::Conceal),
            s.contains(Attribute::Strike),
            s.contains(Attribute::Underline2),
            s.contains(Attribute::Frame),
            s.contains(Attribute::Encircle),
            s.contains(Attribute::Overline),
        );
    }

    /// A set is the set of its members.
    pub proof fn lemma_of_view(a: AttributeSet)
        requires
            a.wf(),
        ensures
            AttributeSet::of(a@) == a,
    {
        AttributeSet::lemma_of(a@);
        AttributeSet::lemma_extensional(AttributeSet::of(a@), a);
    }

    /// A set containing no [`Attribute`]s
    #[allow(non_snake_case)]
    pub fn EMPTY() -> (r: AttributeSet)
        ensures
            r@ == Set::<Attribute>::empty(),
            r == AttributeSet::of(Set::empty()),
    {
        AttributeSet::new()
    }

    /// A set containing all [`Attribute`]s
    #[allow(non_snake_case)]
    pub fn ALL() -> (r: AttributeSet)
        ensures
            r@ == Set::<Attribute>::full(),
            r == AttributeSet::of(Set::full()),
    {
        let r = AttributeSet { bits: ALL_BITS };
        proof {
            assert forall|a: Attribute| r@.contains(a) by {
                lemma_mask_algebra(0, 0, a.mask());
            }
            assert(r@ =~= Set::<Attribute>::full());
            AttributeSet::lemma_of_view(r);
        }
        r
    }

    /// Return a new set containing no [`Attribute`]s
    pub fn new() -> (r: AttributeSet)
        ensures
            r@ == Set::<Attribute>::empty(),
            r == AttributeSet::of(Set::empty()),
    {
        let r = AttributeSet { bits: 0 };
        proof {
            assert forall|a: Attribute| !r@.contains(a) by {
                lemma_mask_algebra(0, 0, a.mask());
            }
            assert(r@ =~= Set::<Attribute>::empty());
            AttributeSet::lemma_of_view(r);
        }
        r
    }

    /// Test whether the set is empty
    pub fn is_empty(self) -> (r: bool)
        ensures
            r == (self@ == Set::<Attribute>::empty()),
    {
        proof {
            use_type_invariant(&self);
            let e = AttributeSet { bits: 0 };
            assert forall|a: Attribute| !e@.contains(a) by {
                lemma_mask_algebra(0, 0, a.mask());
            }
            assert(e@ =~= Set::<Attribute>::empty());
            if self@ == Set::<Attribute>::empty() {
                AttributeSet::lemma_extensional(self, e);
            }
        }
        self.bits == 0
    }

    /// Test whether the set contains all [`Attribute`]s
    pub fn is_all(self) -> (r: bool)
        ensures
            r == (self@ == Set::<Attribute>::full()),
    {
        proof {
            use_type_invariant(&self);
            let e = AttributeSet { bits: ALL_BITS };
            assert forall|a: Attribute| e@.contains(a) by {
                lemma_mask_algebra(0, 0, a.mask());
            }
            assert(e@ =~= Set::<Attribute>::full());
            if self@ == Set::<Attribute>::full() {
                AttributeSet::lemma_extensional(self, e);
            }
        }
        self.bits == ALL_BITS
    }

    /// Test whether the set contains the given [`Attribute`]
    pub fn contains(self, attr: Attribute) -> (r: bool)
        ensures
            r == self@.contains(attr),
    {
        self.bits & attr.bit() != 0
    }

    /// The members of the set, from first to last in canonical order.
    pub fn into_iter(self) -> (r: AttributeSetIter)
        ensures
            r@ == Attribute::all().filter(|a: Attribute| self@.contains(a)),
    {
        AttributeSetIter::new(self)
    }

    /// The attributes of either set.
    pub fn union(self, other: AttributeSet) -> (r: AttributeSet)
        ensures
            r@ == self@.union(other@),
    {
        proof {
            use_type_invariant(&self);
            use_type_invariant(&other);
            lemma_mask_bounds(self.bits, other.bits);
        }
        let r = AttributeSet { bits: self.bits | other.bits };
        proof {
            assert forall|a: Attribute|
                r@.contains(a) == (self@.contains(a) || other@.contains(a)) by {
                lemma_mask_algebra(self.bits, other.bits, a.mask());
            }
            assert(r@ =~= self@.union(other@));
        }
        r
    }

    /// The attributes of both sets.
    pub fn intersection(self, other: AttributeSet) -> (r: AttributeSet)
        ensures
            r@ == self@.intersect(other@),
    {
        proof {
            use_type_invariant(&self);
            use_type_invariant(&other);
            lemma_mask_bounds(self.bits, other.bits);
        }
        let r = AttributeSet { bits: self.bits & other.bits };
        proof {
            assert forall|a: Attribute|
                r@.contains(a) == (self@.contains(a) && other@.contains(a)) by {
                lemma_mask_algebra(self.bits, other.bits, a.mask());
            }
            assert(r@ =~= self@.intersect(other@));
        }
        r
    }

    /// The attributes of exactly one of the sets.
    pub fn symmetric_difference(self, other: AttributeSet) -> (r: AttributeSet)
        ensures
            r@ == self@.difference(other@).union(other@.difference(self@)),
    {
        proof {
            use_type_invariant(&self);
            use_type_invariant(&other);
            lemma_mask_bounds(self.bits, other.bits);
        }
        let r = AttributeSet { bits: self.bits ^ other.bits };
        proof {
            assert forall|a: Attribute|
                r@.contains(a) == (self@.contains(a) != other@.contains(a)) by {
                lemma_mask_algebra(self.bits, other.bits, a.mask());
            }
            assert(r@ =~= self@.difference(other@).union(other@.difference(self@)));
        }
        r
    }

    /// The attributes of `self` that are not in `other`.
    pub fn difference(self, other: AttributeSet) -> (r: AttributeSet)
        ensures
            r@ == self@.difference(other@),
    {
        proof {
            use_type_invariant(&self);
            use_type_invariant(&other);
            lemma_mask_bounds(self.bits, other.bits);
        }
        let r = AttributeSet { bits: self.bits & !other.bits };
        proof {
            assert forall|a: Attribute|
                r@.contains(a) == (self@.contains(a) && !other@.contains(a)) by {
                lemma_mask_algebra(self.bits, other.bits, a.mask());
            }
            assert(r@ =~= self@.difference(other@));
        }
        r
    }

    /// The set as a mask of terminal modifiers, in which bit `k` stands for
    /// the attribute at place `k` of the first nine: bold, dim, italic,
    /// underline, blink, fast blink, reverse, conceal and strike. The four
    /// attributes behind them have no modifier and are left out.
    pub fn to_modifier_bits(self) -> (r: u16)
        ensures
            r <= MODIFIER_BITS,
            forall|a: Attribute|
                (r & #[trigger] a.mask() != 0) == (self@.contains(a) && a.index() < MODIFIER_COUNT),
    {
        let r = self.bits & MODIFIER_BITS;
        proof {
            assert forall|a: Attribute|
                (r & #[trigger] a.mask() != 0) == (self@.contains(a) && a.index()
                    < MODIFIER_COUNT) by {
                lemma_modifier_mask(self.bits, a.mask());
            }
            lemma_modifier_mask(self.bits, 1);
        }
        r
    }

    /// The set that a mask of terminal modifiers stands for. Both kinds of
    /// blinking, bits 4 and 5, are read as [`Attribute::Blink`]; bits that
    /// stand for no modifier are passed over.
    pub fn from_modifier_bits(bits: u16) -> (r: AttributeSet)
        ensures
            forall|a: Attribute|
                r@.contains(a) == if a == Attribute::Blink {
                    bits & 0x0030 != 0
                } else {
                    a != Attribute::Blink2 && a.index() < MODIFIER_COUNT && bits & a.mask() != 0
                },
    {
        let plain = bits & BLINKLESS_BITS;
        let blink: u16 = if bits & 0x0030 != 0 {
            0x0010
        } else {
            0
        };
        proof {
            lemma_modifier_read(bits, 1);
        }
        let r = AttributeSet { bits: plain | blink };
        proof {
            assert forall|a: Attribute|
                r@.contains(a) == if a == Attribute::Blink {
                    bits & 0x0030 != 0
                } else {
                    a != Attribute::Blink2 && a.index() < MODIFIER_COUNT && bits & a.mask() != 0
                } by {
                lemma_modifier_read(bits, a.mask());
            }
        }
        r
    }

    /// The attributes that are not in the set.
    pub fn complement(self) -> (r: AttributeSet)
        ensures
            r@ == self@.complement(),
    {
        proof {
            use_type_invariant(&self);
            lemma_mask_bounds(self.bits, self.bits);
        }
        let r = AttributeSet { bits: !self.bits & ALL_BITS };
        proof {
            assert forall|a: Attribute| r@.contains(a) == !self@.contains(a) by {
                lemma_mask_algebra(self.bits, self.bits, a.mask());
            }
            assert(r@ =~= self@.complement());
        }
        r
    }
}

impl Default for AttributeSet {
    fn default() -> (r: AttributeSet)
        ensures
            r@ == Set::<Attribute>::empty(),
    {
        AttributeSet::new()
    }
}

/// An iterator over all [`Attribute`]s in canonical order, from either end.
#[derive(Debug)]
pub struct AttributeIter {
    front: u8,
    back: u8,
}

impl View for AttributeIter {
    type V = Seq<Attribute>;

    /// The attributes that are still to come, in order.
    closed spec fn view(&self) -> Seq<Attribute> {
        Seq::new((self.back - self.front) as nat, |k: int| Attribute::at(self.front + k))
    }
}

impl Clone for AttributeIter {
    fn clone(&self) -> (r: AttributeIter)
        ensures
            r@ == self@,
    {
        proof {
            use_type_invariant(self);
        }
        AttributeIter { front: self.front, back: self.back }
    }
}

impl AttributeIter {
    #[verifier::type_invariant]
    closed spec fn wf(self) -> bool {
        self.front <= self.back <= ATTRIBUTE_COUNT
    }

    /// Takes the first of the attributes that are still to come.
    pub fn next(&mut self) -> (r: Option<Attribute>)
        ensures
            match r {
                Some(a) => old(self)@.len() > 0 && a == old(self)@.first() && final(self)@ == old(
                    self,
                )@.drop_first(),
                None => old(self)@.len() == 0 && final(self)@ == old(self)@,
            },
    {
        proof {
            use_type_invariant(&*self);
        }
        if self.front < self.back {
            let a = Attribute::from_ordinal(self.front);
            let ghost before = self@;
            self.front = self.front + 1;
            assert(self@ =~= before.drop_first());
            Some(a)
        } else {
            None
        }
    }

    /// Takes the last of the attributes that are still to come.
    pub fn next_back(&mut self) -> (r: Option<Attribute>)
        ensures
            match r {
                Some(a) => old(self)@.len() > 0 && a == old(self)@.last() && final(self)@ == old(
                    self,
                )@.drop_last(),
                None => old(self)@.len() == 0 && final(self)@ == old(self)@,
            },
    {
        proof {
            use_type_invariant(&*self);
        }
        if self.front < self.back {
            let ghost before = self@;
            self.back = self.back - 1;
            let a = Attribute::from_ordinal(self.back);
            assert(self@ =~= before.drop_last());
            Some(a)
        } else {
            None
        }
    }
}

/// An iterator over the [`Attribute`]s in an [`AttributeSet`]
#[derive(Debug)]
pub struct AttributeSetIter {
    inner: AttributeIter,
    set: AttributeSet,
}

impl View for AttributeSetIter {
    type V = Seq<Attribute>;

    /// The members of the set that are still to come, in canonical order.
    closed spec fn view(&self) -> Seq<Attribute> {
        self.inner@.filter(|a: Attribute| self.set@.contains(a))
    }
}

impl Clone for AttributeSetIter {
    fn clone(&self) -> (r: AttributeSetIter)
        ensures
            r@ == self@,
    {
        AttributeSetIter { inner: self.inner.clone(), set: self.set }
    }
}

impl AttributeSetIter {
    pub fn new(set: AttributeSet) -> (r: AttributeSetIter)
        ensures
            r@ == Attribute::all().filter(|a: Attribute| set@.contains(a)),
    {
        AttributeSetIter { inner: Attribute::iter(), set }
    }

    /// Takes the first of the members that are still to come.
    pub fn next(&mut self) -> (r: Option<Attribute>)
        ensures
            match r {
                Some(a) => old(self)@.len() > 0 && a == old(self)@.first() && final(self)@ == old(
                    self,
                )@.drop_first(),
                None => old(self)@.len() == 0 && final(self)@ == old(self)@,
            },
    {
        let ghost pred = |a: Attribute| self.set@.contains(a);
        loop
            invariant
                self.set == old(self).set,
                pred == |a: Attribute| self.set@.contains(a),
                self.inner@.filter(pred) == old(self).inner@.filter(pred),
            decreases self.inner@.len(),
        {
            let ghost before = self.inner@;
            match self.inner.next() {
                Some(a) => {
                    proof {
                        assert(before =~= seq![a] + self.inner@);
                        lemma_filter_front(a, self.inner@, pred);
                    }
                    if self.set.contains(a) {
                        return Some(a);
                    }
                },
                None => {
                    assert(before.filter(pred) =~= Seq::<Attribute>::empty()) by {
                        assert(before =~= Seq::<Attribute>::empty());
                        before.lemma_filter_len(pred);
                    }
                    return None;
                },
            }
        }
    }

    /// Takes the last of the members that are still to come.
    pub fn next_back(&mut self) -> (r: Option<Attribute>)
        ensures
            match r {
                Some(a) => old(self)@.len() > 0 && a == old(self)@.last() && final(self)@ == old(
                    self,
                )@.drop_last(),
                None => old(self)@.len() == 0 && final(self)@ == old(self)@,
            },
    {
        let ghost pred = |a: Attribute| self.set@.contains(a);
        loop
            invariant
                self.set == old(self).set,
                pred == |a: Attribute| self.set@.contains(a),
                self.inner@.filter(pred) == old(self).inner@.filter(pred),
            decreases self.inner@.len(),
        {
            let ghost before = self.inner@;
            match self.inner.next_back() {
                Some(a) => {
                    proof {
                        assert(before =~= self.inner@ + seq![a]);
                        lemma_filter_back(self.inner@, a, pred);
                    }
                    if self.set.contains(a) {
                        return Some(a);
                    }
                },
                None => {
                    assert(before.filter(pred) =~= Seq::<Attribute>::empty()) by {
                        assert(before =~= Seq::<Attribute>::empty());
                        before.lemma_filter_len(pred);
                    }
                    return None;
                },
            }
        }
    }
}

/// Filtering a sequence keeps or drops its first element and filters the rest.
proof fn lemma_filter_front(a: Attribute, rest: Seq<Attribute>, pred: spec_fn(Attribute) -> bool)
    ensures
        (seq![a] + rest).filter(pred) == if pred(a) {
            seq![a] + rest.filter(pred)
        } else {
            rest.filter(pred)
        },
{
    Seq::filter_distributes_over_add(seq![a], rest, pred);
    reveal_with_fuel(Seq::filter, 2);
    assert(seq![a].drop_last() =~= Seq::<Attribute>::empty());
    assert(seq![a].filter(pred) =~= if pred(a) {
        seq![a]
    } else {
        Seq::<Attribute>::empty()
    });
    assert(Seq::<Attribute>::empty() + rest.filter(pred) =~= rest.filter(pred));
}

/// Filtering a sequence filters all but its last element and keeps or drops
/// that one.
proof fn lemma_filter_back(rest: Seq<Attribute>, a: Attribute, pred: spec_fn(Attribute) -> bool)
    ensures
        (rest + seq![a]).filter(pred) == if pred(a) {
            rest.filter(pred) + seq![a]
        } else {
            rest.filter(pred)
        },
{
    Seq::filter_distributes_over_add(rest, seq![a], pred);
    reveal_with_fuel(Seq::filter, 2);
    assert(seq![a].drop_last() =~= Seq::<Attribute>::empty());
    assert(seq![a].filter(pred) =~= if pred(a) {
        seq![a]
    } else {
        Seq::<Attribute>::empty()
    });
    assert(rest.filter(pred) + Seq::<Attribute>::empty() =~= rest.filter(pred));
}

impl<A: IntoAttributeSet> std::ops::BitAnd<A> for AttributeSet {
    type Output = AttributeSet;

    fn bitand(self, rhs: A) -> (r: AttributeSet)
        ensures
            r@ == self@.intersect(rhs.members()),
    {
        let r = self.intersection(rhs.into_set());
        proof {
            use_type_invariant(&r);
            AttributeSet::lemma_of(r@);
            AttributeSet::lemma_extensional(r, AttributeSet::of(r@));
        }
        r
    }
}

impl<A: IntoAttributeSet> vstd::std_specs::ops::BitAndSpecImpl<A> for AttributeSet {
    open spec fn obeys_bitand_spec() -> bool {
        true
    }

    open spec fn bitand_req(self, rhs: A) -> bool {
        true
    }

    open spec fn bitand_spec(self, rhs: A) -> AttributeSet {
        AttributeSet::of(self@.intersect(rhs.members()))
    }
}

impl<A: IntoAttributeSet> std::ops::BitOr<A> for AttributeSet {
    type Output = AttributeSet;

    fn bitor(self, rhs: A) -> (r: AttributeSet)
        ensures
            r@ == self@.union(rhs.members()),
    {
        let r = self.union(rhs.into_set());
        proof {
            use_type_invariant(&r);
            AttributeSet::lemma_of(r@);
            AttributeSet::lemma_extensional(r, AttributeSet::of(r@));
        }
        r
    }
}

impl<A: IntoAttributeSet> vstd::std_specs::ops::BitOrSpecImpl<A> for AttributeSet {
    open spec fn obeys_bitor_spec() -> bool {
        true
    }

    open spec fn bitor_req(self, rhs: A) -> bool {
        true
    }

    open spec fn bitor_spec(self, rhs: A) -> AttributeSet {
        AttributeSet::of(self@.union(rhs.members()))
    }
}

impl<A: IntoAttributeSet> std::ops::BitXor<A> for AttributeSet {
    type Output = AttributeSet;

    fn bitxor(self, rhs: A) -> (r: AttributeSet)
        ensures
            r@ == self@.difference(rhs.members()).union(rhs.members().difference(self@)),
    {
        let r = self.symmetric_difference(rhs.into_set());
        proof {
            use_type_invariant(&r);
            AttributeSet::lemma_of(r@);
            AttributeSet::lemma_extensional(r, AttributeSet::of(r@));
        }
        r
    }
}

impl<A: IntoAttributeSet> vstd::std_specs::ops::BitXorSpecImpl<A> for AttributeSet {
    open spec fn obeys_bitxor_spec() -> bool {
        true
    }

    open spec fn bitxor_req(self, rhs: A) -> bool {
        true
    }

    open spec fn bitxor_spec(self, rhs: A) -> AttributeSet {
        AttributeSet::of(self@.difference(rhs.members()).union(rhs.members().difference(self@)))
    }
}

impl<A: IntoAttributeSet> std::ops::Sub<A> for AttributeSet {
    type Output = AttributeSet;

    fn sub(self, rhs: A) -> (r: AttributeSet)
        ensures
            r@ == self@.difference(rhs.members()),
    {
        let r = self.difference(rhs.into_set());
        proof {
            use_type_invariant(&r);
            AttributeSet::lemma_of(r@);
            AttributeSet::lemma_extensional(r, AttributeSet::of(r@));
        }
        r
    }
}

impl<A: IntoAttributeSet> vstd::std_specs::ops::SubSpecImpl<A> for AttributeSet {
    open spec fn obeys_sub_spec() -> bool {
        true
    }

    open spec fn sub_req(self, rhs: A) -> bool {
        true
    }

    open spec fn sub_spec(self, rhs: A) -> AttributeSet {
        AttributeSet::of(self@.difference(rhs.members()))
    }
}

impl std::ops::Not for AttributeSet {
    type Output = AttributeSet;

    fn not(self) -> (r: AttributeSet)
        ensures
            r@ == self@.complement(),
    {
        let r = self.complement();
        proof {
            use_type_invariant(&r);
            AttributeSet::lemma_of(r@);
            AttributeSet::lemma_extensional(r, AttributeSet::of(r@));
        }
        r
    }
}

impl vstd::std_specs::ops::NotSpecImpl for AttributeSet {
    open spec fn obeys_not_spec() -> bool {
        true
    }

    open spec fn not_req(self) -> bool {
        true
    }

    open spec fn not_spec(self) -> AttributeSet {
        AttributeSet::of(self@.complement())
    }
}

impl<A: IntoAttributeSet> std::ops::BitAnd<A> for Attribute {
    type Output = AttributeSet;

    fn bitand(self, rhs: A) -> (r: AttributeSet)
        ensures
            r@ == set![self].intersect(rhs.members()),
    {
        let r = self.into_set().intersection(rhs.into_set());
        proof {
            use_type_invariant(&r);
            AttributeSet::lemma_of(r@);
            AttributeSet::lemma_extensional(r, AttributeSet::of(r@));
        }
        r
    }
}

impl<A: IntoAttributeSet> vstd::std_specs::ops::BitAndSpecImpl<A> for Attribute {
    open spec fn obeys_bitand_spec() -> bool {
        true
    }

    open spec fn bitand_req(self, rhs: A) -> bool {
        true
    }

    open spec fn bitand_spec(self, rhs: A) -> AttributeSet {
        AttributeSet::of(set![self].intersect(rhs.members()))
    }
}

impl<A: IntoAttributeSet> std::ops::BitOr<A> for Attribute {
    type Output = AttributeSet;

    fn bitor(self, rhs: A) -> (r: AttributeSet)
        ensures
            r@ == set![self].union(rhs.members()),
    {
        let r = self.into_set().union(rhs.into_set());
        proof {
            use_type_invariant(&r);
            AttributeSet::lemma_of(r@);
            AttributeSet::lemma_extensional(r, AttributeSet::of(r@));
        }
        r
    }
}

impl<A: IntoAttributeSet> vstd::std_specs::ops::BitOrSpecImpl<A> for Attribute {
    open spec fn obeys_bitor_spec() -> bool {
        true
    }

    open spec fn bitor_req(self, rhs: A) -> bool {
        true
    }

    open spec fn bitor_spec(self, rhs: A) -> AttributeSet {
        AttributeSet::of(set![self].union(rhs.members()))
    }
}

impl<A: IntoAttributeSet> std::ops::BitXor<A> for Attribute {
    type Output = AttributeSet;

    fn bitxor(self, rhs: A) -> (r: AttributeSet)
        ensures
            r@ == set![self].difference(rhs.members()).union(rhs.members().difference(set![self])),
    {
        let r = self.into_set().symmetric_difference(rhs.into_set());
        proof {
            use_type_invariant(&r);
            AttributeSet::lemma_of(r@);
            AttributeSet::lemma_extensional(r, AttributeSet::of(r@));
        }
        r
    }
}

impl<A: IntoAttributeSet> vstd::std_specs::ops::BitXorSpecImpl<A> for Attribute {
    open spec fn obeys_bitxor_spec() -> bool {
        true
    }

    open spec fn bitxor_req(self, rhs: A) -> bool {
        true
    }

    open spec fn bitxor_spec(self, rhs: A) -> AttributeSet {
        AttributeSet::of(
            set![self].difference(rhs.members()).union(rhs.members().difference(set![self])),
        )
    }
}

impl<A: IntoAttributeSet> std::ops::Sub<A> for Attribute {
    type Output = AttributeSet;

    fn sub(self, rhs: A) -> (r: AttributeSet)
        ensures
            r@ == set![self].difference(rhs.members()),
    {
        let r = self.into_set().difference(rhs.into_set());
        proof {
            use_type_invariant(&r);
            AttributeSet::lemma_of(r@);
            AttributeSet::lemma_extensional(r, AttributeSet::of(r@));
        }
        r
    }
}

impl<A: IntoAttributeSet> vstd::std_specs::ops::SubSpecImpl<A> for Attribute {
    open spec fn obeys_sub_spec() -> bool {
        true
    }

    open spec fn sub_req(self, rhs: A) -> bool {
        true
    }

    open spec fn sub_spec(self, rhs: A) -> AttributeSet {
        AttributeSet::of(set![self].difference(rhs.members()))
    }
}

impl std::ops::Not for Attribute {
    type Output = AttributeSet;

    fn not(self) -> (r: AttributeSet)
        ensures
            r@ == set![self].complement(),
    {
        let r = self.into_set().complement();
        proof {
            use_type_invariant(&r);
            AttributeSet::lemma_of(r@);
            AttributeSet::lemma_extensional(r, AttributeSet::of(r@));
        }
        r
    }
}

impl vstd::std_specs::ops::NotSpecImpl for Attribute {
    open spec fn obeys_not_spec() -> bool {
        true
    }

    open spec fn not_req(self) -> bool {
        true
    }

    open spec fn not_spec(self) -> AttributeSet {
        AttributeSet::of(set![self].complement())
    }
}

impl<A: IntoAttributeSet> std::ops::BitAndAssign<A> for AttributeSet {
    fn bitand_assign(&mut self, rhs: A)
        ensures
            final(self)@ == old(self)@.intersect(rhs.members()),
    {
        *self = self.intersection(rhs.into_set());
    }
}

impl<A: IntoAttributeSet> std::ops::BitOrAssign<A> for AttributeSet {
    fn bitor_assign(&mut self, rhs: A)
        ensures
            final(self)@ == old(self)@.union(rhs.members()),
    {
        *self = self.union(rhs.into_set());
    }
}

impl<A: IntoAttributeSet> std::ops::BitXorAssign<A> for AttributeSet {
    fn bitxor_assign(&mut self, rhs: A)
        ensures
            final(self)@ == old(self)@.difference(rhs.members()).union(
                rhs.members().difference(old(self)@),
            ),
    {
        *self = self.symmetric_difference(rhs.into_set());
    }
}

impl<A: IntoAttributeSet> std::ops::SubAssign<A> for AttributeSet {
    fn sub_assign(&mut self, rhs: A)
        ensures
            final(self)@ == old(self)@.difference(rhs.members()),
    {
        *self = self.difference(rhs.into_set());
    }
}

impl From<Attribute> for AttributeSet {
    fn from(value: Attribute) -> (r: AttributeSet)
        ensures
            r@ == set![value],
    {
        let r = value.into_set();
        proof {
            use_type_invariant(&r);
            AttributeSet::lemma_of(r@);
            AttributeSet::lemma_extensional(r, AttributeSet::of(r@));
        }
        r
    }
}

impl vstd::std_specs::convert::FromSpecImpl<Attribute> for AttributeSet {
    open spec fn obeys_from_spec() -> bool {
        true
    }

    open spec fn from_spec(value: Attribute) -> AttributeSet {
        AttributeSet::of(set![value])
    }
}

} // verus!
