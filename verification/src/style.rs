//! Styles: a foreground and a background color with the attributes that are
//! switched on and off, the text that denotes a style, and the composition
//! of two styles.

use crate::attributes::{Attribute, AttributeSet, IntoAttributeSet, ATTRIBUTE_COUNT};
use crate::color::Color;
use crate::color256::Color256;
use crate::rgbcolor::RgbColor;
use crate::text::{chars_of, eq_nocase, join, push_word, range_eq_nocase, word_ranges, words};
use vstd::prelude::*;
use vstd::string::*;

verus! {

/// What a style says: its colors, and the attributes that it enables and
/// disables.
pub struct StyleView {
    /// The foreground color; `None` leaves the color of the context.
    pub foreground: Option<Color>,
    /// The background color; `None` leaves the color of the context.
    pub background: Option<Color>,
    /// The attributes that the style enables.
    pub enabled: Set<Attribute>,
    /// The attributes that the style disables.
    pub disabled: Set<Attribute>,
}

/// Why a text denotes no style.
pub enum StyleFault {
    /// A word that is neither a keyword, a color nor an attribute.
    Token(Seq<char>),
    /// `on` with no color behind it.
    MissingBackground,
    /// `not` with no attribute behind it.
    MissingAttribute,
}

impl StyleView {
    /// The style that says nothing.
    pub open spec fn empty() -> StyleView {
        StyleView {
            foreground: None,
            background: None,
            enabled: Set::empty(),
            disabled: Set::empty(),
        }
    }

    /// No attribute is both enabled and disabled.
    pub open spec fn valid(self) -> bool {
        self.enabled.disjoint(self.disabled)
    }

    /// The same style with the foreground color set or cleared.
    pub open spec fn with_foreground(self, fg: Option<Color>) -> StyleView {
        StyleView { foreground: fg, ..self }
    }

    /// The same style with the background color set or cleared.
    pub open spec fn with_background(self, bg: Option<Color>) -> StyleView {
        StyleView { background: bg, ..self }
    }

    /// Enables exactly `attrs`, which are then no longer disabled.
    pub open spec fn with_enabled(self, attrs: Set<Attribute>) -> StyleView {
        StyleView { enabled: attrs, disabled: self.disabled.difference(attrs), ..self }
    }

    /// Disables exactly `attrs`, which are then no longer enabled.
    pub open spec fn with_disabled(self, attrs: Set<Attribute>) -> StyleView {
        StyleView { enabled: self.enabled.difference(attrs), disabled: attrs, ..self }
    }

    /// Enables `enabled` and disables `disabled`, but for the attributes that
    /// are in both, which are neither enabled nor disabled.
    pub open spec fn with_attributes(
        self,
        enabled: Set<Attribute>,
        disabled: Set<Attribute>,
    ) -> StyleView {
        StyleView {
            enabled: enabled.difference(disabled),
            disabled: disabled.difference(enabled),
            ..self
        }
    }

    /// Enables `attrs` in addition, which are then no longer disabled.
    pub open spec fn enable(self, attrs: Set<Attribute>) -> StyleView {
        StyleView {
            enabled: self.enabled.union(attrs),
            disabled: self.disabled.difference(attrs),
            ..self
        }
    }

    /// Disables `attrs` in addition, which are then no longer enabled.
    pub open spec fn disable(self, attrs: Set<Attribute>) -> StyleView {
        StyleView {
            enabled: self.enabled.difference(attrs),
            disabled: self.disabled.union(attrs),
            ..self
        }
    }

    /// The style sets no color and no attribute.
    pub open spec fn is_empty(self) -> bool {
        &&& self.foreground is None
        &&& self.background is None
        &&& self.enabled == Set::<Attribute>::empty()
        &&& self.disabled == Set::<Attribute>::empty()
    }

    /// The style enables `attr`, and does not disable it.
    pub open spec fn is_enabled(self, attr: Attribute) -> bool {
        self.enabled.contains(attr) && !self.disabled.contains(attr)
    }

    /// The style disables `attr`, and does not enable it.
    pub open spec fn is_disabled(self, attr: Attribute) -> bool {
        self.disabled.contains(attr) && !self.enabled.contains(attr)
    }

    /// The style of a text that has this style and then, inside it, the
    /// style `other`: a color of `self` stays where it is set, else that of
    /// `other` shows; each attribute that `other` enables or disables is as
    /// `other` says, and every other attribute is as `self` says.
    pub open spec fn patch(self, other: StyleView) -> StyleView {
        StyleView {
            foreground: if self.foreground is Some {
                self.foreground
            } else {
                other.foreground
            },
            background: if self.background is Some {
                self.background
            } else {
                other.background
            },
            enabled: self.enabled.difference(other.disabled).union(other.enabled),
            disabled: self.disabled.difference(other.enabled).union(other.disabled),
        }
    }

    /// The words for the attributes from place `i` of the canonical order
    /// on: the name of each enabled one, `not` and the name of each disabled
    /// one.
    pub open spec fn attribute_words(self, i: int) -> Seq<Seq<char>>
        decreases ATTRIBUTE_COUNT - i,
    {
        if i < 0 || i >= ATTRIBUTE_COUNT {
            Seq::empty()
        } else {
            let a = Attribute::at(i);
            let here = if self.is_enabled(a) {
                seq![a.name()]
            } else if self.is_disabled(a) {
                seq!["not"@, a.name()]
            } else {
                Seq::empty()
            };
            here + self.attribute_words(i + 1)
        }
    }

    /// The words for the colors: the foreground, then `on` and the
    /// background.
    pub open spec fn color_words(self) -> Seq<Seq<char>> {
        (match self.foreground {
            Some(c) => seq![c.text()],
            None => Seq::empty(),
        }) + (match self.background {
            Some(c) => seq!["on"@, c.text()],
            None => Seq::empty(),
        })
    }

    /// The words of the canonical text: attributes in canonical order, then
    /// the colors.
    pub open spec fn words(self) -> Seq<Seq<char>> {
        self.attribute_words(0) + self.color_words()
    }

    /// The canonical text of the style: its words with single spaces
    /// between them, or `none` where it has no word.
    pub open spec fn text(self) -> Seq<char> {
        if self.words().len() == 0 {
            "none"@
        } else {
            join(self.words())
        }
    }

    /// Reads the words from place `i` on into `self`, from left to right and
    /// without looking back. `on` takes the next word as the background
    /// color, `not` takes the next word as an attribute to disable; any other
    /// word is a foreground color or else an attribute to enable. What is
    /// read later replaces what was read before.
    pub open spec fn read_words(self, ws: Seq<Seq<char>>, i: int) -> Result<StyleView, StyleFault>
        decreases ws.len() - i,
    {
        if i < 0 || i >= ws.len() {
            Ok(self)
        } else if eq_nocase(ws[i], "on"@) {
            if i + 1 < ws.len() && Color::from_text(ws[i + 1]) is Some {
                self.with_background(Color::from_text(ws[i + 1])).read_words(ws, i + 2)
            } else {
                Err(StyleFault::MissingBackground)
            }
        } else if eq_nocase(ws[i], "not"@) {
            if i + 1 < ws.len() && Attribute::named(ws[i + 1]) is Some {
                self.disable(set![Attribute::named(ws[i + 1])->0]).read_words(ws, i + 2)
            } else {
                Err(StyleFault::MissingAttribute)
            }
        } else if Color::from_text(ws[i]) is Some {
            self.with_foreground(Color::from_text(ws[i])).read_words(ws, i + 1)
        } else if Attribute::named(ws[i]) is Some {
            self.enable(set![Attribute::named(ws[i])->0]).read_words(ws, i + 1)
        } else {
            Err(StyleFault::Token(ws[i]))
        }
    }

    /// The style that a text denotes. A text without words, or whose only
    /// word is `none` in any ASCII case, denotes the empty style; any other
    /// text is read word by word.
    pub open spec fn read(s: Seq<char>) -> Result<StyleView, StyleFault> {
        let ws = words(s);
        if ws.len() == 0 || (ws.len() == 1 && eq_nocase(ws[0], "none"@)) {
            Ok(StyleView::empty())
        } else {
            StyleView::empty().read_words(ws, 0)
        }
    }
}

/// Error returned when parsing a style fails
#[derive(Clone, Debug, PartialEq, Eq)]
pub enum ParseStyleError {
    /// An invalid/unexpected token was enountered
    Token(
        /// The invalid token
        String,
    ),
    /// `"on"` was not followed by a valid color word
    MissingBackground,
    /// `"not"` was not followed by a valid attribute name
    MissingAttribute,
}

impl View for ParseStyleError {
    type V = StyleFault;

    open spec fn view(&self) -> StyleFault {
        match self {
            ParseStyleError::Token(t) => StyleFault::Token(t@),
            ParseStyleError::MissingBackground => StyleFault::MissingBackground,
            ParseStyleError::MissingAttribute => StyleFault::MissingAttribute,
        }
    }
}

/// A terminal text style
///
/// `Style` stores two sets of [`Attribute`]s: those attributes that the style
/// enables, plus those that the style explicitly disables/turns off.  The
/// latter are relevant if you're applying a style in the middle of text with a
/// different style; e.g., if a text styled with `"red bold"` contains a
/// substring styled with `"blue not bold"`, you'd want to know that the bold
/// effect should be disabled for that substring.
#[derive(Clone, Copy, Debug, PartialEq, Eq, Structural, Hash)]
pub struct Style {
    /// The foreground color
    foreground: Option<Color>,
    /// The background color
    background: Option<Color>,
    /// Active/enabled attributes
    enabled_attributes: AttributeSet,
    /// Explicitly disabled attributes
    disabled_attributes: AttributeSet,
}

impl View for Style {
    type V = StyleView;

    closed spec fn view(&self) -> StyleView {
        StyleView {
            foreground: self.foreground,
            background: self.background,
            enabled: self.enabled_attributes@,
            disabled: self.disabled_attributes@,
        }
    }
}

impl Style {
    /// Both sets of attributes are sets, and no attribute is in both.
    #[verifier::type_invariant]
    pub closed spec fn wf(self) -> bool {
        &&& self.enabled_attributes.wf()
        &&& self.disabled_attributes.wf()
        &&& self@.valid()
    }

    /// The style that says `v`.
    pub closed spec fn of(v: StyleView) -> Style {
        Style {
            foreground: v.foreground,
            background: v.background,
            enabled_attributes: AttributeSet::of(v.enabled),
            disabled_attributes: AttributeSet::of(v.disabled),
        }
    }

    /// `of(v)` says `v`, and is a style where `v` is valid.
    pub proof fn lemma_of(v: StyleView)
        ensures
            Style::of(v)@ == v,
            v.valid() ==> Style::of(v).wf(),
    {
        AttributeSet::lemma_of(v.enabled);
        AttributeSet::lemma_of(v.disabled);
    }

    /// A style is the style of what it says.
    pub proof fn lemma_of_view(s: Style)
        requires
            s.wf(),
        ensures
            Style::of(s@) == s,
    {
        AttributeSet::lemma_of_view(s.enabled_attributes);
        AttributeSet::lemma_of_view(s.disabled_attributes);
    }

    /// Two styles that say the same are the same style.
    pub proof fn lemma_extensional(a: Style, b: Style)
        requires
            a.wf(),
            b.wf(),
            a@ == b@,
        ensures
            a == b,
    {
        AttributeSet::lemma_extensional(a.enabled_attributes, b.enabled_attributes);
        AttributeSet::lemma_extensional(a.disabled_attributes, b.disabled_attributes);
    }

    /// What a style says is valid.
    pub proof fn lemma_valid(s: Style)
        requires
            s.wf(),
        ensures
            s@.valid(),
    {
    }

    /// Create a new, empty style
    pub fn new() -> (r: Style)
        ensures
            r@ == StyleView::empty(),
    {
        let enabled_attributes = AttributeSet::EMPTY();
        let disabled_attributes = AttributeSet::EMPTY();
        proof {
            use_type_invariant(&enabled_attributes);
            use_type_invariant(&disabled_attributes);
        }
        Style { foreground: None, background: None, enabled_attributes, disabled_attributes }
    }

    /// Set or clear the foreground color.
    ///
    /// Note that setting the foreground to `None` is different from setting it
    /// to [`Color::Default`]: if the style is applied in the middle of text
    /// with a foreground color set, `None` will leave the foreground color
    /// as-is while `Color::Default` will reset it.
    pub fn foreground(self, fg: Option<Color>) -> (r: Style)
        ensures
            r@ == self@.with_foreground(fg),
    {
        proof {
            use_type_invariant(&self);
        }
        Style { foreground: fg, ..self }
    }

    /// Set or clear the background color
    ///
    /// Note that setting the background to `None` is different from setting it
    /// to [`Color::Default`]: if the style is applied in the middle of text
    /// with a background color set, `None` will leave the background color
    /// as-is while `Color::Default` will reset it.
    pub fn background(self, bg: Option<Color>) -> (r: Style)
        ensures
            r@ == self@.with_background(bg),
    {
        proof {
            use_type_invariant(&self);
        }
        Style { background: bg, ..self }
    }

    /// Set the enabled attributes
    pub fn enabled_attributes<A: IntoAttributeSet>(self, attrs: A) -> (r: Style)
        ensures
            r@ == self@.with_enabled(attrs.members()),
    {
        proof {
            use_type_invariant(&self);
        }
        let enabled = attrs.into_set();
        let disabled = self.disabled_attributes.difference(enabled);
        proof {
            use_type_invariant(&enabled);
            use_type_invariant(&disabled);
        }
        Style { enabled_attributes: enabled, disabled_attributes: disabled, ..self }
    }

    /// Set the disabled attributes
    pub fn disabled_attributes<A: IntoAttributeSet>(self, attrs: A) -> (r: Style)
        ensures
            r@ == self@.with_disabled(attrs.members()),
    {
        proof {
            use_type_invariant(&self);
        }
        let disabled = attrs.into_set();
        let enabled = self.enabled_attributes.difference(disabled);
        proof {
            use_type_invariant(&enabled);
            use_type_invariant(&disabled);
        }
        Style { enabled_attributes: enabled, disabled_attributes: disabled, ..self }
    }

    /// Set the enabled and the disabled attributes together. An attribute
    /// that is given in both sets is neither enabled nor disabled.
    pub fn attributes(self, enabled: AttributeSet, disabled: AttributeSet) -> (r: Style)
        ensures
            r@ == self@.with_attributes(enabled@, disabled@),
    {
        proof {
            use_type_invariant(&self);
        }
        let enabled_attributes = enabled.difference(disabled);
        let disabled_attributes = disabled.difference(enabled);
        proof {
            use_type_invariant(&enabled_attributes);
            use_type_invariant(&disabled_attributes);
        }
        Style { enabled_attributes, disabled_attributes, ..self }
    }

    /// `true` if the style does not set any colors or attributes
    pub fn is_empty(self) -> (r: bool)
        ensures
            r == self@.is_empty(),
    {
        self.foreground.is_none() && self.background.is_none()
            && self.enabled_attributes.is_empty() && self.disabled_attributes.is_empty()
    }

    /// `true` if `attr` is enabled
    pub fn is_enabled(self, attr: Attribute) -> (r: bool)
        ensures
            r == self@.is_enabled(attr),
            r == self@.enabled.contains(attr),
    {
        proof {
            use_type_invariant(&self);
        }
        self.enabled_attributes.contains(attr) && !self.disabled_attributes.contains(attr)
    }

    /// `true` if `attr` is explicitly disabled
    pub fn is_disabled(self, attr: Attribute) -> (r: bool)
        ensures
            r == self@.is_disabled(attr),
            r == self@.disabled.contains(attr),
    {
        proof {
            use_type_invariant(&self);
        }
        self.disabled_attributes.contains(attr) && !self.enabled_attributes.contains(attr)
    }

    /// Return the foreground color
    pub fn get_foreground(self) -> (r: Option<Color>)
        ensures
            r == self@.foreground,
    {
        self.foreground
    }

    /// Return the background color
    pub fn get_background(self) -> (r: Option<Color>)
        ensures
            r == self@.background,
    {
        self.background
    }

    /// Return the enabled attributes
    pub fn get_enabled_attributes(self) -> (r: AttributeSet)
        ensures
            r@ == self@.enabled,
    {
        self.enabled_attributes
    }

    /// Return the disabled attributes
    pub fn get_disabled_attributes(self) -> (r: AttributeSet)
        ensures
            r@ == self@.disabled,
    {
        self.disabled_attributes
    }

    /// Combine two styles, applying the effects of `other` after `self`
    pub fn patch(self, other: Style) -> (r: Style)
        ensures
            r@ == self@.patch(other@),
    {
        proof {
            use_type_invariant(&self);
            use_type_invariant(&other);
        }
        let foreground = if self.foreground.is_some() {
            self.foreground
        } else {
            other.foreground
        };
        let background = if self.background.is_some() {
            self.background
        } else {
            other.background
        };
        let enabled_attributes = self.enabled_attributes.difference(
            other.disabled_attributes,
        ).union(other.enabled_attributes);
        let disabled_attributes = self.disabled_attributes.difference(
            other.enabled_attributes,
        ).union(other.disabled_attributes);
        proof {
            use_type_invariant(&enabled_attributes);
            use_type_invariant(&disabled_attributes);
        }
        Style { foreground, background, enabled_attributes, disabled_attributes }
    }

    /// Enable the given attribute(s)
    pub fn enable<A: IntoAttributeSet>(self, attrs: A) -> (r: Style)
        ensures
            r@ == self@.enable(attrs.members()),
    {
        proof {
            use_type_invariant(&self);
        }
        let attrs = attrs.into_set();
        let enabled = self.enabled_attributes.union(attrs);
        let disabled = self.disabled_attributes.difference(attrs);
        proof {
            use_type_invariant(&enabled);
            use_type_invariant(&disabled);
        }
        Style { enabled_attributes: enabled, disabled_attributes: disabled, ..self }
    }

    /// Disable the given attribute(s)
    pub fn disable<A: IntoAttributeSet>(self, attrs: A) -> (r: Style)
        ensures
            r@ == self@.disable(attrs.members()),
    {
        proof {
            use_type_invariant(&self);
        }
        let attrs = attrs.into_set();
        let enabled = self.enabled_attributes.difference(attrs);
        let disabled = self.disabled_attributes.union(attrs);
        proof {
            use_type_invariant(&enabled);
            use_type_invariant(&disabled);
        }
        Style { enabled_attributes: enabled, disabled_attributes: disabled, ..self }
    }

    /// Enable bold text
    pub fn bold(self) -> (r: Style)
        ensures
            r@ == self@.enable(set![Attribute::Bold]),
    {
        self.enable(Attribute::Bold)
    }

    /// Enable dim text
    pub fn dim(self) -> (r: Style)
        ensures
            r@ == self@.enable(set![Attribute::Dim]),
    {
        self.enable(Attribute::Dim)
    }

    /// Enable italic text
    pub fn italic(self) -> (r: Style)
        ensures
            r@ == self@.enable(set![Attribute::Italic]),
    {
        self.enable(Attribute::Italic)
    }

    /// Enable underlining
    pub fn underline(self) -> (r: Style)
        ensures
            r@ == self@.enable(set![Attribute::Underline]),
    {
        self.enable(Attribute::Underline)
    }

    /// Enable blinking
    pub fn blink(self) -> (r: Style)
        ensures
            r@ == self@.enable(set![Attribute::Blink]),
    {
        self.enable(Attribute::Blink)
    }

    /// Enable fast blinking
    pub fn blink2(self) -> (r: Style)
        ensures
            r@ == self@.enable(set![Attribute::Blink2]),
    {
        self.enable(Attribute::Blink2)
    }

    /// Enable reverse video
    pub fn reverse(self) -> (r: Style)
        ensures
            r@ == self@.enable(set![Attribute::Reverse]),
    {
        self.enable(Attribute::Reverse)
    }

    /// Enable concealed/hidden text
    pub fn conceal(self) -> (r: Style)
        ensures
            r@ == self@.enable(set![Attribute::Conceal]),
    {
        self.enable(Attribute::Conceal)
    }

    /// Enable strikethrough
    pub fn strike(self) -> (r: Style)
        ensures
            r@ == self@.enable(set![Attribute::Strike]),
    {
        self.enable(Attribute::Strike)
    }

    /// Enable double-underlining
    pub fn underline2(self) -> (r: Style)
        ensures
            r@ == self@.enable(set![Attribute::Underline2]),
    {
        self.enable(Attribute::Underline2)
    }

    /// Enable framed text
    pub fn frame(self) -> (r: Style)
        ensures
            r@ == self@.enable(set![Attribute::Frame]),
    {
        self.enable(Attribute::Frame)
    }

    /// Enable encircled text
    pub fn encircle(self) -> (r: Style)
        ensures
            r@ == self@.enable(set![Attribute::Encircle]),
    {
        self.enable(Attribute::Encircle)
    }

    /// Enable overlining
    pub fn overline(self) -> (r: Style)
        ensures
            r@ == self@.enable(set![Attribute::Overline]),
    {
        self.enable(Attribute::Overline)
    }

    /// Disable bold text
    pub fn not_bold(self) -> (r: Style)
        ensures
            r@ == self@.disable(set![Attribute::Bold]),
    {
        self.disable(Attribute::Bold)
    }

    /// Disable dim text
    pub fn not_dim(self) -> (r: Style)
        ensures
            r@ == self@.disable(set![Attribute::Dim]),
    {
        self.disable(Attribute::Dim)
    }

    /// Disable italic text
    pub fn not_italic(self) -> (r: Style)
        ensures
            r@ == self@.disable(set![Attribute::Italic]),
    {
        self.disable(Attribute::Italic)
    }

    /// Disable underlining
    pub fn not_underline(self) -> (r: Style)
        ensures
            r@ == self@.disable(set![Attribute::Underline]),
    {
        self.disable(Attribute::Underline)
    }

    /// Disable blinking
    pub fn not_blink(self) -> (r: Style)
        ensures
            r@ == self@.disable(set![Attribute::Blink]),
    {
        self.disable(Attribute::Blink)
    }

    /// Disable fast blinking
    pub fn not_blink2(self) -> (r: Style)
        ensures
            r@ == self@.disable(set![Attribute::Blink2]),
    {
        self.disable(Attribute::Blink2)
    }

    /// Disable reverse video
    pub fn not_reverse(self) -> (r: Style)
        ensures
            r@ == self@.disable(set![Attribute::Reverse]),
    {
        self.disable(Attribute::Reverse)
    }

    /// Disable concealed/hidden text
    pub fn not_conceal(self) -> (r: Style)
        ensures
            r@ == self@.disable(set![Attribute::Conceal]),
    {
        self.disable(Attribute::Conceal)
    }

    /// Disable strikethrough
    pub fn not_strike(self) -> (r: Style)
        ensures
            r@ == self@.disable(set![Attribute::Strike]),
    {
        self.disable(Attribute::Strike)
    }

    /// Disable double-underlining
    pub fn not_underline2(self) -> (r: Style)
        ensures
            r@ == self@.disable(set![Attribute::Underline2]),
    {
        self.disable(Attribute::Underline2)
    }

    /// Disable framed text
    pub fn not_frame(self) -> (r: Style)
        ensures
            r@ == self@.disable(set![Attribute::Frame]),
    {
        self.disable(Attribute::Frame)
    }

    /// Disable encircled text
    pub fn not_encircle(self) -> (r: Style)
        ensures
            r@ == self@.disable(set![Attribute::Encircle]),
    {
        self.disable(Attribute::Encircle)
    }

    /// Disable overlining
    pub fn not_overline(self) -> (r: Style)
        ensures
            r@ == self@.disable(set![Attribute::Overline]),
    {
        self.disable(Attribute::Overline)
    }

    /// Reads a style from its text: words between ASCII whitespace, each a
    /// color, an attribute, or `on` or `not` with the word behind it. The
    /// first word that cannot be read ends the reading with an error, and
    /// no style is returned then. A text without words, or whose only word
    /// is `none`, gives the empty style.
    pub fn parse(s: &str) -> (r: Result<Style, ParseStyleError>)
        ensures
            match StyleView::read(s@) {
                Ok(v) => r is Ok && r->Ok_0@ == v,
                Err(e) => r is Err && r->Err_0@ == e,
            },
    {
        let cs = chars_of(s);
        let ranges = word_ranges(&cs);
        let n = ranges.len();
        let mut style = Style::new();
        let ghost ws = words(s@);
        if n == 0 {
            return Ok(style);
        }
        if n == 1 && range_eq_nocase(&cs, ranges[0].0, ranges[0].1, "none") {
            return Ok(style);
        }
        let mut k: usize = 0;
        while k < n
            invariant
                cs@ == s@,
                ws == words(s@),
                n == ranges@.len(),
                n == ws.len(),
                forall|j: int|
                    0 <= j < n ==> {
                        &&& (#[trigger] ranges@[j]).0 < ranges@[j].1 <= cs@.len()
                        &&& cs@.subrange(ranges@[j].0 as int, ranges@[j].1 as int) == ws[j]
                    },
                0 <= k <= n,
                StyleView::read(s@) == StyleView::empty().read_words(ws, 0),
                StyleView::empty().read_words(ws, 0) == style@.read_words(ws, k as int),
            decreases n - k,
        {
            let (a, b) = ranges[k];
            let word = s.substring_char(a, b);
            assert(word@ == ws[k as int]);
            if range_eq_nocase(&cs, a, b, "on") {
                if k + 1 >= n {
                    return Err(ParseStyleError::MissingBackground);
                }
                let (c, d) = ranges[k + 1];
                assert(cs@.subrange(c as int, d as int) == ws[k + 1]);
                match Color::parse(s.substring_char(c, d)) {
                    Ok(bg) => {
                        style = style.background(Some(bg));
                    },
                    Err(_) => {
                        return Err(ParseStyleError::MissingBackground);
                    },
                }
                k += 2;
            } else if range_eq_nocase(&cs, a, b, "not") {
                if k + 1 >= n {
                    return Err(ParseStyleError::MissingAttribute);
                }
                let (c, d) = ranges[k + 1];
                assert(cs@.subrange(c as int, d as int) == ws[k + 1]);
                match Attribute::parse(s.substring_char(c, d)) {
                    Ok(attr) => {
                        style = style.disable(attr);
                    },
                    Err(_) => {
                        return Err(ParseStyleError::MissingAttribute);
                    },
                }
                k += 2;
            } else {
                match Color::parse(word) {
                    Ok(fg) => {
                        style = style.foreground(Some(fg));
                    },
                    Err(_) => match Attribute::parse(word) {
                        Ok(attr) => {
                            style = style.enable(attr);
                        },
                        Err(_) => {
                            return Err(ParseStyleError::Token(word.to_owned()));
                        },
                    },
                }
                k += 1;
            }
        }
        Ok(style)
    }

    /// The canonical text of the style.
    pub fn to_string(self) -> (r: String)
        ensures
            r@ == self@.text(),
    {
        let mut out = String::new();
        let mut first = true;
        let ghost mut done: Seq<Seq<char>> = Seq::empty();
        let mut i: u8 = 0;
        while i < ATTRIBUTE_COUNT
            invariant
                0 <= i <= ATTRIBUTE_COUNT,
                out@ == join(done),
                first == (done.len() == 0),
                done + self@.attribute_words(i as int) == self@.attribute_words(0),
            decreases ATTRIBUTE_COUNT - i,
        {
            let attr = Attribute::from_ordinal(i);
            let ghost before = done;
            if self.is_enabled(attr) {
                push_word(&mut out, first, attr.as_str());
                first = false;
                proof {
                    done = done.push(attr.name());
                    lemma_join_push(before, attr.name());
                    assert(done + self@.attribute_words(i + 1) =~= before + self@.attribute_words(
                        i as int,
                    ));
                }
            } else if self.is_disabled(attr) {
                push_word(&mut out, first, "not");
                push_word(&mut out, false, attr.as_str());
                first = false;
                proof {
                    done = done.push("not"@).push(attr.name());
                    lemma_join_push(before, "not"@);
                    lemma_join_push(before.push("not"@), attr.name());
                    assert(done + self@.attribute_words(i + 1) =~= before + self@.attribute_words(
                        i as int,
                    ));
                }
            }
            i += 1;
        }
        assert(done =~= self@.attribute_words(0)) by {
            assert(self@.attribute_words(ATTRIBUTE_COUNT as int) =~= Seq::<Seq<char>>::empty());
        }
        if let Some(fg) = self.foreground {
            let word = fg.to_string();
            push_word(&mut out, first, word.as_str());
            first = false;
            proof {
                lemma_join_push(done, fg.text());
                done = done.push(fg.text());
            }
        }
        if let Some(bg) = self.background {
            let word = bg.to_string();
            let ghost before = done;
            push_word(&mut out, first, "on");
            push_word(&mut out, false, word.as_str());
            first = false;
            proof {
                lemma_join_push(before, "on"@);
                lemma_join_push(before.push("on"@), bg.text());
                done = done.push("on"@).push(bg.text());
            }
        }
        assert(done =~= self@.words());
        if first {
            return String::from_str("none");
        }
        out
    }
}

/// Joining one more word appends it, behind a space unless it is the first.
pub proof fn lemma_join_push(ws: Seq<Seq<char>>, w: Seq<char>)
    ensures
        join(ws.push(w)) == if ws.len() == 0 {
            join(ws) + w
        } else {
            join(ws) + seq![' '] + w
        },
{
    assert(ws.push(w).drop_last() =~= ws);
    if ws.len() == 0 {
        assert(join(ws) + w =~= w);
    }
}

impl Default for Style {
    fn default() -> (r: Style)
        ensures
            r@ == StyleView::empty(),
    {
        Style::new()
    }
}

impl std::str::FromStr for Style {
    type Err = ParseStyleError;

    fn from_str(s: &str) -> (r: Result<Style, ParseStyleError>)
        ensures
            match StyleView::read(s@) {
                Ok(v) => r is Ok && r->Ok_0@ == v,
                Err(e) => r is Err && r->Err_0@ == e,
            },
    {
        Style::parse(s)
    }
}

impl From<Color> for Style {
    /// Construct a new `Style` using the given color as the foreground color
    fn from(value: Color) -> (r: Style)
        ensures
            r@ == StyleView::empty().with_foreground(Some(value)),
    {
        let r = Style::new().foreground(Some(value));
        proof {
            use_type_invariant(&r);
            Style::lemma_of_view(r);
        }
        r
    }
}

impl vstd::std_specs::convert::FromSpecImpl<Color> for Style {
    open spec fn obeys_from_spec() -> bool {
        true
    }

    open spec fn from_spec(value: Color) -> Style {
        Style::of(
            StyleView::empty().with_foreground(Some(value)),
        )
    }
}

impl From<Color256> for Style {
    /// Construct a new `Style` using the given color as the foreground color
    fn from(value: Color256) -> (r: Style)
        ensures
            r@ == StyleView::empty().with_foreground(Some(Color::Color256(value))),
    {
        let r = Style::new().foreground(Some(Color::Color256(value)));
        proof {
            use_type_invariant(&r);
            Style::lemma_of_view(r);
        }
        r
    }
}

impl vstd::std_specs::convert::FromSpecImpl<Color256> for Style {
    open spec fn obeys_from_spec() -> bool {
        true
    }

    open spec fn from_spec(value: Color256) -> Style {
        Style::of(
            StyleView::empty().with_foreground(Some(Color::Color256(value))),
        )
    }
}

impl From<RgbColor> for Style {
    /// Construct a new `Style` using the given color as the foreground color
    fn from(value: RgbColor) -> (r: Style)
        ensures
            r@ == StyleView::empty().with_foreground(Some(Color::Rgb(value))),
    {
        let r = Style::new().foreground(Some(Color::Rgb(value)));
        proof {
            use_type_invariant(&r);
            Style::lemma_of_view(r);
        }
        r
    }
}

impl vstd::std_specs::convert::FromSpecImpl<RgbColor> for Style {
    open spec fn obeys_from_spec() -> bool {
        true
    }

    open spec fn from_spec(value: RgbColor) -> Style {
        Style::of(
            StyleView::empty().with_foreground(Some(Color::Rgb(value))),
        )
    }
}

impl From<u8> for Style {
    /// Construct a new `Style` using the given color as the foreground color
    fn from(value: u8) -> (r: Style)
        ensures
            r@ == StyleView::empty().with_foreground(Some(Color::Color256(Color256(value)))),
    {
        let r = Style::new().foreground(Some(Color::Color256(Color256(value))));
        proof {
            use_type_invariant(&r);
            Style::lemma_of_view(r);
        }
        r
    }
}

impl vstd::std_specs::convert::FromSpecImpl<u8> for Style {
    open spec fn obeys_from_spec() -> bool {
        true
    }

    open spec fn from_spec(value: u8) -> Style {
        Style::of(
            StyleView::empty().with_foreground(Some(Color::Color256(Color256(value)))),
        )
    }
}

impl From<(u8, u8, u8)> for Style {
    /// Construct a new `Style` using the given color as the foreground color
    fn from(value: (u8, u8, u8)) -> (r: Style)
        ensures
            r@ == StyleView::empty().with_foreground(Some(Color::Rgb(RgbColor(value.0, value.1, value.2)))),
    {
        let r = Style::new().foreground(Some(Color::Rgb(RgbColor(value.0, value.1, value.2))));
        proof {
            use_type_invariant(&r);
            Style::lemma_of_view(r);
        }
        r
    }
}

impl vstd::std_specs::convert::FromSpecImpl<(u8, u8, u8)> for Style {
    open spec fn obeys_from_spec() -> bool {
        true
    }

    open spec fn from_spec(value: (u8, u8, u8)) -> Style {
        Style::of(
            StyleView::empty().with_foreground(Some(Color::Rgb(RgbColor(value.0, value.1, value.2)))),
        )
    }
}

impl From<Attribute> for Style {
    /// Construct a new `Style` that enables the given attribute
    fn from(value: Attribute) -> (r: Style)
        ensures
            r@ == StyleView::empty().enable(set![value]),
    {
        let r = Style::new().enable(value);
        proof {
            use_type_invariant(&r);
            Style::lemma_of_view(r);
            assert(r@ =~= StyleView::empty().enable(set![value]));
        }
        r
    }
}

impl vstd::std_specs::convert::FromSpecImpl<Attribute> for Style {
    open spec fn obeys_from_spec() -> bool {
        true
    }

    open spec fn from_spec(value: Attribute) -> Style {
        Style::of(StyleView::empty().enable(set![value]))
    }
}

impl From<AttributeSet> for Style {
    /// Construct a new `Style` that enables the given attributes
    fn from(value: AttributeSet) -> (r: Style)
        ensures
            r@ == StyleView::empty().with_enabled(value@),
    {
        let r = Style::new().enabled_attributes(value);
        proof {
            use_type_invariant(&r);
            Style::lemma_of_view(r);
            assert(r@ =~= StyleView::empty().with_enabled(value@));
        }
        r
    }
}

impl vstd::std_specs::convert::FromSpecImpl<AttributeSet> for Style {
    open spec fn obeys_from_spec() -> bool {
        true
    }

    open spec fn from_spec(value: AttributeSet) -> Style {
        Style::of(StyleView::empty().with_enabled(value@))
    }
}

} // verus!
