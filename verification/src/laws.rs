//! What holds of the library as a whole: laws that relate several of its
//! operations, each stated over the models in which the operations'
//! contracts speak.

use crate::attributes::{Attribute, AttributeSet, ATTRIBUTE_COUNT};
use crate::color::{lemma_color_round_trip, lemma_word_without_color, Color};
use crate::style::{Style, StyleFault, StyleView};
use crate::text::{eq_nocase, is_plain, is_word, lemma_words_of_joined, words};
use vstd::prelude::*;
use vstd::std_specs::ops::{BitAndSpec, BitOrSpec, NotSpec};

verus! {

/// A set of attributes and its complement together hold every attribute and
/// have none in common: `a | !a` is the set of all attributes, `a & !a` the
/// empty set. The complement is taken within the thirteen attributes.
pub proof fn lemma_complement(a: AttributeSet)
    ensures
        a.not_spec()@ == a@.complement(),
        a.bitor_spec(a.not_spec()) == AttributeSet::of(Set::full()),
        a.bitand_spec(a.not_spec()) == AttributeSet::of(Set::empty()),
{
    AttributeSet::lemma_of(a@.complement());
    assert(a@.union(a@.complement()) =~= Set::<Attribute>::full());
    assert(a@.intersect(a@.complement()) =~= Set::<Attribute>::empty());
}

/// Complementing twice gives the set back.
pub proof fn lemma_complement_twice(a: AttributeSet)
    requires
        a.wf(),
    ensures
        a.not_spec().not_spec() == a,
{
    AttributeSet::lemma_of(a@.complement());
    assert(a@.complement().complement() =~= a@);
    AttributeSet::lemma_of_view(a);
}

/// An attribute that was just enabled is enabled and not disabled, whatever
/// the style said before; so it is for `Style::new().enable(x)`.
pub proof fn lemma_enable_then_enabled(v: StyleView, x: Attribute)
    ensures
        v.enable(set![x]).is_enabled(x),
        !v.enable(set![x]).is_disabled(x),
        StyleView::empty().enable(set![x]).is_enabled(x),
        !StyleView::empty().enable(set![x]).is_disabled(x),
{
}

/// An attribute that was just disabled is disabled and not enabled, whatever
/// the style said before; so it is for `Style::new().disable(x)`.
pub proof fn lemma_disable_then_disabled(v: StyleView, x: Attribute)
    ensures
        v.disable(set![x]).is_disabled(x),
        !v.disable(set![x]).is_enabled(x),
        StyleView::empty().disable(set![x]).is_disabled(x),
        !StyleView::empty().disable(set![x]).is_enabled(x),
{
}

/// Enabling and disabling keep a style valid.
pub proof fn lemma_enable_keeps_valid(v: StyleView, attrs: Set<Attribute>)
    requires
        v.valid(),
    ensures
        v.enable(attrs).valid(),
        v.disable(attrs).valid(),
        v.with_enabled(attrs).valid(),
        v.with_disabled(attrs).valid(),
{
}

/// In `a.patch(b)` each attribute that `b` enables or disables is as `b`
/// says, and every other attribute is as `a` says.
pub proof fn lemma_patch_attributes(a: StyleView, b: StyleView, x: Attribute)
    ensures
        b.is_enabled(x) ==> a.patch(b).is_enabled(x),
        b.is_disabled(x) ==> a.patch(b).is_disabled(x),
        !b.enabled.contains(x) && !b.disabled.contains(x) ==> {
            &&& a.patch(b).is_enabled(x) == a.is_enabled(x)
            &&& a.patch(b).is_disabled(x) == a.is_disabled(x)
        },
{
}

/// In `a.patch(b)` a color that `a` sets stays, and where `a` sets none the
/// color of `b` shows.
pub proof fn lemma_patch_colors(a: StyleView, b: StyleView)
    ensures
        a.foreground is Some ==> a.patch(b).foreground == a.foreground,
        a.foreground is None ==> a.patch(b).foreground == b.foreground,
        a.background is Some ==> a.patch(b).background == a.background,
        a.background is None ==> a.patch(b).background == b.background,
{
}

/// Patching valid styles gives a valid style.
pub proof fn lemma_patch_valid(a: StyleView, b: StyleView)
    requires
        a.valid(),
        b.valid(),
    ensures
        a.patch(b).valid(),
{
}

/// The empty style changes nothing, patched onto a style or under it.
pub proof fn lemma_patch_empty(a: StyleView)
    ensures
        a.patch(StyleView::empty()) == a,
        StyleView::empty().patch(a) == a,
{
    let e = StyleView::empty();
    assert(a.patch(e).enabled =~= a.enabled);
    assert(a.patch(e).disabled =~= a.disabled);
    assert(e.patch(a).enabled =~= a.enabled);
    assert(e.patch(a).disabled =~= a.disabled);
}

/// The name of an attribute is a plain word, is none of `none`, `on` and
/// `not`, denotes no color, and names the attribute.
pub proof fn lemma_attribute_name(a: Attribute)
    ensures
        is_plain(a.name()),
        !eq_nocase(a.name(), "none"@),
        !eq_nocase(a.name(), "on"@),
        !eq_nocase(a.name(), "not"@),
        Color::from_text(a.name()) is None,
        Attribute::named(a.name()) == Some(a),
{
    reveal_strlit("bold");
    reveal_strlit("dim");
    reveal_strlit("italic");
    reveal_strlit("underline");
    reveal_strlit("blink");
    reveal_strlit("blink2");
    reveal_strlit("reverse");
    reveal_strlit("conceal");
    reveal_strlit("strike");
    reveal_strlit("underline2");
    reveal_strlit("frame");
    reveal_strlit("encircle");
    reveal_strlit("overline");
    reveal_strlit("b");
    reveal_strlit("d");
    reveal_strlit("i");
    reveal_strlit("u");
    reveal_strlit("r");
    reveal_strlit("c");
    reveal_strlit("s");
    reveal_strlit("uu");
    reveal_strlit("none");
    reveal_strlit("on");
    reveal_strlit("not");
    reveal_strlit("default");
    let n = a.name();
    assert(is_word(n));
    assert(n[0] == n[0]);
    lemma_word_without_color(n);
}

/// Reading from place `j` of `rest` is reading from the same place behind
/// any words that stand before `rest`.
proof fn lemma_read_shift(acc: StyleView, before: Seq<Seq<char>>, rest: Seq<Seq<char>>, j: int)
    requires
        0 <= j <= rest.len(),
    ensures
        acc.read_words(before + rest, before.len() + j) == acc.read_words(rest, j),
    decreases rest.len() - j,
{
    let ws = before + rest;
    let i = before.len() + j;
    if j < rest.len() {
        assert(ws[i] == rest[j]);
        if j + 1 < rest.len() {
            assert(ws[i + 1] == rest[j + 1]);
        }
        if eq_nocase(rest[j], "on"@) {
            if j + 1 < rest.len() && Color::from_text(rest[j + 1]) is Some {
                lemma_read_shift(
                    acc.with_background(Color::from_text(rest[j + 1])),
                    before,
                    rest,
                    j + 2,
                );
            }
        } else if eq_nocase(rest[j], "not"@) {
            if j + 1 < rest.len() && Attribute::named(rest[j + 1]) is Some {
                lemma_read_shift(
                    acc.disable(set![Attribute::named(rest[j + 1])->0]),
                    before,
                    rest,
                    j + 2,
                );
            }
        } else if Color::from_text(rest[j]) is Some {
            lemma_read_shift(acc.with_foreground(Color::from_text(rest[j])), before, rest, j + 1);
        } else if Attribute::named(rest[j]) is Some {
            lemma_read_shift(acc.enable(set![Attribute::named(rest[j])->0]), before, rest, j + 1);
        }
    }
}

/// Reading the words for the colors of `v` into a style without colors sets
/// the colors of `v` and nothing else.
proof fn lemma_read_color_words(v: StyleView, acc: StyleView)
    requires
        acc.foreground is None,
        acc.background is None,
    ensures
        acc.read_words(v.color_words(), 0) == Ok::<StyleView, StyleFault>(
            acc.with_foreground(v.foreground).with_background(v.background),
        ),
{
    reveal_strlit("on");
    reveal_strlit("not");
    let ws = v.color_words();
    reveal_with_fuel(StyleView::read_words, 3);
    match v.foreground {
        Some(fg) => {
            lemma_color_round_trip(fg);
            let acc1 = acc.with_foreground(Some(fg));
            match v.background {
                Some(bg) => {
                    lemma_color_round_trip(bg);
                    assert(ws =~= seq![fg.text(), "on"@, bg.text()]);
                    assert(acc.read_words(ws, 0) == acc1.read_words(ws, 1));
                    assert(acc1.read_words(ws, 1) == acc1.with_background(Some(bg)).read_words(
                        ws,
                        3,
                    ));
                },
                None => {
                    assert(ws =~= seq![fg.text()]);
                    assert(acc.read_words(ws, 0) == acc1.read_words(ws, 1));
                },
            }
        },
        None => {
            match v.background {
                Some(bg) => {
                    lemma_color_round_trip(bg);
                    assert(ws =~= seq!["on"@, bg.text()]);
                    assert(acc.read_words(ws, 0) == acc.with_background(Some(bg)).read_words(
                        ws,
                        2,
                    ));
                },
                None => {
                    assert(ws =~= Seq::<Seq<char>>::empty());
                },
            }
        },
    }
}

/// Reading the name of an attribute enables the attribute.
proof fn lemma_read_name(acc: StyleView, ws: Seq<Seq<char>>, a: Attribute)
    requires
        ws.len() >= 1,
        ws[0] == a.name(),
    ensures
        acc.read_words(ws, 0) == acc.enable(set![a]).read_words(ws, 1),
{
    lemma_attribute_name(a);
}

/// Reading `not` and the name of an attribute disables the attribute.
proof fn lemma_read_not_name(acc: StyleView, ws: Seq<Seq<char>>, a: Attribute)
    requires
        ws.len() >= 2,
        ws[0] == "not"@,
        ws[1] == a.name(),
    ensures
        acc.read_words(ws, 0) == acc.disable(set![a]).read_words(ws, 2),
{
    reveal_strlit("on");
    reveal_strlit("not");
    lemma_attribute_name(a);
}

/// Reading the canonical words of `v` from the attribute at place `i` on,
/// into a style that says of the attributes before `i` what `v` says and
/// nothing else, gives `v`.
proof fn lemma_read_canonical_words(v: StyleView, acc: StyleView, i: int)
    requires
        v.valid(),
        0 <= i <= ATTRIBUTE_COUNT,
        acc.foreground is None,
        acc.background is None,
        forall|a: Attribute| acc.enabled.contains(a) == (a.index() < i && v.enabled.contains(a)),
        forall|a: Attribute| acc.disabled.contains(a) == (a.index() < i && v.disabled.contains(a)),
    ensures
        acc.read_words(v.attribute_words(i) + v.color_words(), 0) == Ok::<StyleView, StyleFault>(
            v,
        ),
    decreases ATTRIBUTE_COUNT - i,
{
    let colors = v.color_words();
    let ws = v.attribute_words(i) + colors;
    if i == ATTRIBUTE_COUNT {
        lemma_read_color_words(v, acc);
        assert(ws =~= colors);
        assert(acc.enabled =~= v.enabled);
        assert(acc.disabled =~= v.disabled);
    } else {
        let a = Attribute::at(i);
        let rest = v.attribute_words(i + 1) + colors;
        assert(forall|b: Attribute| b.index() == i <==> b == a);
        if v.is_enabled(a) {
            let next = acc.enable(set![a]);
            let here = seq![a.name()];
            assert(ws =~= here + rest);
            lemma_read_name(acc, ws, a);
            lemma_read_shift(next, here, rest, 0);
            lemma_read_canonical_words(v, next, i + 1);
        } else if v.is_disabled(a) {
            let next = acc.disable(set![a]);
            let here = seq!["not"@, a.name()];
            assert(ws =~= here + rest);
            lemma_read_not_name(acc, ws, a);
            lemma_read_shift(next, here, rest, 0);
            lemma_read_canonical_words(v, next, i + 1);
        } else {
            assert(ws =~= rest);
            lemma_read_canonical_words(v, acc, i + 1);
        }
    }
}

/// Every canonical word for the attributes of a style is a plain word.
proof fn lemma_attribute_words_plain(v: StyleView, i: int)
    requires
        0 <= i <= ATTRIBUTE_COUNT,
    ensures
        forall|k: int|
            0 <= k < v.attribute_words(i).len() ==> is_plain(#[trigger] v.attribute_words(i)[k]),
    decreases ATTRIBUTE_COUNT - i,
{
    if i < ATTRIBUTE_COUNT {
        let a = Attribute::at(i);
        let all = v.attribute_words(i);
        let rest = v.attribute_words(i + 1);
        let here = if v.is_enabled(a) {
            seq![a.name()]
        } else if v.is_disabled(a) {
            seq!["not"@, a.name()]
        } else {
            Seq::empty()
        };
        lemma_attribute_name(a);
        lemma_keywords_plain();
        lemma_attribute_words_plain(v, i + 1);
        assert(all == here + rest);
        assert forall|k: int| 0 <= k < all.len() implies is_plain(#[trigger] all[k]) by {
            if k < here.len() {
                assert(all[k] == here[k]);
            } else {
                assert(all[k] == rest[k - here.len()]);
            }
        }
    }
}

/// The keywords are plain words.
proof fn lemma_keywords_plain()
    ensures
        is_plain("on"@),
        is_plain("not"@),
        is_plain("none"@),
{
    reveal_strlit("on");
    reveal_strlit("not");
    reveal_strlit("none");
}

/// Every canonical word for the colors of a style is a plain word.
proof fn lemma_color_words_plain(v: StyleView)
    ensures
        forall|k: int| 0 <= k < v.color_words().len() ==> is_plain(#[trigger] v.color_words()[k]),
{
    lemma_keywords_plain();
    if v.foreground is Some {
        lemma_color_round_trip(v.foreground->0);
    }
    if v.background is Some {
        lemma_color_round_trip(v.background->0);
    }
}

/// Every canonical word of a style is a plain word.
pub proof fn lemma_canonical_words_plain(v: StyleView)
    ensures
        forall|k: int| 0 <= k < v.words().len() ==> is_plain(#[trigger] v.words()[k]),
{
    let attrs = v.attribute_words(0);
    let colors = v.color_words();
    lemma_attribute_words_plain(v, 0);
    lemma_color_words_plain(v);
    assert forall|k: int| 0 <= k < v.words().len() implies is_plain(#[trigger] v.words()[k]) by {
        if k < attrs.len() {
            assert(v.words()[k] == attrs[k]);
        } else {
            assert(v.words()[k] == colors[k - attrs.len()]);
        }
    }
}

/// A valid style without canonical words is the empty style.
proof fn lemma_no_words_empty_style(v: StyleView, i: int)
    requires
        v.valid(),
        0 <= i <= ATTRIBUTE_COUNT,
        v.attribute_words(i).len() == 0,
    ensures
        forall|a: Attribute| a.index() >= i ==> !v.enabled.contains(a) && !v.disabled.contains(a),
    decreases ATTRIBUTE_COUNT - i,
{
    if i < ATTRIBUTE_COUNT {
        let a = Attribute::at(i);
        assert(forall|b: Attribute| b.index() == i <==> b == a);
        lemma_no_words_empty_style(v, i + 1);
    }
}

/// A single canonical word is not `none`.
proof fn lemma_single_word_not_none(v: StyleView, i: int)
    requires
        0 <= i <= ATTRIBUTE_COUNT,
    ensures
        (v.attribute_words(i) + v.color_words()).len() == 1 ==> !eq_nocase(
            (v.attribute_words(i) + v.color_words())[0],
            "none"@,
        ),
    decreases ATTRIBUTE_COUNT - i,
{
    if i < ATTRIBUTE_COUNT {
        let a = Attribute::at(i);
        lemma_attribute_name(a);
        lemma_single_word_not_none(v, i + 1);
    } else {
        if v.foreground is Some {
            lemma_color_round_trip(v.foreground->0);
        }
    }
}

/// Writing a style and reading the text gives the style back: for every
/// valid style `v`, the canonical text of `v` denotes `v`.
pub proof fn lemma_text_round_trip(v: StyleView)
    requires
        v.valid(),
    ensures
        StyleView::read(v.text()) == Ok::<StyleView, StyleFault>(v),
{
    let ws = v.words();
    lemma_canonical_words_plain(v);
    lemma_keywords_plain();
    if ws.len() == 0 {
        reveal_strlit("none");
        crate::text::lemma_words_of_plain("none"@);
        lemma_no_words_empty_style(v, 0);
        assert(v.enabled =~= Set::<Attribute>::empty());
        assert(v.disabled =~= Set::<Attribute>::empty());
        assert(v.color_words().len() == 0);
    } else {
        lemma_words_of_joined(ws);
        lemma_single_word_not_none(v, 0);
        lemma_read_canonical_words(v, StyleView::empty(), 0);
    }
}

/// A style that is written and read again is the same style: where `read`
/// is what reading the canonical text of `written` gave, the two are equal.
pub proof fn lemma_style_round_trip(written: Style, read: Style)
    requires
        written.wf(),
        read.wf(),
        StyleView::read(written@.text()) == Ok::<StyleView, StyleFault>(read@),
    ensures
        read == written,
{
    Style::lemma_valid(written);
    lemma_text_round_trip(written@);
    Style::lemma_extensional(read, written);
}

/// Words that are equal up to ASCII case name the same attribute.
pub proof fn lemma_attribute_nocase(s: Seq<char>, t: Seq<char>)
    requires
        eq_nocase(s, t),
    ensures
        Attribute::named(s) == Attribute::named(t),
{
    assert forall|w: Seq<char>| eq_nocase(s, w) == eq_nocase(t, w) by {
        if eq_nocase(s, w) {
            assert forall|i: int| 0 <= i < t.len() implies crate::text::lower(#[trigger] t[i])
                == crate::text::lower(w[i]) by {
                assert(crate::text::lower(s[i]) == crate::text::lower(t[i]));
            }
        }
        if eq_nocase(t, w) {
            assert forall|i: int| 0 <= i < s.len() implies crate::text::lower(#[trigger] s[i])
                == crate::text::lower(w[i]) by {
                assert(crate::text::lower(s[i]) == crate::text::lower(t[i]));
            }
        }
    }
}

} // verus!
