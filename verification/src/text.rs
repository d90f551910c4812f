//! Character-level building blocks of the style grammar: ASCII case folding,
//! whitespace, decimal and hexadecimal numerals, and splitting into words.
//!
//! Every string is modelled by its sequence of characters (`s@`).

use vstd::prelude::*;
use vstd::string::*;

verus! {

/// The ASCII lower-case form of a character; other characters are unchanged.
pub open spec fn lower(c: char) -> char {
    if 'A' <= c && c <= 'Z' {
        ((c as u8) + 32) as char
    } else {
        c
    }
}

/// Two texts are equal up to ASCII case.
pub open spec fn eq_nocase(a: Seq<char>, b: Seq<char>) -> bool {
    &&& a.len() == b.len()
    &&& forall|i: int| 0 <= i < a.len() ==> lower(#[trigger] a[i]) == lower(b[i])
}

/// ASCII whitespace: space, tab, line feed, vertical tab, form feed and
/// carriage return.
pub open spec fn is_space(c: char) -> bool {
    c == ' ' || ('\t' <= c && c <= '\r')
}

/// A decimal digit.
pub open spec fn is_digit(c: char) -> bool {
    '0' <= c && c <= '9'
}

/// The value of a decimal digit.
pub open spec fn digit_value(c: char) -> int {
    c as int - '0' as int
}

/// A hexadecimal digit, in either case.
pub open spec fn is_hex_digit(c: char) -> bool {
    is_digit(c) || ('a' <= c && c <= 'f') || ('A' <= c && c <= 'F')
}

/// The value of a hexadecimal digit.
pub open spec fn hex_value(c: char) -> int {
    if is_digit(c) {
        digit_value(c)
    } else if 'a' <= c && c <= 'f' {
        c as int - 'a' as int + 10
    } else {
        c as int - 'A' as int + 10
    }
}

/// The character for a digit below sixteen: `0` to `9`, then `a` to `f`.
pub open spec fn digit_char(d: int) -> char {
    if d < 10 {
        (d + '0' as int) as char
    } else {
        (d - 10 + 'a' as int) as char
    }
}

/// The number that a run of decimal digits denotes.
pub open spec fn decimal_value(s: Seq<char>) -> int
    decreases s.len(),
{
    if s.len() == 0 {
        0
    } else {
        decimal_value(s.drop_last()) * 10 + digit_value(s.last())
    }
}

/// One or more decimal digits and nothing else.
pub open spec fn is_decimal(s: Seq<char>) -> bool {
    &&& s.len() > 0
    &&& forall|i: int| 0 <= i < s.len() ==> is_digit(#[trigger] s[i])
}

/// The byte that a decimal numeral denotes: digits only, any number of
/// leading zeros, value at most 255.
pub open spec fn decimal_byte(s: Seq<char>) -> Option<u8> {
    if is_decimal(s) && decimal_value(s) <= 255 {
        Some(decimal_value(s) as u8)
    } else {
        None
    }
}

/// The shortest decimal numeral of a number.
pub open spec fn decimal_text(n: nat) -> Seq<char>
    decreases n,
{
    if n < 10 {
        seq![digit_char(n as int)]
    } else {
        decimal_text(n / 10).push(digit_char((n % 10) as int))
    }
}

/// The byte that two hexadecimal digits denote.
pub open spec fn hex_byte(s: Seq<char>) -> Option<u8> {
    if s.len() == 2 && is_hex_digit(s[0]) && is_hex_digit(s[1]) {
        Some((hex_value(s[0]) * 16 + hex_value(s[1])) as u8)
    } else {
        None
    }
}

/// Two lower-case hexadecimal digits for a byte.
pub open spec fn hex_text(n: u8) -> Seq<char> {
    seq![digit_char(n as int / 16), digit_char(n as int % 16)]
}

/// `s` without its first `p.len()` characters, where those equal `p` up to
/// ASCII case.
pub open spec fn strip_prefix_nocase(s: Seq<char>, p: Seq<char>) -> Option<Seq<char>> {
    if s.len() >= p.len() && eq_nocase(s.subrange(0, p.len() as int), p) {
        Some(s.subrange(p.len() as int, s.len() as int))
    } else {
        None
    }
}

/// The first index at or after `from` that holds `c`, or the length.
pub open spec fn find_char(s: Seq<char>, c: char, from: int) -> int
    decreases s.len() - from,
{
    if 0 <= from < s.len() && s[from] != c {
        find_char(s, c, from + 1)
    } else {
        from
    }
}

/// The first index at or after `i` that holds no whitespace, or the length.
pub open spec fn skip_spaces(s: Seq<char>, i: int) -> int
    decreases s.len() - i,
{
    if 0 <= i < s.len() && is_space(s[i]) {
        skip_spaces(s, i + 1)
    } else {
        i
    }
}

/// The first index at or after `i` that holds whitespace, or the length.
pub open spec fn skip_word(s: Seq<char>, i: int) -> int
    decreases s.len() - i,
{
    if 0 <= i < s.len() && !is_space(s[i]) {
        skip_word(s, i + 1)
    } else {
        i
    }
}

/// The words of `s` from index `i` on: its maximal runs of characters that
/// are not whitespace, in order.
pub open spec fn words_from(s: Seq<char>, i: int) -> Seq<Seq<char>>
    decreases s.len() - i,
{
    let a = skip_spaces(s, i);
    if 0 <= i && a < s.len() {
        let b = skip_word(s, a + 1);
        proof {
            if i <= s.len() {
                lemma_skip_spaces_bounds(s, i);
                lemma_skip_word_bounds(s, a + 1);
            }
        }
        seq![s.subrange(a, b)] + words_from(s, b)
    } else {
        Seq::empty()
    }
}

/// The words of a text.
pub open spec fn words(s: Seq<char>) -> Seq<Seq<char>> {
    words_from(s, 0)
}

/// The words written one after the other with a single space between each
/// two.
pub open spec fn join(ws: Seq<Seq<char>>) -> Seq<char>
    decreases ws.len(),
{
    if ws.len() == 0 {
        Seq::empty()
    } else if ws.len() == 1 {
        ws[0]
    } else {
        join(ws.drop_last()) + seq![' '] + ws.last()
    }
}

/// Skipping whitespace passes over whitespace only, and ends at the end or
/// before a character that is none.
pub proof fn lemma_skip_spaces_bounds(s: Seq<char>, i: int)
    requires
        0 <= i <= s.len(),
    ensures
        i <= skip_spaces(s, i) <= s.len(),
        skip_spaces(s, i) < s.len() ==> !is_space(s[skip_spaces(s, i)]),
        forall|k: int| i <= k < skip_spaces(s, i) ==> is_space(#[trigger] s[k]),
    decreases s.len() - i,
{
    if i < s.len() && is_space(s[i]) {
        lemma_skip_spaces_bounds(s, i + 1);
    }
}

/// Skipping a word passes over no whitespace, and ends at the end or before
/// whitespace.
pub proof fn lemma_skip_word_bounds(s: Seq<char>, i: int)
    requires
        0 <= i <= s.len(),
    ensures
        i <= skip_word(s, i) <= s.len(),
        skip_word(s, i) < s.len() ==> is_space(s[skip_word(s, i)]),
        forall|k: int| i <= k < skip_word(s, i) ==> !is_space(#[trigger] s[k]),
    decreases s.len() - i,
{
    if i < s.len() && !is_space(s[i]) {
        lemma_skip_word_bounds(s, i + 1);
    }
}

/// A word as the splitting into words yields it: at least one character and
/// no whitespace.
pub open spec fn is_plain(w: Seq<char>) -> bool {
    &&& w.len() > 0
    &&& forall|i: int| 0 <= i < w.len() ==> !is_space(#[trigger] w[i])
}

/// Lower-case ASCII letters, digits and `_`.
pub open spec fn is_word_char(c: char) -> bool {
    ('a' <= c && c <= 'z') || ('0' <= c && c <= '9') || c == '_'
}

/// A text of lower-case ASCII letters, digits and `_` only.
pub open spec fn is_word(s: Seq<char>) -> bool {
    forall|i: int| 0 <= i < s.len() ==> is_word_char(#[trigger] s[i])
}

/// Skipping a word from `i` ends at `e` where no whitespace stands from `i`
/// up to `e` and `e` is the end or holds whitespace.
pub proof fn lemma_skip_word_to(s: Seq<char>, i: int, e: int)
    requires
        0 <= i <= e <= s.len(),
        forall|k: int| i <= k < e ==> !is_space(#[trigger] s[k]),
        e == s.len() || is_space(s[e]),
    ensures
        skip_word(s, i) == e,
    decreases e - i,
{
    if i < e {
        lemma_skip_word_to(s, i + 1, e);
    }
}

/// Skipping whitespace from `i` ends at `e` where only whitespace stands
/// from `i` up to `e` and `e` is the end or holds none.
pub proof fn lemma_skip_spaces_to(s: Seq<char>, i: int, e: int)
    requires
        0 <= i <= e <= s.len(),
        forall|k: int| i <= k < e ==> is_space(#[trigger] s[k]),
        e == s.len() || !is_space(s[e]),
    ensures
        skip_spaces(s, i) == e,
    decreases e - i,
{
    if i < e {
        lemma_skip_spaces_to(s, i + 1, e);
    }
}

/// A plain word is its own single word.
pub proof fn lemma_words_of_plain(w: Seq<char>)
    requires
        is_plain(w),
    ensures
        words(w) == seq![w],
{
    lemma_skip_spaces_to(w, 0, 0);
    lemma_skip_word_to(w, 1, w.len() as int);
    lemma_skip_spaces_to(w, w.len() as int, w.len() as int);
    assert(w.subrange(0, w.len() as int) =~= w);
    assert(words_from(w, w.len() as int) =~= Seq::<Seq<char>>::empty());
    assert(seq![w] + Seq::<Seq<char>>::empty() =~= seq![w]);
}

/// Behind a text, a space and a plain word add that word to the words of
/// the text, read from any place of the text on.
pub proof fn lemma_words_from_appended(t: Seq<char>, w: Seq<char>, i: int)
    requires
        is_plain(w),
        0 <= i <= t.len(),
    ensures
        words_from(t + seq![' '] + w, i) == words_from(t, i).push(w),
    decreases t.len() - i,
{
    let s = t + seq![' '] + w;
    let n = t.len() as int;
    assert(s.len() == n + 1 + w.len());
    assert(forall|k: int| 0 <= k < n ==> s[k] == t[k]);
    assert(s[n] == ' ');
    assert(forall|k: int| n < k < s.len() ==> s[k] == w[k - n - 1]);
    let a = skip_spaces(t, i);
    lemma_skip_spaces_bounds(t, i);
    if a < n {
        let b = skip_word(t, a + 1);
        lemma_skip_word_bounds(t, a + 1);
        lemma_skip_spaces_to(s, i, a);
        lemma_skip_word_to(s, a + 1, b);
        lemma_words_from_appended(t, w, b);
        assert(s.subrange(a, b) =~= t.subrange(a, b));
        assert(words_from(s, i) =~= seq![t.subrange(a, b)] + words_from(s, b));
        assert(words_from(t, i) =~= seq![t.subrange(a, b)] + words_from(t, b));
        assert(words_from(s, i) =~= words_from(t, i).push(w));
    } else {
        assert(!is_space(w[0]));
        lemma_skip_spaces_to(s, i, n + 1);
        lemma_skip_word_to(s, n + 2, s.len() as int);
        lemma_skip_spaces_to(s, s.len() as int, s.len() as int);
        assert(s.subrange(n + 1, s.len() as int) =~= w);
        assert(words_from(s, s.len() as int) =~= Seq::<Seq<char>>::empty());
        assert(words_from(t, i) =~= Seq::<Seq<char>>::empty());
        assert(words_from(s, i) =~= seq![w] + Seq::<Seq<char>>::empty());
        assert(words_from(s, i) =~= words_from(t, i).push(w));
    }
}

/// Plain words that are joined and split again are the same words.
pub proof fn lemma_words_of_joined(ws: Seq<Seq<char>>)
    requires
        forall|k: int| 0 <= k < ws.len() ==> is_plain(#[trigger] ws[k]),
    ensures
        words(join(ws)) == ws,
    decreases ws.len(),
{
    if ws.len() == 0 {
        assert(words(join(ws)) =~= ws);
    } else if ws.len() == 1 {
        lemma_words_of_plain(ws[0]);
        assert(seq![ws[0]] =~= ws);
    } else {
        let init = ws.drop_last();
        assert(forall|k: int| 0 <= k < init.len() ==> is_plain(#[trigger] init[k])) by {
            assert(forall|k: int| 0 <= k < init.len() ==> init[k] == ws[k]);
        }
        lemma_words_of_joined(init);
        assert(is_plain(ws.last()));
        lemma_words_from_appended(join(init), ws.last(), 0);
        assert(init.push(ws.last()) =~= ws);
    }
}

/// A decimal byte that is written and read again is the same byte.
pub proof fn lemma_decimal_round_trip(n: u8)
    ensures
        decimal_byte(decimal_text(n as nat)) == Some(n),
        is_decimal(decimal_text(n as nat)),
        decimal_text(n as nat).len() <= 3,
{
    let m = n as nat;
    let t = decimal_text(m);
    reveal_with_fuel(decimal_text, 3);
    reveal_with_fuel(decimal_value, 4);
    if m < 10 {
        assert(t =~= seq![digit_char(m as int)]);
        assert(t.drop_last() =~= Seq::<char>::empty());
    } else if m < 100 {
        let a = digit_char(m as int / 10);
        let b = digit_char(m as int % 10);
        assert(t =~= seq![a, b]);
        assert(t.drop_last() =~= seq![a]);
        assert(seq![a].drop_last() =~= Seq::<char>::empty());
        assert(decimal_value(seq![a]) == m as int / 10);
    } else {
        let a = digit_char(m as int / 100);
        let b = digit_char((m as int / 10) % 10);
        let c = digit_char(m as int % 10);
        assert((m / 10) / 10 == m / 100);
        assert(t =~= seq![a, b, c]);
        assert(t.drop_last() =~= seq![a, b]);
        assert(seq![a, b].drop_last() =~= seq![a]);
        assert(seq![a].drop_last() =~= Seq::<char>::empty());
        assert(decimal_value(seq![a]) == m as int / 100);
        assert(decimal_value(seq![a, b]) == m as int / 10);
    }
}

/// A byte that is written with two hexadecimal digits and read again is the
/// same byte.
pub proof fn lemma_hex_round_trip(n: u8)
    ensures
        hex_byte(hex_text(n)) == Some(n),
{
}

/// A longer run of digits never denotes less than its beginning.
pub proof fn lemma_decimal_value_grows(s: Seq<char>, k: int)
    requires
        0 <= k <= s.len(),
        forall|i: int| 0 <= i < s.len() ==> is_digit(#[trigger] s[i]),
    ensures
        0 <= decimal_value(s.subrange(0, k)) <= decimal_value(s),
    decreases s.len() - k,
{
    if k == s.len() {
        assert(s.subrange(0, k) =~= s);
        lemma_decimal_value_nonneg(s);
    } else {
        let t = s.subrange(0, k + 1);
        assert(t.drop_last() =~= s.subrange(0, k));
        assert(t.last() == s[k]);
        lemma_decimal_value_grows(s, k + 1);
        lemma_decimal_value_nonneg(s.subrange(0, k));
    }
}

/// A run of digits denotes no negative number.
proof fn lemma_decimal_value_nonneg(s: Seq<char>)
    requires
        forall|i: int| 0 <= i < s.len() ==> is_digit(#[trigger] s[i]),
    ensures
        0 <= decimal_value(s),
    decreases s.len(),
{
    if s.len() > 0 {
        lemma_decimal_value_nonneg(s.drop_last());
    }
}

/// The characters of a string, in order.
pub fn chars_of(s: &str) -> (v: Vec<char>)
    ensures
        v@ == s@,
{
    let mut v: Vec<char> = Vec::new();
    for c in it: s.chars()
        invariant
            v@ == it.seq().take(it.index() as int),
    {
        v.push(c);
    }
    v
}

/// The ASCII lower-case form of a character.
pub fn to_lower(c: char) -> (r: char)
    ensures
        r == lower(c),
{
    if 'A' <= c && c <= 'Z' {
        ((c as u8) + 32) as char
    } else {
        c
    }
}

/// Whether a character is ASCII whitespace.
pub fn is_whitespace(c: char) -> (r: bool)
    ensures
        r == is_space(c),
{
    c == ' ' || ('\t' <= c && c <= '\r')
}

/// Compares the characters `cs[from..to]` with `word`, ignoring ASCII case.
pub fn range_eq_nocase(cs: &Vec<char>, from: usize, to: usize, word: &str) -> (r: bool)
    requires
        from <= to <= cs.len(),
    ensures
        r == eq_nocase(cs@.subrange(from as int, to as int), word@),
{
    let w = chars_of(word);
    if w.len() != to - from {
        return false;
    }
    let ghost part = cs@.subrange(from as int, to as int);
    let mut i: usize = 0;
    while i < w.len()
        invariant
            from <= to <= cs.len(),
            w.len() == to - from,
            w@ == word@,
            part == cs@.subrange(from as int, to as int),
            0 <= i <= w.len(),
            forall|k: int| 0 <= k < i ==> lower(#[trigger] part[k]) == lower(w@[k]),
        decreases w.len() - i,
    {
        if to_lower(cs[from + i]) != to_lower(w[i]) {
            assert(part[i as int] == cs@[from + i]);
            return false;
        }
        assert(part[i as int] == cs@[from + i]);
        i += 1;
    }
    true
}

/// Reads `cs[from..to]` as a decimal byte.
pub fn parse_decimal_byte(cs: &Vec<char>, from: usize, to: usize) -> (r: Option<u8>)
    requires
        from <= to <= cs.len(),
    ensures
        r == decimal_byte(cs@.subrange(from as int, to as int)),
{
    let ghost part = cs@.subrange(from as int, to as int);
    if from == to {
        return None;
    }
    let mut acc: u16 = 0;
    let mut i: usize = from;
    while i < to
        invariant
            from <= i <= to <= cs.len(),
            part == cs@.subrange(from as int, to as int),
            forall|k: int| 0 <= k < i - from ==> is_digit(#[trigger] part[k]),
            acc == decimal_value(part.subrange(0, i - from)),
            acc <= 255,
        decreases to - i,
    {
        let c = cs[i];
        assert(part[i - from] == c);
        if !('0' <= c && c <= '9') {
            return None;
        }
        let d: u16 = (c as u8 - '0' as u8) as u16;
        let next: u16 = acc * 10 + d;
        proof {
            let t = part.subrange(0, i - from + 1);
            assert(t.drop_last() =~= part.subrange(0, i - from));
            assert(t.last() == c);
            assert(next == decimal_value(t));
        }
        if next > 255 {
            proof {
                if is_decimal(part) {
                    lemma_decimal_value_grows(part, i - from + 1);
                }
            }
            return None;
        }
        acc = next;
        i += 1;
    }
    assert(part.subrange(0, to - from) =~= part);
    Some(acc as u8)
}

/// Finds the first `c` in `cs` at or after `from`.
pub fn find(cs: &Vec<char>, c: char, from: usize) -> (r: usize)
    requires
        from <= cs.len(),
    ensures
        r == find_char(cs@, c, from as int),
        from <= r <= cs.len(),
{
    let mut i = from;
    while i < cs.len() && cs[i] != c
        invariant
            from <= i <= cs.len(),
            find_char(cs@, c, from as int) == find_char(cs@, c, i as int),
        decreases cs.len() - i,
    {
        i += 1;
    }
    i
}

/// A copy of the characters `cs[from..to]`.
pub fn copy_range(cs: &Vec<char>, from: usize, to: usize) -> (r: Vec<char>)
    requires
        from <= to <= cs.len(),
    ensures
        r@ == cs@.subrange(from as int, to as int),
{
    let mut r: Vec<char> = Vec::new();
    let mut i = from;
    while i < to
        invariant
            from <= i <= to <= cs.len(),
            r@ == cs@.subrange(from as int, i as int),
        decreases to - i,
    {
        r.push(cs[i]);
        assert(r@ =~= cs@.subrange(from as int, i + 1));
        i += 1;
    }
    r
}

/// The value of one hexadecimal digit.
pub fn parse_hex_digit(c: char) -> (r: Option<u8>)
    ensures
        r == if is_hex_digit(c) {
            Some(hex_value(c) as u8)
        } else {
            None
        },
{
    if '0' <= c && c <= '9' {
        Some(c as u8 - '0' as u8)
    } else if 'a' <= c && c <= 'f' {
        Some(c as u8 - 'a' as u8 + 10)
    } else if 'A' <= c && c <= 'F' {
        Some(c as u8 - 'A' as u8 + 10)
    } else {
        None
    }
}

/// Reads the two characters `cs[at]` and `cs[at + 1]` as a hexadecimal byte.
pub fn parse_hex_byte(cs: &Vec<char>, at: usize) -> (r: Option<u8>)
    requires
        at + 2 <= cs.len(),
    ensures
        r == hex_byte(cs@.subrange(at as int, at + 2)),
{
    let ghost part = cs@.subrange(at as int, at + 2);
    assert(part[0] == cs@[at as int] && part[1] == cs@[at + 1]);
    match (parse_hex_digit(cs[at]), parse_hex_digit(cs[at + 1])) {
        (Some(hi), Some(lo)) => Some(hi * 16 + lo),
        _ => None,
    }
}

/// The one-character string for a digit below sixteen.
pub fn digit_str(d: u8) -> (r: &'static str)
    requires
        d < 16,
    ensures
        r@ == seq![digit_char(d as int)],
{
    proof {
        reveal_strlit("0");
        reveal_strlit("1");
        reveal_strlit("2");
        reveal_strlit("3");
        reveal_strlit("4");
        reveal_strlit("5");
        reveal_strlit("6");
        reveal_strlit("7");
        reveal_strlit("8");
        reveal_strlit("9");
        reveal_strlit("a");
        reveal_strlit("b");
        reveal_strlit("c");
        reveal_strlit("d");
        reveal_strlit("e");
        reveal_strlit("f");
    }
    let r = match d {
        0 => "0",
        1 => "1",
        2 => "2",
        3 => "3",
        4 => "4",
        5 => "5",
        6 => "6",
        7 => "7",
        8 => "8",
        9 => "9",
        10 => "a",
        11 => "b",
        12 => "c",
        13 => "d",
        14 => "e",
        _ => "f",
    };
    assert(r@ =~= seq![digit_char(d as int)]);
    r
}

/// Appends the shortest decimal numeral of `n` to `out`.
pub fn push_decimal(out: &mut String, n: u8)
    ensures
        final(out)@ == old(out)@ + decimal_text(n as nat),
{
    if n >= 100 {
        out.append(digit_str(n / 100));
    }
    if n >= 10 {
        out.append(digit_str((n / 10) % 10));
    }
    out.append(digit_str(n % 10));
    proof {
        let m = n as nat;
        reveal_with_fuel(decimal_text, 3);
        if m >= 100 {
            assert((m / 10) / 10 == m / 100);
            assert(decimal_text(m) =~= seq![digit_char(m as int / 100)] + seq![
                digit_char((m as int / 10) % 10),
            ] + seq![digit_char(m as int % 10)]);
        } else if m >= 10 {
            assert(decimal_text(m) =~= seq![digit_char(m as int / 10)] + seq![
                digit_char(m as int % 10),
            ]);
        }
        assert(final(out)@ =~= old(out)@ + decimal_text(m));
    }
}

/// Appends two lower-case hexadecimal digits for `n` to `out`.
pub fn push_hex(out: &mut String, n: u8)
    ensures
        final(out)@ == old(out)@ + hex_text(n),
{
    out.append(digit_str(n / 16));
    out.append(digit_str(n % 16));
    assert(final(out)@ =~= old(out)@ + hex_text(n));
}

/// Appends `word` to `out`, behind a space unless it is the first word.
pub fn push_word(out: &mut String, first: bool, word: &str)
    ensures
        final(out)@ == if first {
            old(out)@ + word@
        } else {
            old(out)@ + seq![' '] + word@
        },
{
    if !first {
        proof {
            reveal_strlit(" ");
            assert(" "@ =~= seq![' ']);
        }
        out.append(" ");
    }
    out.append(word);
}

/// The start and end of each word of `cs`, in order.
pub fn word_ranges(cs: &Vec<char>) -> (r: Vec<(usize, usize)>)
    ensures
        r@.len() == words(cs@).len(),
        forall|k: int|
            0 <= k < r@.len() ==> {
                &&& (#[trigger] r@[k]).0 < r@[k].1 <= cs@.len()
                &&& cs@.subrange(r@[k].0 as int, r@[k].1 as int) == words(cs@)[k]
            },
{
    let mut r: Vec<(usize, usize)> = Vec::new();
    let mut i: usize = 0;
    let n = cs.len();
    loop
        invariant
            n == cs@.len(),
            0 <= i <= n,
            words(cs@) == Seq::new(
                r@.len(),
                |k: int| cs@.subrange(r@[k].0 as int, r@[k].1 as int),
            ) + words_from(cs@, i as int),
            forall|k: int| 0 <= k < r@.len() ==> (#[trigger] r@[k]).0 < r@[k].1 <= n,
        ensures
            words(cs@) == Seq::new(
                r@.len(),
                |k: int| cs@.subrange(r@[k].0 as int, r@[k].1 as int),
            ),
            forall|k: int| 0 <= k < r@.len() ==> (#[trigger] r@[k]).0 < r@[k].1 <= n,
        decreases n - i,
    {
        let ghost start = i;
        while i < n && is_whitespace(cs[i])
            invariant
                n == cs@.len(),
                start <= i <= n,
                skip_spaces(cs@, start as int) == skip_spaces(cs@, i as int),
            decreases n - i,
        {
            i += 1;
        }
        if i >= n {
            assert(words_from(cs@, start as int) =~= Seq::<Seq<char>>::empty());
            assert(words(cs@) =~= Seq::new(
                r@.len(),
                |k: int| cs@.subrange(r@[k].0 as int, r@[k].1 as int),
            ));
            break;
        }
        let a = i;
        i += 1;
        while i < n && !is_whitespace(cs[i])
            invariant
                n == cs@.len(),
                a < i <= n,
                skip_word(cs@, a + 1) == skip_word(cs@, i as int),
            decreases n - i,
        {
            i += 1;
        }
        let ghost before = r@;
        r.push((a, i));
        proof {
            let old_words = Seq::new(
                before.len(),
                |k: int| cs@.subrange(before[k].0 as int, before[k].1 as int),
            );
            let new_words = Seq::new(
                r@.len(),
                |k: int| cs@.subrange(r@[k].0 as int, r@[k].1 as int),
            );
            assert(words_from(cs@, start as int) == seq![cs@.subrange(a as int, i as int)]
                + words_from(cs@, i as int));
            assert(new_words =~= old_words + seq![cs@.subrange(a as int, i as int)]);
            assert(words(cs@) =~= new_words + words_from(cs@, i as int));
        }
    }
    r
}

/// The rest of `s` behind `prefix`, where `s` begins with `prefix` up to
/// ASCII case.
pub fn strip_nocase_prefix<'a>(s: &'a str, prefix: &str) -> (r: Option<&'a str>)
    ensures
        match strip_prefix_nocase(s@, prefix@) {
            Some(rest) => r matches Some(t) && t@ == rest,
            None => r is None,
        },
{
    let cs = chars_of(s);
    let ps = chars_of(prefix);
    if cs.len() < ps.len() {
        return None;
    }
    if range_eq_nocase(&cs, 0, ps.len(), prefix) {
        Some(s.substring_char(ps.len(), cs.len()))
    } else {
        None
    }
}

} // verus!
