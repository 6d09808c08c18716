//! Character-level helpers over `&str` used by the permission payload parser:
//! prefix tests, Unicode whitespace trimming and the `"::"` separator search.

use vstd::prelude::*;

verus! {

/// The Unicode `White_Space` property (Unicode PropList.txt), which is what
/// `char::is_whitespace` and `str::trim` use.
pub open spec fn is_white_space(c: char) -> bool {
    let u = c as u32;
    ||| 0x9 <= u <= 0xd
    ||| u == 0x20
    ||| u == 0x85
    ||| u == 0xa0
    ||| u == 0x1680
    ||| 0x2000 <= u <= 0x200a
    ||| u == 0x2028
    ||| u == 0x2029
    ||| u == 0x202f
    ||| u == 0x205f
    ||| u == 0x3000
}

/// `s` with its leading whitespace removed.
pub open spec fn trim_start(s: Seq<char>) -> Seq<char>
    decreases s.len(),
{
    if s.len() > 0 && is_white_space(s[0]) {
        trim_start(s.drop_first())
    } else {
        s
    }
}

/// `s` with its trailing whitespace removed.
pub open spec fn trim_end(s: Seq<char>) -> Seq<char>
    decreases s.len(),
{
    if s.len() > 0 && is_white_space(s.last()) {
        trim_end(s.drop_last())
    } else {
        s
    }
}

/// `s` with leading and trailing whitespace removed (what `str::trim` returns).
pub open spec fn trimmed(s: Seq<char>) -> Seq<char> {
    trim_end(trim_start(s))
}

/// `p` is a prefix of `s`.
pub open spec fn has_prefix(s: Seq<char>, p: Seq<char>) -> bool {
    p.len() <= s.len() && s.take(p.len() as int) == p
}

/// A `"::"` separator starts at position `i` of `s`.
pub open spec fn separator_at(s: Seq<char>, i: int) -> bool {
    0 <= i && i + 1 < s.len() && s[i] == ':' && s[i + 1] == ':'
}

/// The leftmost position at or after `i` where a `"::"` separator starts.
pub open spec fn first_separator_from(s: Seq<char>, i: int) -> Option<int>
    decreases s.len() - i,
{
    if i < 0 || i + 1 >= s.len() {
        None
    } else if separator_at(s, i) {
        Some(i)
    } else {
        first_separator_from(s, i + 1)
    }
}

/// The two pieces that `splitn(2, "::")` yields, with a missing second piece read as
/// the empty string: the text before the leftmost separator and the text after it.
pub open spec fn split_once_on_separator(s: Seq<char>) -> (Seq<char>, Seq<char>) {
    match first_separator_from(s, 0) {
        Some(i) => (s.take(i), s.skip(i + 2)),
        None => (s, Seq::<char>::empty()),
    }
}

/// Whether `c` has the Unicode `White_Space` property (what `char::is_whitespace`
/// tests).
pub fn char_is_whitespace(c: char) -> (r: bool)
    ensures
        r == is_white_space(c),
{
    let u = c as u32;
    (0x9 <= u && u <= 0xd) || u == 0x20 || u == 0x85 || u == 0xa0 || u == 0x1680 || (0x2000
        <= u && u <= 0x200a) || u == 0x2028 || u == 0x2029 || u == 0x202f || u == 0x205f || u
        == 0x3000
}

proof fn lemma_trim_start_step(s: Seq<char>, i: int)
    requires
        0 <= i < s.len(),
        is_white_space(s[i]),
    ensures
        trim_start(s.subrange(i, s.len() as int)) == trim_start(s.subrange(i + 1, s.len() as int)),
{
    let t = s.subrange(i, s.len() as int);
    assert(t.drop_first() =~= s.subrange(i + 1, s.len() as int));
}

proof fn lemma_trim_end_step(s: Seq<char>, j: int)
    requires
        0 < j <= s.len(),
        is_white_space(s[j - 1]),
    ensures
        trim_end(s.subrange(0, j)) == trim_end(s.subrange(0, j - 1)),
{
    let t = s.subrange(0, j);
    assert(t.drop_last() =~= s.subrange(0, j - 1));
}

/// `s.trim()`: the slice without leading and trailing Unicode whitespace.
pub fn trim(s: &str) -> (r: &str)
    ensures
        r@ == trimmed(s@),
{
    let n = s.unicode_len();
    let mut i: usize = 0;
    assert(s@.subrange(0, n as int) =~= s@);
    while i < n && char_is_whitespace(s.get_char(i))
        invariant
            n == s@.len(),
            i <= n,
            trim_start(s@) == trim_start(s@.subrange(i as int, n as int)),
        decreases n - i,
    {
        proof {
            lemma_trim_start_step(s@, i as int);
        }
        i = i + 1;
    }
    let ghost a = s@.subrange(i as int, n as int);
    assert(trim_start(s@) == a) by {
        if i < n {
            assert(a[0] == s@[i as int]);
        }
    }
    let mut j: usize = n;
    assert(a.subrange(0, (n - i) as int) =~= a);
    while j > i && char_is_whitespace(s.get_char(j - 1))
        invariant
            n == s@.len(),
            i <= j <= n,
            a == s@.subrange(i as int, n as int),
            trim_end(a) == trim_end(a.subrange(0, j - i)),
        decreases j - i,
    {
        proof {
            assert(a[j - i - 1] == s@[j - 1]);
            lemma_trim_end_step(a, j - i);
        }
        j = j - 1;
    }
    let ghost b = a.subrange(0, j - i);
    assert(trim_end(a) == b) by {
        if j > i {
            assert(b.last() == s@[j - 1]);
        }
    }
    assert(b =~= s@.subrange(i as int, j as int));
    s.substring_char(i, j)
}

/// Whether `s` starts with `p`.
pub fn starts_with(s: &str, p: &str) -> (r: bool)
    ensures
        r == has_prefix(s@, p@),
{
    let n = s.unicode_len();
    let k = p.unicode_len();
    if k > n {
        return false;
    }
    let mut i: usize = 0;
    while i < k
        invariant
            n == s@.len(),
            k == p@.len(),
            k <= n,
            i <= k,
            forall|t: int| 0 <= t < i ==> s@[t] == p@[t],
        decreases k - i,
    {
        if s.get_char(i) != p.get_char(i) {
            assert(s@.take(k as int)[i as int] != p@[i as int]);
            return false;
        }
        i = i + 1;
    }
    assert(s@.take(k as int) =~= p@);
    true
}

/// The position (in characters) of the leftmost `"::"` in `s`, if any.
pub fn find_separator(s: &str) -> (r: Option<usize>)
    ensures
        r matches Some(i) ==> first_separator_from(s@, 0) == Some(i as int) && separator_at(s@, i as int),
        r is None ==> first_separator_from(s@, 0) is None,
{
    let n = s.unicode_len();
    let mut i: usize = 0;
    while i < n && i + 1 < n
        invariant
            n == s@.len(),
            i <= n,
            first_separator_from(s@, 0) == first_separator_from(s@, i as int),
        decreases n - i,
    {
        if s.get_char(i) == ':' && s.get_char(i + 1) == ':' {
            return Some(i);
        }
        i = i + 1;
    }
    None
}

} // verus!

verus! {

/// The whitespace test is exactly the Unicode `White_Space` property: the 25 code
/// points U+0009–U+000D, U+0020, U+0085, U+00A0, U+1680, U+2000–U+200A, U+2028,
/// U+2029, U+202F, U+205F and U+3000, and no other character.
pub proof fn lemma_white_space_is_unicode_white_space(c: char)
    ensures
        is_white_space(c) <==> (c == '\t' || c == '\n' || c == '\u{b}' || c == '\u{c}' || c
            == '\r' || c == ' ' || c == '\u{85}' || c == '\u{a0}' || c == '\u{1680}' || c
            == '\u{2000}' || c == '\u{2001}' || c == '\u{2002}' || c == '\u{2003}' || c
            == '\u{2004}' || c == '\u{2005}' || c == '\u{2006}' || c == '\u{2007}' || c
            == '\u{2008}' || c == '\u{2009}' || c == '\u{200a}' || c == '\u{2028}' || c
            == '\u{2029}' || c == '\u{202f}' || c == '\u{205f}' || c == '\u{3000}'),
{
}

/// ASCII letters and digits are never whitespace, so they are never trimmed.
pub proof fn lemma_ascii_alphanumeric_is_not_white_space(c: char)
    requires
        ('0' <= c && c <= '9') || ('a' <= c && c <= 'z') || ('A' <= c && c <= 'Z'),
    ensures
        !is_white_space(c),
{
}

/// `p` is a prefix of `s` exactly when `s` is at least as long and agrees with `p`
/// on every position of `p`.
pub proof fn lemma_has_prefix_is_leading_agreement(s: Seq<char>, p: Seq<char>)
    ensures
        has_prefix(s, p) <==> (p.len() <= s.len() && forall|t: int|
            0 <= t < p.len() ==> #[trigger] s[t] == p[t]),
{
    if p.len() <= s.len() && (forall|t: int| 0 <= t < p.len() ==> #[trigger] s[t] == p[t]) {
        assert(s.take(p.len() as int) =~= p);
    }
    if has_prefix(s, p) {
        assert forall|t: int| 0 <= t < p.len() implies #[trigger] s[t] == p[t] by {
            assert(s.take(p.len() as int)[t] == s[t]);
        }
    }
}

proof fn lemma_trim_start_skips(w: Seq<char>, p: Seq<char>)
    requires
        forall|i: int| 0 <= i < w.len() ==> is_white_space(#[trigger] w[i]),
    ensures
        trim_start(w + p) == trim_start(p),
    decreases w.len(),
{
    if w.len() == 0 {
        assert(w + p =~= p);
    } else {
        assert((w + p)[0] == w[0]);
        assert((w + p).drop_first() =~= w.drop_first() + p);
        assert forall|i: int| 0 <= i < w.drop_first().len() implies is_white_space(
            #[trigger] w.drop_first()[i],
        ) by {
            assert(w.drop_first()[i] == w[i + 1]);
        }
        lemma_trim_start_skips(w.drop_first(), p);
    }
}

proof fn lemma_trim_end_skips(p: Seq<char>, w: Seq<char>)
    requires
        forall|i: int| 0 <= i < w.len() ==> is_white_space(#[trigger] w[i]),
    ensures
        trim_end(p + w) == trim_end(p),
    decreases w.len(),
{
    if w.len() == 0 {
        assert(p + w =~= p);
    } else {
        assert((p + w).last() == w.last());
        assert((p + w).drop_last() =~= p + w.drop_last());
        assert forall|i: int| 0 <= i < w.drop_last().len() implies is_white_space(
            #[trigger] w.drop_last()[i],
        ) by {
            assert(w.drop_last()[i] == w[i]);
        }
        lemma_trim_end_skips(p, w.drop_last());
    }
}

/// Trimming removes exactly the surrounding whitespace: with whitespace-only `before`
/// and `after` around a text that neither starts nor ends with whitespace, the
/// trimmed result is that text, unchanged.
pub proof fn lemma_trimmed_strips_surrounding_white_space(
    before: Seq<char>,
    p: Seq<char>,
    after: Seq<char>,
)
    requires
        forall|i: int| 0 <= i < before.len() ==> is_white_space(#[trigger] before[i]),
        forall|i: int| 0 <= i < after.len() ==> is_white_space(#[trigger] after[i]),
        p.len() > 0,
        !is_white_space(p[0]),
        !is_white_space(p.last()),
    ensures
        trimmed(before + p + after) == p,
{
    assert(before + p + after =~= before + (p + after));
    lemma_trim_start_skips(before, p + after);
    assert((p + after)[0] == p[0]);
    assert(trim_start(p + after) == p + after);
    lemma_trim_end_skips(p, after);
    assert(trim_end(p) == p);
}

/// Trimming a whitespace-only text leaves nothing.
pub proof fn lemma_trimmed_white_space_only(w: Seq<char>)
    requires
        forall|i: int| 0 <= i < w.len() ==> is_white_space(#[trigger] w[i]),
    ensures
        trimmed(w) == Seq::<char>::empty(),
{
    assert(w + Seq::<char>::empty() =~= w);
    lemma_trim_start_skips(w, Seq::<char>::empty());
}

proof fn lemma_no_separator_from(s: Seq<char>, i: int)
    requires
        0 <= i,
        forall|j: int| 0 <= j && j + 1 < s.len() ==> !(#[trigger] s[j] == ':' && s[j + 1] == ':'),
    ensures
        first_separator_from(s, i) is None,
    decreases s.len() - i,
{
    if i + 1 < s.len() {
        lemma_no_separator_from(s, i + 1);
    }
}

proof fn lemma_leftmost_separator_from(s: Seq<char>, i: int, k: int)
    requires
        0 <= i <= k,
        k + 1 < s.len(),
        s[k] == ':' && s[k + 1] == ':',
        forall|j: int| 0 <= j < k ==> !(#[trigger] s[j] == ':' && s[j + 1] == ':'),
    ensures
        first_separator_from(s, i) == Some(k),
    decreases k - i,
{
    if i < k {
        lemma_leftmost_separator_from(s, i + 1, k);
    }
}

/// Without two adjacent `':'` characters nothing is split off: the first piece is the
/// whole text and the second is empty (a single `':'` never splits).
pub proof fn lemma_split_without_double_colon(s: Seq<char>)
    requires
        forall|j: int| 0 <= j && j + 1 < s.len() ==> !(#[trigger] s[j] == ':' && s[j + 1] == ':'),
    ensures
        split_once_on_separator(s) == (s, Seq::<char>::empty()),
{
    lemma_no_separator_from(s, 0);
}

/// The split happens at the leftmost `"::"`: the text before it, and the text after
/// its two characters.
pub proof fn lemma_split_at_leftmost_double_colon(s: Seq<char>, k: int)
    requires
        0 <= k,
        k + 1 < s.len(),
        s[k] == ':' && s[k + 1] == ':',
        forall|j: int| 0 <= j < k ==> !(#[trigger] s[j] == ':' && s[j + 1] == ':'),
    ensures
        split_once_on_separator(s) == (s.take(k), s.skip(k + 2)),
{
    lemma_leftmost_separator_from(s, 0, k);
}

} // verus!
