//! Character-level text primitives shared by every parser of the crate.
//!
//! Texts are handled as `Vec<char>` in executable code and as `Seq<char>` in
//! specifications; `&str`/`String` values are converted at the edges.

use vstd::prelude::*;

verus! {

broadcast use vstd::string::group_string_axioms;

// ── Character classes ─────────────────────────────────────────────────────────

/// The Unicode `White_Space` property, as `char::is_whitespace` defines it.
pub open spec fn is_ws(c: char) -> bool {
    ||| ('\u{9}' <= c && c <= '\u{d}')
    ||| c == ' '
    ||| c == '\u{85}'
    ||| c == '\u{a0}'
    ||| c == '\u{1680}'
    ||| ('\u{2000}' <= c && c <= '\u{200a}')
    ||| c == '\u{2028}'
    ||| c == '\u{2029}'
    ||| c == '\u{202f}'
    ||| c == '\u{205f}'
    ||| c == '\u{3000}'
}

/// A set of characters that can be trimmed from the ends of a text.
#[derive(Clone, Copy, Debug, PartialEq, Eq, Structural)]
pub enum CharClass {
    /// Unicode white space (`str::trim`).
    Whitespace,
    /// Single and double quotes.
    Quote,
    /// The closing parenthesis `)`.
    CloseParen,
}

pub open spec fn in_class(k: CharClass, c: char) -> bool {
    match k {
        CharClass::Whitespace => is_ws(c),
        CharClass::Quote => c == '\'' || c == '"',
        CharClass::CloseParen => c == ')',
    }
}

/// `char::is_whitespace`.
pub fn is_whitespace(c: char) -> (b: bool)
    ensures
        b == is_ws(c),
{
    ('\u{9}' <= c && c <= '\u{d}') || c == ' ' || c == '\u{85}' || c == '\u{a0}' || c
        == '\u{1680}' || ('\u{2000}' <= c && c <= '\u{200a}') || c == '\u{2028}' || c
        == '\u{2029}' || c == '\u{202f}' || c == '\u{205f}' || c == '\u{3000}'
}

pub fn char_in_class(k: CharClass, c: char) -> (b: bool)
    ensures
        b == in_class(k, c),
{
    match k {
        CharClass::Whitespace => is_whitespace(c),
        CharClass::Quote => c == '\'' || c == '"',
        CharClass::CloseParen => c == ')',
    }
}

// ── Trimming ──────────────────────────────────────────────────────────────────

/// `s` without its leading characters of class `k`.
pub open spec fn skip_lead(s: Seq<char>, k: CharClass) -> Seq<char>
    decreases s.len(),
{
    if s.len() > 0 && in_class(k, s[0]) {
        skip_lead(s.drop_first(), k)
    } else {
        s
    }
}

/// `s` without its trailing characters of class `k`.
pub open spec fn skip_trail(s: Seq<char>, k: CharClass) -> Seq<char>
    decreases s.len(),
{
    if s.len() > 0 && in_class(k, s.last()) {
        skip_trail(s.drop_last(), k)
    } else {
        s
    }
}

/// `s` without leading and trailing characters of class `k` (`trim_matches`).
pub open spec fn trim_class(s: Seq<char>, k: CharClass) -> Seq<char> {
    skip_trail(skip_lead(s, k), k)
}

/// `str::trim`.
pub open spec fn trim(s: Seq<char>) -> Seq<char> {
    trim_class(s, CharClass::Whitespace)
}

/// `skip_lead` removes a prefix of `s`: some suffix `s.skip(n)` is left.
pub proof fn lemma_skip_lead_is_suffix(s: Seq<char>, k: CharClass)
    ensures
        skip_lead(s, k).len() <= s.len(),
        skip_lead(s, k) == s.skip(s.len() - skip_lead(s, k).len()),
        skip_lead(s, k).len() > 0 ==> !in_class(k, skip_lead(s, k)[0]),
        forall|j: int| 0 <= j < s.len() - skip_lead(s, k).len() ==> in_class(k, #[trigger] s[j]),
    decreases s.len(),
{
    if s.len() > 0 && in_class(k, s[0]) {
        lemma_skip_lead_is_suffix(s.drop_first(), k);
        let r = skip_lead(s.drop_first(), k);
        assert(s.drop_first().skip(s.drop_first().len() - r.len()) =~= s.skip(s.len() - r.len()));
        assert forall|j: int| 0 <= j < s.len() - r.len() implies in_class(k, #[trigger] s[j]) by {
            if j > 0 {
                assert(s[j] == s.drop_first()[j - 1]);
            }
        }
    } else {
        assert(s.skip(0) =~= s);
    }
}

/// `skip_trail` removes a suffix of `s`: some prefix `s.take(n)` is left.
pub proof fn lemma_skip_trail_is_prefix(s: Seq<char>, k: CharClass)
    ensures
        skip_trail(s, k).len() <= s.len(),
        skip_trail(s, k) == s.take(skip_trail(s, k).len() as int),
        skip_trail(s, k).len() > 0 ==> !in_class(k, skip_trail(s, k).last()),
        forall|j: int| skip_trail(s, k).len() <= j < s.len() ==> in_class(k, #[trigger] s[j]),
    decreases s.len(),
{
    if s.len() > 0 && in_class(k, s.last()) {
        lemma_skip_trail_is_prefix(s.drop_last(), k);
        let r = skip_trail(s.drop_last(), k);
        assert(s.drop_last().take(r.len() as int) =~= s.take(r.len() as int));
        assert forall|j: int| r.len() <= j < s.len() implies in_class(k, #[trigger] s[j]) by {
            if j < s.len() - 1 {
                assert(s[j] == s.drop_last()[j]);
            }
        }
    } else {
        assert(s.take(s.len() as int) =~= s);
    }
}

/// `skip_lead(s, k)` is `s.skip(i)` for the first `i` whose character is outside `k`.
pub proof fn lemma_skip_lead_at(s: Seq<char>, k: CharClass, i: int)
    requires
        0 <= i <= s.len(),
        forall|j: int| 0 <= j < i ==> in_class(k, #[trigger] s[j]),
        i == s.len() || !in_class(k, s[i]),
    ensures
        skip_lead(s, k) == s.skip(i),
    decreases i,
{
    if i == 0 {
        assert(s.skip(0) =~= s);
    } else {
        assert forall|j: int| 0 <= j < i - 1 implies in_class(k, #[trigger] s.drop_first()[j]) by {
            assert(s.drop_first()[j] == s[j + 1]);
        }
        lemma_skip_lead_at(s.drop_first(), k, i - 1);
        assert(s.drop_first().skip(i - 1) =~= s.skip(i));
    }
}

/// `skip_trail(s, k)` is `s.take(i)` for the last `i` whose previous character is outside `k`.
pub proof fn lemma_skip_trail_at(s: Seq<char>, k: CharClass, i: int)
    requires
        0 <= i <= s.len(),
        forall|j: int| i <= j < s.len() ==> in_class(k, #[trigger] s[j]),
        i == 0 || !in_class(k, s[i - 1]),
    ensures
        skip_trail(s, k) == s.take(i),
    decreases s.len() - i,
{
    if i == s.len() {
        assert(s.take(i) =~= s);
    } else {
        assert forall|j: int| i <= j < s.drop_last().len() implies in_class(
            k,
            #[trigger] s.drop_last()[j],
        ) by {
            assert(s.drop_last()[j] == s[j]);
        }
        lemma_skip_trail_at(s.drop_last(), k, i);
        assert(s.drop_last().take(i) =~= s.take(i));
    }
}

/// The characters `v[lo..hi]`.
pub fn slice_chars(v: &Vec<char>, lo: usize, hi: usize) -> (r: Vec<char>)
    requires
        lo <= hi <= v.len(),
    ensures
        r@ == v@.subrange(lo as int, hi as int),
{
    let mut r: Vec<char> = Vec::new();
    let mut i = lo;
    while i < hi
        invariant
            lo <= i <= hi <= v.len(),
            r@ == v@.subrange(lo as int, i as int),
        decreases hi - i,
    {
        r.push(v[i]);
        assert(r@ =~= v@.subrange(lo as int, i + 1));
        i += 1;
    }
    r
}

/// `s.trim_matches(k)`.
pub fn trim_chars(v: &Vec<char>, k: CharClass) -> (r: Vec<char>)
    ensures
        r@ == trim_class(v@, k),
{
    let mut lo: usize = 0;
    while lo < v.len() && char_in_class(k, v[lo])
        invariant
            lo <= v.len(),
            forall|j: int| 0 <= j < lo ==> in_class(k, #[trigger] v@[j]),
        decreases v.len() - lo,
    {
        lo += 1;
    }
    proof {
        lemma_skip_lead_at(v@, k, lo as int);
    }
    let mut hi: usize = v.len();
    while hi > lo && char_in_class(k, v[hi - 1])
        invariant
            lo <= hi <= v.len(),
            forall|j: int| hi <= j < v.len() ==> in_class(k, #[trigger] v@[j]),
        decreases hi - lo,
    {
        hi -= 1;
    }
    let ghost t = v@.skip(lo as int);
    proof {
        assert forall|j: int| hi - lo <= j < t.len() implies in_class(k, #[trigger] t[j]) by {
            assert(t[j] == v@[j + lo]);
        }
        if hi > lo {
            assert(t[hi - lo - 1] == v@[hi - 1]);
        }
        lemma_skip_trail_at(t, k, hi - lo);
        assert(t.take(hi - lo) =~= v@.subrange(lo as int, hi as int));
    }
    slice_chars(v, lo, hi)
}

/// `str::trim`.
pub fn trim_ws(v: &Vec<char>) -> (r: Vec<char>)
    ensures
        r@ == trim(v@),
{
    trim_chars(v, CharClass::Whitespace)
}

// ── Prefixes, suffixes, containment ──────────────────────────────────────────

pub open spec fn starts_with(s: Seq<char>, p: Seq<char>) -> bool {
    p.len() <= s.len() && s.take(p.len() as int) == p
}

pub open spec fn ends_with(s: Seq<char>, p: Seq<char>) -> bool {
    p.len() <= s.len() && s.skip(s.len() - p.len()) == p
}

/// `str::strip_prefix`.
pub open spec fn strip_prefix(s: Seq<char>, p: Seq<char>) -> Option<Seq<char>> {
    if starts_with(s, p) {
        Some(s.skip(p.len() as int))
    } else {
        None
    }
}

/// `p` occurs somewhere in `s` (`str::contains` with a string pattern).
pub open spec fn contains_seq(s: Seq<char>, p: Seq<char>) -> bool {
    exists|i: int| 0 <= i <= s.len() - p.len() && #[trigger] s.subrange(i, i + p.len()) == p
}

/// Does `v[at..]` start with `p`?
pub fn matches_at(v: &Vec<char>, at: usize, p: &Vec<char>) -> (b: bool)
    requires
        at <= v.len(),
    ensures
        b == (at + p.len() <= v.len() && v@.subrange(at as int, at + p.len()) == p@),
{
    if p.len() > v.len() - at {
        return false;
    }
    let mut i: usize = 0;
    while i < p.len()
        invariant
            at + p.len() <= v.len(),
            i <= p.len(),
            forall|j: int| 0 <= j < i ==> v@[at + j] == p@[j],
        decreases p.len() - i,
    {
        if v[at + i] != p[i] {
            assert(v@.subrange(at as int, at + p.len())[i as int] != p@[i as int]);
            return false;
        }
        i += 1;
    }
    assert(v@.subrange(at as int, at + p.len()) =~= p@);
    true
}

/// `str::starts_with`.
pub fn has_prefix(v: &Vec<char>, p: &Vec<char>) -> (b: bool)
    ensures
        b == starts_with(v@, p@),
{
    let b = matches_at(v, 0, p);
    proof {
        if p.len() <= v.len() {
            assert(v@.subrange(0, p.len() as int) =~= v@.take(p.len() as int));
        }
    }
    b
}

/// `str::ends_with`.
pub fn has_suffix(v: &Vec<char>, p: &Vec<char>) -> (b: bool)
    ensures
        b == ends_with(v@, p@),
{
    if p.len() > v.len() {
        return false;
    }
    let b = matches_at(v, v.len() - p.len(), p);
    proof {
        assert(v@.subrange(v.len() - p.len(), v.len() as int) =~= v@.skip(v.len() - p.len()));
    }
    b
}

/// `str::strip_prefix`.
pub fn strip_prefix_chars(v: &Vec<char>, p: &Vec<char>) -> (r: Option<Vec<char>>)
    ensures
        r matches Some(t) ==> strip_prefix(v@, p@) == Some(t@),
        r is None ==> strip_prefix(v@, p@) is None,
{
    if has_prefix(v, p) {
        let t = slice_chars(v, p.len(), v.len());
        assert(t@ =~= v@.skip(p.len() as int));
        Some(t)
    } else {
        None
    }
}

/// `str::contains` with a string pattern.
pub fn contains_chars(v: &Vec<char>, p: &Vec<char>) -> (b: bool)
    ensures
        b == contains_seq(v@, p@),
{
    if p.len() > v.len() {
        return false;
    }
    let mut at: usize = 0;
    while at < v.len() - p.len()
        invariant
            p.len() <= v.len(),
            at <= v.len() - p.len(),
            forall|i: int| 0 <= i < at ==> #[trigger] v@.subrange(i, i + p.len()) != p@,
        decreases v.len() - p.len() - at,
    {
        if matches_at(v, at, p) {
            return true;
        }
        at += 1;
    }
    matches_at(v, at, p)
}

/// `str::contains` with a character pattern.
pub fn contains_char(v: &Vec<char>, c: char) -> (b: bool)
    ensures
        b == v@.contains(c),
{
    let mut i: usize = 0;
    while i < v.len()
        invariant
            i <= v.len(),
            forall|j: int| 0 <= j < i ==> v@[j] != c,
        decreases v.len() - i,
    {
        if v[i] == c {
            return true;
        }
        i += 1;
    }
    false
}

/// Character-wise equality of two texts.
pub fn chars_eq(a: &Vec<char>, b: &Vec<char>) -> (r: bool)
    ensures
        r == (a@ == b@),
{
    if a.len() != b.len() {
        return false;
    }
    let r = matches_at(a, 0, b);
    proof {
        if r {
            assert(a@ =~= a@.subrange(0, b.len() as int));
        } else if a@ == b@ {
            assert(a@.subrange(0, b.len() as int) =~= a@);
        }
    }
    r
}

// ── Searching and repeated stripping ─────────────────────────────────────────

/// The index of the first `c` in `s`.
pub open spec fn index_of(s: Seq<char>, c: char) -> Option<int>
    decreases s.len(),
{
    if s.len() == 0 {
        None
    } else if s[0] == c {
        Some(0)
    } else {
        match index_of(s.drop_first(), c) {
            Some(i) => Some(i + 1),
            None => None,
        }
    }
}

pub proof fn lemma_index_of_at(s: Seq<char>, c: char, k: int)
    requires
        0 <= k <= s.len(),
        forall|j: int| 0 <= j < k ==> #[trigger] s[j] != c,
    ensures
        k < s.len() && s[k] == c ==> index_of(s, c) == Some(k),
        k == s.len() ==> index_of(s, c) is None,
    decreases k,
{
    if k > 0 {
        assert forall|j: int| 0 <= j < k - 1 implies #[trigger] s.drop_first()[j] != c by {
            assert(s.drop_first()[j] == s[j + 1]);
        }
        lemma_index_of_at(s.drop_first(), c, k - 1);
    }
}

/// A found index lies inside `s` and points at `c`; none before it is `c`.
pub proof fn lemma_index_of_found(s: Seq<char>, c: char)
    ensures
        index_of(s, c) matches Some(i) ==> 0 <= i < s.len() && s[i] == c && forall|j: int|
            0 <= j < i ==> #[trigger] s[j] != c,
    decreases s.len(),
{
    if s.len() > 0 && s[0] != c {
        lemma_index_of_found(s.drop_first(), c);
        if let Some(i) = index_of(s, c) {
            assert forall|j: int| 0 <= j < i implies #[trigger] s[j] != c by {
                if j > 0 {
                    assert(s[j] == s.drop_first()[j - 1]);
                }
            }
        }
    }
}

/// The index of the first `c` in `v`.
pub fn find_char(v: &Vec<char>, c: char) -> (r: Option<usize>)
    ensures
        r matches Some(i) ==> index_of(v@, c) == Some(i as int),
        r is None ==> index_of(v@, c) is None,
{
    let mut i: usize = 0;
    while i < v.len()
        invariant
            i <= v.len(),
            forall|j: int| 0 <= j < i ==> #[trigger] v@[j] != c,
        decreases v.len() - i,
    {
        if v[i] == c {
            proof {
                lemma_index_of_at(v@, c, i as int);
            }
            return Some(i);
        }
        i += 1;
    }
    proof {
        lemma_index_of_at(v@, c, i as int);
    }
    None
}

/// `str::trim_start_matches` with a text pattern: every leading copy of `p` removed.
pub open spec fn strip_all_prefix(s: Seq<char>, p: Seq<char>) -> Seq<char>
    decreases s.len(),
{
    if p.len() > 0 && starts_with(s, p) {
        strip_all_prefix(s.skip(p.len() as int), p)
    } else {
        s
    }
}

/// `str::trim_end_matches` with a text pattern: every trailing copy of `p` removed.
pub open spec fn strip_all_suffix(s: Seq<char>, p: Seq<char>) -> Seq<char>
    decreases s.len(),
{
    if p.len() > 0 && ends_with(s, p) {
        strip_all_suffix(s.take(s.len() - p.len()), p)
    } else {
        s
    }
}

/// `str::trim_start_matches` with a text pattern.
pub fn strip_all_prefix_chars(v: &Vec<char>, p: &Vec<char>) -> (r: Vec<char>)
    ensures
        r@ == strip_all_prefix(v@, p@),
    decreases v.len(),
{
    if p.len() > 0 && has_prefix(v, p) {
        let rest = slice_chars(v, p.len(), v.len());
        assert(rest@ =~= v@.skip(p.len() as int));
        strip_all_prefix_chars(&rest, p)
    } else {
        slice_chars(v, 0, v.len())
    }
}

/// `str::trim_end_matches` with a text pattern.
pub fn strip_all_suffix_chars(v: &Vec<char>, p: &Vec<char>) -> (r: Vec<char>)
    ensures
        r@ == strip_all_suffix(v@, p@),
    decreases v.len(),
{
    if p.len() > 0 && has_suffix(v, p) {
        let rest = slice_chars(v, 0, v.len() - p.len());
        assert(rest@ =~= v@.take(v.len() - p.len()));
        strip_all_suffix_chars(&rest, p)
    } else {
        let r = slice_chars(v, 0, v.len());
        assert(r@ =~= v@);
        r
    }
}

// ── Lines ─────────────────────────────────────────────────────────────────────

/// Length of the first line of `s`: the index of its first `'\n'`, or `s.len()`.
pub open spec fn line_end(s: Seq<char>) -> nat
    decreases s.len(),
{
    if s.len() == 0 || s[0] == '\n' {
        0
    } else {
        1 + line_end(s.drop_first())
    }
}

/// A line ended by `"\r\n"` loses its `'\r'`.
pub open spec fn strip_cr(l: Seq<char>) -> Seq<char> {
    if l.len() > 0 && l.last() == '\r' {
        l.drop_last()
    } else {
        l
    }
}

/// `str::lines`: the text split at `'\n'`, a `'\r'` before the `'\n'` dropped,
/// and no empty line produced by a final `'\n'`.
pub open spec fn lines(s: Seq<char>) -> Seq<Seq<char>>
    decreases s.len(),
{
    if s.len() == 0 {
        seq![]
    } else if line_end(s) >= s.len() {
        seq![s]
    } else {
        seq![strip_cr(s.take(line_end(s) as int))] + lines(s.skip(line_end(s) as int + 1))
    }
}

pub proof fn lemma_line_end_at(s: Seq<char>, k: int)
    requires
        0 <= k <= s.len(),
        forall|j: int| 0 <= j < k ==> #[trigger] s[j] != '\n',
        k == s.len() || s[k] == '\n',
    ensures
        line_end(s) == k,
    decreases k,
{
    if k > 0 {
        assert forall|j: int| 0 <= j < k - 1 implies #[trigger] s.drop_first()[j] != '\n' by {
            assert(s.drop_first()[j] == s[j + 1]);
        }
        lemma_line_end_at(s.drop_first(), k - 1);
    }
}

/// The first line ends at the first `'\n'`.
pub proof fn lemma_line_end_facts(s: Seq<char>)
    ensures
        line_end(s) <= s.len(),
        forall|j: int| 0 <= j < line_end(s) ==> #[trigger] s[j] != '\n',
        line_end(s) < s.len() ==> s[line_end(s) as int] == '\n',
    decreases s.len(),
{
    if s.len() > 0 && s[0] != '\n' {
        lemma_line_end_facts(s.drop_first());
        assert forall|j: int| 0 <= j < line_end(s) implies #[trigger] s[j] != '\n' by {
            if j > 0 {
                assert(s[j] == s.drop_first()[j - 1]);
            }
        }
        if line_end(s) < s.len() {
            assert(s[line_end(s) as int] == s.drop_first()[line_end(s) - 1]);
        }
    }
}

proof fn lemma_skip_lead_drop_last(x: Seq<char>, k: CharClass)
    requires
        x.len() > 0,
    ensures
        skip_lead(x, k).len() > 0 ==> skip_lead(x.drop_last(), k) == skip_lead(x, k).drop_last(),
        skip_lead(x, k).len() == 0 ==> skip_lead(x.drop_last(), k).len() == 0,
    decreases x.len(),
{
    if in_class(k, x[0]) && x.len() > 1 {
        assert(x.drop_last().drop_first() =~= x.drop_first().drop_last());
        assert(x.drop_last()[0] == x[0]);
        lemma_skip_lead_drop_last(x.drop_first(), k);
        assert(skip_lead(x.drop_last(), k) == skip_lead(x.drop_last().drop_first(), k));
        assert(skip_lead(x, k) == skip_lead(x.drop_first(), k));
    } else if in_class(k, x[0]) {
        assert(x.drop_last().len() == 0);
        assert(x.drop_first().len() == 0);
        assert(skip_lead(x, k) == skip_lead(x.drop_first(), k));
        assert(skip_lead(x.drop_first(), k).len() == 0);
    } else if x.len() > 1 {
        assert(x.drop_last()[0] == x[0]);
        assert(skip_lead(x.drop_last(), k) == x.drop_last());
    } else {
        assert(x.drop_last() =~= Seq::<char>::empty());
        assert(skip_lead(x, k) == x);
    }
}

/// A `'\r'` dropped from the end of a line changes nothing once trimmed.
pub proof fn lemma_trim_strip_cr(x: Seq<char>)
    ensures
        trim(strip_cr(x)) == trim(x),
{
    if x.len() > 0 && x.last() == '\r' {
        assert(is_ws('\r'));
        lemma_skip_lead_drop_last(x, CharClass::Whitespace);
        lemma_skip_lead_is_suffix(x, CharClass::Whitespace);
        let a = skip_lead(x, CharClass::Whitespace);
        if a.len() > 0 {
            assert(a.last() == x.last());
            assert(skip_trail(a, CharClass::Whitespace) == skip_trail(a.drop_last(), CharClass::Whitespace));
        }
    }
}

/// The lines of a text are, up to trimming, the first lines of that text
/// followed by a newline and more text.
pub proof fn lemma_lines_prefix(c: Seq<char>, s: Seq<char>)
    ensures
        lines(c).len() <= lines(c + seq!['\n'] + s).len(),
        forall|i: int|
            0 <= i < lines(c).len() ==> trim(#[trigger] lines(c + seq!['\n'] + s)[i]) == trim(
                lines(c)[i],
            ),
    decreases c.len(),
{
    let t = c + seq!['\n'] + s;
    if c.len() > 0 {
        lemma_line_end_facts(c);
        let e = line_end(c) as int;
        if e >= c.len() {
            assert forall|j: int| 0 <= j < c.len() implies #[trigger] t[j] != '\n' by {
                assert(t[j] == c[j]);
            }
            lemma_line_end_at(t, c.len() as int);
            assert(t.take(c.len() as int) =~= c);
            lemma_trim_strip_cr(c);
        } else {
            assert forall|j: int| 0 <= j < e implies #[trigger] t[j] != '\n' by {
                assert(t[j] == c[j]);
            }
            assert(t[e] == c[e]);
            lemma_line_end_at(t, e);
            assert(t.take(e) =~= c.take(e));
            assert(t.skip(e + 1) =~= c.skip(e + 1) + seq!['\n'] + s);
            lemma_lines_prefix(c.skip(e + 1), s);
            let lt = lines(t);
            let lc = lines(c);
            assert(lt == seq![strip_cr(t.take(e))] + lines(t.skip(e + 1)));
            assert(lc == seq![strip_cr(c.take(e))] + lines(c.skip(e + 1)));
            assert forall|i: int| 0 <= i < lc.len() implies trim(#[trigger] lt[i]) == trim(lc[i]) by {
                if i > 0 {
                    assert(lt[i] == lines(t.skip(e + 1))[i - 1]);
                    assert(lc[i] == lines(c.skip(e + 1))[i - 1]);
                }
            }
        }
    }
}

/// `str::lines`.
pub fn split_lines(v: &Vec<char>) -> (r: Vec<Vec<char>>)
    ensures
        r.len() == lines(v@).len(),
        forall|i: int| 0 <= i < r.len() ==> #[trigger] r[i]@ == lines(v@)[i],
{
    let mut r: Vec<Vec<char>> = Vec::new();
    let ghost mut acc: Seq<Seq<char>> = seq![];
    let mut cur: Vec<char> = Vec::new();
    let mut start: usize = 0;
    let mut i: usize = 0;
    assert(v@.skip(0) =~= v@);
    while i < v.len()
        invariant
            start <= i <= v.len(),
            cur@ == v@.subrange(start as int, i as int),
            forall|j: int| start <= j < i ==> #[trigger] v@[j] != '\n',
            r.len() == acc.len(),
            forall|j: int| 0 <= j < r.len() ==> #[trigger] r[j]@ == acc[j],
            lines(v@) == acc + lines(v@.skip(start as int)),
        decreases v.len() - i,
    {
        if v[i] == '\n' {
            let ghost t = v@.skip(start as int);
            proof {
                assert forall|j: int| 0 <= j < i - start implies #[trigger] t[j] != '\n' by {
                    assert(t[j] == v@[start + j]);
                }
                lemma_line_end_at(t, i - start);
                assert(t.take(i - start) =~= cur@);
                assert(t.skip(i - start + 1) =~= v@.skip(i + 1));
            }
            let mut line = cur;
            if line.len() > 0 && line[line.len() - 1] == '\r' {
                line.pop();
            }
            assert(line@ == strip_cr(t.take(i - start)));
            let ghost old_acc = acc;
            proof {
                acc = acc.push(line@);
            }
            r.push(line);
            assert(lines(v@) == old_acc + (seq![strip_cr(t.take(i - start))] + lines(v@.skip(i + 1))));
            assert(lines(v@) =~= acc + lines(v@.skip(i + 1)));
            cur = Vec::new();
            start = i + 1;
            assert(cur@ =~= v@.subrange(start as int, start as int));
        } else {
            cur.push(v[i]);
            assert(cur@ =~= v@.subrange(start as int, i + 1));
        }
        i += 1;
    }
    let ghost t = v@.skip(start as int);
    assert(t =~= cur@);
    if cur.len() > 0 {
        proof {
            assert forall|j: int| 0 <= j < t.len() implies #[trigger] t[j] != '\n' by {
                assert(t[j] == v@[start + j]);
            }
            lemma_line_end_at(t, t.len() as int);
            acc = acc.push(cur@);
        }
        r.push(cur);
        assert(lines(v@) =~= acc);
    } else {
        assert(lines(v@) =~= acc);
    }
    r
}

// ── Words ─────────────────────────────────────────────────────────────────────

/// Length of the run of non-white-space characters at the start of `s`.
pub open spec fn word_end(s: Seq<char>) -> nat
    decreases s.len(),
{
    if s.len() == 0 || is_ws(s[0]) {
        0
    } else {
        1 + word_end(s.drop_first())
    }
}

pub proof fn lemma_word_end_at(s: Seq<char>, k: int)
    requires
        0 <= k <= s.len(),
        forall|j: int| 0 <= j < k ==> !is_ws(#[trigger] s[j]),
        k == s.len() || is_ws(s[k]),
    ensures
        word_end(s) == k,
    decreases k,
{
    if k > 0 {
        assert forall|j: int| 0 <= j < k - 1 implies !is_ws(#[trigger] s.drop_first()[j]) by {
            assert(s.drop_first()[j] == s[j + 1]);
        }
        lemma_word_end_at(s.drop_first(), k - 1);
    }
}

pub proof fn lemma_word_end_bound(s: Seq<char>)
    ensures
        word_end(s) <= s.len(),
        s.len() > 0 && !is_ws(s[0]) ==> word_end(s) >= 1,
    decreases s.len(),
{
    if s.len() > 0 && !is_ws(s[0]) {
        lemma_word_end_bound(s.drop_first());
    }
}

/// `str::split_whitespace`: the maximal runs of non-white-space characters.
pub open spec fn words(s: Seq<char>) -> Seq<Seq<char>>
    decreases s.len(),
{
    let t = skip_lead(s, CharClass::Whitespace);
    if t.len() == 0 {
        seq![]
    } else {
        proof {
            lemma_skip_lead_is_suffix(s, CharClass::Whitespace);
            lemma_word_end_bound(t);
        }
        seq![t.take(word_end(t) as int)] + words(t.skip(word_end(t) as int))
    }
}

/// `str::split_whitespace`.
pub fn split_words(v: &Vec<char>) -> (r: Vec<Vec<char>>)
    ensures
        r.len() == words(v@).len(),
        forall|i: int| 0 <= i < r.len() ==> #[trigger] r[i]@ == words(v@)[i],
{
    let mut r: Vec<Vec<char>> = Vec::new();
    let ghost mut acc: Seq<Seq<char>> = seq![];
    let mut i: usize = 0;
    assert(v@.skip(0) =~= v@);
    while i < v.len()
        invariant
            i <= v.len(),
            r.len() == acc.len(),
            forall|j: int| 0 <= j < r.len() ==> #[trigger] r[j]@ == acc[j],
            words(v@) == acc + words(v@.skip(i as int)),
        decreases v.len() - i,
    {
        let ghost t0 = v@.skip(i as int);
        let mut lo = i;
        while lo < v.len() && is_whitespace(v[lo])
            invariant
                i <= lo <= v.len(),
                forall|j: int| i <= j < lo ==> is_ws(#[trigger] v@[j]),
            decreases v.len() - lo,
        {
            lo += 1;
        }
        proof {
            assert forall|j: int| 0 <= j < lo - i implies in_class(
                CharClass::Whitespace,
                #[trigger] t0[j],
            ) by {
                assert(t0[j] == v@[i + j]);
            }
            if lo < v.len() {
                assert(t0[lo - i] == v@[lo as int]);
            }
            lemma_skip_lead_at(t0, CharClass::Whitespace, lo - i);
            assert(t0.skip(lo - i) =~= v@.skip(lo as int));
        }
        if lo == v.len() {
            assert(words(t0) =~= seq![]);
            assert(words(v@) =~= acc);
            i = lo;
        } else {
            let mut hi = lo;
            while hi < v.len() && !is_whitespace(v[hi])
                invariant
                    lo <= hi <= v.len(),
                    forall|j: int| lo <= j < hi ==> !is_ws(#[trigger] v@[j]),
                decreases v.len() - hi,
            {
                hi += 1;
            }
            let ghost t = v@.skip(lo as int);
            proof {
                assert forall|j: int| 0 <= j < hi - lo implies !is_ws(#[trigger] t[j]) by {
                    assert(t[j] == v@[lo + j]);
                }
                if hi < v.len() {
                    assert(t[hi - lo] == v@[hi as int]);
                }
                lemma_word_end_at(t, hi - lo);
                assert(t.skip(hi - lo) =~= v@.skip(hi as int));
                assert(t.take(hi - lo) =~= v@.subrange(lo as int, hi as int));
            }
            let w = slice_chars(v, lo, hi);
            proof {
                acc = acc.push(w@);
            }
            r.push(w);
            assert(words(v@) =~= acc + words(v@.skip(hi as int)));
            i = hi;
        }
    }
    assert(words(v@.skip(i as int)) =~= seq![]);
    assert(words(v@) =~= acc);
    r
}

// ── Conversions ───────────────────────────────────────────────────────────────

/// Appends one character to a `String` (`String::push`).
/// Trusted: the resulting text is the old text followed by `c`.
#[verifier::external_body]
pub(crate) fn push_char(s: &mut String, c: char)
    ensures
        final(s)@ == old(s)@.push(c),
{
    s.push(c);
}

/// The characters of `s`, in order.
pub fn chars_of(s: &str) -> (v: Vec<char>)
    ensures
        v@ == s@,
{
    let mut v: Vec<char> = Vec::new();
    for c in it: s.chars()
        invariant
            v@ == it.seq().take(it.index() as int),
    {
        v.push(c);
        assert(v@ == it.seq().take(it.index() + 1));
    }
    v
}

/// A `String` holding the characters `v`.
pub fn string_of(v: &Vec<char>) -> (s: String)
    ensures
        s@ == v@,
{
    let mut s = String::new();
    let mut i: usize = 0;
    while i < v.len()
        invariant
            i <= v.len(),
            s@ == v@.take(i as int),
        decreases v.len() - i,
    {
        push_char(&mut s, v[i]);
        assert(s@ =~= v@.take(i + 1));
        i += 1;
    }
    assert(v@.take(v.len() as int) =~= v@);
    s
}

} // verus!
