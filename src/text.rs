//! Literal search and value capture over character sequences.
//!
//! The manifest and the decoder's badging output are treated as unstructured
//! text. Every rule that reads them is built from the few primitives here:
//! "literal occurs at", "first occurrence in a window" and "value after a key".
use vstd::prelude::*;
use vstd::std_specs::iter::IteratorSpec;

verus! {

/// `lit` occurs in `t` starting at position `i`.
pub open spec fn occurs_at(t: Seq<char>, i: int, lit: Seq<char>) -> bool {
    0 <= i && i + lit.len() <= t.len() && t.subrange(i, i + lit.len()) == lit
}

/// `lit` occurs somewhere in `t`.
pub open spec fn contains_text(t: Seq<char>, lit: Seq<char>) -> bool {
    exists|i: int| occurs_at(t, i, lit)
}

pub open spec fn starts_with(t: Seq<char>, lit: Seq<char>) -> bool {
    occurs_at(t, 0, lit)
}

pub open spec fn ends_with(t: Seq<char>, lit: Seq<char>) -> bool {
    lit.len() <= t.len() && occurs_at(t, t.len() - lit.len(), lit)
}

/// The first position `p` with `lo <= p` and `p + lit.len() <= hi` at which
/// `lit` occurs.
pub open spec fn find_from(t: Seq<char>, lit: Seq<char>, lo: int, hi: int) -> Option<int>
    decreases hi + 1 - lo,
{
    if lo < 0 || hi > t.len() || lo + lit.len() > hi {
        None
    } else if occurs_at(t, lo, lit) {
        Some(lo)
    } else {
        find_from(t, lit, lo + 1, hi)
    }
}

pub proof fn lemma_find_from_found(t: Seq<char>, lit: Seq<char>, lo: int, hi: int)
    ensures
        find_from(t, lit, lo, hi) matches Some(p) ==> lo <= p && p + lit.len() <= hi
            && occurs_at(t, p, lit),
    decreases hi + 1 - lo,
{
    if lo < 0 || hi > t.len() || lo + lit.len() > hi {
    } else if occurs_at(t, lo, lit) {
    } else {
        lemma_find_from_found(t, lit, lo + 1, hi);
    }
}

/// Whether `lit` occurs in `t` at position `i`.
pub fn matches_at(t: &[char], i: usize, lit: &[char]) -> (r: bool)
    ensures
        r == occurs_at(t@, i as int, lit@),
{
    if i > t.len() || lit.len() > t.len() - i {
        return false;
    }
    let mut j: usize = 0;
    while j < lit.len()
        invariant
            i + lit.len() <= t.len(),
            j <= lit@.len(),
            forall|k: int| 0 <= k < j ==> t@[i + k] == lit@[k],
        decreases lit@.len() - j,
    {
        if t[i + j] != lit[j] {
            assert(t@.subrange(i as int, i + lit@.len())[j as int] != lit@[j as int]);
            return false;
        }
        j = j + 1;
    }
    assert(t@.subrange(i as int, i + lit@.len()) =~= lit@);
    true
}

/// The first occurrence of `lit` inside the window `[lo, hi)` of `t`.
pub fn find(t: &[char], lit: &[char], lo: usize, hi: usize) -> (r: Option<usize>)
    ensures
        r == (match find_from(t@, lit@, lo as int, hi as int) {
            Some(p) => Some(p as usize),
            None => None::<usize>,
        }),
{
    if hi > t.len() || lit.len() > hi {
        return None;
    }
    let last = hi - lit.len();
    let mut i: usize = lo;
    while i <= last
        invariant
            lo <= i,
            hi <= t.len(),
            last + lit.len() == hi,
            find_from(t@, lit@, lo as int, hi as int) == find_from(t@, lit@, i as int, hi as int),
        decreases last - i,
    {
        if matches_at(t, i, lit) {
            return Some(i);
        }
        if i == last {
            assert(find_from(t@, lit@, i + 1, hi as int) is None);
            return None;
        }
        i = i + 1;
    }
    None
}

/// Whether `lit` occurs anywhere in `t`.
pub fn contains(t: &[char], lit: &[char]) -> (r: bool)
    ensures
        r == contains_text(t@, lit@),
{
    let found = find(t, lit, 0, t.len());
    proof {
        lemma_find_from_found(t@, lit@, 0, t@.len() as int);
        if !(found is Some) {
            assert forall|i: int| !occurs_at(t@, i, lit@) by {
                if occurs_at(t@, i, lit@) {
                    lemma_find_from_complete(t@, lit@, 0, t@.len() as int, i);
                }
            }
        }
    }
    found.is_some()
}

/// Nothing occurs before the position `find_from` reports, and an occurrence
/// inside the window means `find_from` reports something.
pub proof fn lemma_find_from_complete(t: Seq<char>, lit: Seq<char>, lo: int, hi: int, i: int)
    requires
        0 <= lo <= i,
        i + lit.len() <= hi <= t.len(),
        occurs_at(t, i, lit),
    ensures
        find_from(t, lit, lo, hi) matches Some(p) && p <= i,
    decreases i - lo,
{
    if occurs_at(t, lo, lit) {
    } else {
        lemma_find_from_complete(t, lit, lo + 1, hi, i);
    }
}

pub fn has_prefix(t: &[char], lit: &[char]) -> (r: bool)
    ensures
        r == starts_with(t@, lit@),
{
    matches_at(t, 0, lit)
}

pub fn has_suffix(t: &[char], lit: &[char]) -> (r: bool)
    ensures
        r == ends_with(t@, lit@),
{
    if lit.len() > t.len() {
        false
    } else {
        matches_at(t, t.len() - lit.len(), lit)
    }
}


/// What a captured value may hold, and what must close it.
#[derive(Clone, Copy, PartialEq, Eq, Structural)]
pub enum ValueShape {
    /// Characters other than the quote, closed by the quote.
    Quoted(char),
    /// Decimal digits of any script, closed by the given character.
    DigitsThen(char),
    /// Characters other than a line break; nothing needs to close it.
    RestOfLine,
    /// White space, possibly none; nothing needs to close it.
    Blank,
}

/// The characters of Unicode general category Nd (decimal digits), as of
/// Unicode 15.0.
pub open spec fn is_decimal_digit(c: char) -> bool {
    ||| ('\u{30}' <= c && c <= '\u{39}')
    ||| ('\u{660}' <= c && c <= '\u{669}')
    ||| ('\u{6F0}' <= c && c <= '\u{6F9}')
    ||| ('\u{7C0}' <= c && c <= '\u{7C9}')
    ||| ('\u{966}' <= c && c <= '\u{96F}')
    ||| ('\u{9E6}' <= c && c <= '\u{9EF}')
    ||| ('\u{A66}' <= c && c <= '\u{A6F}')
    ||| ('\u{AE6}' <= c && c <= '\u{AEF}')
    ||| ('\u{B66}' <= c && c <= '\u{B6F}')
    ||| ('\u{BE6}' <= c && c <= '\u{BEF}')
    ||| ('\u{C66}' <= c && c <= '\u{C6F}')
    ||| ('\u{CE6}' <= c && c <= '\u{CEF}')
    ||| ('\u{D66}' <= c && c <= '\u{D6F}')
    ||| ('\u{DE6}' <= c && c <= '\u{DEF}')
    ||| ('\u{E50}' <= c && c <= '\u{E59}')
    ||| ('\u{ED0}' <= c && c <= '\u{ED9}')
    ||| ('\u{F20}' <= c && c <= '\u{F29}')
    ||| ('\u{1040}' <= c && c <= '\u{1049}')
    ||| ('\u{1090}' <= c && c <= '\u{1099}')
    ||| ('\u{17E0}' <= c && c <= '\u{17E9}')
    ||| ('\u{1810}' <= c && c <= '\u{1819}')
    ||| ('\u{1946}' <= c && c <= '\u{194F}')
    ||| ('\u{19D0}' <= c && c <= '\u{19D9}')
    ||| ('\u{1A80}' <= c && c <= '\u{1A89}')
    ||| ('\u{1A90}' <= c && c <= '\u{1A99}')
    ||| ('\u{1B50}' <= c && c <= '\u{1B59}')
    ||| ('\u{1BB0}' <= c && c <= '\u{1BB9}')
    ||| ('\u{1C40}' <= c && c <= '\u{1C49}')
    ||| ('\u{1C50}' <= c && c <= '\u{1C59}')
    ||| ('\u{A620}' <= c && c <= '\u{A629}')
    ||| ('\u{A8D0}' <= c && c <= '\u{A8D9}')
    ||| ('\u{A900}' <= c && c <= '\u{A909}')
    ||| ('\u{A9D0}' <= c && c <= '\u{A9D9}')
    ||| ('\u{A9F0}' <= c && c <= '\u{A9F9}')
    ||| ('\u{AA50}' <= c && c <= '\u{AA59}')
    ||| ('\u{ABF0}' <= c && c <= '\u{ABF9}')
    ||| ('\u{FF10}' <= c && c <= '\u{FF19}')
    ||| ('\u{104A0}' <= c && c <= '\u{104A9}')
    ||| ('\u{10D30}' <= c && c <= '\u{10D39}')
    ||| ('\u{11066}' <= c && c <= '\u{1106F}')
    ||| ('\u{110F0}' <= c && c <= '\u{110F9}')
    ||| ('\u{11136}' <= c && c <= '\u{1113F}')
    ||| ('\u{111D0}' <= c && c <= '\u{111D9}')
    ||| ('\u{112F0}' <= c && c <= '\u{112F9}')
    ||| ('\u{11450}' <= c && c <= '\u{11459}')
    ||| ('\u{114D0}' <= c && c <= '\u{114D9}')
    ||| ('\u{11650}' <= c && c <= '\u{11659}')
    ||| ('\u{116C0}' <= c && c <= '\u{116C9}')
    ||| ('\u{11730}' <= c && c <= '\u{11739}')
    ||| ('\u{118E0}' <= c && c <= '\u{118E9}')
    ||| ('\u{11950}' <= c && c <= '\u{11959}')
    ||| ('\u{11C50}' <= c && c <= '\u{11C59}')
    ||| ('\u{11D50}' <= c && c <= '\u{11D59}')
    ||| ('\u{11DA0}' <= c && c <= '\u{11DA9}')
    ||| ('\u{11F50}' <= c && c <= '\u{11F59}')
    ||| ('\u{16A60}' <= c && c <= '\u{16A69}')
    ||| ('\u{16AC0}' <= c && c <= '\u{16AC9}')
    ||| ('\u{16B50}' <= c && c <= '\u{16B59}')
    ||| ('\u{1D7CE}' <= c && c <= '\u{1D7FF}')
    ||| ('\u{1E140}' <= c && c <= '\u{1E149}')
    ||| ('\u{1E2F0}' <= c && c <= '\u{1E2F9}')
    ||| ('\u{1E950}' <= c && c <= '\u{1E959}')
    ||| ('\u{1FBF0}' <= c && c <= '\u{1FBF9}')
}

pub fn decimal_digit(c: char) -> (r: bool)
    ensures
        r == is_decimal_digit(c),
{
    ('\u{30}' <= c && c <= '\u{39}') ||
    ('\u{660}' <= c && c <= '\u{669}') ||
    ('\u{6F0}' <= c && c <= '\u{6F9}') ||
    ('\u{7C0}' <= c && c <= '\u{7C9}') ||
    ('\u{966}' <= c && c <= '\u{96F}') ||
    ('\u{9E6}' <= c && c <= '\u{9EF}') ||
    ('\u{A66}' <= c && c <= '\u{A6F}') ||
    ('\u{AE6}' <= c && c <= '\u{AEF}') ||
    ('\u{B66}' <= c && c <= '\u{B6F}') ||
    ('\u{BE6}' <= c && c <= '\u{BEF}') ||
    ('\u{C66}' <= c && c <= '\u{C6F}') ||
    ('\u{CE6}' <= c && c <= '\u{CEF}') ||
    ('\u{D66}' <= c && c <= '\u{D6F}') ||
    ('\u{DE6}' <= c && c <= '\u{DEF}') ||
    ('\u{E50}' <= c && c <= '\u{E59}') ||
    ('\u{ED0}' <= c && c <= '\u{ED9}') ||
    ('\u{F20}' <= c && c <= '\u{F29}') ||
    ('\u{1040}' <= c && c <= '\u{1049}') ||
    ('\u{1090}' <= c && c <= '\u{1099}') ||
    ('\u{17E0}' <= c && c <= '\u{17E9}') ||
    ('\u{1810}' <= c && c <= '\u{1819}') ||
    ('\u{1946}' <= c && c <= '\u{194F}') ||
    ('\u{19D0}' <= c && c <= '\u{19D9}') ||
    ('\u{1A80}' <= c && c <= '\u{1A89}') ||
    ('\u{1A90}' <= c && c <= '\u{1A99}') ||
    ('\u{1B50}' <= c && c <= '\u{1B59}') ||
    ('\u{1BB0}' <= c && c <= '\u{1BB9}') ||
    ('\u{1C40}' <= c && c <= '\u{1C49}') ||
    ('\u{1C50}' <= c && c <= '\u{1C59}') ||
    ('\u{A620}' <= c && c <= '\u{A629}') ||
    ('\u{A8D0}' <= c && c <= '\u{A8D9}') ||
    ('\u{A900}' <= c && c <= '\u{A909}') ||
    ('\u{A9D0}' <= c && c <= '\u{A9D9}') ||
    ('\u{A9F0}' <= c && c <= '\u{A9F9}') ||
    ('\u{AA50}' <= c && c <= '\u{AA59}') ||
    ('\u{ABF0}' <= c && c <= '\u{ABF9}') ||
    ('\u{FF10}' <= c && c <= '\u{FF19}') ||
    ('\u{104A0}' <= c && c <= '\u{104A9}') ||
    ('\u{10D30}' <= c && c <= '\u{10D39}') ||
    ('\u{11066}' <= c && c <= '\u{1106F}') ||
    ('\u{110F0}' <= c && c <= '\u{110F9}') ||
    ('\u{11136}' <= c && c <= '\u{1113F}') ||
    ('\u{111D0}' <= c && c <= '\u{111D9}') ||
    ('\u{112F0}' <= c && c <= '\u{112F9}') ||
    ('\u{11450}' <= c && c <= '\u{11459}') ||
    ('\u{114D0}' <= c && c <= '\u{114D9}') ||
    ('\u{11650}' <= c && c <= '\u{11659}') ||
    ('\u{116C0}' <= c && c <= '\u{116C9}') ||
    ('\u{11730}' <= c && c <= '\u{11739}') ||
    ('\u{118E0}' <= c && c <= '\u{118E9}') ||
    ('\u{11950}' <= c && c <= '\u{11959}') ||
    ('\u{11C50}' <= c && c <= '\u{11C59}') ||
    ('\u{11D50}' <= c && c <= '\u{11D59}') ||
    ('\u{11DA0}' <= c && c <= '\u{11DA9}') ||
    ('\u{11F50}' <= c && c <= '\u{11F59}') ||
    ('\u{16A60}' <= c && c <= '\u{16A69}') ||
    ('\u{16AC0}' <= c && c <= '\u{16AC9}') ||
    ('\u{16B50}' <= c && c <= '\u{16B59}') ||
    ('\u{1D7CE}' <= c && c <= '\u{1D7FF}') ||
    ('\u{1E140}' <= c && c <= '\u{1E149}') ||
    ('\u{1E2F0}' <= c && c <= '\u{1E2F9}') ||
    ('\u{1E950}' <= c && c <= '\u{1E959}') ||
    ('\u{1FBF0}' <= c && c <= '\u{1FBF9}')
}

/// The characters with the Unicode White_Space property.
pub open spec fn is_white_space(c: char) -> bool {
    ||| ('\t' <= c && c <= '\r')
    ||| c == ' '
    ||| c == '\u{85}'
    ||| c == '\u{A0}'
    ||| c == '\u{1680}'
    ||| ('\u{2000}' <= c && c <= '\u{200A}')
    ||| c == '\u{2028}'
    ||| c == '\u{2029}'
    ||| c == '\u{202F}'
    ||| c == '\u{205F}'
    ||| c == '\u{3000}'
}

pub fn white_space(c: char) -> (r: bool)
    ensures
        r == is_white_space(c),
{
    ('\t' <= c && c <= '\r') || c == ' ' || c == '\u{85}' || c == '\u{A0}' || c == '\u{1680}' || (
    '\u{2000}' <= c && c <= '\u{200A}') || c == '\u{2028}' || c == '\u{2029}' || c == '\u{202F}'
        || c == '\u{205F}' || c == '\u{3000}'
}

pub open spec fn shape_admits(s: ValueShape, c: char) -> bool {
    match s {
        ValueShape::Quoted(q) => c != q,
        ValueShape::DigitsThen(_) => is_decimal_digit(c),
        ValueShape::RestOfLine => c != '\n',
        ValueShape::Blank => is_white_space(c),
    }
}

/// End of the longest run of admitted characters starting at `v`, within `[v, hi)`.
pub open spec fn run_end(t: Seq<char>, v: int, hi: int, s: ValueShape) -> int
    decreases hi - v,
{
    if v < 0 || v >= hi || v >= t.len() {
        v
    } else if !shape_admits(s, t[v]) {
        v
    } else {
        run_end(t, v + 1, hi, s)
    }
}

/// The run ending at `e` is properly closed inside the window.
pub open spec fn shape_closed(t: Seq<char>, e: int, hi: int, s: ValueShape) -> bool {
    match s {
        ValueShape::Quoted(q) => e < hi && t[e] == q,
        ValueShape::DigitsThen(q) => e < hi && t[e] == q,
        ValueShape::RestOfLine => true,
        ValueShape::Blank => true,
    }
}

/// Bounds of the non-empty value that follows `key` at position `p`, when the
/// key and its closed value both lie inside `[0, hi)`.
pub open spec fn capture_at(t: Seq<char>, key: Seq<char>, p: int, hi: int, s: ValueShape) -> Option<
    (int, int),
> {
    if occurs_at(t, p, key) && p + key.len() <= hi && hi <= t.len() {
        let v = p + key.len();
        let e = run_end(t, v, hi, s);
        if v < e && shape_closed(t, e, hi, s) {
            Some((v, e))
        } else {
            None
        }
    } else {
        None
    }
}

/// Leftmost capture of a value after `key` whose key starts in `[lo, hi)`.
pub open spec fn first_capture(t: Seq<char>, key: Seq<char>, lo: int, hi: int, s: ValueShape) -> Option<
    (int, int),
>
    decreases hi + 1 - lo,
{
    if lo < 0 || hi > t.len() || lo + key.len() > hi {
        None
    } else {
        match capture_at(t, key, lo, hi, s) {
            Some(r) => Some(r),
            None => first_capture(t, key, lo + 1, hi, s),
        }
    }
}

/// The captured text, if any.
pub open spec fn captured(t: Seq<char>, c: Option<(int, int)>) -> Option<Seq<char>> {
    match c {
        Some((v, e)) => Some(t.subrange(v, e)),
        None => None,
    }
}

pub open spec fn pair_view(r: Option<(usize, usize)>) -> Option<(int, int)> {
    match r {
        Some((a, b)) => Some((a as int, b as int)),
        None => None,
    }
}

pub proof fn lemma_run_end_bounds(t: Seq<char>, v: int, hi: int, s: ValueShape)
    requires
        0 <= v <= hi <= t.len(),
    ensures
        v <= run_end(t, v, hi, s) <= hi,
        forall|k: int| v <= k < run_end(t, v, hi, s) ==> shape_admits(s, #[trigger] t[k]),
        run_end(t, v, hi, s) < hi ==> !shape_admits(s, t[run_end(t, v, hi, s)]),
    decreases hi - v,
{
    if v < hi && shape_admits(s, t[v]) {
        lemma_run_end_bounds(t, v + 1, hi, s);
    }
}

pub proof fn lemma_capture_bounds(t: Seq<char>, key: Seq<char>, lo: int, hi: int, s: ValueShape)
    ensures
        first_capture(t, key, lo, hi, s) matches Some((v, e)) ==> lo + key.len() <= v < e <= hi
            && hi <= t.len(),
    decreases hi + 1 - lo,
{
    if lo < 0 || hi > t.len() || lo + key.len() > hi {
    } else {
        match capture_at(t, key, lo, hi, s) {
            Some(r) => {
                lemma_run_end_bounds(t, lo + key.len(), hi, s);
            },
            None => {
                lemma_capture_bounds(t, key, lo + 1, hi, s);
            },
        }
    }
}

fn admits(s: ValueShape, c: char) -> (r: bool)
    ensures
        r == shape_admits(s, c),
{
    match s {
        ValueShape::Quoted(q) => c != q,
        ValueShape::DigitsThen(_) => decimal_digit(c),
        ValueShape::RestOfLine => c != '\n',
        ValueShape::Blank => white_space(c),
    }
}

pub fn scan_run(t: &[char], v: usize, hi: usize, s: ValueShape) -> (e: usize)
    requires
        v <= hi <= t@.len(),
    ensures
        e as int == run_end(t@, v as int, hi as int, s),
{
    let mut e = v;
    while e < hi && admits(s, t[e])
        invariant
            v <= e <= hi,
            hi <= t@.len(),
            run_end(t@, v as int, hi as int, s) == run_end(t@, e as int, hi as int, s),
        decreases hi - e,
    {
        e = e + 1;
    }
    e
}

/// The value after `key` at position `p`, as `capture_at` describes it.
pub fn capture(t: &[char], key: &[char], p: usize, hi: usize, s: ValueShape) -> (r: Option<
    (usize, usize),
>)
    ensures
        pair_view(r) == capture_at(t@, key@, p as int, hi as int, s),
{
    if hi > t.len() || p > hi || key.len() > hi - p || !matches_at(t, p, key) {
        return None;
    }
    let v = p + key.len();
    let e = scan_run(t, v, hi, s);
    let closed = match s {
        ValueShape::Quoted(q) => e < hi && t[e] == q,
        ValueShape::DigitsThen(q) => e < hi && t[e] == q,
        ValueShape::RestOfLine => true,
        ValueShape::Blank => true,
    };
    if v < e && closed {
        Some((v, e))
    } else {
        None
    }
}

/// Leftmost value after `key` inside the window `[lo, hi)`.
pub fn first_value(t: &[char], key: &[char], lo: usize, hi: usize, s: ValueShape) -> (r: Option<
    (usize, usize),
>)
    ensures
        pair_view(r) == first_capture(t@, key@, lo as int, hi as int, s),
{
    if hi > t.len() || key.len() > hi {
        return None;
    }
    let last = hi - key.len();
    let mut i: usize = lo;
    while i <= last
        invariant
            lo <= i,
            hi <= t.len(),
            last + key.len() == hi,
            first_capture(t@, key@, lo as int, hi as int, s) == first_capture(
                t@,
                key@,
                i as int,
                hi as int,
                s,
            ),
        decreases last - i,
    {
        let c = capture(t, key, i, hi, s);
        if c.is_some() {
            return c;
        }
        if i == last {
            assert(first_capture(t@, key@, i + 1, hi as int, s) is None);
            return None;
        }
        i = i + 1;
    }
    None
}

/// A copy of `t[v..e]`.
pub fn copy_range(t: &[char], v: usize, e: usize) -> (r: Vec<char>)
    requires
        v <= e <= t@.len(),
    ensures
        r@ == t@.subrange(v as int, e as int),
{
    let mut r: Vec<char> = Vec::new();
    let mut k = v;
    while k < e
        invariant
            v <= k <= e,
            e <= t@.len(),
            r@ == t@.subrange(v as int, k as int),
        decreases e - k,
    {
        r.push(t[k]);
        k = k + 1;
        assert(r@ =~= t@.subrange(v as int, k as int));
    }
    r
}

/// The text of the leftmost value after `key` inside `[lo, hi)`.
pub fn value_after(t: &[char], key: &[char], lo: usize, hi: usize, s: ValueShape) -> (r: Option<
    Vec<char>,
>)
    ensures
        match r {
            Some(v) => captured(t@, first_capture(t@, key@, lo as int, hi as int, s)) == Some(v@),
            None => first_capture(t@, key@, lo as int, hi as int, s) is None,
        },
{
    proof {
        lemma_capture_bounds(t@, key@, lo as int, hi as int, s);
    }
    match first_value(t, key, lo, hi, s) {
        Some((v, e)) => Some(copy_range(t, v, e)),
        None => None,
    }
}

/// The characters of `s`.
pub fn chars_of(s: &str) -> (r: Vec<char>)
    ensures
        r@ == s@,
{
    let mut it = s.chars();
    let mut r: Vec<char> = Vec::new();
    loop
        invariant
            r@ + it.remaining() == s@,
            it.obeys_prophetic_iter_laws(),
            it.decrease() is Some,
        ensures
            r@ == s@,
        decreases it.decrease()->0,
    {
        match it.next() {
            Some(c) => {
                r.push(c);
                assert(r@ + it.remaining() =~= s@);
            },
            None => {
                assert(r@ =~= s@);
                break;
            },
        }
    }
    r
}

/// Relies on `String::from_iter` over `&char`: collecting characters yields
/// exactly those characters.
#[verifier::external_body]
pub(crate) fn text_from(cs: &[char]) -> (r: String)
    ensures
        r@ == cs@,
{
    String::from_iter(cs)
}


/// The views of strings after a push.
pub proof fn lemma_views_push(s: Seq<String>, x: String)
    ensures
        s.push(x).map_values(|t: String| t@) == s.map_values(|t: String| t@).push(x@),
{
    assert(s.push(x).map_values(|t: String| t@) =~= s.map_values(|t: String| t@).push(x@));
}

/// `out` grows by the characters of `s`.
pub fn append_text(out: &mut Vec<char>, s: &str)
    ensures
        final(out)@ == old(out)@ + s@,
{
    let cs = chars_of(s);
    let mut k: usize = 0;
    while k < cs.len()
        invariant
            k <= cs@.len(),
            cs@ == s@,
            out@ == old(out)@ + cs@.subrange(0, k as int),
        decreases cs@.len() - k,
    {
        out.push(cs[k]);
        k = k + 1;
        assert(out@ =~= old(out)@ + cs@.subrange(0, k as int));
    }
    assert(cs@.subrange(0, cs@.len() as int) =~= cs@);
}

pub open spec fn digit_char(d: nat) -> char {
    seq!['0', '1', '2', '3', '4', '5', '6', '7', '8', '9'][d as int]
}

/// Decimal digits of `n`, without leading zeros.
pub open spec fn decimal(n: nat) -> Seq<char>
    decreases n,
{
    if n < 10 {
        seq![digit_char(n)]
    } else {
        decimal(n / 10) + seq![digit_char(n % 10)]
    }
}

pub fn decimal_digits(n: u64) -> (r: Vec<char>)
    ensures
        r@ == decimal(n as nat),
    decreases n,
{
    let digits = vec!['0', '1', '2', '3', '4', '5', '6', '7', '8', '9'];
    assert(digits@ =~= seq!['0', '1', '2', '3', '4', '5', '6', '7', '8', '9']);
    if n < 10 {
        let r = vec![digits[n as usize]];
        assert(r@ =~= decimal(n as nat));
        r
    } else {
        let mut r = decimal_digits(n / 10);
        r.push(digits[(n % 10) as usize]);
        assert(r@ =~= decimal(n as nat));
        r
    }
}

pub open spec fn bool_text(b: bool) -> Seq<char> {
    if b {
        "true"@
    } else {
        "false"@
    }
}

/// `out` grows by "true" or "false".
pub fn append_bool(out: &mut Vec<char>, b: bool)
    ensures
        final(out)@ == old(out)@ + bool_text(b),
{
    if b {
        append_text(out, "true");
    } else {
        append_text(out, "false");
    }
}

/// `out` grows by the decimal digits of `n`.
pub fn append_decimal(out: &mut Vec<char>, n: u64)
    ensures
        final(out)@ == old(out)@ + decimal(n as nat),
{
    let d = decimal_digits(n);
    let mut k: usize = 0;
    while k < d.len()
        invariant
            k <= d@.len(),
            out@ == old(out)@ + d@.subrange(0, k as int),
        decreases d@.len() - k,
    {
        out.push(d[k]);
        k = k + 1;
        assert(out@ =~= old(out)@ + d@.subrange(0, k as int));
    }
    assert(d@.subrange(0, d@.len() as int) =~= d@);
}

pub uninterp spec fn utf8_lossy(b: Seq<u8>) -> Seq<char>;

/// Relies on `String::from_utf8_lossy`: valid UTF-8 decodes unchanged, other
/// input has its malformed sequences replaced.
#[verifier::external_body]
pub(crate) fn decode_lossy(b: &[u8]) -> (r: String)
    ensures
        r@ == utf8_lossy(b@),
        vstd::utf8::valid_utf8(b@) ==> r@ == vstd::utf8::decode_utf8(b@),
{
    String::from_utf8_lossy(b).into_owned()
}

} // verus!
