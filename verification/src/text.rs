//! Character-level text toolkit shared by the parsers and formatters.
//!
//! Text is modelled as `Seq<char>` (the view of `str` / `String`). The
//! executable helpers work on `Vec<char>` copies of their input and are
//! proved against the spec functions defined here.

use vstd::prelude::*;

verus! {

// ─────────────────────────────────────────────────────────────────────────
// Character classes
// ─────────────────────────────────────────────────────────────────────────

/// Unicode `White_Space` property — the set `char::is_whitespace` tests.
pub open spec fn is_ws(c: char) -> bool {
    ||| ('\u{9}' <= c && c <= '\u{d}')
    ||| c == ' '
    ||| c == '\u{85}'
    ||| c == '\u{a0}'
    ||| c == '\u{1680}'
    ||| ('\u{2000}' <= c && c <= '\u{200a}')
    ||| c == '\u{2028}'
    ||| c == '\u{2029}'
    ||| c == '\u{202f}'
    ||| c == '\u{205f}'
    ||| c == '\u{3000}'
}

/// Executable `char::is_whitespace`.
pub fn is_whitespace(c: char) -> (r: bool)
    ensures
        r == is_ws(c),
{
    ('\u{9}' <= c && c <= '\u{d}') || c == ' ' || c == '\u{85}' || c == '\u{a0}' || c
        == '\u{1680}' || ('\u{2000}' <= c && c <= '\u{200a}') || c == '\u{2028}' || c
        == '\u{2029}' || c == '\u{202f}' || c == '\u{205f}' || c == '\u{3000}'
}

pub open spec fn is_ascii_digit(c: char) -> bool {
    '0' <= c && c <= '9'
}

pub open spec fn is_ascii_alnum(c: char) -> bool {
    ||| is_ascii_digit(c)
    ||| ('a' <= c && c <= 'z')
    ||| ('A' <= c && c <= 'Z')
}

pub open spec fn is_ascii_char(c: char) -> bool {
    (c as u32) < 128
}

/// `char::to_ascii_lowercase`.
pub open spec fn ascii_lower(c: char) -> char {
    if 'A' <= c && c <= 'Z' {
        (((c as u8) + 32) as u8) as char
    } else {
        c
    }
}

pub fn to_ascii_lower(c: char) -> (r: char)
    ensures
        r == ascii_lower(c),
{
    if 'A' <= c && c <= 'Z' {
        ((c as u8) + 32) as char
    } else {
        c
    }
}

/// `s` with every ASCII upper-case letter lowered (`str::to_ascii_lowercase`).
pub open spec fn ascii_lower_seq(s: Seq<char>) -> Seq<char> {
    s.map_values(|c: char| ascii_lower(c))
}

/// `s` with every ASCII upper-case letter lowered.
pub fn ascii_lower_chars(s: &str) -> (r: Vec<char>)
    ensures
        r@ == ascii_lower_seq(s@),
{
    let v = chars_of(s);
    let mut out: Vec<char> = Vec::new();
    let mut i: usize = 0;
    while i < v.len()
        invariant
            i <= v@.len(),
            out@ == ascii_lower_seq(v@.take(i as int)),
        decreases v@.len() - i,
    {
        out.push(to_ascii_lower(v[i]));
        assert(ascii_lower_seq(v@.take(i + 1)) =~= ascii_lower_seq(v@.take(i as int)).push(
            ascii_lower(v@[i as int]),
        ));
        i += 1;
    }
    assert(v@.take(v@.len() as int) == v@);
    out
}

/// `str::eq_ignore_ascii_case`.
pub open spec fn eq_ignore_ascii_case(a: Seq<char>, b: Seq<char>) -> bool {
    ascii_lower_seq(a) == ascii_lower_seq(b)
}

/// Executable [`eq_ignore_ascii_case`] on character vectors.
pub fn eq_ignore_ascii_case_chars(a: &Vec<char>, b: &Vec<char>) -> (r: bool)
    ensures
        r == eq_ignore_ascii_case(a@, b@),
{
    if a.len() != b.len() {
        assert(ascii_lower_seq(a@).len() != ascii_lower_seq(b@).len());
        return false;
    }
    let mut i: usize = 0;
    while i < a.len()
        invariant
            a.len() == b.len(),
            i <= a.len(),
            forall|j: int| 0 <= j < i ==> ascii_lower(a@[j]) == ascii_lower(b@[j]),
        decreases a.len() - i,
    {
        if to_ascii_lower(a[i]) != to_ascii_lower(b[i]) {
            assert(ascii_lower_seq(a@)[i as int] != ascii_lower_seq(b@)[i as int]);
            return false;
        }
        i += 1;
    }
    assert(ascii_lower_seq(a@) =~= ascii_lower_seq(b@));
    true
}

/// `str::eq_ignore_ascii_case`.
pub fn str_eq_ignore_ascii_case(a: &str, b: &str) -> (r: bool)
    ensures
        r == eq_ignore_ascii_case(a@, b@),
{
    let av = chars_of(a);
    let bv = chars_of(b);
    eq_ignore_ascii_case_chars(&av, &bv)
}

/// `str::starts_with` for a string pattern.
pub fn str_starts_with(s: &str, p: &str) -> (r: bool)
    ensures
        r == has_prefix(s@, p@),
{
    let sv = chars_of(s);
    let pv = chars_of(p);
    starts_with_chars(&sv, &pv)
}

// ─────────────────────────────────────────────────────────────────────────
// Unicode lower-casing (named: the Unicode case rules are std's)
// ─────────────────────────────────────────────────────────────────────────

/// What `str::to_lowercase` returns for `s`. It is not the concatenation
/// of the per-character lowerings: a capital sigma at the end of a word
/// becomes the final form `ς`.
pub uninterp spec fn str_lowercase(s: Seq<char>) -> Seq<char>;

/// Wrapper of `str::to_lowercase`.
#[verifier::external_body]
fn str_lowercase_string(s: &str) -> (r: String)
    ensures
        r@ == str_lowercase(s@),
{
    s.to_lowercase()
}

/// `s` lower-cased as `str::to_lowercase` does it.
pub fn lowercase(s: &str) -> (r: String)
    ensures
        r@ == str_lowercase(s@),
{
    str_lowercase_string(s)
}

// ─────────────────────────────────────────────────────────────────────────
// Conversions between str / String / Vec<char>
// ─────────────────────────────────────────────────────────────────────────

/// Wrapper of `String::push`.
#[verifier::external_body]
pub(crate) fn push_char(s: &mut String, c: char)
    ensures
        final(s)@ == old(s)@.push(c),
{
    s.push(c);
}

/// Wrapper of `String::pop`.
#[verifier::external_body]
pub(crate) fn pop_char(s: &mut String) -> (r: Option<char>)
    ensures
        old(s)@.len() == 0 ==> r.is_none() && final(s)@ == old(s)@,
        old(s)@.len() > 0 ==> r == Some(old(s)@.last()) && final(s)@ == old(s)@.drop_last(),
{
    s.pop()
}

/// Whether `a` and `b` hold the same characters (`str`'s `==`).
pub(crate) fn str_eq(a: &str, b: &str) -> (r: bool)
    ensures
        r == (a@ == b@),
{
    let av = chars_of(a);
    let bv = chars_of(b);
    if av.len() != bv.len() {
        return false;
    }
    let mut i: usize = 0;
    while i < av.len()
        invariant
            av@ == a@,
            bv@ == b@,
            av@.len() == bv@.len(),
            i <= av@.len(),
            forall|j: int| 0 <= j < i ==> av@[j] == bv@[j],
        decreases av@.len() - i,
    {
        if av[i] != bv[i] {
            return false;
        }
        i += 1;
    }
    assert(av@ =~= bv@);
    true
}

/// The characters of `s`, in order.
pub fn chars_of(s: &str) -> (v: Vec<char>)
    ensures
        v@ == s@,
{
    let mut v: Vec<char> = Vec::new();
    for c in it: s.chars()
        invariant
            v@ == it.seq().take(it.index() as int),
    {
        v.push(c);
    }
    v
}

/// `v[lo..hi]` collected into a `String`.
pub fn string_of_range(v: &Vec<char>, lo: usize, hi: usize) -> (s: String)
    requires
        lo <= hi <= v.len(),
    ensures
        s@ == v@.subrange(lo as int, hi as int),
{
    let mut s = String::new();
    let mut i: usize = lo;
    while i < hi
        invariant
            lo <= i <= hi <= v.len(),
            s@ == v@.subrange(lo as int, i as int),
        decreases hi - i,
    {
        push_char(&mut s, v[i]);
        assert(v@.subrange(lo as int, i + 1) == v@.subrange(lo as int, i as int).push(v@[i as int]));
        i += 1;
    }
    s
}

/// All of `v` collected into a `String`.
pub fn string_of(v: &Vec<char>) -> (s: String)
    ensures
        s@ == v@,
{
    let s = string_of_range(v, 0, v.len());
    assert(v@.subrange(0, v.len() as int) == v@);
    s
}

/// A copy of `s` as an owned `String`.
pub fn to_owned_string(s: &str) -> (r: String)
    ensures
        r@ == s@,
{
    s.to_owned()
}

/// Append the characters of `v` to `s`.
pub fn append_chars(s: &mut String, v: &Vec<char>)
    ensures
        final(s)@ == old(s)@ + v@,
{
    let mut i: usize = 0;
    while i < v.len()
        invariant
            i <= v.len(),
            s@ == old(s)@ + v@.take(i as int),
        decreases v.len() - i,
    {
        push_char(s, v[i]);
        assert(v@.take(i + 1) == v@.take(i as int).push(v@[i as int]));
        i += 1;
    }
    assert(v@.take(v.len() as int) == v@);
}

// ─────────────────────────────────────────────────────────────────────────
// Trimming
// ─────────────────────────────────────────────────────────────────────────

/// `str::trim_start`: `s` without its leading whitespace.
pub open spec fn trim_start(s: Seq<char>) -> Seq<char>
    decreases s.len(),
{
    if s.len() > 0 && is_ws(s[0]) {
        trim_start(s.drop_first())
    } else {
        s
    }
}

/// `str::trim_end`: `s` without its trailing whitespace.
pub open spec fn trim_end(s: Seq<char>) -> Seq<char>
    decreases s.len(),
{
    if s.len() > 0 && is_ws(s.last()) {
        trim_end(s.drop_last())
    } else {
        s
    }
}

/// `str::trim`.
pub open spec fn trim(s: Seq<char>) -> Seq<char> {
    trim_end(trim_start(s))
}

proof fn lemma_trim_start_from(s: Seq<char>, i: int)
    requires
        0 <= i <= s.len(),
        forall|j: int| 0 <= j < i ==> is_ws(#[trigger] s[j]),
    ensures
        trim_start(s) == trim_start(s.subrange(i, s.len() as int)),
    decreases i,
{
    if i > 0 {
        let t = s.drop_first();
        assert forall|j: int| 0 <= j < i - 1 implies is_ws(#[trigger] t[j]) by {
            assert(t[j] == s[j + 1]);
        }
        lemma_trim_start_from(t, i - 1);
        assert(t.subrange(i - 1, t.len() as int) == s.subrange(i, s.len() as int));
    } else {
        assert(s.subrange(0, s.len() as int) == s);
    }
}

proof fn lemma_trim_end_to(s: Seq<char>, k: int)
    requires
        0 <= k <= s.len(),
        forall|j: int| k <= j < s.len() ==> is_ws(#[trigger] s[j]),
    ensures
        trim_end(s) == trim_end(s.subrange(0, k)),
    decreases s.len() - k,
{
    if k < s.len() {
        let t = s.drop_last();
        assert forall|j: int| k <= j < t.len() implies is_ws(#[trigger] t[j]) by {
            assert(t[j] == s[j]);
        }
        lemma_trim_end_to(t, k);
        assert(t.subrange(0, k) == s.subrange(0, k));
    } else {
        assert(s.subrange(0, k) == s);
    }
}

/// Bounds `(lo, hi)` such that `v[lo..hi]` is `v` trimmed.
pub fn trim_bounds(v: &Vec<char>) -> (r: (usize, usize))
    ensures
        r.0 <= r.1 <= v.len(),
        v@.subrange(r.0 as int, r.1 as int) == trim(v@),
{
    let mut lo: usize = 0;
    while lo < v.len() && is_whitespace(v[lo])
        invariant
            lo <= v.len(),
            forall|j: int| 0 <= j < lo ==> is_ws(#[trigger] v@[j]),
        decreases v.len() - lo,
    {
        lo += 1;
    }
    proof {
        lemma_trim_start_from(v@, lo as int);
    }
    let ghost rest = v@.subrange(lo as int, v.len() as int);
    assert(trim_start(rest) == rest) by {
        if rest.len() > 0 {
            assert(rest[0] == v@[lo as int]);
        }
    }
    let mut hi: usize = v.len();
    while hi > lo && is_whitespace(v[hi - 1])
        invariant
            lo <= hi <= v.len(),
            forall|j: int| hi <= j < v.len() ==> is_ws(#[trigger] v@[j]),
        decreases hi,
    {
        hi -= 1;
    }
    proof {
        assert forall|j: int| (hi - lo) <= j < rest.len() implies is_ws(#[trigger] rest[j]) by {
            assert(rest[j] == v@[lo + j]);
        }
        lemma_trim_end_to(rest, hi - lo);
        let t = rest.subrange(0, hi - lo);
        assert(t == v@.subrange(lo as int, hi as int));
        if t.len() > 0 {
            assert(t.last() == v@[hi - 1]);
        }
        assert(trim_end(t) == t);
    }
    (lo, hi)
}

/// `str::trim` applied to a character vector.
pub fn trim_chars(v: &Vec<char>) -> (r: Vec<char>)
    ensures
        r@ == trim(v@),
{
    let (lo, hi) = trim_bounds(v);
    slice_chars(v, lo, hi)
}

/// `v[lo..hi]` as a new vector.
pub fn slice_chars(v: &Vec<char>, lo: usize, hi: usize) -> (r: Vec<char>)
    requires
        lo <= hi <= v.len(),
    ensures
        r@ == v@.subrange(lo as int, hi as int),
{
    let mut r: Vec<char> = Vec::new();
    let mut i: usize = lo;
    while i < hi
        invariant
            lo <= i <= hi <= v.len(),
            r@ == v@.subrange(lo as int, i as int),
        decreases hi - i,
    {
        r.push(v[i]);
        assert(v@.subrange(lo as int, i + 1) == v@.subrange(lo as int, i as int).push(v@[i as int]));
        i += 1;
    }
    r
}

// ─────────────────────────────────────────────────────────────────────────
// Prefixes, substrings, splitting
// ─────────────────────────────────────────────────────────────────────────

/// `s` starts with `p`.
pub open spec fn has_prefix(s: Seq<char>, p: Seq<char>) -> bool {
    p.len() <= s.len() && s.subrange(0, p.len() as int) == p
}

/// `s` ends with `p`.
pub open spec fn has_suffix(s: Seq<char>, p: Seq<char>) -> bool {
    p.len() <= s.len() && s.subrange(s.len() - p.len(), s.len() as int) == p
}

/// `p` occurs in `s` at position `i`.
pub open spec fn occurs_at(s: Seq<char>, p: Seq<char>, i: int) -> bool {
    0 <= i && i + p.len() <= s.len() && s.subrange(i, i + p.len()) == p
}

/// `str::contains` for a string pattern.
pub open spec fn contains_seq(s: Seq<char>, p: Seq<char>) -> bool {
    exists|i: int| occurs_at(s, p, i)
}

/// Executable prefix test on character vectors.
pub fn starts_with_chars(s: &Vec<char>, p: &Vec<char>) -> (r: bool)
    ensures
        r == has_prefix(s@, p@),
{
    if p.len() > s.len() {
        return false;
    }
    let mut i: usize = 0;
    while i < p.len()
        invariant
            p.len() <= s.len(),
            i <= p.len(),
            forall|j: int| 0 <= j < i ==> s@[j] == p@[j],
        decreases p.len() - i,
    {
        if s[i] != p[i] {
            assert(s@.subrange(0, p.len() as int)[i as int] != p@[i as int]);
            return false;
        }
        i += 1;
    }
    assert(s@.subrange(0, p.len() as int) =~= p@);
    true
}

/// Whether `p` occurs in `s` at position `i`.
pub fn occurs_at_exec(s: &Vec<char>, p: &Vec<char>, i: usize) -> (r: bool)
    ensures
        r == occurs_at(s@, p@, i as int),
{
    if i > s.len() || p.len() > s.len() - i {
        return false;
    }
    let mut k: usize = 0;
    while k < p.len()
        invariant
            i + p.len() <= s.len(),
            k <= p.len(),
            forall|j: int| 0 <= j < k ==> s@[i + j] == p@[j],
        decreases p.len() - k,
    {
        if s[i + k] != p[k] {
            assert(s@.subrange(i as int, i + p.len())[k as int] != p@[k as int]);
            return false;
        }
        k += 1;
    }
    assert(s@.subrange(i as int, i + p.len()) =~= p@);
    true
}

/// Executable substring test on character vectors.
pub fn contains_chars(s: &Vec<char>, p: &Vec<char>) -> (r: bool)
    ensures
        r == contains_seq(s@, p@),
{
    if p.len() > s.len() {
        assert(forall|i: int| !occurs_at(s@, p@, i));
        return false;
    }
    let last = s.len() - p.len();
    let mut i: usize = 0;
    loop
        invariant
            p.len() <= s.len(),
            last == s.len() - p.len(),
            i <= last,
            forall|j: int| 0 <= j < i ==> !occurs_at(s@, p@, j),
        ensures
            forall|j: int| 0 <= j <= last ==> !occurs_at(s@, p@, j),
        decreases last - i,
    {
        if occurs_at_exec(s, p, i) {
            return true;
        }
        if i == last {
            break;
        }
        i += 1;
    }
    assert forall|j: int| !occurs_at(s@, p@, j) by {
        if 0 <= j && j + p@.len() <= s@.len() {
            assert(j <= last);
        }
    }
    false
}

/// Index of the first occurrence of `c` in `s`, if any.
pub open spec fn first_index_of(s: Seq<char>, c: char) -> Option<int> {
    if exists|i: int| 0 <= i < s.len() && s[i] == c {
        Some(choose|i: int| 0 <= i < s.len() && s[i] == c && forall|j: int| 0 <= j < i ==> s[j] != c)
    } else {
        None
    }
}

/// Position of the first `c` in `v`.
pub fn find_char(v: &Vec<char>, c: char) -> (r: Option<usize>)
    ensures
        match r {
            Some(i) => i < v.len() && v@[i as int] == c && forall|j: int| 0 <= j < i ==> v@[j] != c,
            None => forall|j: int| 0 <= j < v.len() ==> v@[j] != c,
        },
        r matches Some(i) ==> first_index_of(v@, c) == Some(i as int),
        r is None ==> first_index_of(v@, c) is None,
{
    let mut i: usize = 0;
    while i < v.len()
        invariant
            i <= v.len(),
            forall|j: int| 0 <= j < i ==> v@[j] != c,
        decreases v.len() - i,
    {
        if v[i] == c {
            proof {
                let w = choose|k: int| 0 <= k < v@.len() && v@[k] == c && forall|j: int| 0 <= j < k ==> v@[j] != c;
                assert(0 <= i < v@.len() && v@[i as int] == c && forall|j: int| 0 <= j < i ==> v@[j] != c);
                if w < i {
                    assert(v@[w] != c);
                } else if w > i {
                    assert(v@[i as int] != c);
                }
            }
            return Some(i);
        }
        i += 1;
    }
    None
}

// ─────────────────────────────────────────────────────────────────────────
// Decimal numbers
// ─────────────────────────────────────────────────────────────────────────

pub open spec fn digit_char(d: nat) -> char
    recommends
        d < 10,
{
    ((48 + d) as u8) as char
}

/// Decimal digits of `n` (no sign, no padding) — `format!("{n}")`.
pub open spec fn decimal(n: nat) -> Seq<char>
    decreases n,
{
    if n < 10 {
        seq![digit_char(n)]
    } else {
        decimal(n / 10).push(digit_char(n % 10))
    }
}

/// Value of a run of ASCII digits.
pub open spec fn digits_value(s: Seq<char>) -> nat
    decreases s.len(),
{
    if s.len() == 0 {
        0
    } else {
        digits_value(s.drop_last()) * 10 + ((s.last() as u32) - ('0' as u32)) as nat
    }
}

pub open spec fn all_digits(s: Seq<char>) -> bool {
    forall|i: int| 0 <= i < s.len() ==> is_ascii_digit(#[trigger] s[i])
}

/// `i32::from_str`: an optional `+` / `-`, then one or more ASCII digits,
/// and the value must fit in `i32`.
pub open spec fn parse_i32_spec(s: Seq<char>) -> Option<i32> {
    let neg = s.len() > 0 && s[0] == '-';
    let body = if s.len() > 0 && (s[0] == '-' || s[0] == '+') {
        s.drop_first()
    } else {
        s
    };
    if body.len() == 0 || !all_digits(body) {
        None
    } else {
        let v: int = if neg {
            -(digits_value(body) as int)
        } else {
            digits_value(body) as int
        };
        if i32::MIN <= v && v <= i32::MAX {
            Some(v as i32)
        } else {
            None
        }
    }
}

proof fn lemma_digits_value_mono(s: Seq<char>)
    requires
        all_digits(s),
    ensures
        digits_value(s) >= 0,
        s.len() > 0 ==> digits_value(s) >= digits_value(s.drop_last()) * 10,
{
}

/// Parse `v[lo..hi]` as an `i32` (see [`parse_i32_spec`]).
pub fn parse_i32(v: &Vec<char>, lo: usize, hi: usize) -> (r: Option<i32>)
    requires
        lo <= hi <= v.len(),
    ensures
        r == parse_i32_spec(v@.subrange(lo as int, hi as int)),
{
    let ghost s = v@.subrange(lo as int, hi as int);
    let neg = lo < hi && v[lo] == '-';
    let start: usize = if lo < hi && (v[lo] == '-' || v[lo] == '+') {
        lo + 1
    } else {
        lo
    };
    let ghost body = v@.subrange(start as int, hi as int);
    assert(body == (if s.len() > 0 && (s[0] == '-' || s[0] == '+') {
        s.drop_first()
    } else {
        s
    }));
    if start == hi {
        return None;
    }
    // Accumulate in i64 with a cap so that overflow is impossible.
    let mut acc: i64 = 0;
    let mut i: usize = start;
    let mut big = false;
    while i < hi
        invariant
            start <= i <= hi <= v.len(),
            body == v@.subrange(start as int, hi as int),
            s == v@.subrange(lo as int, hi as int),
            body == (if s.len() > 0 && (s[0] == '-' || s[0] == '+') {
                s.drop_first()
            } else {
                s
            }),
            neg == (s.len() > 0 && s[0] == '-'),
            body.len() > 0,
            all_digits(v@.subrange(start as int, i as int)),
            !big ==> acc as int == digits_value(v@.subrange(start as int, i as int)),
            !big ==> 0 <= acc <= 0x1_0000_0000,
            big ==> digits_value(v@.subrange(start as int, i as int)) > 0x1_0000_0000,
        decreases hi - i,
    {
        let c = v[i];
        if !('0' <= c && c <= '9') {
            assert(body[i - start] == c);
            assert(!is_ascii_digit(body[i - start]));
            assert(!all_digits(body));
            return None;
        }
        let ghost prev = v@.subrange(start as int, i as int);
        let ghost next = v@.subrange(start as int, i + 1);
        assert(next.drop_last() == prev);
        assert(next.last() == c);
        assert(all_digits(next)) by {
            assert forall|j: int| 0 <= j < next.len() implies is_ascii_digit(#[trigger] next[j]) by {
                if j < prev.len() {
                    assert(next[j] == prev[j]);
                }
            }
        }
        let d = (c as u32 - '0' as u32) as i64;
        if !big {
            let n = acc * 10 + d;
            if n > 0x1_0000_0000 {
                big = true;
            } else {
                acc = n;
            }
        } else {
            proof {
                lemma_digits_value_mono(next);
            }
        }
        i += 1;
    }
    assert(v@.subrange(start as int, i as int) == body);
    if big {
        return None;
    }
    let value: i64 = if neg {
        -acc
    } else {
        acc
    };
    if value < i32::MIN as i64 || value > i32::MAX as i64 {
        None
    } else {
        Some(value as i32)
    }
}

/// `usize::from_str`: an optional `+`, then one or more ASCII digits, and
/// the value must fit in `usize`.
pub open spec fn parse_usize_spec(s: Seq<char>) -> Option<usize> {
    let body = if s.len() > 0 && s[0] == '+' {
        s.drop_first()
    } else {
        s
    };
    if body.len() == 0 || !all_digits(body) {
        None
    } else if digits_value(body) <= usize::MAX {
        Some(digits_value(body) as usize)
    } else {
        None
    }
}

/// Parse `s` as a `usize` (see [`parse_usize_spec`]).
pub fn parse_usize(s: &str) -> (r: Option<usize>)
    ensures
        r == parse_usize_spec(s@),
{
    let v = chars_of(s);
    let hi = v.len();
    let start: usize = if hi > 0 && v[0] == '+' {
        1
    } else {
        0
    };
    let ghost body = v@.subrange(start as int, hi as int);
    assert(body == (if s@.len() > 0 && s@[0] == '+' {
        s@.drop_first()
    } else {
        s@
    }));
    if start == hi {
        return None;
    }
    let cap: u128 = usize::MAX as u128;
    let mut acc: u128 = 0;
    let mut i: usize = start;
    let mut big = false;
    while i < hi
        invariant
            start <= i <= hi == v@.len(),
            v@ == s@,
            cap == usize::MAX,
            body == v@.subrange(start as int, hi as int),
            body == (if s@.len() > 0 && s@[0] == '+' {
                s@.drop_first()
            } else {
                s@
            }),
            body.len() > 0,
            all_digits(v@.subrange(start as int, i as int)),
            !big ==> acc as int == digits_value(v@.subrange(start as int, i as int)),
            !big ==> acc <= cap,
            big ==> digits_value(v@.subrange(start as int, i as int)) > usize::MAX,
        decreases hi - i,
    {
        let c = v[i];
        if !('0' <= c && c <= '9') {
            assert(body[i - start] == c);
            assert(!is_ascii_digit(body[i - start]));
            assert(!all_digits(body));
            return None;
        }
        let ghost prev = v@.subrange(start as int, i as int);
        let ghost next = v@.subrange(start as int, i + 1);
        assert(next.drop_last() == prev);
        assert(next.last() == c);
        assert(all_digits(next)) by {
            assert forall|j: int| 0 <= j < next.len() implies is_ascii_digit(#[trigger] next[j]) by {
                if j < prev.len() {
                    assert(next[j] == prev[j]);
                }
            }
        }
        let d = (c as u32 - '0' as u32) as u128;
        if !big {
            let n = acc * 10 + d;
            if n > cap {
                big = true;
            } else {
                acc = n;
            }
        } else {
            proof {
                lemma_digits_value_mono(next);
            }
        }
        i += 1;
    }
    assert(v@.subrange(start as int, i as int) == body);
    if big {
        None
    } else {
        Some(acc as usize)
    }
}

proof fn lemma_decimal_len(n: nat)
    ensures
        decimal(n).len() >= 1,
    decreases n,
{
    if n >= 10 {
        lemma_decimal_len(n / 10);
    }
}

/// `format!("{n}")` for a `usize`.
pub fn decimal_string(n: usize) -> (r: String)
    ensures
        r@ == decimal(n as nat),
{
    let digits = decimal_chars(n);
    string_of(&digits)
}

/// The decimal digits of `n`.
pub fn decimal_chars(n: usize) -> (r: Vec<char>)
    ensures
        r@ == decimal(n as nat),
    decreases n,
{
    let d = (((n % 10) as u8) + 48) as char;
    if n < 10 {
        let mut r: Vec<char> = Vec::new();
        r.push(d);
        r
    } else {
        let mut r = decimal_chars(n / 10);
        r.push(d);
        r
    }
}

/// Left-pad `s` with `'0'` up to `width` characters.
pub open spec fn zero_pad(s: Seq<char>, width: nat) -> Seq<char> {
    if s.len() >= width {
        s
    } else {
        Seq::new((width - s.len()) as nat, |_i: int| '0') + s
    }
}

/// `format!("{n:0width$}")` for a `usize`.
pub fn zero_padded_decimal(n: usize, width: usize) -> (r: String)
    ensures
        r@ == zero_pad(decimal(n as nat), width as nat),
{
    let digits = decimal_chars(n);
    let mut out = String::new();
    if digits.len() < width {
        let pad = width - digits.len();
        let mut i: usize = 0;
        while i < pad
            invariant
                i <= pad,
                out@ == Seq::new(i as nat, |_i: int| '0'),
            decreases pad - i,
        {
            push_char(&mut out, '0');
            assert(out@ =~= Seq::new((i + 1) as nat, |_i: int| '0'));
            i += 1;
        }
    }
    append_chars(&mut out, &digits);
    assert(out@ =~= zero_pad(decimal(n as nat), width as nat));
    out
}

// ─────────────────────────────────────────────────────────────────────────
// Percent-encoding
// ─────────────────────────────────────────────────────────────────────────

/// Upper-case hexadecimal digit for `d < 16`.
pub open spec fn hex_upper(d: u8) -> char {
    if d < 10 {
        ((('0' as u8) + d) as u8) as char
    } else {
        ((('A' as u8) + d - 10) as u8) as char
    }
}

/// `format!("%{b:02X}")`.
pub open spec fn percent_escape(b: u8) -> Seq<char> {
    seq!['%', hex_upper(b / 16), hex_upper(b % 16)]
}

fn hex_digit(d: u8) -> (c: char)
    requires
        d < 16,
    ensures
        c == hex_upper(d),
{
    if d < 10 {
        (('0' as u8) + d) as char
    } else {
        (('A' as u8) + d - 10) as char
    }
}

/// Append `%XX` for byte `b` to `out`.
pub fn push_percent_escape(out: &mut String, b: u8)
    ensures
        final(out)@ == old(out)@ + percent_escape(b),
{
    push_char(out, '%');
    push_char(out, hex_digit(b / 16));
    push_char(out, hex_digit(b % 16));
    assert(out@ =~= old(out)@ + percent_escape(b));
}

// ─────────────────────────────────────────────────────────────────────────
// Splitting and joining
// ─────────────────────────────────────────────────────────────────────────

/// The views of a sequence of strings.
pub open spec fn views(v: Seq<String>) -> Seq<Seq<char>> {
    v.map_values(|s: String| s@)
}

/// `split_whitespace` state after reading `s`: finished words and the word
/// being built.
pub open spec fn ws_split_state(s: Seq<char>) -> (Seq<Seq<char>>, Seq<char>)
    decreases s.len(),
{
    if s.len() == 0 {
        (Seq::empty(), Seq::empty())
    } else {
        let (words, cur) = ws_split_state(s.drop_last());
        let c = s.last();
        if is_ws(c) {
            if cur.len() > 0 {
                (words.push(cur), Seq::empty())
            } else {
                (words, cur)
            }
        } else {
            (words, cur.push(c))
        }
    }
}

/// `str::split_whitespace`: the maximal runs of non-whitespace characters.
pub open spec fn split_ws(s: Seq<char>) -> Seq<Seq<char>> {
    let (words, cur) = ws_split_state(s);
    if cur.len() > 0 {
        words.push(cur)
    } else {
        words
    }
}

/// `parts` joined with `sep` between consecutive parts (`[T]::join`).
pub open spec fn join_with(parts: Seq<Seq<char>>, sep: Seq<char>) -> Seq<char>
    decreases parts.len(),
{
    if parts.len() == 0 {
        Seq::empty()
    } else if parts.len() == 1 {
        parts[0]
    } else {
        join_with(parts.drop_last(), sep) + sep + parts.last()
    }
}

/// Executable `str::split_whitespace`, collected.
pub fn split_whitespace(s: &str) -> (r: Vec<String>)
    ensures
        views(r@) == split_ws(s@),
{
    let v = chars_of(s);
    let mut words: Vec<String> = Vec::new();
    let mut cur = String::new();
    let mut i: usize = 0;
    assert(v@.take(0) =~= Seq::<char>::empty());
    assert(views(words@) =~= Seq::<Seq<char>>::empty());
    while i < v.len()
        invariant
            i <= v@.len(),
            v@ == s@,
            ws_split_state(v@.take(i as int)) == (views(words@), cur@),
        decreases v@.len() - i,
    {
        let ch = v[i];
        proof {
            assert(v@.take(i + 1).drop_last() == v@.take(i as int));
            assert(v@.take(i + 1).last() == ch);
        }
        if is_whitespace(ch) {
            if !cur.as_str().is_empty() {
                let ghost before = words@;
                words.push(cur);
                cur = String::new();
                assert(views(words@) =~= views(before).push(views(words@).last()));
            }
        } else {
            push_char(&mut cur, ch);
        }
        i += 1;
    }
    assert(v@.take(v@.len() as int) == v@);
    if !cur.as_str().is_empty() {
        let ghost before = words@;
        words.push(cur);
        assert(views(words@) =~= views(before).push(views(words@).last()));
    }
    words
}

/// Executable `[String]::join`.
pub fn join_strings(parts: &Vec<String>, sep: &str) -> (r: String)
    ensures
        r@ == join_with(views(parts@), sep@),
{
    let mut out = String::new();
    let n = parts.len();
    let mut i: usize = 0;
    while i < n
        invariant
            n == parts@.len(),
            i <= n,
            out@ == join_with(views(parts@).take(i as int), sep@),
        decreases n - i,
    {
        let ghost before = views(parts@).take(i as int);
        if i > 0 {
            out.append(sep);
        }
        out.append(parts[i].as_str());
        proof {
            let now = views(parts@).take(i + 1);
            assert(now.drop_last() == before);
            assert(now.last() == parts@[i as int]@);
            if i == 0 {
                assert(now.len() == 1);
                assert(out@ == now[0]);
            }
        }
        i += 1;
    }
    assert(views(parts@).take(n as int) == views(parts@));
    out
}

} // verus!
