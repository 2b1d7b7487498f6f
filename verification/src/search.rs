//! Structured feed-search query: parsing the search-bar text into
//! field-scoped terms, free terms, categories and a year constraint, the
//! `cat:` / `year:` gates, and a case-insensitive substring matcher.
//!
//! Grammar (whitespace-separated; double quotes group a value with
//! spaces, e.g. `author:"Yann LeCun"`):
//! - `ti:` / `title:` — term must match the title.
//! - `abs:` / `abstract:` — term must match the summary.
//! - `au:` / `author:` — term must match some author.
//! - `cat:` / `category:` — arXiv subject; `cs.LG` (exact), `cs` (all cs.*).
//! - `year:` / `yr:` — `2024`, `2020-2024`, `>2020`, `>=2020`, `<2024`, `<=2024`.
//! - anything else — free term, matches title, author, or abstract.

use vstd::prelude::*;

use crate::models::FeedItem;
use crate::taxonomy::{item_matches_category, some_tag_matches};
use crate::text::{
    chars_of, contains_chars, contains_seq, find_char, first_index_of, is_whitespace, is_ws, trim_end,
    trim_start,
    str_lowercase, lowercase, parse_i32, parse_i32_spec, push_char, slice_chars, string_of, trim,
    trim_chars, views,
};

verus! {

/// A `year:` constraint.
#[derive(Debug, Clone, Copy, PartialEq, Eq, Structural)]
pub enum YearConstraint {
    Exact(i32),
    /// Inclusive on both ends; constructed with `lo <= hi`.
    Range(i32, i32),
    AtLeast(i32),
    AtMost(i32),
}

/// `s` trimmed, then parsed as an `i32`.
pub open spec fn trimmed_i32(s: Seq<char>) -> Option<i32> {
    parse_i32_spec(trim(s))
}

/// The constraint a `year:` value denotes, if it parses.
pub open spec fn year_constraint_spec(value: Seq<char>) -> Option<YearConstraint> {
    let v = trim(value);
    if v.len() >= 2 && v[0] == '>' && v[1] == '=' {
        match trimmed_i32(v.skip(2)) {
            Some(y) => Some(YearConstraint::AtLeast(y)),
            None => None,
        }
    } else if v.len() >= 2 && v[0] == '<' && v[1] == '=' {
        match trimmed_i32(v.skip(2)) {
            Some(y) => Some(YearConstraint::AtMost(y)),
            None => None,
        }
    } else if v.len() >= 1 && v[0] == '>' {
        match trimmed_i32(v.skip(1)) {
            Some(y) => Some(YearConstraint::AtLeast((y + 1) as i32)),
            None => None,
        }
    } else if v.len() >= 1 && v[0] == '<' {
        match trimmed_i32(v.skip(1)) {
            Some(y) => Some(YearConstraint::AtMost((y - 1) as i32)),
            None => None,
        }
    } else {
        match first_index_of(v, '-') {
            Some(k) => match (trimmed_i32(v.take(k)), trimmed_i32(v.skip(k + 1))) {
                (Some(lo), Some(hi)) => if lo <= hi {
                    Some(YearConstraint::Range(lo, hi))
                } else {
                    Some(YearConstraint::Range(hi, lo))
                },
                _ => None,
            },
            None => match parse_i32_spec(v) {
                Some(y) => Some(YearConstraint::Exact(y)),
                None => None,
            },
        }
    }
}

/// `>y` with `y == i32::MAX`, or `<y` with `y == i32::MIN`: the bound one
/// past `y` does not exist in `i32`.
pub open spec fn year_bound_overflows(value: Seq<char>) -> bool {
    let v = trim(value);
    &&& !(v.len() >= 2 && (v[0] == '>' || v[0] == '<') && v[1] == '=')
    &&& ((v.len() >= 1 && v[0] == '>' && trimmed_i32(v.skip(1)) == Some(i32::MAX)) || (v.len()
        >= 1 && v[0] == '<' && trimmed_i32(v.skip(1)) == Some(i32::MIN)))
}

impl YearConstraint {
    pub open spec fn satisfied_by_spec(self, year: i32) -> bool {
        match self {
            YearConstraint::Exact(y) => year == y,
            YearConstraint::Range(lo, hi) => lo <= year && year <= hi,
            YearConstraint::AtLeast(y) => year >= y,
            YearConstraint::AtMost(y) => year <= y,
        }
    }

    /// Whether `year` satisfies the constraint.
    pub fn satisfied_by(&self, year: i32) -> (r: bool)
        ensures
            r == self.satisfied_by_spec(year),
    {
        match *self {
            YearConstraint::Exact(y) => year == y,
            YearConstraint::Range(lo, hi) => lo <= year && year <= hi,
            YearConstraint::AtLeast(y) => year >= y,
            YearConstraint::AtMost(y) => year <= y,
        }
    }

    /// Parse a `year:` value; `None` when it does not parse.
    pub fn parse(value: &str) -> (r: Option<YearConstraint>)
        requires
            !year_bound_overflows(value@),
        ensures
            r == year_constraint_spec(value@),
    {
        let v = trim_chars(&chars_of(value));
        let n = v.len();
        if n >= 2 && v[0] == '>' && v[1] == '=' {
            return match trimmed_parse(&v, 2) {
                Some(y) => Some(YearConstraint::AtLeast(y)),
                None => None,
            };
        }
        if n >= 2 && v[0] == '<' && v[1] == '=' {
            return match trimmed_parse(&v, 2) {
                Some(y) => Some(YearConstraint::AtMost(y)),
                None => None,
            };
        }
        if n >= 1 && v[0] == '>' {
            return match trimmed_parse(&v, 1) {
                Some(y) => Some(YearConstraint::AtLeast(y + 1)),
                None => None,
            };
        }
        if n >= 1 && v[0] == '<' {
            return match trimmed_parse(&v, 1) {
                Some(y) => Some(YearConstraint::AtMost(y - 1)),
                None => None,
            };
        }
        match find_char(&v, '-') {
            Some(k) => {
                let lo_part = slice_chars(&v, 0, k);
                let lo = trimmed_parse(&lo_part, 0);
                let hi = trimmed_parse(&v, k + 1);
                proof {
                    assert(lo_part@.skip(0) == v@.take(k as int));
                }
                match (lo, hi) {
                    (Some(lo), Some(hi)) => if lo <= hi {
                        Some(YearConstraint::Range(lo, hi))
                    } else {
                        Some(YearConstraint::Range(hi, lo))
                    },
                    _ => None,
                }
            },
            None => {
                assert(v@.subrange(0, n as int) == v@);
                match parse_i32(&v, 0, n) {
                    Some(y) => Some(YearConstraint::Exact(y)),
                    None => None,
                }
            },
        }
    }
}

/// `v[from..]` trimmed and parsed as an `i32`.
fn trimmed_parse(v: &Vec<char>, from: usize) -> (r: Option<i32>)
    requires
        from <= v@.len(),
    ensures
        r == trimmed_i32(v@.skip(from as int)),
{
    let rest = slice_chars(v, from, v.len());
    assert(rest@ == v@.skip(from as int));
    let t = trim_chars(&rest);
    assert(t@.subrange(0, t@.len() as int) == t@);
    parse_i32(&t, 0, t.len())
}

/// Whether a `year:` value is a `>y` / `<y` bound one past the range of
/// `i32` (the values [`YearConstraint::parse`] does not take).
pub fn year_value_overflows(value: &str) -> (r: bool)
    ensures
        r == year_bound_overflows(value@),
{
    let v = trim_chars(&chars_of(value));
    let n = v.len();
    if n >= 2 && (v[0] == '>' || v[0] == '<') && v[1] == '=' {
        return false;
    }
    if n >= 1 && v[0] == '>' {
        return match trimmed_parse(&v, 1) {
            Some(y) => y == i32::MAX,
            None => false,
        };
    }
    if n >= 1 && v[0] == '<' {
        return match trimmed_parse(&v, 1) {
            Some(y) => y == i32::MIN,
            None => false,
        };
    }
    false
}

// ── Tokenizing ──────────────────────────────────────────────────────────

/// Tokenizer state after reading `s`: finished tokens, the token being
/// built, and whether a double quote is open.
pub open spec fn tok_state(s: Seq<char>) -> (Seq<Seq<char>>, Seq<char>, bool)
    decreases s.len(),
{
    if s.len() == 0 {
        (Seq::empty(), Seq::empty(), false)
    } else {
        let (toks, cur, q) = tok_state(s.drop_last());
        let c = s.last();
        if c == '"' {
            (toks, cur, !q)
        } else if is_ws(c) && !q {
            if cur.len() > 0 {
                (toks.push(cur), Seq::empty(), q)
            } else {
                (toks, cur, q)
            }
        } else {
            (toks, cur.push(c), q)
        }
    }
}

/// Whitespace-separated tokens, except inside double quotes; the quote
/// characters themselves are dropped.
pub open spec fn tokenize_spec(s: Seq<char>) -> Seq<Seq<char>> {
    let (toks, cur, _q) = tok_state(s);
    if cur.len() > 0 {
        toks.push(cur)
    } else {
        toks
    }
}

/// Split on whitespace, except inside double quotes. Quote characters are
/// consumed, so `author:"Yann LeCun"` yields `author:Yann LeCun`.
pub fn tokenize(raw: &str) -> (r: Vec<String>)
    ensures
        views(r@) == tokenize_spec(raw@),
{
    let v = chars_of(raw);
    let mut tokens: Vec<String> = Vec::new();
    let mut cur = String::new();
    let mut in_quotes = false;
    let mut i: usize = 0;
    assert(v@.take(0) =~= Seq::<char>::empty());
    assert(views(tokens@) =~= Seq::<Seq<char>>::empty());
    while i < v.len()
        invariant
            i <= v@.len(),
            v@ == raw@,
            tok_state(v@.take(i as int)) == (views(tokens@), cur@, in_quotes),
        decreases v@.len() - i,
    {
        let ch = v[i];
        proof {
            assert(v@.take(i + 1).drop_last() == v@.take(i as int));
            assert(v@.take(i + 1).last() == ch);
        }
        if ch == '"' {
            in_quotes = !in_quotes;
        } else if is_whitespace(ch) && !in_quotes {
            if !cur.as_str().is_empty() {
                let ghost before = tokens@;
                tokens.push(cur);
                cur = String::new();
                assert(views(tokens@) =~= views(before).push(views(tokens@).last()));
            }
        } else {
            push_char(&mut cur, ch);
        }
        i += 1;
    }
    assert(v@.take(v@.len() as int) == v@);
    if !cur.as_str().is_empty() {
        let ghost before = tokens@;
        tokens.push(cur);
        assert(views(tokens@) =~= views(before).push(views(tokens@).last()));
    }
    tokens
}

// ── Query ───────────────────────────────────────────────────────────────

/// A parsed search query. Construct with [`Query::parse`].
#[derive(Debug, Clone, PartialEq, Eq)]
pub struct Query {
    pub free: Vec<String>,
    pub title: Vec<String>,
    pub author: Vec<String>,
    pub summary: Vec<String>,
    pub category: Vec<String>,
    pub year: Option<YearConstraint>,
}

/// Abstract query: each term list as a sequence of strings.
pub struct QueryView {
    pub free: Seq<Seq<char>>,
    pub title: Seq<Seq<char>>,
    pub author: Seq<Seq<char>>,
    pub summary: Seq<Seq<char>>,
    pub category: Seq<Seq<char>>,
    pub year: Option<YearConstraint>,
}

impl View for Query {
    type V = QueryView;

    open spec fn view(&self) -> QueryView {
        QueryView {
            free: views(self.free@),
            title: views(self.title@),
            author: views(self.author@),
            summary: views(self.summary@),
            category: views(self.category@),
            year: self.year,
        }
    }
}

/// The query with no terms.
pub open spec fn empty_query() -> QueryView {
    QueryView {
        free: Seq::empty(),
        title: Seq::empty(),
        author: Seq::empty(),
        summary: Seq::empty(),
        category: Seq::empty(),
        year: None,
    }
}

/// The `field:value` split of a token at its first colon.
pub open spec fn token_key(t: Seq<char>, k: int) -> Seq<char> {
    t.take(k)
}

pub open spec fn token_value(t: Seq<char>, k: int) -> Seq<char> {
    trim(t.skip(k + 1))
}

/// Add one token to a query.
pub open spec fn apply_token(q: QueryView, t: Seq<char>) -> QueryView {
    match first_index_of(t, ':') {
        Some(k) => {
            let key = token_key(t, k);
            let value = token_value(t, k);
            if (key == "ti"@ || key == "title"@) && value.len() > 0 {
                QueryView { title: q.title.push(value), ..q }
            } else if (key == "abs"@ || key == "abstract"@) && value.len() > 0 {
                QueryView { summary: q.summary.push(value), ..q }
            } else if (key == "au"@ || key == "author"@) && value.len() > 0 {
                QueryView { author: q.author.push(value), ..q }
            } else if (key == "cat"@ || key == "category"@) && value.len() > 0 {
                QueryView { category: q.category.push(value), ..q }
            } else if key == "year"@ || key == "yr"@ {
                match year_constraint_spec(value) {
                    Some(c) => QueryView { year: Some(c), ..q },
                    None => q,
                }
            } else {
                QueryView { free: q.free.push(t), ..q }
            }
        },
        None => QueryView { free: q.free.push(t), ..q },
    }
}

/// The query made of `toks`, in order.
pub open spec fn parse_tokens(toks: Seq<Seq<char>>) -> QueryView
    decreases toks.len(),
{
    if toks.len() == 0 {
        empty_query()
    } else {
        apply_token(parse_tokens(toks.drop_last()), toks.last())
    }
}

/// The query the search-bar text `raw` denotes.
pub open spec fn parse_spec(raw: Seq<char>) -> QueryView {
    parse_tokens(tokenize_spec(raw))
}

/// A token that sets a year bound that `i32` cannot hold.
pub open spec fn token_year_overflows(t: Seq<char>) -> bool {
    match first_index_of(t, ':') {
        Some(k) => (token_key(t, k) == "year"@ || token_key(t, k) == "yr"@) && year_bound_overflows(
            token_value(t, k),
        ),
        None => false,
    }
}

/// No token of `raw` sets a year bound that `i32` cannot hold.
pub open spec fn year_bounds_fit(raw: Seq<char>) -> bool {
    forall|i: int|
        0 <= i < tokenize_spec(raw).len() ==> !token_year_overflows(#[trigger] tokenize_spec(raw)[i])
}

/// An ISO `published_at`'s year: its first four characters as an `i32`.
pub open spec fn item_year_spec(published_at: Seq<char>) -> Option<i32> {
    if published_at.len() >= 4 {
        parse_i32_spec(published_at.take(4))
    } else {
        None
    }
}

/// Case-insensitive substring test.
pub open spec fn has_ci(hay: Seq<char>, needle: Seq<char>) -> bool {
    contains_seq(str_lowercase(hay), str_lowercase(needle))
}

/// Some author of the item contains `needle`, ignoring case.
pub open spec fn in_authors(item: FeedItem, needle: Seq<char>) -> bool {
    exists|i: int| 0 <= i < item.authors@.len() && has_ci(#[trigger] item.authors@[i]@, needle)
}

/// Whether `v` is the string `s`.
fn chars_is(v: &Vec<char>, s: &str) -> (r: bool)
    ensures
        r == (v@ == s@),
{
    let w = chars_of(s);
    if v.len() != w.len() {
        return false;
    }
    let mut i: usize = 0;
    while i < v.len()
        invariant
            v@.len() == w@.len(),
            w@ == s@,
            i <= v@.len(),
            forall|j: int| 0 <= j < i ==> v@[j] == w@[j],
        decreases v@.len() - i,
    {
        if v[i] != w[i] {
            return false;
        }
        i += 1;
    }
    assert(v@ =~= w@);
    true
}

/// Case-insensitive substring test.
fn has_ci_exec(hay: &str, needle: &str) -> (r: bool)
    ensures
        r == has_ci(hay@, needle@),
{
    let h = chars_of(lowercase(hay).as_str());
    let n = chars_of(lowercase(needle).as_str());
    contains_chars(&h, &n)
}

fn in_authors_exec(item: &FeedItem, needle: &str) -> (r: bool)
    ensures
        r == in_authors(*item, needle@),
{
    let n = item.authors.len();
    let mut i: usize = 0;
    while i < n
        invariant
            n == item.authors@.len(),
            i <= n,
            forall|j: int| 0 <= j < i ==> !has_ci(#[trigger] item.authors@[j]@, needle@),
        decreases n - i,
    {
        if has_ci_exec(item.authors[i].as_str(), needle) {
            return true;
        }
        i += 1;
    }
    false
}

/// The year of an ISO `published_at` ("2024-05-21" / "2024-05-21T…").
pub fn item_year(item: &FeedItem) -> (r: Option<i32>)
    ensures
        r == item_year_spec(item.published_at@),
{
    let v = chars_of(item.published_at.as_str());
    if v.len() >= 4 {
        assert(v@.subrange(0, 4) == v@.take(4));
        parse_i32(&v, 0, 4)
    } else {
        None
    }
}

impl Query {
    /// The item passes the `year:` and `cat:` gates.
    pub open spec fn passes_gates_spec(self, item: FeedItem) -> bool {
        &&& (self.year matches Some(yc) ==> (item_year_spec(item.published_at@) matches Some(y)
            && yc.satisfied_by_spec(y)))
        &&& forall|i: int|
            0 <= i < self.category@.len() ==> some_tag_matches(
                item.domain_tags@,
                (#[trigger] self.category@[i])@,
            )
    }

    /// Every term appears, ignoring case, in its field(s), and the gates pass.
    pub open spec fn matches_substring_spec(self, item: FeedItem) -> bool {
        &&& self.passes_gates_spec(item)
        &&& forall|i: int|
            0 <= i < self.title@.len() ==> has_ci(item.title@, (#[trigger] self.title@[i])@)
        &&& forall|i: int|
            0 <= i < self.summary@.len() ==> has_ci(
                item.summary_short@,
                (#[trigger] self.summary@[i])@,
            )
        &&& forall|i: int|
            0 <= i < self.author@.len() ==> in_authors(item, (#[trigger] self.author@[i])@)
        &&& forall|i: int|
            0 <= i < self.free@.len() ==> ({
                let t = (#[trigger] self.free@[i])@;
                has_ci(item.title@, t) || has_ci(item.summary_short@, t) || in_authors(item, t)
            })
    }

    /// No term and no year constraint: the "no search" state.
    pub fn is_empty(&self) -> (r: bool)
        ensures
            r == (self@.free.len() == 0 && self@.title.len() == 0 && self@.author.len() == 0
                && self@.summary.len() == 0 && self@.category.len() == 0 && self@.year is None),
    {
        self.free.len() == 0 && self.title.len() == 0 && self.author.len() == 0
            && self.summary.len() == 0 && self.category.len() == 0 && self.year.is_none()
    }

    fn push_term(list: &mut Vec<String>, value: &Vec<char>)
        ensures
            views(final(list)@) == views(old(list)@).push(value@),
    {
        let ghost before = list@;
        list.push(string_of(value));
        assert(views(list@) =~= views(before).push(value@));
    }

    fn apply(&mut self, token: String)
        requires
            !token_year_overflows(token@),
        ensures
            final(self)@ == apply_token(old(self)@, token@),
    {
        let t = chars_of(token.as_str());
        match find_char(&t, ':') {
            Some(k) => {
                let key = slice_chars(&t, 0, k);
                let rest = slice_chars(&t, k + 1, t.len());
                let value = trim_chars(&rest);
                proof {
                    assert(key@ == token_key(token@, k as int));
                    assert(rest@ == token@.skip(k + 1));
                }
                let nonempty = value.len() > 0;
                if nonempty && (chars_is(&key, "ti") || chars_is(&key, "title")) {
                    Self::push_term(&mut self.title, &value);
                } else if nonempty && (chars_is(&key, "abs") || chars_is(&key, "abstract")) {
                    Self::push_term(&mut self.summary, &value);
                } else if nonempty && (chars_is(&key, "au") || chars_is(&key, "author")) {
                    Self::push_term(&mut self.author, &value);
                } else if nonempty && (chars_is(&key, "cat") || chars_is(&key, "category")) {
                    Self::push_term(&mut self.category, &value);
                } else if chars_is(&key, "year") || chars_is(&key, "yr") {
                    // An unparseable year constraint is dropped, not
                    // demoted to free text.
                    if let Some(c) = YearConstraint::parse(string_of(&value).as_str()) {
                        self.year = Some(c);
                    }
                } else {
                    let ghost before = self.free@;
                    self.free.push(token);
                    assert(views(self.free@) =~= views(before).push(t@));
                }
            },
            None => {
                let ghost before = self.free@;
                self.free.push(token);
                assert(views(self.free@) =~= views(before).push(t@));
            },
        }
    }

    /// Parse the search-bar text.
    pub fn parse(raw: &str) -> (q: Query)
        requires
            year_bounds_fit(raw@),
        ensures
            q@ == parse_spec(raw@),
    {
        let tokens = tokenize(raw);
        let ghost toks = tokenize_spec(raw@);
        let mut q = Query::default();
        assert(q@ == empty_query()) by {
            assert(q@.free =~= Seq::<Seq<char>>::empty());
            assert(q@.title =~= Seq::<Seq<char>>::empty());
            assert(q@.author =~= Seq::<Seq<char>>::empty());
            assert(q@.summary =~= Seq::<Seq<char>>::empty());
            assert(q@.category =~= Seq::<Seq<char>>::empty());
        }
        let mut tokens = tokens;
        let n = tokens.len();
        let mut i: usize = 0;
        assert(toks.take(0) =~= Seq::<Seq<char>>::empty());
        while i < n
            invariant
                n == toks.len(),
                i <= n,
                tokens@.len() == n - i,
                forall|j: int| 0 <= j < n - i ==> (#[trigger] tokens@[j])@ == toks[i + j],
                toks == tokenize_spec(raw@),
                year_bounds_fit(raw@),
                q@ == parse_tokens(toks.take(i as int)),
            decreases n - i,
        {
            let tok = tokens.remove(0);
            proof {
                assert(tok@ == toks[i as int]);
                assert(!token_year_overflows(toks[i as int]));
                assert(toks.take(i + 1).drop_last() == toks.take(i as int));
                assert(toks.take(i + 1).last() == toks[i as int]);
            }
            q.apply(tok);
            i += 1;
        }
        assert(toks.take(n as int) == toks);
        q
    }

    /// Whether `raw` has a year bound one past the range of `i32`, which
    /// [`Query::parse`] does not take.
    pub fn has_overflowing_year(raw: &str) -> (r: bool)
        ensures
            r == !year_bounds_fit(raw@),
    {
        let tokens = tokenize(raw);
        let ghost toks = tokenize_spec(raw@);
        let n = tokens.len();
        let mut i: usize = 0;
        while i < n
            invariant
                n == toks.len(),
                views(tokens@) == toks,
                toks == tokenize_spec(raw@),
                i <= n,
                forall|j: int| 0 <= j < i ==> !token_year_overflows(#[trigger] toks[j]),
            decreases n - i,
        {
            let t = chars_of(tokens[i].as_str());
            assert(t@ == toks[i as int]);
            if let Some(k) = find_char(&t, ':') {
                let key = slice_chars(&t, 0, k);
                let rest = slice_chars(&t, k + 1, t.len());
                proof {
                    assert(key@ == token_key(toks[i as int], k as int));
                    assert(rest@ == toks[i as int].skip(k + 1));
                }
                if chars_is(&key, "year") || chars_is(&key, "yr") {
                    let value = string_of(&trim_chars(&rest));
                    if year_value_overflows(value.as_str()) {
                        return true;
                    }
                }
            }
            i += 1;
        }
        false
    }

    /// Parse the search-bar text, or `None` when it holds a year bound one
    /// past the range of `i32`.
    pub fn try_parse(raw: &str) -> (r: Option<Query>)
        ensures
            match r {
                Some(q) => year_bounds_fit(raw@) && q@ == parse_spec(raw@),
                None => !year_bounds_fit(raw@),
            },
    {
        if Self::has_overflowing_year(raw) {
            None
        } else {
            Some(Self::parse(raw))
        }
    }

    /// The `cat:` and `year:` gates: `true` when the item satisfies all.
    pub fn passes_gates(&self, item: &FeedItem) -> (r: bool)
        ensures
            r == self.passes_gates_spec(*item),
    {
        if let Some(yc) = &self.year {
            match item_year(item) {
                Some(y) => {
                    if !yc.satisfied_by(y) {
                        return false;
                    }
                },
                None => {
                    return false;
                },
            }
        }
        let n = self.category.len();
        let mut i: usize = 0;
        while i < n
            invariant
                n == self.category@.len(),
                i <= n,
                forall|k: int|
                    0 <= k < i ==> some_tag_matches(
                        item.domain_tags@,
                        (#[trigger] self.category@[k])@,
                    ),
            decreases n - i,
        {
            if !item_matches_category(&item.domain_tags, self.category[i].as_str()) {
                return false;
            }
            i += 1;
        }
        true
    }

    fn all_in(terms: &Vec<String>, hay: &str) -> (r: bool)
        ensures
            r == forall|i: int| 0 <= i < terms@.len() ==> has_ci(hay@, (#[trigger] terms@[i])@),
    {
        let n = terms.len();
        let mut i: usize = 0;
        while i < n
            invariant
                n == terms@.len(),
                i <= n,
                forall|k: int| 0 <= k < i ==> has_ci(hay@, (#[trigger] terms@[k])@),
            decreases n - i,
        {
            if !has_ci_exec(hay, terms[i].as_str()) {
                return false;
            }
            i += 1;
        }
        true
    }

    /// Case-insensitive substring match: every field-scoped and free term
    /// appears in its field(s), and the gates pass.
    pub fn matches_substring(&self, item: &FeedItem) -> (r: bool)
        ensures
            r == self.matches_substring_spec(*item),
    {
        if !self.passes_gates(item) {
            return false;
        }
        if !Self::all_in(&self.title, item.title.as_str()) {
            return false;
        }
        if !Self::all_in(&self.summary, item.summary_short.as_str()) {
            return false;
        }
        let n = self.author.len();
        let mut i: usize = 0;
        while i < n
            invariant
                n == self.author@.len(),
                i <= n,
                forall|k: int| 0 <= k < i ==> in_authors(*item, (#[trigger] self.author@[k])@),
            decreases n - i,
        {
            if !in_authors_exec(item, self.author[i].as_str()) {
                return false;
            }
            i += 1;
        }
        let m = self.free.len();
        let mut j: usize = 0;
        while j < m
            invariant
                m == self.free@.len(),
                j <= m,
                forall|k: int|
                    0 <= k < j ==> ({
                        let t = (#[trigger] self.free@[k])@;
                        has_ci(item.title@, t) || has_ci(item.summary_short@, t) || in_authors(
                            *item,
                            t,
                        )
                    }),
            decreases m - j,
        {
            let t = self.free[j].as_str();
            if !(has_ci_exec(item.title.as_str(), t) || has_ci_exec(item.summary_short.as_str(), t)
                || in_authors_exec(item, t)) {
                return false;
            }
            j += 1;
        }
        true
    }
}

impl Default for Query {
    fn default() -> (q: Self)
        ensures
            q@ == empty_query(),
    {
        let q = Query {
            free: Vec::new(),
            title: Vec::new(),
            author: Vec::new(),
            summary: Vec::new(),
            category: Vec::new(),
            year: None,
        };
        assert(q@.free =~= Seq::<Seq<char>>::empty());
        assert(q@.title =~= Seq::<Seq<char>>::empty());
        assert(q@.author =~= Seq::<Seq<char>>::empty());
        assert(q@.summary =~= Seq::<Seq<char>>::empty());
        assert(q@.category =~= Seq::<Seq<char>>::empty());
        q
    }
}

// ── Laws ────────────────────────────────────────────────────────────────

proof fn lemma_first_colon_after_key(key: Seq<char>, v: Seq<char>)
    requires
        forall|i: int| 0 <= i < key.len() ==> key[i] != ':',
    ensures
        first_index_of(key + ":"@ + v, ':') == Some(key.len() as int),
{
    reveal_strlit(":");
    let t = key + ":"@ + v;
    let n = key.len() as int;
    assert(t[n] == ':');
    assert(0 <= n < t.len() && t[n] == ':');
    let k = choose|i: int| 0 <= i < t.len() && t[i] == ':' && forall|j: int| 0 <= j < i ==> t[j] != ':';
    assert(forall|j: int| 0 <= j < n ==> t[j] != ':') by {
        assert forall|j: int| 0 <= j < n implies t[j] != ':' by {
            assert(t[j] == key[j]);
        }
    }
    if k < n {
        assert(t[k] == key[k]);
    }
    if k > n {
        assert(t[n] == ':');
    }
}

proof fn lemma_field_token(key: Seq<char>, v: Seq<char>)
    requires
        forall|i: int| 0 <= i < key.len() ==> key[i] != ':',
    ensures
        first_index_of(key + ":"@ + v, ':') == Some(key.len() as int),
        token_key(key + ":"@ + v, key.len() as int) == key,
        token_value(key + ":"@ + v, key.len() as int) == trim(v),
{
    reveal_strlit(":");
    lemma_first_colon_after_key(key, v);
    let t = key + ":"@ + v;
    let n = key.len() as int;
    assert(token_key(t, n) =~= key);
    assert(t.skip(n + 1) =~= v);
}

proof fn lemma_prefix_split(prefix: Seq<char>, key: Seq<char>, v: Seq<char>)
    requires
        prefix == key + ":"@,
    ensures
        prefix + v == key + ":"@ + v,
{
    assert(prefix + v =~= key + ":"@ + v);
}

proof fn lemma_title_alias(q: QueryView, key: Seq<char>, v: Seq<char>)
    requires
        key == "ti"@ || key == "title"@,
        trim(v).len() > 0,
    ensures
        apply_token(q, key + ":"@ + v) == (QueryView { title: q.title.push(trim(v)), ..q }),
{
    reveal_strlit("ti");
    reveal_strlit("title");
    lemma_field_token(key, v);
}

proof fn lemma_abstract_alias(q: QueryView, key: Seq<char>, v: Seq<char>)
    requires
        key == "abs"@ || key == "abstract"@,
        trim(v).len() > 0,
    ensures
        apply_token(q, key + ":"@ + v) == (QueryView { summary: q.summary.push(trim(v)), ..q }),
{
    reveal_strlit("ti");
    reveal_strlit("title");
    reveal_strlit("abs");
    reveal_strlit("abstract");
    lemma_field_token(key, v);
}

proof fn lemma_author_alias(q: QueryView, key: Seq<char>, v: Seq<char>)
    requires
        key == "au"@ || key == "author"@,
        trim(v).len() > 0,
    ensures
        apply_token(q, key + ":"@ + v) == (QueryView { author: q.author.push(trim(v)), ..q }),
{
    reveal_strlit("ti");
    reveal_strlit("title");
    reveal_strlit("abs");
    reveal_strlit("abstract");
    reveal_strlit("au");
    reveal_strlit("author");
    assert(key != "ti"@ && key != "title"@ && key != "abs"@ && key != "abstract"@) by {
        if key == "au"@ {
            assert(key[0] != "ti"@[0]);
            assert(key.len() != "title"@.len() && key.len() != "abs"@.len() && key.len()
                != "abstract"@.len());
        } else {
            assert(key.len() != "ti"@.len() && key.len() != "title"@.len() && key.len()
                != "abs"@.len() && key.len() != "abstract"@.len());
        }
    }
    lemma_field_token(key, v);
}

proof fn lemma_category_alias(q: QueryView, key: Seq<char>, v: Seq<char>)
    requires
        key == "cat"@ || key == "category"@,
        trim(v).len() > 0,
    ensures
        apply_token(q, key + ":"@ + v) == (QueryView { category: q.category.push(trim(v)), ..q }),
{
    reveal_strlit("ti");
    reveal_strlit("title");
    reveal_strlit("abs");
    reveal_strlit("abstract");
    reveal_strlit("au");
    reveal_strlit("author");
    reveal_strlit("cat");
    reveal_strlit("category");
    assert(key != "ti"@ && key != "title"@ && key != "abs"@ && key != "abstract"@ && key != "au"@
        && key != "author"@) by {
        if key == "cat"@ {
            assert(key[0] != "abs"@[0]);
            assert(key.len() != "ti"@.len() && key.len() != "title"@.len() && key.len()
                != "abstract"@.len() && key.len() != "au"@.len() && key.len() != "author"@.len());
        } else {
            assert(key[0] != "abstract"@[0]);
            assert(key.len() != "ti"@.len() && key.len() != "title"@.len() && key.len()
                != "abs"@.len() && key.len() != "au"@.len() && key.len() != "author"@.len());
        }
    }
    lemma_field_token(key, v);
}

proof fn lemma_title_prefixes(q: QueryView, v: Seq<char>)
    requires
        trim(v).len() > 0,
    ensures
        apply_token(q, "title:"@ + v) == (QueryView { title: q.title.push(trim(v)), ..q }),
        apply_token(q, "ti:"@ + v) == (QueryView { title: q.title.push(trim(v)), ..q }),
{
    assert("title:"@ == "title"@ + ":"@) by {
        reveal_strlit("title:");
        reveal_strlit("title");
        reveal_strlit(":");
        assert("title:"@ =~= "title"@ + ":"@);
    }
    assert("ti:"@ == "ti"@ + ":"@) by {
        reveal_strlit("ti:");
        reveal_strlit("ti");
        reveal_strlit(":");
        assert("ti:"@ =~= "ti"@ + ":"@);
    }
    lemma_prefix_split("title:"@, "title"@, v);
    lemma_prefix_split("ti:"@, "ti"@, v);
    lemma_title_alias(q, "title"@, v);
    lemma_title_alias(q, "ti"@, v);
}

proof fn lemma_abstract_prefixes(q: QueryView, v: Seq<char>)
    requires
        trim(v).len() > 0,
    ensures
        apply_token(q, "abstract:"@ + v) == (QueryView { summary: q.summary.push(trim(v)), ..q }),
        apply_token(q, "abs:"@ + v) == (QueryView { summary: q.summary.push(trim(v)), ..q }),
{
    assert("abstract:"@ == "abstract"@ + ":"@) by {
        reveal_strlit("abstract:");
        reveal_strlit("abstract");
        reveal_strlit(":");
        assert("abstract:"@ =~= "abstract"@ + ":"@);
    }
    assert("abs:"@ == "abs"@ + ":"@) by {
        reveal_strlit("abs:");
        reveal_strlit("abs");
        reveal_strlit(":");
        assert("abs:"@ =~= "abs"@ + ":"@);
    }
    lemma_prefix_split("abstract:"@, "abstract"@, v);
    lemma_prefix_split("abs:"@, "abs"@, v);
    lemma_abstract_alias(q, "abstract"@, v);
    lemma_abstract_alias(q, "abs"@, v);
}

proof fn lemma_author_prefixes(q: QueryView, v: Seq<char>)
    requires
        trim(v).len() > 0,
    ensures
        apply_token(q, "author:"@ + v) == (QueryView { author: q.author.push(trim(v)), ..q }),
        apply_token(q, "au:"@ + v) == (QueryView { author: q.author.push(trim(v)), ..q }),
{
    assert("author:"@ == "author"@ + ":"@) by {
        reveal_strlit("author:");
        reveal_strlit("author");
        reveal_strlit(":");
        assert("author:"@ =~= "author"@ + ":"@);
    }
    assert("au:"@ == "au"@ + ":"@) by {
        reveal_strlit("au:");
        reveal_strlit("au");
        reveal_strlit(":");
        assert("au:"@ =~= "au"@ + ":"@);
    }
    lemma_prefix_split("author:"@, "author"@, v);
    lemma_prefix_split("au:"@, "au"@, v);
    lemma_author_alias(q, "author"@, v);
    lemma_author_alias(q, "au"@, v);
}

proof fn lemma_category_prefixes(q: QueryView, v: Seq<char>)
    requires
        trim(v).len() > 0,
    ensures
        apply_token(q, "category:"@ + v) == (QueryView { category: q.category.push(trim(v)), ..q }),
        apply_token(q, "cat:"@ + v) == (QueryView { category: q.category.push(trim(v)), ..q }),
{
    assert("category:"@ == "category"@ + ":"@) by {
        reveal_strlit("category:");
        reveal_strlit("category");
        reveal_strlit(":");
        assert("category:"@ =~= "category"@ + ":"@);
    }
    assert("cat:"@ == "cat"@ + ":"@) by {
        reveal_strlit("cat:");
        reveal_strlit("cat");
        reveal_strlit(":");
        assert("cat:"@ =~= "cat"@ + ":"@);
    }
    lemma_prefix_split("category:"@, "category"@, v);
    lemma_prefix_split("cat:"@, "cat"@, v);
    lemma_category_alias(q, "category"@, v);
    lemma_category_alias(q, "cat"@, v);
}

/// Law: the long and short field prefixes are aliases, and a field token
/// scopes its (trimmed, non-empty) value to that field and to nothing else:
/// `title:`/`ti:` append it to the title terms, `abstract:`/`abs:` to the
/// summary terms, `author:`/`au:` to the author terms, `category:`/`cat:`
/// to the categories; the free terms and every other part of the query
/// stay as they were.
pub proof fn lemma_field_prefixes_scope_terms(q: QueryView, v: Seq<char>)
    requires
        trim(v).len() > 0,
    ensures
        apply_token(q, "title:"@ + v) == (QueryView { title: q.title.push(trim(v)), ..q }),
        apply_token(q, "ti:"@ + v) == (QueryView { title: q.title.push(trim(v)), ..q }),
        apply_token(q, "abstract:"@ + v) == (QueryView { summary: q.summary.push(trim(v)), ..q }),
        apply_token(q, "abs:"@ + v) == (QueryView { summary: q.summary.push(trim(v)), ..q }),
        apply_token(q, "author:"@ + v) == (QueryView { author: q.author.push(trim(v)), ..q }),
        apply_token(q, "au:"@ + v) == (QueryView { author: q.author.push(trim(v)), ..q }),
        apply_token(q, "category:"@ + v) == (QueryView { category: q.category.push(trim(v)), ..q }),
        apply_token(q, "cat:"@ + v) == (QueryView { category: q.category.push(trim(v)), ..q }),
{
    lemma_title_prefixes(q, v);
    lemma_abstract_prefixes(q, v);
    lemma_author_prefixes(q, v);
    lemma_category_prefixes(q, v);
}

proof fn lemma_tok_state_plain(s: Seq<char>)
    requires
        forall|i: int| 0 <= i < s.len() ==> !is_ws(#[trigger] s[i]) && s[i] != '"',
    ensures
        tok_state(s) == (Seq::<Seq<char>>::empty(), s, false),
    decreases s.len(),
{
    if s.len() > 0 {
        let d = s.drop_last();
        assert forall|i: int| 0 <= i < d.len() implies !is_ws(#[trigger] d[i]) && d[i] != '"' by {
            assert(d[i] == s[i]);
        }
        lemma_tok_state_plain(d);
        assert(s[s.len() - 1] == s.last());
        assert(d.push(s.last()) =~= s);
    }
}

proof fn lemma_parse_plain_token(s: Seq<char>)
    requires
        s.len() > 0,
        forall|i: int| 0 <= i < s.len() ==> !is_ws(#[trigger] s[i]) && s[i] != '"',
    ensures
        parse_spec(s) == apply_token(empty_query(), s),
{
    lemma_tok_state_plain(s);
    let ts = seq![s];
    assert(tokenize_spec(s) == ts);
    assert(ts.drop_last() =~= Seq::<Seq<char>>::empty());
    assert(ts.last() == s);
    assert(parse_tokens(ts.drop_last()) == empty_query());
    assert(parse_tokens(ts) == apply_token(empty_query(), s));
}

proof fn lemma_trim_plain(v: Seq<char>)
    requires
        v.len() > 0,
        forall|i: int| 0 <= i < v.len() ==> !is_ws(#[trigger] v[i]),
    ensures
        trim(v) == v,
{
    assert(!is_ws(v[0]));
    assert(trim_start(v) == v);
    assert(!is_ws(v[v.len() - 1]));
    assert(trim_end(v) == v);
}

/// Law: a search bar holding just `title:` (or `ti:`) followed by a word
/// parses to a query whose only term is that word, as a title term.
pub proof fn lemma_parse_title_word(v: Seq<char>)
    requires
        v.len() > 0,
        forall|i: int| 0 <= i < v.len() ==> !is_ws(#[trigger] v[i]) && v[i] != '"',
    ensures
        parse_spec("title:"@ + v) == (QueryView { title: seq![v], ..empty_query() }),
        parse_spec("ti:"@ + v) == (QueryView { title: seq![v], ..empty_query() }),
{
    lemma_trim_plain(v);
    reveal_strlit("title:");
    reveal_strlit("ti:");
    let a = "title:"@ + v;
    let b = "ti:"@ + v;
    assert forall|i: int| 0 <= i < a.len() implies !is_ws(#[trigger] a[i]) && a[i] != '"' by {
        if i >= 6 {
            assert(a[i] == v[i - 6]);
        }
    }
    assert forall|i: int| 0 <= i < b.len() implies !is_ws(#[trigger] b[i]) && b[i] != '"' by {
        if i >= 3 {
            assert(b[i] == v[i - 3]);
        }
    }
    lemma_parse_plain_token(a);
    lemma_parse_plain_token(b);
    lemma_field_prefixes_scope_terms(empty_query(), v);
    assert(empty_query().title.push(v) =~= seq![v]);
}

/// Law: a search bar holding one plain word (no colon) parses to a query
/// whose only term is that word, as a free term.
pub proof fn lemma_parse_plain_word(w: Seq<char>)
    requires
        w.len() > 0,
        forall|i: int| 0 <= i < w.len() ==> !is_ws(#[trigger] w[i]) && w[i] != '"' && w[i] != ':',
    ensures
        parse_spec(w) == (QueryView { free: seq![w], ..empty_query() }),
{
    lemma_parse_plain_token(w);
    assert(!(exists|i: int| 0 <= i < w.len() && w[i] == ':'));
    assert(first_index_of(w, ':') is None);
    assert(empty_query().free.push(w) =~= seq![w]);
}

/// Law: for a query of free terms only (no field terms, categories or
/// year), an item matches exactly when every free term occurs, ignoring
/// case, in its title, in its summary, or in one of its authors.
pub proof fn lemma_free_terms_search_title_summary_and_authors(q: Query, item: FeedItem)
    requires
        q.title@.len() == 0,
        q.summary@.len() == 0,
        q.author@.len() == 0,
        q.category@.len() == 0,
        q.year is None,
    ensures
        q.matches_substring_spec(item) <==> forall|i: int|
            0 <= i < q.free@.len() ==> ({
                let t = str_lowercase((#[trigger] q.free@[i])@);
                ||| contains_seq(str_lowercase(item.title@), t)
                ||| contains_seq(str_lowercase(item.summary_short@), t)
                ||| exists|a: int|
                    0 <= a < item.authors@.len() && contains_seq(
                        str_lowercase((#[trigger] item.authors@[a])@),
                        t,
                    )
            }),
{
    assert(q.passes_gates_spec(item));
}

/// Some author name of `item` contains `needle`, both lowercased.
pub open spec fn some_author_contains(item: FeedItem, needle: Seq<char>) -> bool {
    exists|a: int|
        0 <= a < item.authors@.len() && contains_seq(
            str_lowercase((#[trigger] item.authors@[a])@),
            str_lowercase(needle),
        )
}

proof fn lemma_author_lookup(item: FeedItem, needle: Seq<char>)
    ensures
        in_authors(item, needle) == some_author_contains(item, needle),
{
    if in_authors(item, needle) {
        let a = choose|a: int| 0 <= a < item.authors@.len() && has_ci(#[trigger] item.authors@[a]@, needle);
        assert(contains_seq(str_lowercase(item.authors@[a]@), str_lowercase(needle)));
    }
    if some_author_contains(item, needle) {
        let a = choose|a: int|
            0 <= a < item.authors@.len() && contains_seq(
                str_lowercase((#[trigger] item.authors@[a])@),
                str_lowercase(needle),
            );
        assert(has_ci(item.authors@[a]@, needle));
    }
}

/// Law: without category or year gates, an item matches exactly when every
/// title term occurs in its title, every abstract term in its summary,
/// every author term in one of its authors, and every free term in its
/// title, its summary or one of its authors — each ignoring case.
pub proof fn lemma_field_terms_search_their_fields(q: Query, item: FeedItem)
    requires
        q.category@.len() == 0,
        q.year is None,
    ensures
        q.matches_substring_spec(item) <==> {
            &&& forall|i: int|
                0 <= i < q.title@.len() ==> contains_seq(
                    str_lowercase(item.title@),
                    str_lowercase((#[trigger] q.title@[i])@),
                )
            &&& forall|i: int|
                0 <= i < q.summary@.len() ==> contains_seq(
                    str_lowercase(item.summary_short@),
                    str_lowercase((#[trigger] q.summary@[i])@),
                )
            &&& forall|i: int|
                0 <= i < q.author@.len() ==> some_author_contains(item, (#[trigger] q.author@[i])@)
            &&& forall|i: int|
                0 <= i < q.free@.len() ==> ({
                    let t = (#[trigger] q.free@[i])@;
                    ||| contains_seq(str_lowercase(item.title@), str_lowercase(t))
                    ||| contains_seq(str_lowercase(item.summary_short@), str_lowercase(t))
                    ||| some_author_contains(item, t)
                })
        },
{
    assert(q.passes_gates_spec(item));
    assert forall|i: int| 0 <= i < q.author@.len() implies in_authors(item, (#[trigger] q.author@[i])@)
        == some_author_contains(item, q.author@[i]@) by {
        lemma_author_lookup(item, q.author@[i]@);
    }
    assert forall|i: int| 0 <= i < q.free@.len() implies in_authors(item, (#[trigger] q.free@[i])@)
        == some_author_contains(item, q.free@[i]@) by {
        lemma_author_lookup(item, q.free@[i]@);
    }
}

} // verus!
