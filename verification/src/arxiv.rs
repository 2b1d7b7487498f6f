//! arXiv export API: the request-spacing policy, the query URLs the
//! fetches send, and arXiv-id normalisation.
//!
//! arXiv's terms of use ask API clients to make no more than one request
//! every three seconds; every live request is spaced by
//! [`arxiv_wait_for`].

use vstd::prelude::*;

use crate::text::{
    chars_of, decimal, decimal_string, has_prefix, is_ascii_alnum, is_ascii_digit, join_strings,
    join_with, percent_escape, push_char, push_percent_escape, slice_chars, split_whitespace,
    split_ws, starts_with_chars, string_of, trim, trim_chars, views,
};
use vstd::utf8::encode_utf8;

verus! {

/// Minimum spacing between two arXiv requests, in nanoseconds (three
/// seconds).
pub const ARXIV_MIN_REQUEST_INTERVAL_NANOS: u128 = 3_000_000_000;

/// How long a caller must wait, in nanoseconds, given the time elapsed
/// since the previous arXiv request (`None`: no prior request).
pub open spec fn wait_spec(elapsed: Option<u128>) -> u128 {
    match elapsed {
        Some(e) => if e < ARXIV_MIN_REQUEST_INTERVAL_NANOS {
            (ARXIV_MIN_REQUEST_INTERVAL_NANOS - e) as u128
        } else {
            0
        },
        None => 0,
    }
}

/// How long a caller must wait before the next arXiv request: the rest of
/// the interval since the previous one, never negative, and nothing for
/// the first request.
pub fn arxiv_wait_for(elapsed_since_last_nanos: Option<u128>) -> (r: u128)
    ensures
        r == wait_spec(elapsed_since_last_nanos),
        r <= ARXIV_MIN_REQUEST_INTERVAL_NANOS,
        elapsed_since_last_nanos matches Some(e) ==> e + r >= ARXIV_MIN_REQUEST_INTERVAL_NANOS,
{
    match elapsed_since_last_nanos {
        Some(e) => if e < ARXIV_MIN_REQUEST_INTERVAL_NANOS {
            ARXIV_MIN_REQUEST_INTERVAL_NANOS - e
        } else {
            0
        },
        None => 0,
    }
}

/// Bulk-refresh source for the arXiv export Atom API.
pub struct ArxivSource {
    pub categories: Vec<String>,
}

// ── Query URLs ──────────────────────────────────────────────────────────

/// The `search_query` value of a category fetch: `cat:X` terms joined by
/// `+OR+`, or the ML default set when no category is given.
pub open spec fn category_query(cats: Seq<String>) -> Seq<char> {
    if cats.len() == 0 {
        "cat:cs.LG+OR+cat:cs.AI+OR+cat:stat.ML"@
    } else {
        join_with(cats.map_values(|c: String| "cat:"@ + c@), "+OR+"@)
    }
}

/// The URL of a most-recent-first page of `max_results` papers from arXiv
/// offset `start` in `cats`.
pub open spec fn fetch_page_url_spec(cats: Seq<String>, start: nat, max_results: nat) -> Seq<char> {
    "https://export.arxiv.org/api/query?search_query="@ + category_query(cats)
        + "&sortBy=submittedDate&sortOrder=descending&start="@ + decimal(start) + "&max_results="@
        + decimal(max_results)
}

/// The URL of a paginated category fetch.
pub fn fetch_page_url(categories: &[String], start: usize, max_results: usize) -> (r: String)
    ensures
        r@ == fetch_page_url_spec(categories@, start as nat, max_results as nat),
{
    let mut out = String::new();
    out.append("https://export.arxiv.org/api/query?search_query=");
    if categories.len() == 0 {
        out.append("cat:cs.LG+OR+cat:cs.AI+OR+cat:stat.ML");
    } else {
        let mut terms: Vec<String> = Vec::new();
        let n = categories.len();
        let mut i: usize = 0;
        while i < n
            invariant
                n == categories@.len(),
                i <= n,
                views(terms@) == categories@.take(i as int).map_values(|c: String| "cat:"@ + c@),
            decreases n - i,
        {
            let mut t = String::new();
            t.append("cat:");
            t.append(categories[i].as_str());
            let ghost before = terms@;
            terms.push(t);
            proof {
                assert(views(terms@) =~= views(before).push("cat:"@ + categories@[i as int]@));
                assert(categories@.take(i + 1).map_values(|c: String| "cat:"@ + c@) =~= categories@.take(
                    i as int,
                ).map_values(|c: String| "cat:"@ + c@).push("cat:"@ + categories@[i as int]@));
            }
            i += 1;
        }
        assert(categories@.take(n as int) == categories@);
        let q = join_strings(&terms, "+OR+");
        out.append(q.as_str());
    }
    out.append("&sortBy=submittedDate&sortOrder=descending&start=");
    out.append(decimal_string(start).as_str());
    out.append("&max_results=");
    out.append(decimal_string(max_results).as_str());
    out
}

/// The URL of the bulk fetch: the 50 most recent papers in `categories`.
pub fn fetch_url(categories: &[String]) -> (r: String)
    ensures
        r@ == fetch_page_url_spec(categories@, 0, 50),
{
    fetch_page_url(categories, 0, 50)
}

/// A byte that stands for itself in a query value (ASCII alphanumeric or
/// one of `-_.~`).
pub open spec fn unreserved(b: u8) -> bool {
    is_ascii_alnum(b as char) || b == 45 || b == 95 || b == 46 || b == 126
}

/// Percent-encoding of a byte string: unreserved bytes as themselves,
/// every other byte as `%XX`.
pub open spec fn percent_encode_spec(bytes: Seq<u8>) -> Seq<char>
    decreases bytes.len(),
{
    if bytes.len() == 0 {
        Seq::empty()
    } else {
        let b = bytes.last();
        percent_encode_spec(bytes.drop_last()) + if unreserved(b) {
            seq![b as char]
        } else {
            percent_escape(b)
        }
    }
}

/// Percent-encode the UTF-8 bytes of one query word.
pub fn percent_encode_query_part(part: &str) -> (r: String)
    ensures
        r@ == percent_encode_spec(encode_utf8(part@)),
{
    let bytes = part.as_bytes();
    let mut out = String::new();
    let n = bytes.len();
    let mut i: usize = 0;
    assert(bytes@.take(0) =~= Seq::<u8>::empty());
    while i < n
        invariant
            n == bytes@.len(),
            bytes@ == encode_utf8(part@),
            i <= n,
            out@ == percent_encode_spec(bytes@.take(i as int)),
        decreases n - i,
    {
        let b = bytes[i];
        let c = b as char;
        proof {
            assert(bytes@.take(i + 1).drop_last() == bytes@.take(i as int));
            assert(bytes@.take(i + 1).last() == b);
        }
        if ('0' <= c && c <= '9') || ('A' <= c && c <= 'Z') || ('a' <= c && c <= 'z') || c == '-'
            || c == '_' || c == '.' || c == '~' {
            push_char(&mut out, c);
        } else {
            push_percent_escape(&mut out, b);
        }
        i += 1;
    }
    assert(bytes@.take(n as int) == bytes@);
    out
}

/// `all:` search value: the whitespace-separated words, each
/// percent-encoded, joined by `+AND+`.
pub open spec fn encode_query_spec(query: Seq<char>) -> Seq<char> {
    join_with(
        split_ws(query).map_values(|w: Seq<char>| percent_encode_spec(encode_utf8(w))),
        "+AND+"@,
    )
}

/// Encode a free-text query for the `search_query=all:` parameter.
pub fn encode_arxiv_query(query: &str) -> (r: String)
    ensures
        r@ == encode_query_spec(query@),
{
    let words = split_whitespace(query);
    let mut parts: Vec<String> = Vec::new();
    let n = words.len();
    let mut i: usize = 0;
    while i < n
        invariant
            n == words@.len(),
            i <= n,
            views(parts@) == views(words@).take(i as int).map_values(
                |w: Seq<char>| percent_encode_spec(encode_utf8(w)),
            ),
        decreases n - i,
    {
        let p = percent_encode_query_part(words[i].as_str());
        let ghost before = parts@;
        parts.push(p);
        proof {
            assert(views(parts@) =~= views(before).push(p@));
            assert(views(words@).take(i + 1).map_values(
                |w: Seq<char>| percent_encode_spec(encode_utf8(w)),
            ) =~= views(words@).take(i as int).map_values(
                |w: Seq<char>| percent_encode_spec(encode_utf8(w)),
            ).push(percent_encode_spec(encode_utf8(words@[i as int]@))));
        }
        i += 1;
    }
    assert(views(words@).take(n as int) == views(words@));
    join_strings(&parts, "+AND+")
}

/// The relevance-sorted free-text search URL (at most 100 results).
pub open spec fn search_query_url_spec(query: Seq<char>, max_results: nat) -> Seq<char> {
    "https://export.arxiv.org/api/query?search_query=all:"@ + encode_query_spec(query)
        + "&sortBy=relevance&sortOrder=descending&max_results="@ + decimal(
        if max_results <= 100 {
            max_results
        } else {
            100
        },
    )
}

/// The URL of a relevance-sorted free-text search across arXiv.
pub fn search_query_url(query: &str, max_results: usize) -> (r: String)
    ensures
        r@ == search_query_url_spec(query@, max_results as nat),
{
    let encoded = encode_arxiv_query(query);
    let capped = if max_results <= 100 { max_results } else { 100 };
    let mut out = String::new();
    out.append("https://export.arxiv.org/api/query?search_query=all:");
    out.append(encoded.as_str());
    out.append("&sortBy=relevance&sortOrder=descending&max_results=");
    out.append(decimal_string(capped).as_str());
    out
}

/// `s` with every double quote replaced by a space.
pub open spec fn unquote(s: Seq<char>) -> Seq<char> {
    s.map_values(|c: char| if c == '"' { ' ' } else { c })
}

/// The phrase search value of a title lookup: `all:"…"` around the
/// query's words (the user's own quotes dropped), or `None` for a blank
/// query, which sends no request.
pub open spec fn search_phrase_spec(query: Seq<char>) -> Option<Seq<char>> {
    let q = trim(query);
    if q.len() == 0 {
        None
    } else {
        Some("all:\""@ + join_with(split_ws(unquote(q)), " "@) + "\""@)
    }
}

/// The `search_query` value of a phrase (title) search.
pub fn fetch_search_phrase(query: &str) -> (r: Option<String>)
    ensures
        match r {
            Some(s) => search_phrase_spec(query@) == Some(s@),
            None => search_phrase_spec(query@) is None,
        },
{
    let t = trim_chars(&chars_of(query));
    if t.len() == 0 {
        return None;
    }
    let mut cleaned: Vec<char> = Vec::new();
    let mut i: usize = 0;
    while i < t.len()
        invariant
            i <= t@.len(),
            cleaned@ == unquote(t@.take(i as int)),
        decreases t@.len() - i,
    {
        let c = t[i];
        cleaned.push(if c == '"' { ' ' } else { c });
        assert(unquote(t@.take(i + 1)) =~= unquote(t@.take(i as int)).push(
            if c == '"' { ' ' } else { c },
        ));
        i += 1;
    }
    assert(t@.take(t@.len() as int) == t@);
    let cs = string_of(&cleaned);
    let words = split_whitespace(cs.as_str());
    let joined = join_strings(&words, " ");
    let mut out = String::new();
    out.append("all:\"");
    out.append(joined.as_str());
    out.append("\"");
    Some(out)
}

/// Bytes a form-urlencoded query value keeps as themselves.
pub open spec fn form_unreserved(b: u8) -> bool {
    is_ascii_alnum(b as char) || b == 42 || b == 45 || b == 46 || b == 95
}

/// `application/x-www-form-urlencoded` encoding of a byte string, as a URL
/// builder writes a query pair's value: kept bytes as themselves, a space
/// as `+`, every other byte as `%XX`.
pub open spec fn form_encode_spec(bytes: Seq<u8>) -> Seq<char>
    decreases bytes.len(),
{
    if bytes.len() == 0 {
        Seq::empty()
    } else {
        let b = bytes.last();
        form_encode_spec(bytes.drop_last()) + if form_unreserved(b) {
            seq![b as char]
        } else if b == 32 {
            seq!['+']
        } else {
            percent_escape(b)
        }
    }
}

/// Form-urlencode the UTF-8 bytes of `value`.
pub fn form_encode(value: &str) -> (r: String)
    ensures
        r@ == form_encode_spec(encode_utf8(value@)),
{
    let bytes = value.as_bytes();
    let mut out = String::new();
    let n = bytes.len();
    let mut i: usize = 0;
    assert(bytes@.take(0) =~= Seq::<u8>::empty());
    while i < n
        invariant
            n == bytes@.len(),
            bytes@ == encode_utf8(value@),
            i <= n,
            out@ == form_encode_spec(bytes@.take(i as int)),
        decreases n - i,
    {
        let b = bytes[i];
        let c = b as char;
        proof {
            assert(bytes@.take(i + 1).drop_last() == bytes@.take(i as int));
            assert(bytes@.take(i + 1).last() == b);
        }
        if ('0' <= c && c <= '9') || ('A' <= c && c <= 'Z') || ('a' <= c && c <= 'z') || c == '*'
            || c == '-' || c == '.' || c == '_' {
            push_char(&mut out, c);
        } else if b == 32 {
            push_char(&mut out, '+');
        } else {
            push_percent_escape(&mut out, b);
        }
        i += 1;
    }
    assert(bytes@.take(n as int) == bytes@);
    out
}

/// The request of a title lookup: a GET on the arXiv query endpoint with
/// the phrase of [`search_phrase_spec`] as `search_query`, sorted by
/// relevance, at most 50 results; `None` for a blank query, which sends
/// no request (the lookup is then empty).
pub open spec fn fetch_search_url_spec(query: Seq<char>) -> Option<Seq<char>> {
    match search_phrase_spec(query) {
        None => None,
        Some(p) => Some(
            "https://export.arxiv.org/api/query?search_query="@ + form_encode_spec(encode_utf8(p))
                + "&sortBy=relevance&max_results=50"@,
        ),
    }
}

/// The URL a title lookup fetches (see [`fetch_search_url_spec`]); the
/// response body is read with `atom::parse_atom`.
pub fn fetch_search_url(query: &str) -> (r: Option<String>)
    ensures
        match r {
            Some(u) => fetch_search_url_spec(query@) == Some(u@),
            None => fetch_search_url_spec(query@) is None,
        },
{
    match fetch_search_phrase(query) {
        None => None,
        Some(p) => {
            let enc = form_encode(p.as_str());
            let mut out = String::new();
            out.append("https://export.arxiv.org/api/query?search_query=");
            out.append(enc.as_str());
            out.append("&sortBy=relevance&max_results=50");
            Some(out)
        },
    }
}

// ── arXiv ids ───────────────────────────────────────────────────────────

/// `id` with the first of the abstract-page prefixes it starts with
/// removed.
pub open spec fn strip_abs_prefix(id: Seq<char>) -> Seq<char> {
    if has_prefix(id, "https://arxiv.org/abs/"@) {
        id.skip("https://arxiv.org/abs/"@.len() as int)
    } else if has_prefix(id, "http://arxiv.org/abs/"@) {
        id.skip("http://arxiv.org/abs/"@.len() as int)
    } else if has_prefix(id, "arxiv.org/abs/"@) {
        id.skip("arxiv.org/abs/"@.len() as int)
    } else {
        id
    }
}

/// First position at or after `i` of a `?` or `#`.
pub open spec fn query_start_from(s: Seq<char>, i: int) -> Option<int>
    decreases s.len() - i,
{
    if i < 0 || i >= s.len() {
        None
    } else if s[i] == '?' || s[i] == '#' {
        Some(i)
    } else {
        query_start_from(s, i + 1)
    }
}

/// `s` up to its first `?` or `#`.
pub open spec fn cut_query(s: Seq<char>) -> Seq<char> {
    match query_start_from(s, 0) {
        Some(k) => s.take(k),
        None => s,
    }
}

/// Position of the last `c` in `s`.
pub open spec fn last_index_of(s: Seq<char>, c: char) -> Option<int>
    decreases s.len(),
{
    if s.len() == 0 {
        None
    } else if s.last() == c {
        Some(s.len() - 1)
    } else {
        last_index_of(s.drop_last(), c)
    }
}

/// `s` without a trailing version suffix `v<digits>`.
pub open spec fn strip_version(s: Seq<char>) -> Seq<char> {
    match last_index_of(s, 'v') {
        Some(p) => {
            let ver = s.skip(p + 1);
            if ver.len() > 0 && (forall|i: int| 0 <= i < ver.len() ==> is_ascii_digit(#[trigger] ver[i])) {
                s.take(p)
            } else {
                s
            }
        },
        None => s,
    }
}

/// An arXiv id: contains a dot, and only ASCII alphanumerics, dots and
/// dashes.
pub open spec fn valid_arxiv_id(s: Seq<char>) -> bool {
    &&& exists|i: int| 0 <= i < s.len() && s[i] == '.'
    &&& forall|i: int| 0 <= i < s.len() ==> ({
        let c = #[trigger] s[i];
        is_ascii_alnum(c) || c == '.' || c == '-'
    })
}

/// The canonical arXiv id a user-supplied value denotes.
pub open spec fn normalize_spec(value: Seq<char>) -> Option<Seq<char>> {
    let id = strip_version(cut_query(strip_abs_prefix(trim(value))));
    if valid_arxiv_id(id) {
        Some(id)
    } else {
        None
    }
}

fn strip_abs_prefix_exec(id: &Vec<char>) -> (r: Vec<char>)
    ensures
        r@ == strip_abs_prefix(id@),
{
    let p1 = chars_of("https://arxiv.org/abs/");
    let p2 = chars_of("http://arxiv.org/abs/");
    let p3 = chars_of("arxiv.org/abs/");
    if starts_with_chars(id, &p1) {
        slice_chars(id, p1.len(), id.len())
    } else if starts_with_chars(id, &p2) {
        slice_chars(id, p2.len(), id.len())
    } else if starts_with_chars(id, &p3) {
        slice_chars(id, p3.len(), id.len())
    } else {
        slice_chars(id, 0, id.len())
    }
}

fn cut_query_exec(s: &Vec<char>) -> (r: Vec<char>)
    ensures
        r@ == cut_query(s@),
{
    let mut i: usize = 0;
    while i < s.len() && s[i] != '?' && s[i] != '#'
        invariant
            i <= s@.len(),
            query_start_from(s@, 0) == query_start_from(s@, i as int),
        decreases s@.len() - i,
    {
        i += 1;
    }
    slice_chars(s, 0, i)
}

fn strip_version_exec(s: &Vec<char>) -> (r: Vec<char>)
    ensures
        r@ == strip_version(s@),
{
    // Find the last `v`.
    let mut j: usize = s.len();
    assert(s@.take(j as int) == s@);
    while j > 0 && s[j - 1] != 'v'
        invariant
            j <= s@.len(),
            last_index_of(s@, 'v') == last_index_of(s@.take(j as int), 'v'),
        decreases j,
    {
        assert(s@.take(j as int).drop_last() == s@.take(j - 1));
        j -= 1;
    }
    if j == 0 {
        assert(s@.take(0).len() == 0);
        return slice_chars(s, 0, s.len());
    }
    let p = j - 1;
    assert(last_index_of(s@, 'v') == Some(p as int));
    let mut k: usize = p + 1;
    let mut all = true;
    while k < s.len()
        invariant
            p + 1 <= k <= s@.len(),
            all == (forall|i: int| p + 1 <= i < k ==> is_ascii_digit(#[trigger] s@[i])),
        decreases s@.len() - k,
    {
        if !('0' <= s[k] && s[k] <= '9') {
            all = false;
        }
        k += 1;
    }
    let ghost ver = s@.skip(p + 1);
    assert(all == (forall|i: int| 0 <= i < ver.len() ==> is_ascii_digit(#[trigger] ver[i]))) by {
        if all {
            assert forall|i: int| 0 <= i < ver.len() implies is_ascii_digit(#[trigger] ver[i]) by {
                assert(ver[i] == s@[p + 1 + i]);
            }
        } else {
            let w = choose|i: int| p + 1 <= i < s@.len() && !is_ascii_digit(#[trigger] s@[i]);
            assert(ver[w - p - 1] == s@[w]);
        }
    }
    if p + 1 < s.len() && all {
        slice_chars(s, 0, p)
    } else {
        slice_chars(s, 0, s.len())
    }
}

fn valid_arxiv_id_exec(s: &Vec<char>) -> (r: bool)
    ensures
        r == valid_arxiv_id(s@),
{
    let mut has_dot = false;
    let mut i: usize = 0;
    while i < s.len()
        invariant
            i <= s@.len(),
            has_dot == exists|k: int| 0 <= k < i && s@[k] == '.',
            forall|k: int| 0 <= k < i ==> ({
                let c = #[trigger] s@[k];
                is_ascii_alnum(c) || c == '.' || c == '-'
            }),
        decreases s@.len() - i,
    {
        let c = s[i];
        if !(('0' <= c && c <= '9') || ('A' <= c && c <= 'Z') || ('a' <= c && c <= 'z') || c == '.'
            || c == '-') {
            return false;
        }
        if c == '.' {
            has_dot = true;
        }
        i += 1;
    }
    has_dot
}

/// The canonical arXiv id in `value` (a bare id, an abstract URL with or
/// without scheme, a version suffix or query string), or `None` when
/// what remains is not an arXiv id.
pub fn normalize_arxiv_id(value: &str) -> (r: Option<String>)
    ensures
        match r {
            Some(s) => normalize_spec(value@) == Some(s@),
            None => normalize_spec(value@) is None,
        },
{
    let t = trim_chars(&chars_of(value));
    let a = strip_abs_prefix_exec(&t);
    let b = cut_query_exec(&a);
    let c = strip_version_exec(&b);
    if valid_arxiv_id_exec(&c) {
        Some(string_of(&c))
    } else {
        None
    }
}

/// The normalised ids of `ids`, dropping the ones that are not arXiv ids.
pub open spec fn normalized_ids(ids: Seq<String>) -> Seq<Seq<char>>
    decreases ids.len(),
{
    if ids.len() == 0 {
        Seq::empty()
    } else {
        match normalize_spec(ids.last()@) {
            Some(x) => normalized_ids(ids.drop_last()).push(x),
            None => normalized_ids(ids.drop_last()),
        }
    }
}

/// The URL fetching `ids` (at most 100 results), or `None` when none of
/// them is an arXiv id, which sends no request.
pub open spec fn fetch_by_ids_url_spec(ids: Seq<String>) -> Option<Seq<char>> {
    let ns = normalized_ids(ids);
    if ns.len() == 0 {
        None
    } else {
        Some(
            "https://export.arxiv.org/api/query?id_list="@ + join_with(ns, ","@) + "&max_results="@
                + decimal(
                if ns.len() <= 100 {
                    ns.len()
                } else {
                    100
                },
            ),
        )
    }
}

/// The URL of a fetch by arXiv id list.
pub fn fetch_by_ids_url(ids: &[String]) -> (r: Option<String>)
    ensures
        match r {
            Some(s) => fetch_by_ids_url_spec(ids@) == Some(s@),
            None => fetch_by_ids_url_spec(ids@) is None,
        },
{
    let mut normalized: Vec<String> = Vec::new();
    let n = ids.len();
    let mut i: usize = 0;
    while i < n
        invariant
            n == ids@.len(),
            i <= n,
            views(normalized@) == normalized_ids(ids@.take(i as int)),
        decreases n - i,
    {
        proof {
            assert(ids@.take(i + 1).drop_last() == ids@.take(i as int));
            assert(ids@.take(i + 1).last() == ids@[i as int]);
        }
        match normalize_arxiv_id(ids[i].as_str()) {
            Some(x) => {
                let ghost before = normalized@;
                normalized.push(x);
                assert(views(normalized@) =~= views(before).push(x@));
            },
            None => {},
        }
        i += 1;
    }
    assert(ids@.take(n as int) == ids@);
    if normalized.len() == 0 {
        return None;
    }
    let count = normalized.len();
    let capped = if count <= 100 { count } else { 100 };
    let mut out = String::new();
    out.append("https://export.arxiv.org/api/query?id_list=");
    out.append(join_strings(&normalized, ",").as_str());
    out.append("&max_results=");
    out.append(decimal_string(capped).as_str());
    Some(out)
}

} // verus!
