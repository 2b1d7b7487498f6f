//! Small policies shared by the event loop and the panes: the URL-scheme
//! allowlist, notification truncation, the loading-spinner source list,
//! download-name validation, repo-path encoding and set toggling.

use vstd::prelude::*;

use crate::collections::StrSet;
use crate::text::{
    ascii_lower, ascii_lower_chars, ascii_lower_seq, chars_of, has_prefix, percent_escape, push_char,
    push_percent_escape, starts_with_chars, to_owned_string,
};
use vstd::utf8::encode_utf8;

verus! {

// ── URL scheme allowlist ─────────────────────────────────────────────────

/// `url` starts with `https://` or `http://`, in any letter case.
pub open spec fn safe_url_scheme(url: Seq<char>) -> bool {
    has_prefix(ascii_lower_seq(url), "https://"@) || has_prefix(ascii_lower_seq(url), "http://"@)
}

/// Allowlist for URL schemes handed to the OS opener: only http(s), in any
/// letter case (schemes are case-insensitive).
pub fn is_safe_url_scheme(url: &str) -> (r: bool)
    ensures
        r == safe_url_scheme(url@),
{
    let lower = ascii_lower_chars(url);
    starts_with_chars(&lower, &chars_of("https://")) || starts_with_chars(&lower, &chars_of("http://"))
}

// ── Notification truncation ─────────────────────────────────────────────

/// The first `max` characters of `s`, followed by an ellipsis when at
/// least two characters were cut (a single trailing character is dropped
/// without one).
pub open spec fn truncate_spec(s: Seq<char>, max: nat) -> Seq<char> {
    if s.len() <= max {
        s
    } else if s.len() == max + 1 {
        s.take(max as int)
    } else {
        s.take(max as int).push('…')
    }
}

/// Truncate a notification text to `max` characters.
pub fn truncate_for_notif(s: &str, max: usize) -> (r: String)
    ensures
        r@ == truncate_spec(s@, max as nat),
{
    let v = chars_of(s);
    let mut out = String::new();
    let mut n: usize = 0;
    while n < v.len() && n < max
        invariant
            n <= v@.len(),
            n <= max,
            out@ == v@.take(n as int),
        decreases v@.len() - n,
    {
        push_char(&mut out, v[n]);
        assert(v@.take(n + 1) == v@.take(n as int).push(v@[n as int]));
        n += 1;
    }
    if n == v.len() {
        assert(v@.take(n as int) == v@);
    } else if v.len() - n >= 2 {
        push_char(&mut out, '…');
    }
    out
}

// ── Loading spinner ──────────────────────────────────────────────────────

/// Built-in sources that report progress on every fetch cycle.
pub open spec fn builtin_loading_sources() -> Seq<Seq<char>> {
    seq![
        "arxiv"@,
        "huggingface"@,
        "openreview"@,
        "core"@,
        "openai"@,
        "deepmind"@,
        "import_ai"@,
        "bair"@,
        "mit_news_ai"@,
        "enriching"@,
    ]
}

/// The loading-spinner list: the built-in sources, then each custom feed
/// by name.
pub fn build_loading_sources(custom_feed_names: &[String]) -> (r: Vec<String>)
    ensures
        r@.map_values(|s: String| s@) == builtin_loading_sources() + custom_feed_names@.map_values(
            |s: String| s@,
        ),
{
    let mut out: Vec<String> = Vec::new();
    out.push(to_owned_string("arxiv"));
    out.push(to_owned_string("huggingface"));
    out.push(to_owned_string("openreview"));
    out.push(to_owned_string("core"));
    out.push(to_owned_string("openai"));
    out.push(to_owned_string("deepmind"));
    out.push(to_owned_string("import_ai"));
    out.push(to_owned_string("bair"));
    out.push(to_owned_string("mit_news_ai"));
    out.push(to_owned_string("enriching"));
    assert(out@.map_values(|s: String| s@) =~= builtin_loading_sources());
    let n = custom_feed_names.len();
    let mut i: usize = 0;
    while i < n
        invariant
            n == custom_feed_names@.len(),
            i <= n,
            out@.map_values(|s: String| s@) == builtin_loading_sources()
                + custom_feed_names@.take(i as int).map_values(|s: String| s@),
        decreases n - i,
    {
        let name = to_owned_string(custom_feed_names[i].as_str());
        let ghost before = out@;
        out.push(name);
        proof {
            assert(out@.map_values(|s: String| s@) =~= before.map_values(|s: String| s@).push(
                custom_feed_names@[i as int]@,
            ));
            assert(custom_feed_names@.take(i + 1).map_values(|s: String| s@) =~= custom_feed_names@.take(
                i as int,
            ).map_values(|s: String| s@).push(custom_feed_names@[i as int]@));
        }
        i += 1;
    }
    assert(custom_feed_names@.take(n as int) == custom_feed_names@);
    out
}

// ── Download names ───────────────────────────────────────────────────────

/// What `format!("{:?}", s)` prints for a string: the quoted, escaped form.
pub uninterp spec fn str_debug(s: Seq<char>) -> Seq<char>;

/// Wrapper of `<str as Debug>::fmt`, collected into a `String`.
#[verifier::external_body]
fn debug_quoted(s: &str) -> (r: String)
    ensures
        r@ == str_debug(s@),
{
    format!("{s:?}")
}

/// Why a download name was refused.
pub open spec fn download_name_error(name: Seq<char>) -> Option<Seq<char>> {
    if name.len() > 0 && name[0] == '/' {
        Some("absolute path not allowed: "@ + str_debug(name))
    } else if name.len() > 0 && name[0] == '.' {
        Some("leading dot in filename not allowed: "@ + str_debug(name))
    } else if name.len() == 0 || exists|i: int| 0 <= i < name.len() && name[i] == '/' {
        Some("path separator or traversal segment: "@ + str_debug(name))
    } else {
        None
    }
}

/// Accept a filename only when it stays inside the download directory: a
/// single path component, not absolute, not hidden (no leading dot), no
/// separator or traversal segment.
pub fn validate_download_name(name: &str) -> (r: Result<(), String>)
    ensures
        match r {
            Ok(()) => download_name_error(name@) is None,
            Err(e) => download_name_error(name@) == Some(e@),
        },
{
    let v = chars_of(name);
    if v.len() > 0 && v[0] == '/' {
        let mut e = to_owned_string("absolute path not allowed: ");
        e.append(debug_quoted(name).as_str());
        return Err(e);
    }
    if v.len() > 0 && v[0] == '.' {
        let mut e = to_owned_string("leading dot in filename not allowed: ");
        e.append(debug_quoted(name).as_str());
        return Err(e);
    }
    let mut i: usize = 0;
    while i < v.len() && v[i] != '/'
        invariant
            i <= v@.len(),
            forall|k: int| 0 <= k < i ==> v@[k] != '/',
        decreases v@.len() - i,
    {
        i += 1;
    }
    if v.len() == 0 || i < v.len() {
        let mut e = to_owned_string("path separator or traversal segment: ");
        e.append(debug_quoted(name).as_str());
        return Err(e);
    }
    Ok(())
}

// ── Repo URL paths ───────────────────────────────────────────────────────

/// A byte kept as itself in a repo URL path (ASCII alphanumeric or one of
/// `-_.~/`).
pub open spec fn path_safe(b: u8) -> bool {
    (48 <= b <= 57) || (65 <= b <= 90) || (97 <= b <= 122) || b == 45 || b == 95 || b == 46 || b
        == 126 || b == 47
}

/// Percent-encoding of a repo path's bytes, keeping the path-safe ones.
pub open spec fn repo_path_encode_spec(bytes: Seq<u8>) -> Seq<char>
    decreases bytes.len(),
{
    if bytes.len() == 0 {
        Seq::empty()
    } else {
        let b = bytes.last();
        repo_path_encode_spec(bytes.drop_last()) + if path_safe(b) {
            seq![b as char]
        } else {
            percent_escape(b)
        }
    }
}

/// Percent-encode a repository file path for a URL, keeping `/`.
pub fn encode_repo_url_path(path: &str) -> (r: String)
    ensures
        r@ == repo_path_encode_spec(encode_utf8(path@)),
{
    let bytes = path.as_bytes();
    let mut out = String::new();
    let n = bytes.len();
    let mut i: usize = 0;
    assert(bytes@.take(0) =~= Seq::<u8>::empty());
    while i < n
        invariant
            n == bytes@.len(),
            bytes@ == encode_utf8(path@),
            i <= n,
            out@ == repo_path_encode_spec(bytes@.take(i as int)),
        decreases n - i,
    {
        let b = bytes[i];
        proof {
            assert(bytes@.take(i + 1).drop_last() == bytes@.take(i as int));
            assert(bytes@.take(i + 1).last() == b);
        }
        if (48 <= b && b <= 57) || (65 <= b && b <= 90) || (97 <= b && b <= 122) || b == 45 || b
            == 95 || b == 46 || b == 126 || b == 47 {
            push_char(&mut out, b as char);
        } else {
            push_percent_escape(&mut out, b);
        }
        i += 1;
    }
    assert(bytes@.take(n as int) == bytes@);
    out
}

// ── Set toggling ─────────────────────────────────────────────────────────

/// `set` with `value` flipped: removed when present, added when absent.
pub open spec fn toggled(set: Set<Seq<char>>, value: Seq<char>) -> Set<Seq<char>> {
    if set.contains(value) {
        set.remove(value)
    } else {
        set.insert(value)
    }
}

/// Flip membership of `value` in `set`.
pub fn toggle_set(set: &mut StrSet, value: String)
    requires
        old(set).wf(),
    ensures
        final(set).wf(),
        final(set)@ == toggled(old(set)@, value@),
{
    if set.contains(value.as_str()) {
        set.remove(value.as_str());
    } else {
        set.insert(value);
    }
}

/// Law: toggling the same value twice leaves the set as it was.
pub proof fn lemma_toggle_twice(set: Set<Seq<char>>, value: Seq<char>)
    ensures
        toggled(toggled(set, value), value) == set,
{
    if set.contains(value) {
        assert(set.remove(value).insert(value) =~= set);
    } else {
        assert(set.insert(value).remove(value) =~= set);
    }
}

/// Law: the scheme allowlist ignores letter case — a URL passes exactly
/// when its ASCII-lowered form passes.
pub proof fn lemma_url_scheme_case_insensitive(url: Seq<char>)
    ensures
        safe_url_scheme(url) == safe_url_scheme(ascii_lower_seq(url)),
{
    let l = ascii_lower_seq(url);
    assert forall|i: int| 0 <= i < l.len() implies #[trigger] ascii_lower(l[i]) == l[i] by {
        let c = url[i];
        if 'A' <= c && c <= 'Z' {
            assert((c as u32) + 32 == ((((c as u8) + 32) as u8) as char) as u32);
        }
    }
    assert(ascii_lower_seq(l) =~= l);
}

/// Law: a name the validator accepts is a single plain path component —
/// not empty, not absolute, not hidden, without any separator.
pub proof fn lemma_accepted_download_name_is_plain(name: Seq<char>)
    requires
        download_name_error(name) is None,
    ensures
        name.len() > 0,
        name[0] != '.',
        forall|i: int| 0 <= i < name.len() ==> name[i] != '/',
{
}

/// Law: a truncated notification is never longer than the limit plus the
/// ellipsis, and starts with the text's first characters.
pub proof fn lemma_truncate_bounded(s: Seq<char>, max: nat)
    ensures
        truncate_spec(s, max).len() <= max + 1,
        truncate_spec(s, max).len() <= s.len(),
        truncate_spec(s, max).take(
            if s.len() <= max {
                s.len() as int
            } else {
                max as int
            },
        ) == s.take(
            if s.len() <= max {
                s.len() as int
            } else {
                max as int
            },
        ),
{
}

} // verus!
