//! The Sources popup of the settings view: a URL input that detects a new
//! source (an arXiv category or an RSS feed) and the rows below it — the
//! arXiv categories, the predefined sources and the custom feeds — with
//! keys to move, toggle and delete.

use vstd::prelude::*;

use crate::collections::StrMap;
use crate::feed_keys::FeedKey;
use crate::registry::{enabled, Config, CustomFeed};
use crate::state::simple::DiscoverResult;
use crate::text::{pop_char, push_char, str_eq, to_owned_string, views};

verus! {

/// Where source detection stands.
pub enum SourcesDetect {
    Idle,
    Detecting,
    Result(DiscoverResult),
}

/// The popup's own state.
pub struct SourcesPopupState {
    /// The highlighted row: 0 is the input, then the arXiv categories, the
    /// predefined sources and the custom feeds.
    pub cursor: usize,
    pub input: String,
    /// The input has the keys.
    pub input_active: bool,
    pub detect: SourcesDetect,
}

/// What the caller does after a key.
pub enum PopupEffect {
    Nothing,
    /// Start detecting a source at this URL.
    StartDetection(String),
    /// Save the settings.
    Saved,
    /// Save the settings and refresh the feeds.
    SavedAndRefresh,
    /// A predefined source was switched: save, recompute the visible list
    /// and refresh.
    SourceToggled,
    /// Close the popup back to the settings view.
    CloseToSettings,
}

/// `v` without any occurrence of `x`.
pub open spec fn without_str(v: Seq<Seq<char>>, x: Seq<char>) -> Seq<Seq<char>>
    decreases v.len(),
{
    if v.len() == 0 {
        v
    } else {
        let prev = without_str(v.drop_last(), x);
        if v.last() == x {
            prev
        } else {
            prev.push(v.last())
        }
    }
}

/// Some custom feed has this URL.
pub open spec fn has_feed_url(feeds: Seq<CustomFeed>, url: Seq<char>) -> bool {
    exists|i: int| 0 <= i < feeds.len() && (#[trigger] feeds[i]).url@ == url
}

/// `c1` is `c0` with the arXiv categories made `cats`.
pub open spec fn with_categories(c0: Config, c1: Config, cats: Seq<Seq<char>>) -> bool {
    &&& views(c1.sources.arxiv_categories@) == cats
    &&& c1.sources.enabled_sources == c0.sources.enabled_sources
    &&& c1.sources.custom_feeds == c0.sources.custom_feeds
    &&& c1.core_api_key == c0.core_api_key
    &&& c1.semantic_scholar_key == c0.semantic_scholar_key
}

/// `c1` is `c0` with the custom feeds made `feeds`.
pub open spec fn with_feeds(c0: Config, c1: Config, feeds: Seq<CustomFeed>) -> bool {
    &&& c1.sources.custom_feeds@ == feeds
    &&& c1.sources.enabled_sources == c0.sources.enabled_sources
    &&& c1.sources.arxiv_categories == c0.sources.arxiv_categories
    &&& c1.core_api_key == c0.core_api_key
    &&& c1.semantic_scholar_key == c0.semantic_scholar_key
}

/// `p1` is `p0` with cursor, input, input focus and detection given.
pub open spec fn popup_is(
    p1: SourcesPopupState,
    cursor: usize,
    input: Seq<char>,
    active: bool,
    idle: bool,
    p0: SourcesPopupState,
) -> bool {
    &&& p1.cursor == cursor
    &&& p1.input@ == input
    &&& p1.input_active == active
    &&& if idle { p1.detect is Idle } else { p1.detect == p0.detect }
}

/// The key step while the input has the keys.
pub open spec fn input_step(
    p0: SourcesPopupState,
    c0: Config,
    p1: SourcesPopupState,
    c1: Config,
    key: FeedKey,
    e: PopupEffect,
) -> bool {
    let empty = Seq::<char>::empty();
    if key == FeedKey::Esc {
        popup_is(p1, p0.cursor, empty, false, true, p0) && c1 == c0 && e is Nothing
    } else if key == FeedKey::Enter {
        match p0.detect {
            SourcesDetect::Idle => if p0.input@.len() > 0 {
                p1.detect is Detecting && p1.cursor == p0.cursor && p1.input@ == p0.input@
                    && p1.input_active == p0.input_active && c1 == c0 && (e matches PopupEffect::StartDetection(
                    u,
                ) && u@ == p0.input@)
            } else {
                p1 == p0 && c1 == c0 && e is Nothing
            },
            SourcesDetect::Detecting => p1 == p0 && c1 == c0 && e is Nothing,
            SourcesDetect::Result(r) => {
                &&& popup_is(p1, p0.cursor, empty, false, true, p0)
                &&& match r {
                    DiscoverResult::ArxivCategory(code) => {
                        let cats = views(c0.sources.arxiv_categories@);
                        if cats.contains(code@) {
                            c1 == c0 && e is Nothing
                        } else {
                            with_categories(c0, c1, cats.push(code@)) && e is SavedAndRefresh
                        }
                    },
                    DiscoverResult::RssFeed { url, name } => {
                        if has_feed_url(c0.sources.custom_feeds@, url@) {
                            c1 == c0 && e is Nothing
                        } else {
                            c1.sources.custom_feeds@.len() == c0.sources.custom_feeds@.len() + 1
                                && c1.sources.custom_feeds@.drop_last() == c0.sources.custom_feeds@
                                && c1.sources.custom_feeds@.last().url@ == url@
                                && c1.sources.custom_feeds@.last().name@ == name@ && with_feeds(
                                c0,
                                c1,
                                c1.sources.custom_feeds@,
                            ) && e is SavedAndRefresh
                        }
                    },
                    _ => c1 == c0 && e is Nothing,
                }
            },
        }
    } else if key == FeedKey::Backspace {
        popup_is(
            p1,
            p0.cursor,
            if p0.input@.len() > 0 {
                p0.input@.drop_last()
            } else {
                p0.input@
            },
            p0.input_active,
            true,
            p0,
        ) && c1 == c0 && e is Nothing
    } else if key is Char {
        popup_is(p1, p0.cursor, p0.input@.push(key->Char_0), p0.input_active, true, p0) && c1 == c0
            && e is Nothing
    } else {
        p1 == p0 && c1 == c0 && e is Nothing
    }
}

/// The key step while the rows have the keys; `cats` and `predefined` are
/// the category and predefined-source rows.
pub open spec fn rows_step(
    p0: SourcesPopupState,
    c0: Config,
    p1: SourcesPopupState,
    c1: Config,
    key: FeedKey,
    cats: Seq<Seq<char>>,
    predefined: Seq<Seq<char>>,
    e: PopupEffect,
) -> bool {
    let c = p0.cursor as int;
    let nc = cats.len() as int;
    let ns = predefined.len() as int;
    let nf = c0.sources.custom_feeds@.len() as int;
    let total = 1 + nc + ns + nf;
    let same_rows = p1.input_active == p0.input_active && p1.input@ == p0.input@ && p1.detect
        == p0.detect;
    if key == FeedKey::Esc || key == FeedKey::Char('q') {
        popup_is(p1, 0, Seq::empty(), p0.input_active, true, p0) && c1 == c0 && e is CloseToSettings
    } else if key == FeedKey::Char('j') || key == FeedKey::Down {
        same_rows && p1.cursor == (if c + 1 < total - 1 { c + 1 } else { total - 1 }) && c1 == c0
            && e is Nothing
    } else if key == FeedKey::Char('k') || key == FeedKey::Up {
        same_rows && p1.cursor == (if c > 0 { c - 1 } else { 0 }) && c1 == c0 && e is Nothing
    } else if key == FeedKey::Enter || key == FeedKey::Char('/') {
        (if c == 0 {
            popup_is(p1, p0.cursor, p0.input@, true, false, p0)
        } else {
            p1 == p0
        }) && c1 == c0 && e is Nothing
    } else if key == FeedKey::Char(' ') {
        if c == 0 {
            popup_is(p1, p0.cursor, p0.input@, true, false, p0) && c1 == c0 && e is Nothing
        } else if c <= nc {
            let code = cats[c - 1];
            let have = views(c0.sources.arxiv_categories@);
            p1 == p0 && with_categories(
                c0,
                c1,
                if have.contains(code) {
                    without_str(have, code)
                } else {
                    have.push(code)
                },
            ) && e is SavedAndRefresh
        } else if c <= nc + ns {
            let src = predefined[c - nc - 1];
            p1 == p0 && c1.sources.enabled_sources.wf() && c1.sources.enabled_sources@
                == c0.sources.enabled_sources@.insert(src, !enabled(c0.sources.enabled_sources@, src))
                && c1.sources.arxiv_categories == c0.sources.arxiv_categories
                && c1.sources.custom_feeds == c0.sources.custom_feeds && c1.core_api_key
                == c0.core_api_key && c1.semantic_scholar_key == c0.semantic_scholar_key
                && e is SourceToggled
        } else {
            p1 == p0 && c1 == c0 && e is Nothing
        }
    } else if key == FeedKey::Char('d') {
        let start = 1 + nc + ns;
        if start <= c < start + nf {
            same_rows && p1.cursor == c - 1 && with_feeds(
                c0,
                c1,
                c0.sources.custom_feeds@.remove(c - start),
            ) && e is Saved
        } else {
            p1 == p0 && c1 == c0 && e is Nothing
        }
    } else {
        p1 == p0 && c1 == c0 && e is Nothing
    }
}

fn contains_string(v: &Vec<String>, x: &str) -> (r: bool)
    ensures
        r == views(v@).contains(x@),
{
    let mut i: usize = 0;
    while i < v.len()
        invariant
            i <= v@.len(),
            forall|j: int| 0 <= j < i ==> v@[j]@ != x@,
        decreases v@.len() - i,
    {
        if str_eq(v[i].as_str(), x) {
            assert(views(v@)[i as int] == x@);
            return true;
        }
        i += 1;
    }
    assert forall|j: int| 0 <= j < views(v@).len() implies views(v@)[j] != x@ by {
        assert(views(v@)[j] == v@[j]@);
    }
    false
}

fn has_feed(feeds: &Vec<CustomFeed>, url: &str) -> (r: bool)
    ensures
        r == has_feed_url(feeds@, url@),
{
    let mut i: usize = 0;
    while i < feeds.len()
        invariant
            i <= feeds@.len(),
            forall|j: int| 0 <= j < i ==> feeds@[j].url@ != url@,
        decreases feeds@.len() - i,
    {
        if str_eq(feeds[i].url.as_str(), url) {
            return true;
        }
        i += 1;
    }
    false
}

fn remove_string(v: &mut Vec<String>, x: &str)
    ensures
        views(final(v)@) == without_str(views(old(v)@), x@),
{
    let mut src: Vec<String> = Vec::new();
    std::mem::swap(&mut src, v);
    let ghost orig = views(src@);
    let n = src.len();
    let mut k: usize = 0;
    assert(orig.take(0) =~= Seq::<Seq<char>>::empty());
    assert(views(v@) =~= Seq::<Seq<char>>::empty());
    while k < n
        invariant
            n == orig.len(),
            k <= n,
            src@.len() == n - k,
            forall|j: int| 0 <= j < n - k ==> (#[trigger] src@[j])@ == orig[k + j],
            views(v@) == without_str(orig.take(k as int), x@),
        decreases n - k,
    {
        let s = src.remove(0);
        proof {
            assert(s@ == orig[k as int]);
            assert(orig.take(k + 1).drop_last() =~= orig.take(k as int));
            assert(orig.take(k + 1).last() == s@);
        }
        if !str_eq(s.as_str(), x) {
            let ghost before = views(v@);
            v.push(s);
            assert(views(v@) =~= before.push(views(v@).last()));
        }
        k += 1;
    }
    assert(orig.take(n as int) == orig);
}

fn clear_input(p: &mut SourcesPopupState)
    ensures
        final(p).input@ == Seq::<char>::empty(),
        final(p).cursor == old(p).cursor,
        final(p).input_active == old(p).input_active,
        final(p).detect == old(p).detect,
{
    p.input = String::new();
    assert(p.input@ =~= Seq::<char>::empty());
}

/// The key step while the input has the keys (see [`input_step`]).
fn input_key(p: &mut SourcesPopupState, config: &mut Config, key: FeedKey) -> (e: PopupEffect)
    requires
        old(config).sources.enabled_sources.wf(),
    ensures
        final(config).sources.enabled_sources.wf(),
        input_step(*old(p), *old(config), *final(p), *final(config), key, e),
{
    if key == FeedKey::Esc {
        p.input_active = false;
        p.detect = SourcesDetect::Idle;
        clear_input(p);
        return PopupEffect::Nothing;
    }
    if key == FeedKey::Enter {
        let mut start = false;
        let mut answered = false;
        let mut e = PopupEffect::Nothing;
        match &p.detect {
            SourcesDetect::Idle => {
                start = !p.input.as_str().is_empty();
            },
            SourcesDetect::Detecting => {},
            SourcesDetect::Result(r) => {
                answered = true;
                match r {
                    DiscoverResult::ArxivCategory(code) => {
                        if !contains_string(&config.sources.arxiv_categories, code.as_str()) {
                            let ghost before = views(config.sources.arxiv_categories@);
                            config.sources.arxiv_categories.push(to_owned_string(code.as_str()));
                            assert(views(config.sources.arxiv_categories@) =~= before.push(code@));
                            e = PopupEffect::SavedAndRefresh;
                        }
                    },
                    DiscoverResult::RssFeed { url, name } => {
                        if !has_feed(&config.sources.custom_feeds, url.as_str()) {
                            let ghost before = config.sources.custom_feeds@;
                            config.sources.custom_feeds.push(
                                CustomFeed {
                                    name: to_owned_string(name.as_str()),
                                    url: to_owned_string(url.as_str()),
                                },
                            );
                            assert(config.sources.custom_feeds@.drop_last() =~= before);
                            e = PopupEffect::SavedAndRefresh;
                        }
                    },
                    _ => {},
                }
            },
        }
        if start {
            p.detect = SourcesDetect::Detecting;
            return PopupEffect::StartDetection(to_owned_string(p.input.as_str()));
        }
        if answered {
            clear_input(p);
            p.detect = SourcesDetect::Idle;
            p.input_active = false;
        }
        return e;
    }
    if key == FeedKey::Backspace {
        let _ = pop_char(&mut p.input);
        p.detect = SourcesDetect::Idle;
        return PopupEffect::Nothing;
    }
    match key {
        FeedKey::Char(c) => {
            push_char(&mut p.input, c);
            p.detect = SourcesDetect::Idle;
        },
        _ => {},
    }
    PopupEffect::Nothing
}

/// A key of the Sources popup (the settings view shows it). `cats` are the
/// arXiv category rows (known categories, then configured ones not among
/// them) and `predefined` the predefined-source rows; the custom-feed rows
/// follow them. See [`input_step`] and [`rows_step`].
pub fn sources_popup_key(
    p: &mut SourcesPopupState,
    config: &mut Config,
    key: FeedKey,
    cats: &[String],
    predefined: &[String],
) -> (e: PopupEffect)
    requires
        old(config).sources.enabled_sources.wf(),
        1 + cats@.len() + predefined@.len() + old(config).sources.custom_feeds@.len() <= usize::MAX,
    ensures
        final(config).sources.enabled_sources.wf(),
        old(p).input_active ==> input_step(*old(p), *old(config), *final(p), *final(config), key, e),
        !old(p).input_active ==> rows_step(
            *old(p),
            *old(config),
            *final(p),
            *final(config),
            key,
            views(cats@),
            views(predefined@),
            e,
        ),
{
    if p.input_active {
        return input_key(p, config, key);
    }
    let c = p.cursor;
    let nc = cats.len();
    let ns = predefined.len();
    let nf = config.sources.custom_feeds.len();
    let total = 1 + nc + ns + nf;
    if key == FeedKey::Esc || key == FeedKey::Char('q') {
        p.cursor = 0;
        clear_input(p);
        p.detect = SourcesDetect::Idle;
        return PopupEffect::CloseToSettings;
    }
    if key == FeedKey::Char('j') || key == FeedKey::Down {
        p.cursor = if c < total - 1 {
            c + 1
        } else {
            total - 1
        };
        return PopupEffect::Nothing;
    }
    if key == FeedKey::Char('k') || key == FeedKey::Up {
        p.cursor = if c > 0 {
            c - 1
        } else {
            0
        };
        return PopupEffect::Nothing;
    }
    if key == FeedKey::Enter || key == FeedKey::Char('/') {
        if c == 0 {
            p.input_active = true;
        }
        return PopupEffect::Nothing;
    }
    if key == FeedKey::Char(' ') {
        if c == 0 {
            p.input_active = true;
            return PopupEffect::Nothing;
        } else if c <= nc {
            let code = cats[c - 1].as_str();
            assert(views(cats@)[c - 1] == code@);
            if contains_string(&config.sources.arxiv_categories, code) {
                remove_string(&mut config.sources.arxiv_categories, code);
            } else {
                let ghost before = views(config.sources.arxiv_categories@);
                config.sources.arxiv_categories.push(to_owned_string(code));
                assert(views(config.sources.arxiv_categories@) =~= before.push(code@));
            }
            return PopupEffect::SavedAndRefresh;
        } else if c <= nc + ns {
            let src = predefined[c - nc - 1].as_str();
            assert(views(predefined@)[c - nc - 1] == src@);
            let cur = match config.sources.enabled_sources.get(src) {
                Some(v) => *v,
                None => true,
            };
            config.sources.enabled_sources.insert(to_owned_string(src), !cur);
            return PopupEffect::SourceToggled;
        }
        return PopupEffect::Nothing;
    }
    if key == FeedKey::Char('d') {
        let start = 1 + nc + ns;
        if c >= start && c < start + nf {
            config.sources.custom_feeds.remove(c - start);
            p.cursor = c - 1;
            return PopupEffect::Saved;
        }
        return PopupEffect::Nothing;
    }
    PopupEffect::Nothing
}

} // verus!
