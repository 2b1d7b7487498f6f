//! Which sources and enrichments one refresh runs, decided from the
//! settings: enabled-source flags (a source is on unless switched off),
//! API-key presence, and the user's custom feeds.

use vstd::prelude::*;

use crate::collections::StrMap;
use crate::models::{ContentType, SourcePlatform};
use crate::text::{chars_of, to_owned_string, trim, trim_chars, views};

verus! {

/// A user-added RSS feed.
pub struct CustomFeed {
    pub name: String,
    pub url: String,
}

/// Source settings.
pub struct SourcesConfig {
    /// Per-source on/off switches; a source absent here is on.
    pub enabled_sources: StrMap<bool>,
    pub arxiv_categories: Vec<String>,
    pub custom_feeds: Vec<CustomFeed>,
}

/// The settings the registry reads.
pub struct Config {
    pub sources: SourcesConfig,
    pub core_api_key: Option<String>,
    pub semantic_scholar_key: Option<String>,
}

/// A source to fetch in a refresh.
pub enum SourceKind {
    Arxiv { categories: Vec<String> },
    HuggingFace,
    OpenReview,
    Core,
    Rss { source_name: String, feed_url: String, platform: SourcePlatform, content_type: ContentType },
}

/// Abstract [`SourceKind`].
pub enum SourceSpec {
    Arxiv(Seq<Seq<char>>),
    HuggingFace,
    OpenReview,
    Core,
    Rss(Seq<char>, Seq<char>, SourcePlatform, ContentType),
}

impl View for SourceKind {
    type V = SourceSpec;

    open spec fn view(&self) -> SourceSpec {
        match self {
            SourceKind::Arxiv { categories } => SourceSpec::Arxiv(views(categories@)),
            SourceKind::HuggingFace => SourceSpec::HuggingFace,
            SourceKind::OpenReview => SourceSpec::OpenReview,
            SourceKind::Core => SourceSpec::Core,
            SourceKind::Rss { source_name, feed_url, platform, content_type } => SourceSpec::Rss(
                source_name@,
                feed_url@,
                *platform,
                *content_type,
            ),
        }
    }
}

/// An enrichment pass run after the fetch, in order.
#[derive(Clone, Copy, Debug, PartialEq, Eq, Structural)]
pub enum EnrichmentKind {
    SemanticScholar,
    HuggingFaceRepo,
}

/// A source is on unless its switch says otherwise.
pub open spec fn enabled(switches: Map<Seq<char>, bool>, name: Seq<char>) -> bool {
    if switches.dom().contains(name) {
        switches[name]
    } else {
        true
    }
}

/// The built-in RSS feeds: name, URL, platform, content type.
pub open spec fn builtin_rss() -> Seq<(Seq<char>, Seq<char>, SourcePlatform, ContentType)> {
    seq![
        ("openai"@, "https://openai.com/blog/rss.xml"@, SourcePlatform::Blog, ContentType::Article),
        (
            "deepmind"@,
            "https://deepmind.google/blog/rss.xml"@,
            SourcePlatform::Blog,
            ContentType::Article,
        ),
        (
            "import_ai"@,
            "https://importai.substack.com/feed"@,
            SourcePlatform::Newsletter,
            ContentType::Digest,
        ),
        ("bair"@, "https://bair.berkeley.edu/blog/feed.xml"@, SourcePlatform::Blog, ContentType::Article),
        (
            "mit_news_ai"@,
            "https://news.mit.edu/rss/topic/machine-learning"@,
            SourcePlatform::Blog,
            ContentType::Article,
        ),
    ]
}

/// The feeds of `feeds` that are switched on, as sources.
pub open spec fn enabled_rss(
    switches: Map<Seq<char>, bool>,
    feeds: Seq<(Seq<char>, Seq<char>, SourcePlatform, ContentType)>,
) -> Seq<SourceSpec>
    decreases feeds.len(),
{
    if feeds.len() == 0 {
        Seq::empty()
    } else {
        let prev = enabled_rss(switches, feeds.drop_last());
        let f = feeds.last();
        if enabled(switches, f.0) {
            prev.push(SourceSpec::Rss(f.0, f.1, f.2, f.3))
        } else {
            prev
        }
    }
}

/// The custom feeds that are switched on, as RSS article sources.
pub open spec fn custom_rss(switches: Map<Seq<char>, bool>, feeds: Seq<CustomFeed>) -> Seq<SourceSpec>
    decreases feeds.len(),
{
    if feeds.len() == 0 {
        Seq::empty()
    } else {
        let prev = custom_rss(switches, feeds.drop_last());
        let f = feeds.last();
        if enabled(switches, f.name@) {
            prev.push(SourceSpec::Rss(f.name@, f.url@, SourcePlatform::Rss, ContentType::Article))
        } else {
            prev
        }
    }
}

/// The sources of one refresh: arXiv always; HuggingFace and OpenReview
/// unless switched off; CORE when on and a key is configured; the
/// built-in RSS feeds that are on; then the custom feeds that are on. A
/// source switched off is left out.
pub open spec fn build_sources_spec(config: Config) -> Seq<SourceSpec> {
    let sw = config.sources.enabled_sources@;
    seq![SourceSpec::Arxiv(views(config.sources.arxiv_categories@))] + (if enabled(
        sw,
        "huggingface"@,
    ) {
        seq![SourceSpec::HuggingFace]
    } else {
        Seq::empty()
    }) + (if enabled(sw, "openreview"@) {
        seq![SourceSpec::OpenReview]
    } else {
        Seq::empty()
    }) + (if enabled(sw, "core"@) && config.core_api_key is Some {
        seq![SourceSpec::Core]
    } else {
        Seq::empty()
    }) + enabled_rss(sw, builtin_rss()) + custom_rss(sw, config.sources.custom_feeds@)
}

/// The views of a sequence of sources.
pub open spec fn source_views(v: Seq<SourceKind>) -> Seq<SourceSpec> {
    v.map_values(|s: SourceKind| s@)
}

fn is_enabled(config: &Config, name: &str) -> (r: bool)
    requires
        config.sources.enabled_sources.wf(),
    ensures
        r == enabled(config.sources.enabled_sources@, name@),
{
    match config.sources.enabled_sources.get(name) {
        Some(v) => *v,
        None => true,
    }
}

fn copy_strings(v: &Vec<String>) -> (r: Vec<String>)
    ensures
        views(r@) == views(v@),
{
    let mut out: Vec<String> = Vec::new();
    let mut i: usize = 0;
    while i < v.len()
        invariant
            i <= v@.len(),
            views(out@) == views(v@.take(i as int)),
        decreases v@.len() - i,
    {
        let ghost before = out@;
        out.push(to_owned_string(v[i].as_str()));
        assert(views(out@) =~= views(before).push(v@[i as int]@));
        assert(views(v@.take(i + 1)) =~= views(v@.take(i as int)).push(v@[i as int]@));
        i += 1;
    }
    assert(v@.take(v@.len() as int) == v@);
    out
}

fn push_source(out: &mut Vec<SourceKind>, s: SourceKind)
    ensures
        source_views(final(out)@) == source_views(old(out)@).push(s@),
{
    let ghost before = out@;
    out.push(s);
    assert(source_views(out@) =~= source_views(before).push(s@));
}

/// Build the source list of one refresh.
pub fn build_sources(config: &Config) -> (r: Vec<SourceKind>)
    requires
        config.sources.enabled_sources.wf(),
    ensures
        source_views(r@) == build_sources_spec(*config),
{
    let sw = Ghost(config.sources.enabled_sources@);
    let mut sources: Vec<SourceKind> = Vec::new();
    push_source(
        &mut sources,
        SourceKind::Arxiv { categories: copy_strings(&config.sources.arxiv_categories) },
    );
    if is_enabled(config, "huggingface") {
        push_source(&mut sources, SourceKind::HuggingFace);
    }
    if is_enabled(config, "openreview") {
        push_source(&mut sources, SourceKind::OpenReview);
    }
    if is_enabled(config, "core") && config.core_api_key.is_some() {
        push_source(&mut sources, SourceKind::Core);
    }
    let ghost head = source_views(sources@);
    let names = ["openai", "deepmind", "import_ai", "bair", "mit_news_ai"];
    let urls = [
        "https://openai.com/blog/rss.xml",
        "https://deepmind.google/blog/rss.xml",
        "https://importai.substack.com/feed",
        "https://bair.berkeley.edu/blog/feed.xml",
        "https://news.mit.edu/rss/topic/machine-learning",
    ];
    let platforms = [
        SourcePlatform::Blog,
        SourcePlatform::Blog,
        SourcePlatform::Newsletter,
        SourcePlatform::Blog,
        SourcePlatform::Blog,
    ];
    let kinds = [
        ContentType::Article,
        ContentType::Article,
        ContentType::Digest,
        ContentType::Article,
        ContentType::Article,
    ];
    let ghost table = builtin_rss();
    assert(table.len() == 5);
    assert(forall|k: int|
        0 <= k < 5 ==> (#[trigger] table[k]) == (names@[k]@, urls@[k]@, platforms@[k], kinds@[k]));
    let mut i: usize = 0;
    while i < 5
        invariant
            i <= 5,
            config.sources.enabled_sources.wf(),
            sw@ == config.sources.enabled_sources@,
            table == builtin_rss(),
            table.len() == 5,
            names@.len() == 5 && urls@.len() == 5 && platforms@.len() == 5 && kinds@.len() == 5,
            forall|k: int|
                0 <= k < 5 ==> (#[trigger] table[k]) == (
                    names@[k]@,
                    urls@[k]@,
                    platforms@[k],
                    kinds@[k],
                ),
            source_views(sources@) == head + enabled_rss(sw@, table.take(i as int)),
        decreases 5 - i,
    {
        proof {
            assert(table.take(i + 1).drop_last() == table.take(i as int));
            assert(table.take(i + 1).last() == table[i as int]);
        }
        if is_enabled(config, names[i]) {
            push_source(
                &mut sources,
                SourceKind::Rss {
                    source_name: to_owned_string(names[i]),
                    feed_url: to_owned_string(urls[i]),
                    platform: platforms[i],
                    content_type: kinds[i],
                },
            );
        }
        i += 1;
    }
    assert(table.take(5) == table);
    let ghost mid = source_views(sources@);
    let feeds = &config.sources.custom_feeds;
    let mut j: usize = 0;
    while j < feeds.len()
        invariant
            j <= feeds@.len(),
            config.sources.enabled_sources.wf(),
            sw@ == config.sources.enabled_sources@,
            feeds == &config.sources.custom_feeds,
            source_views(sources@) == mid + custom_rss(sw@, feeds@.take(j as int)),
        decreases feeds@.len() - j,
    {
        let f = &feeds[j];
        proof {
            assert(feeds@.take(j + 1).drop_last() == feeds@.take(j as int));
            assert(feeds@.take(j + 1).last() == feeds@[j as int]);
        }
        if is_enabled(config, f.name.as_str()) {
            push_source(
                &mut sources,
                SourceKind::Rss {
                    source_name: to_owned_string(f.name.as_str()),
                    feed_url: to_owned_string(f.url.as_str()),
                    platform: SourcePlatform::Rss,
                    content_type: ContentType::Article,
                },
            );
        }
        j += 1;
    }
    assert(feeds@.take(feeds@.len() as int) == feeds@);
    sources
}

/// The enrichment passes of one refresh: Semantic Scholar first when a
/// non-blank key is configured, then HuggingFace repo enrichment.
pub open spec fn build_enrichments_spec(config: Config) -> Seq<EnrichmentKind> {
    let s2 = match config.semantic_scholar_key {
        Some(k) => trim(k@).len() > 0,
        None => false,
    };
    (if s2 {
        seq![EnrichmentKind::SemanticScholar]
    } else {
        Seq::empty()
    }) + seq![EnrichmentKind::HuggingFaceRepo]
}

/// Build the enrichment list of one refresh, in run order.
pub fn build_enrichments(config: &Config) -> (r: Vec<EnrichmentKind>)
    ensures
        r@ == build_enrichments_spec(*config),
{
    let mut out: Vec<EnrichmentKind> = Vec::new();
    let s2 = match &config.semantic_scholar_key {
        Some(k) => trim_chars(&chars_of(k.as_str())).len() > 0,
        None => false,
    };
    if s2 {
        out.push(EnrichmentKind::SemanticScholar);
    }
    out.push(EnrichmentKind::HuggingFaceRepo);
    assert(out@ =~= build_enrichments_spec(*config));
    out
}

} // verus!
