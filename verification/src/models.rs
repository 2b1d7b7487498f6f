//! Feed item model: the record every source produces and every pane reads.

use vstd::prelude::*;

use crate::collections::SmallKey;
use crate::text::{chars_of, has_prefix, starts_with_chars, views};

verus! {

/// Where an item was published.
#[derive(Clone, Copy, Debug, PartialEq, Eq, Hash, Structural)]
pub enum SourcePlatform {
    ArXiv,
    HuggingFace,
    Blog,
    OpenReview,
    Rss,
    Newsletter,
    Twitter,
}

/// What kind of document an item is.
#[derive(Clone, Copy, Debug, PartialEq, Eq, Hash, Structural)]
pub enum ContentType {
    Paper,
    Thread,
    Article,
    Repo,
    Digest,
}

/// Signal tier used for highlighting.
#[derive(Clone, Copy, Debug, PartialEq, Eq, Hash, Structural)]
pub enum SignalLevel {
    Primary,
    Secondary,
    Tertiary,
}

/// Reading-workflow state of an item.
#[derive(Clone, Copy, Debug, PartialEq, Eq, Hash, Structural)]
pub enum WorkflowState {
    Inbox,
    Queued,
    DeepRead,
    Archived,
}

impl SourcePlatform {
    /// Short label used when an item carries no explicit source name.
    pub open spec fn short_label_spec(self) -> &'static str {
        match self {
            SourcePlatform::ArXiv => "arxiv",
            SourcePlatform::HuggingFace => "hf",
            SourcePlatform::Blog => "blog",
            SourcePlatform::OpenReview => "openreview",
            SourcePlatform::Rss => "rss",
            SourcePlatform::Newsletter => "newsletter",
            SourcePlatform::Twitter => "twitter",
        }
    }

    #[verifier::when_used_as_spec(short_label_spec)]
    pub fn short_label(self) -> (r: &'static str)
        ensures
            r == self.short_label_spec(),
    {
        match self {
            SourcePlatform::ArXiv => "arxiv",
            SourcePlatform::HuggingFace => "hf",
            SourcePlatform::Blog => "blog",
            SourcePlatform::OpenReview => "openreview",
            SourcePlatform::Rss => "rss",
            SourcePlatform::Newsletter => "newsletter",
            SourcePlatform::Twitter => "twitter",
        }
    }
}

/// One feed entry.
#[derive(Clone, Debug)]
pub struct FeedItem {
    pub id: String,
    pub title: String,
    pub source_platform: SourcePlatform,
    pub content_type: ContentType,
    pub domain_tags: Vec<String>,
    pub signal: SignalLevel,
    pub published_at: String,
    pub authors: Vec<String>,
    pub summary_short: String,
    pub workflow_state: WorkflowState,
    pub url: String,
    pub upvote_count: u32,
    pub github_repo: Option<String>,
    pub github_owner: Option<String>,
    pub github_repo_name: Option<String>,
    pub benchmark_results: Vec<String>,
    pub full_content: Option<String>,
    pub source_name: String,
    pub title_lower: String,
    pub authors_lower: Vec<String>,
}

/// The view of an optional string.
pub open spec fn opt_view(o: Option<String>) -> Option<Seq<char>> {
    match o {
        Some(s) => Some(s@),
        None => None,
    }
}

/// `a` and `b` hold the same values in every field.
pub open spec fn same_item(a: FeedItem, b: FeedItem) -> bool {
    &&& a.id@ == b.id@
    &&& a.title@ == b.title@
    &&& a.source_platform == b.source_platform
    &&& a.content_type == b.content_type
    &&& views(a.domain_tags@) == views(b.domain_tags@)
    &&& a.signal == b.signal
    &&& a.published_at@ == b.published_at@
    &&& views(a.authors@) == views(b.authors@)
    &&& a.summary_short@ == b.summary_short@
    &&& a.workflow_state == b.workflow_state
    &&& a.url@ == b.url@
    &&& a.upvote_count == b.upvote_count
    &&& opt_view(a.github_repo) == opt_view(b.github_repo)
    &&& opt_view(a.github_owner) == opt_view(b.github_owner)
    &&& opt_view(a.github_repo_name) == opt_view(b.github_repo_name)
    &&& views(a.benchmark_results@) == views(b.benchmark_results@)
    &&& opt_view(a.full_content) == opt_view(b.full_content)
    &&& a.source_name@ == b.source_name@
    &&& a.title_lower@ == b.title_lower@
    &&& views(a.authors_lower@) == views(b.authors_lower@)
}

fn copy_strings(v: &Vec<String>) -> (r: Vec<String>)
    ensures
        views(r@) == views(v@),
{
    let mut r: Vec<String> = Vec::new();
    let n = v.len();
    let mut i: usize = 0;
    while i < n
        invariant
            n == v@.len(),
            i <= n,
            r@.len() == i,
            forall|j: int| 0 <= j < i ==> (#[trigger] r@[j])@ == v@[j]@,
        decreases n - i,
    {
        r.push(v[i].clone());
        i += 1;
    }
    assert(views(r@) =~= views(v@));
    r
}

fn copy_opt(o: &Option<String>) -> (r: Option<String>)
    ensures
        opt_view(r) == opt_view(*o),
{
    match o {
        Some(s) => Some(s.clone()),
        None => None,
    }
}

impl FeedItem {
    /// A field-for-field copy.
    pub fn duplicate(&self) -> (r: FeedItem)
        ensures
            same_item(r, *self),
    {
        FeedItem {
            id: self.id.clone(),
            title: self.title.clone(),
            source_platform: self.source_platform,
            content_type: self.content_type,
            domain_tags: copy_strings(&self.domain_tags),
            signal: self.signal,
            published_at: self.published_at.clone(),
            authors: copy_strings(&self.authors),
            summary_short: self.summary_short.clone(),
            workflow_state: self.workflow_state,
            url: self.url.clone(),
            upvote_count: self.upvote_count,
            github_repo: copy_opt(&self.github_repo),
            github_owner: copy_opt(&self.github_owner),
            github_repo_name: copy_opt(&self.github_repo_name),
            benchmark_results: copy_strings(&self.benchmark_results),
            full_content: copy_opt(&self.full_content),
            source_name: self.source_name.clone(),
            title_lower: self.title_lower.clone(),
            authors_lower: copy_strings(&self.authors_lower),
        }
    }
}

/// The URL prefixes under which a URL names an arXiv paper: the canonical
/// abstract page and the HuggingFace papers mirror.
pub open spec fn arxiv_url_prefixes() -> Seq<Seq<char>> {
    seq![
        "https://arxiv.org/abs/"@,
        "http://arxiv.org/abs/"@,
        "https://huggingface.co/papers/"@,
        "http://huggingface.co/papers/"@,
    ]
}

/// The arXiv id a URL names: what follows the first matching prefix of
/// [`arxiv_url_prefixes`], when that is non-empty.
pub open spec fn arxiv_id_spec(url: Seq<char>) -> Option<Seq<char>> {
    let ps = arxiv_url_prefixes();
    if exists|k: int| 0 <= k < ps.len() && has_prefix(url, ps[k]) && url.len() > ps[k].len() {
        let k = choose|k: int|
            0 <= k < ps.len() && has_prefix(url, ps[k]) && url.len() > ps[k].len() && forall|j: int|
                0 <= j < k ==> !(has_prefix(url, ps[j]) && url.len() > ps[j].len());
        Some(url.subrange(ps[k].len() as int, url.len() as int))
    } else {
        None
    }
}

/// The arXiv id embedded in `url`, if `url` is an arXiv abstract URL or a
/// HuggingFace papers URL.
pub fn arxiv_id_from_url(url: &str) -> (r: Option<String>)
    ensures
        r matches Some(s) ==> arxiv_id_spec(url@) == Some(s@),
        r is None ==> arxiv_id_spec(url@) is None,
{
    let u = chars_of(url);
    let prefixes: [&str; 4] = [
        "https://arxiv.org/abs/",
        "http://arxiv.org/abs/",
        "https://huggingface.co/papers/",
        "http://huggingface.co/papers/",
    ];
    let ghost ps = arxiv_url_prefixes();
    let mut k: usize = 0;
    while k < 4
        invariant
            k <= 4,
            u@ == url@,
            ps == arxiv_url_prefixes(),
            prefixes@.len() == 4,
            forall|j: int| 0 <= j < 4 ==> #[trigger] prefixes@[j]@ == ps[j],
            forall|j: int| 0 <= j < k ==> !(has_prefix(url@, #[trigger] ps[j]) && url@.len() > ps[j].len()),
        decreases 4 - k,
    {
        let p = chars_of(prefixes[k]);
        if starts_with_chars(&u, &p) && u.len() > p.len() {
            let id = crate::text::string_of_range(&u, p.len(), u.len());
            proof {
                let w = choose|w: int|
                    0 <= w < ps.len() && has_prefix(url@, ps[w]) && url@.len() > ps[w].len()
                        && forall|j: int|
                        0 <= j < w ==> !(has_prefix(url@, ps[j]) && url@.len() > ps[j].len());
                assert(0 <= k < ps.len() && has_prefix(url@, ps[k as int]) && url@.len() > ps[k as int].len());
                if w < k {
                } else if w > k {
                    assert(!(has_prefix(url@, ps[k as int]) && url@.len() > ps[k as int].len()));
                }
            }
            return Some(id);
        }
        k += 1;
    }
    assert(ps.len() == 4);
    None
}


impl SmallKey for ContentType {
    open spec fn key_spec(self) -> u8 {
        match self {
            ContentType::Paper => 0,
            ContentType::Thread => 1,
            ContentType::Article => 2,
            ContentType::Repo => 3,
            ContentType::Digest => 4,
        }
    }

    fn key(&self) -> (k: u8) {
        match self {
            ContentType::Paper => 0,
            ContentType::Thread => 1,
            ContentType::Article => 2,
            ContentType::Repo => 3,
            ContentType::Digest => 4,
        }
    }

    proof fn lemma_key_injective(a: Self, b: Self) {
    }
}

impl SmallKey for SignalLevel {
    open spec fn key_spec(self) -> u8 {
        match self {
            SignalLevel::Primary => 0,
            SignalLevel::Secondary => 1,
            SignalLevel::Tertiary => 2,
        }
    }

    fn key(&self) -> (k: u8) {
        match self {
            SignalLevel::Primary => 0,
            SignalLevel::Secondary => 1,
            SignalLevel::Tertiary => 2,
        }
    }

    proof fn lemma_key_injective(a: Self, b: Self) {
    }
}

impl SmallKey for WorkflowState {
    open spec fn key_spec(self) -> u8 {
        match self {
            WorkflowState::Inbox => 0,
            WorkflowState::Queued => 1,
            WorkflowState::DeepRead => 2,
            WorkflowState::Archived => 3,
        }
    }

    fn key(&self) -> (k: u8) {
        match self {
            WorkflowState::Inbox => 0,
            WorkflowState::Queued => 1,
            WorkflowState::DeepRead => 2,
            WorkflowState::Archived => 3,
        }
    }

    proof fn lemma_key_injective(a: Self, b: Self) {
    }
}

} // verus!
