//! Feed-pane selection state: the filter panel, the view and tab enums.

use vstd::prelude::*;

use crate::collections::{EnumSet, SmallKey, StrSet};
use crate::models::{ContentType, FeedItem, SignalLevel, SourcePlatform, WorkflowState};
use crate::sys::{iso_date_shape, utc_date_days_ago};
use crate::text::str_eq;

verus! {

/// The name an item is filtered under in the source toggles: its source
/// name, or its platform's short label when it has none.
pub open spec fn source_key(item: FeedItem) -> Seq<char> {
    if item.source_name@.len() == 0 {
        item.source_platform.short_label_spec()@
    } else {
        item.source_name@
    }
}

/// Active filter toggles of the filter panel. An empty toggle set means
/// "no restriction" for that dimension.
pub struct FilterState {
    pub sources: StrSet,
    pub signals: EnumSet<SignalLevel>,
    pub content_types: EnumSet<ContentType>,
    pub workflow_states: EnumSet<WorkflowState>,
    pub tags: StrSet,
}

impl FilterState {
    /// Every toggle set is well formed.
    pub open spec fn wf(&self) -> bool {
        &&& self.sources.wf()
        &&& self.signals.wf()
        &&& self.content_types.wf()
        &&& self.workflow_states.wf()
        &&& self.tags.wf()
    }

    /// No toggle is on.
    pub open spec fn is_empty_spec(&self) -> bool {
        &&& self.sources@ == Set::<Seq<char>>::empty()
        &&& self.signals@ == Set::<SignalLevel>::empty()
        &&& self.content_types@ == Set::<ContentType>::empty()
        &&& self.workflow_states@ == Set::<WorkflowState>::empty()
        &&& self.tags@ == Set::<Seq<char>>::empty()
    }

    /// An item passes the source, signal, content-type and workflow-state
    /// toggles (tags are applied by the caller, against the tag store).
    pub open spec fn matches_spec(&self, item: FeedItem) -> bool {
        &&& (self.sources@ == Set::<Seq<char>>::empty() || self.sources@.contains(source_key(item)))
        &&& (self.signals@ == Set::<SignalLevel>::empty() || self.signals@.contains(item.signal))
        &&& (self.content_types@ == Set::<ContentType>::empty() || self.content_types@.contains(
            item.content_type,
        ))
        &&& (self.workflow_states@ == Set::<WorkflowState>::empty()
            || self.workflow_states@.contains(item.workflow_state))
    }

    /// Total number of toggles that are on.
    pub open spec fn active_count_spec(&self) -> nat {
        self.sources@.len() + self.signals@.len() + self.content_types@.len()
            + self.workflow_states@.len() + self.tags@.len()
    }

    pub fn new() -> (f: Self)
        ensures
            f.wf(),
            f.is_empty_spec(),
    {
        FilterState {
            sources: StrSet::new(),
            signals: EnumSet::new(),
            content_types: EnumSet::new(),
            workflow_states: EnumSet::new(),
            tags: StrSet::new(),
        }
    }

    pub fn is_empty(&self) -> (r: bool)
        requires
            self.wf(),
        ensures
            r == self.is_empty_spec(),
    {
        self.sources.is_empty() && self.signals.is_empty() && self.content_types.is_empty()
            && self.workflow_states.is_empty() && self.tags.is_empty()
    }

    pub fn matches(&self, item: &FeedItem) -> (r: bool)
        requires
            self.wf(),
        ensures
            r == self.matches_spec(*item),
    {
        let source_ok = if self.sources.is_empty() {
            true
        } else if item.source_name.as_str().is_empty() {
            self.sources.contains(item.source_platform.short_label())
        } else {
            self.sources.contains(item.source_name.as_str())
        };
        source_ok && (self.signals.is_empty() || self.signals.contains(item.signal)) && (
        self.content_types.is_empty() || self.content_types.contains(item.content_type)) && (
        self.workflow_states.is_empty() || self.workflow_states.contains(item.workflow_state))
    }

    /// Number of toggles that are on, for the filter-panel badge.
    pub fn active_count(&self) -> (n: usize)
        requires
            self.wf(),
            self.active_count_spec() <= usize::MAX,
        ensures
            n == self.active_count_spec(),
    {
        self.sources.len() + self.signals.len() + self.content_types.len()
            + self.workflow_states.len() + self.tags.len()
    }
}

/// `set` with membership of `x` flipped.
pub open spec fn flipped<T>(set: Set<T>, x: T) -> Set<T> {
    if set.contains(x) {
        set.remove(x)
    } else {
        set.insert(x)
    }
}

/// The signal toggled by row `k` of the signal section.
pub open spec fn signal_row(k: int) -> SignalLevel {
    if k == 0 {
        SignalLevel::Primary
    } else if k == 1 {
        SignalLevel::Secondary
    } else {
        SignalLevel::Tertiary
    }
}

/// The content type toggled by row `k` of the content-type section.
pub open spec fn content_row(k: int) -> ContentType {
    if k == 0 {
        ContentType::Paper
    } else if k == 1 {
        ContentType::Article
    } else {
        ContentType::Digest
    }
}

/// Rows of the filter panel: the source names, three signals, three
/// content types, the tags, and "clear all".
pub open spec fn filter_rows(sources: nat, tags: nat) -> nat {
    sources + 3 + 3 + tags + 1
}

/// `f1` is `f0` after activating row `c` of a filter panel listing
/// `src` as sources and `tags` as tags: a source, signal, content-type or
/// tag row flips that one toggle, and the last row clears every toggle.
pub open spec fn toggled_at_row(
    f0: FilterState,
    f1: FilterState,
    c: int,
    src: Seq<Seq<char>>,
    tags: Seq<Seq<char>>,
) -> bool {
    let sc = src.len() as int;
    let tc = tags.len() as int;
    if c < sc {
        f1.sources@ == flipped(f0.sources@, src[c]) && f1.signals@ == f0.signals@
            && f1.content_types@ == f0.content_types@ && f1.workflow_states@ == f0.workflow_states@
            && f1.tags@ == f0.tags@
    } else if c < sc + 3 {
        f1.signals@ == flipped(f0.signals@, signal_row(c - sc)) && f1.sources@ == f0.sources@
            && f1.content_types@ == f0.content_types@ && f1.workflow_states@ == f0.workflow_states@
            && f1.tags@ == f0.tags@
    } else if c < sc + 6 {
        f1.content_types@ == flipped(f0.content_types@, content_row(c - sc - 3)) && f1.sources@
            == f0.sources@ && f1.signals@ == f0.signals@ && f1.workflow_states@
            == f0.workflow_states@ && f1.tags@ == f0.tags@
    } else if c < sc + 6 + tc {
        f1.tags@ == flipped(f0.tags@, tags[c - sc - 6]) && f1.sources@ == f0.sources@
            && f1.signals@ == f0.signals@ && f1.content_types@ == f0.content_types@
            && f1.workflow_states@ == f0.workflow_states@
    } else {
        f1.is_empty_spec()
    }
}

fn flip_enum<T: SmallKey>(set: &mut EnumSet<T>, x: T)
    requires
        old(set).wf(),
    ensures
        final(set).wf(),
        final(set)@ == flipped(old(set)@, x),
{
    if set.contains(x) {
        set.remove(x);
    } else {
        set.insert(x);
    }
}

fn flip_str(set: &mut StrSet, x: &String)
    requires
        old(set).wf(),
    ensures
        final(set).wf(),
        final(set)@ == flipped(old(set)@, x@),
{
    if set.contains(x.as_str()) {
        set.remove(x.as_str());
    } else {
        set.insert(x.clone());
    }
}

/// Number of rows of the filter panel for `source_count` source names and
/// `tag_count` tags.
pub fn filter_total_items(source_count: usize, tag_count: usize) -> (n: usize)
    requires
        filter_rows(source_count as nat, tag_count as nat) <= usize::MAX,
    ensures
        n == filter_rows(source_count as nat, tag_count as nat),
{
    source_count + 3 + 3 + tag_count + 1
}

impl FilterState {
    /// Activate row `cursor` of the filter panel whose source rows are
    /// `source_names` and whose tag rows are `tag_names` (see
    /// [`toggled_at_row`]).
    pub fn toggle_at_row(&mut self, cursor: usize, source_names: &[String], tag_names: &[String])
        requires
            old(self).wf(),
            filter_rows(source_names@.len(), tag_names@.len()) <= usize::MAX,
        ensures
            final(self).wf(),
            toggled_at_row(
                *old(self),
                *final(self),
                cursor as int,
                source_names@.map_values(|s: String| s@),
                tag_names@.map_values(|s: String| s@),
            ),
    {
        let src_count = source_names.len();
        let tag_count = tag_names.len();
        let signals_start = src_count;
        let content_start = signals_start + 3;
        let tags_start = content_start + 3;
        let clear_all = tags_start + tag_count;
        let c = cursor;
        if c < src_count {
            flip_str(&mut self.sources, &source_names[c]);
        } else if c < content_start {
            let k = c - signals_start;
            if k == 0 {
                flip_enum(&mut self.signals, SignalLevel::Primary);
            } else if k == 1 {
                flip_enum(&mut self.signals, SignalLevel::Secondary);
            } else {
                flip_enum(&mut self.signals, SignalLevel::Tertiary);
            }
        } else if c < tags_start {
            let k = c - content_start;
            if k == 0 {
                flip_enum(&mut self.content_types, ContentType::Paper);
            } else if k == 1 {
                flip_enum(&mut self.content_types, ContentType::Article);
            } else {
                flip_enum(&mut self.content_types, ContentType::Digest);
            }
        } else if c < clear_all {
            flip_str(&mut self.tags, &tag_names[c - tags_start]);
        } else {
            *self = FilterState::new();
        }
    }
}

proof fn lemma_flip_twice<T>(set: Set<T>, x: T)
    ensures
        flipped(flipped(set, x), x) == set,
{
    if set.contains(x) {
        assert(set.remove(x).insert(x) =~= set);
    } else {
        assert(set.insert(x).remove(x) =~= set);
    }
}

/// Law: activating the same toggle row of the filter panel twice leaves
/// every toggle as it was (the "clear all" row is the one exception).
pub proof fn lemma_toggle_row_twice(
    f0: FilterState,
    f1: FilterState,
    f2: FilterState,
    c: int,
    src: Seq<Seq<char>>,
    tags: Seq<Seq<char>>,
)
    requires
        0 <= c < src.len() + 6 + tags.len(),
        toggled_at_row(f0, f1, c, src, tags),
        toggled_at_row(f1, f2, c, src, tags),
    ensures
        f2.sources@ == f0.sources@,
        f2.signals@ == f0.signals@,
        f2.content_types@ == f0.content_types@,
        f2.workflow_states@ == f0.workflow_states@,
        f2.tags@ == f0.tags@,
{
    let sc = src.len() as int;
    if c < sc {
        lemma_flip_twice(f0.sources@, src[c]);
    } else if c < sc + 3 {
        lemma_flip_twice(f0.signals@, signal_row(c - sc));
    } else if c < sc + 6 {
        lemma_flip_twice(f0.content_types@, content_row(c - sc - 3));
    } else {
        lemma_flip_twice(f0.tags@, tags[c - sc - 6]);
    }
}

impl Default for FilterState {
    fn default() -> (f: Self)
        ensures
            f.wf(),
            f.is_empty_spec(),
    {
        FilterState::new()
    }
}

/// Memoized aggregate counts over the item corpus.
#[derive(Clone, Debug)]
pub struct ItemCounts {
    pub inbox: usize,
    pub queued: usize,
    pub deep_read: usize,
    pub archived: usize,
    pub total: usize,
    pub recent_total: usize,
    pub recent_today: usize,
    pub recent_hf: usize,
    pub recent_arxiv: usize,
    pub recent_other: usize,
    /// First two queued paper titles.
    pub queue_preview: Vec<String>,
}

impl Default for ItemCounts {
    fn default() -> (c: Self)
        ensures
            c.inbox == 0 && c.queued == 0 && c.deep_read == 0 && c.archived == 0 && c.total == 0,
            c.recent_total == 0 && c.recent_today == 0 && c.recent_hf == 0 && c.recent_arxiv == 0
                && c.recent_other == 0,
            c.queue_preview@.len() == 0,
    {
        ItemCounts {
            inbox: 0,
            queued: 0,
            deep_read: 0,
            archived: 0,
            total: 0,
            recent_total: 0,
            recent_today: 0,
            recent_hf: 0,
            recent_arxiv: 0,
            recent_other: 0,
            queue_preview: Vec::new(),
        }
    }
}

/// Number of items of `items` that satisfy `p`.
pub open spec fn count_matching(items: Seq<FeedItem>, p: spec_fn(FeedItem) -> bool) -> nat
    decreases items.len(),
{
    if items.len() == 0 {
        0
    } else {
        count_matching(items.drop_last(), p) + if p(items.last()) {
            1nat
        } else {
            0nat
        }
    }
}

/// Titles of the queued items, in corpus order.
pub open spec fn queued_titles(items: Seq<FeedItem>) -> Seq<Seq<char>>
    decreases items.len(),
{
    if items.len() == 0 {
        Seq::empty()
    } else if items.last().workflow_state == WorkflowState::Queued {
        queued_titles(items.drop_last()).push(items.last().title@)
    } else {
        queued_titles(items.drop_last())
    }
}

/// Items in workflow state `st`.
pub open spec fn in_state(st: WorkflowState) -> spec_fn(FeedItem) -> bool {
    |i: FeedItem| i.workflow_state == st
}

/// Items published on `day`.
pub open spec fn published_on(day: Seq<char>) -> spec_fn(FeedItem) -> bool {
    |i: FeedItem| i.published_at@ == day
}

/// Items published today or yesterday.
pub open spec fn recent(today: Seq<char>, yesterday: Seq<char>) -> spec_fn(FeedItem) -> bool {
    |i: FeedItem| i.published_at@ == today || i.published_at@ == yesterday
}

/// Recent items from a given platform class: Hugging Face, arXiv, or any
/// other platform.
pub open spec fn recent_from(
    today: Seq<char>,
    yesterday: Seq<char>,
    class: int,
) -> spec_fn(FeedItem) -> bool {
    |i: FeedItem|
        (i.published_at@ == today || i.published_at@ == yesterday) && if class == 0 {
            i.source_platform == SourcePlatform::HuggingFace
        } else if class == 1 {
            i.source_platform == SourcePlatform::ArXiv
        } else {
            i.source_platform != SourcePlatform::HuggingFace && i.source_platform
                != SourcePlatform::ArXiv
        }
}

/// The counters of the status line for `items`, with `today` and
/// `yesterday` the two dates that count as recent.
pub open spec fn counts_of(c: ItemCounts, items: Seq<FeedItem>, today: Seq<char>, yesterday: Seq<char>) -> bool {
    &&& workflow_counts_of(c, items)
    &&& recent_counts_of(c, items, today, yesterday)
}

/// The counters that do not depend on the date: the workflow buckets and
/// the queue preview.
pub open spec fn workflow_counts_of(c: ItemCounts, items: Seq<FeedItem>) -> bool {
    let q = queued_titles(items);
    &&& c.total == items.len()
    &&& c.inbox == count_matching(items, in_state(WorkflowState::Inbox))
    &&& c.queued == count_matching(items, in_state(WorkflowState::Queued))
    &&& c.deep_read == count_matching(items, in_state(WorkflowState::DeepRead))
    &&& c.archived == count_matching(items, in_state(WorkflowState::Archived))
    &&& c.queue_preview@.len() == if q.len() < 2 {
        q.len()
    } else {
        2
    }
    &&& forall|k: int| 0 <= k < c.queue_preview@.len() ==> #[trigger] c.queue_preview@[k]@ == q[k]
}

/// The recency counters against `today` and `yesterday`.
pub open spec fn recent_counts_of(c: ItemCounts, items: Seq<FeedItem>, today: Seq<char>, yesterday: Seq<char>) -> bool {
    &&& c.recent_total == count_matching(items, recent(today, yesterday))
    &&& c.recent_today == count_matching(items, published_on(today))
    &&& c.recent_hf == count_matching(items, recent_from(today, yesterday, 0))
    &&& c.recent_arxiv == count_matching(items, recent_from(today, yesterday, 1))
    &&& c.recent_other == count_matching(items, recent_from(today, yesterday, 2))
}

/// Every recency counter is zero.
pub open spec fn no_recent(c: ItemCounts) -> bool {
    c.recent_total == 0 && c.recent_today == 0 && c.recent_hf == 0 && c.recent_arxiv == 0
        && c.recent_other == 0
}

proof fn lemma_count_bounded(items: Seq<FeedItem>, p: spec_fn(FeedItem) -> bool)
    ensures
        count_matching(items, p) <= items.len(),
    decreases items.len(),
{
    if items.len() > 0 {
        lemma_count_bounded(items.drop_last(), p);
    }
}

/// Count the corpus by workflow state and recency in one pass, keeping the
/// titles of the first two queued items. An item is recent when it was
/// published on `today` or on `yesterday`.
pub fn compute_item_counts(items: &[FeedItem], today: &str, yesterday: &str) -> (c: ItemCounts)
    ensures
        counts_of(c, items@, today@, yesterday@),
{
    let ghost t = today@;
    let ghost y = yesterday@;
    let mut c = ItemCounts::default();
    let n = items.len();
    let mut i: usize = 0;
    while i < n
        invariant
            n == items@.len(),
            i <= n,
            t == today@,
            y == yesterday@,
            counts_of(c, items@.take(i as int), t, y),
        decreases n - i,
    {
        let ghost pre = items@.take(i as int);
        let ghost next = items@.take(i + 1);
        assert(next.drop_last() =~= pre);
        assert(next.last() == items@[i as int]);
        proof {
            lemma_count_bounded(pre, in_state(WorkflowState::Inbox));
            lemma_count_bounded(pre, in_state(WorkflowState::Queued));
            lemma_count_bounded(pre, in_state(WorkflowState::DeepRead));
            lemma_count_bounded(pre, in_state(WorkflowState::Archived));
            lemma_count_bounded(pre, recent(t, y));
            lemma_count_bounded(pre, published_on(t));
            lemma_count_bounded(pre, recent_from(t, y, 0));
            lemma_count_bounded(pre, recent_from(t, y, 1));
            lemma_count_bounded(pre, recent_from(t, y, 2));
        }
        let item = &items[i];
        c.total = c.total + 1;
        match item.workflow_state {
            WorkflowState::Inbox => {
                c.inbox = c.inbox + 1;
            },
            WorkflowState::Queued => {
                c.queued = c.queued + 1;
                if c.queue_preview.len() < 2 {
                    c.queue_preview.push(item.title.clone());
                }
            },
            WorkflowState::DeepRead => {
                c.deep_read = c.deep_read + 1;
            },
            WorkflowState::Archived => {
                c.archived = c.archived + 1;
            },
        }
        let is_today = str_eq(item.published_at.as_str(), today);
        if is_today || str_eq(item.published_at.as_str(), yesterday) {
            c.recent_total = c.recent_total + 1;
            if is_today {
                c.recent_today = c.recent_today + 1;
            }
            match item.source_platform {
                SourcePlatform::HuggingFace => {
                    c.recent_hf = c.recent_hf + 1;
                },
                SourcePlatform::ArXiv => {
                    c.recent_arxiv = c.recent_arxiv + 1;
                },
                _ => {
                    c.recent_other = c.recent_other + 1;
                },
            }
        }
        i = i + 1;
    }
    assert(items@.take(n as int) =~= items@);
    c
}

/// The status-line counters of `items`, with today's and yesterday's UTC
/// dates as the recent ones. The dates come from the clock, so the
/// recency counters are those of some pair of dates; when the clock gives
/// no date, the recency counters are zero. The workflow counters and the
/// queue preview do not depend on the dates.
pub fn item_counts(items: &[FeedItem]) -> (c: ItemCounts)
    ensures
        workflow_counts_of(c, items@),
        (exists|t: Seq<char>, y: Seq<char>|
            iso_date_shape(t) && iso_date_shape(y) && #[trigger] counts_of(c, items@, t, y))
            || no_recent(c),
{
    match (utc_date_days_ago(0), utc_date_days_ago(1)) {
        (Some(today), Some(yesterday)) => {
            let c = compute_item_counts(items, today.as_str(), yesterday.as_str());
            assert(counts_of(c, items@, today@, yesterday@));
            c
        },
        _ => {
            let mut c = compute_item_counts(items, "", "");
            c.recent_total = 0;
            c.recent_today = 0;
            c.recent_hf = 0;
            c.recent_arxiv = 0;
            c.recent_other = 0;
            c
        },
    }
}

proof fn lemma_buckets_sum(items: Seq<FeedItem>, t: Seq<char>, y: Seq<char>)
    ensures
        count_matching(items, in_state(WorkflowState::Inbox)) + count_matching(
            items,
            in_state(WorkflowState::Queued),
        ) + count_matching(items, in_state(WorkflowState::DeepRead)) + count_matching(
            items,
            in_state(WorkflowState::Archived),
        ) == items.len(),
        count_matching(items, recent_from(t, y, 0)) + count_matching(items, recent_from(t, y, 1))
            + count_matching(items, recent_from(t, y, 2)) == count_matching(items, recent(t, y)),
        count_matching(items, published_on(t)) <= count_matching(items, recent(t, y)),
    decreases items.len(),
{
    if items.len() > 0 {
        lemma_buckets_sum(items.drop_last(), t, y);
    }
}

/// Law: the status-line counters partition the corpus — every item is in
/// exactly one workflow bucket, every recent item is in exactly one
/// platform bucket, and today's items are among the recent ones.
pub proof fn lemma_counts_partition(c: ItemCounts, items: Seq<FeedItem>, t: Seq<char>, y: Seq<char>)
    requires
        counts_of(c, items, t, y),
    ensures
        c.inbox + c.queued + c.deep_read + c.archived == c.total,
        c.recent_hf + c.recent_arxiv + c.recent_other == c.recent_total,
        c.recent_today <= c.recent_total,
        c.queue_preview@.len() <= c.queued,
{
    lemma_buckets_sum(items, t, y);
    lemma_queued_titles_len(items);
}

proof fn lemma_queued_titles_len(items: Seq<FeedItem>)
    ensures
        queued_titles(items).len() == count_matching(items, in_state(WorkflowState::Queued)),
    decreases items.len(),
{
    if items.len() > 0 {
        lemma_queued_titles_len(items.drop_last());
    }
}

/// Top-level screen.
#[derive(Clone, Copy, Debug, PartialEq, Eq, Structural)]
pub enum AppView {
    Feed,
    Settings,
    Sources,
    RepoViewer,
}

/// Tabs of the feed pane, in cycle order.
#[derive(Clone, Copy, Debug, PartialEq, Eq, Structural)]
pub enum FeedTab {
    Inbox,
    Browse,
    Library,
    Discoveries,
    History,
}

/// Direction for spatial pane navigation.
#[derive(Clone, Copy, Debug, PartialEq, Eq, Structural)]
pub enum NavDirection {
    Left,
    Right,
    Up,
    Down,
}

/// Law: a filter with no toggle on lets every item through.
pub proof fn lemma_empty_filter_matches_all(f: FilterState, item: FeedItem)
    requires
        f.is_empty_spec(),
    ensures
        f.matches_spec(item),
{
}

/// Law: every non-empty toggle set of the filter panel restricts the
/// item to its members — a source, signal, content type or workflow state
/// outside a non-empty set hides the item — and an item that every
/// non-empty set admits is shown.
pub proof fn lemma_each_toggle_set_restricts(f: FilterState, item: FeedItem)
    ensures
        f.sources@ != Set::<Seq<char>>::empty() && !f.sources@.contains(source_key(item))
            ==> !f.matches_spec(item),
        f.signals@ != Set::<SignalLevel>::empty() && !f.signals@.contains(item.signal)
            ==> !f.matches_spec(item),
        f.content_types@ != Set::<ContentType>::empty() && !f.content_types@.contains(
            item.content_type,
        ) ==> !f.matches_spec(item),
        f.workflow_states@ != Set::<WorkflowState>::empty() && !f.workflow_states@.contains(
            item.workflow_state,
        ) ==> !f.matches_spec(item),
        (f.sources@ == Set::<Seq<char>>::empty() || f.sources@.contains(source_key(item)))
            && (f.signals@ == Set::<SignalLevel>::empty() || f.signals@.contains(item.signal))
            && (f.content_types@ == Set::<ContentType>::empty() || f.content_types@.contains(
            item.content_type,
        )) && (f.workflow_states@ == Set::<WorkflowState>::empty() || f.workflow_states@.contains(
            item.workflow_state,
        )) ==> f.matches_spec(item),
{
}

} // verus!
