//! `FeedModel` — state owner for the feed pane: the active tab, the per-tab
//! list cursors, search and filter-panel state, and the layout
//! reconciliation that runs once per frame before rendering.

use vstd::prelude::*;

use crate::collections::StrSet;
use crate::feed_order::{
    in_range, popular, shuffle_spec, shuffled, sort_by_upvotes_spec, sorted_desc, trending_cutoff,
    trending_since, trending_spec,
};
use crate::messages::Effect;
use crate::models::{FeedItem, WorkflowState};
use crate::primitives::list_state::{clamp_selection, visible_offset, ListView};
use crate::primitives::ListState;
use crate::state::discovery::DiscoveryModel;
use crate::state::feed::{filter_rows, toggled_at_row, FeedTab, FilterState};
use crate::sys::{system_now, unix_epoch_nanos};
use crate::state::browse::{at_or_first, path_archive, path_group, BrowseModel, RailNode};
use crate::taxonomy::{
    all_archive_keys, all_archive_keys_vec, all_categories_spec, all_categories_vec, find_category,
    find_code, Category,
};
use crate::text::{
    eq_ignore_ascii_case, has_prefix, str_lowercase, lowercase, pop_char, push_char, str_eq,
    str_eq_ignore_ascii_case, str_starts_with, to_owned_string,
};
use crate::workspace::Workspace;

verus! {

/// Sort key applied across the feed pane. Exactly one is active.
#[derive(Clone, Copy, PartialEq, Eq, Debug, Structural)]
pub enum FeedSortMode {
    /// `published_at` descending — the default.
    Dated,
    /// Deterministic shuffle keyed off a per-session seed.
    Random,
    /// `upvote_count` descending.
    Popular,
    /// Items of the last 14 days, by `upvote_count` descending.
    Trending,
}

impl FeedSortMode {
    pub open spec fn label_spec(self) -> &'static str {
        match self {
            FeedSortMode::Dated => "Dated",
            FeedSortMode::Random => "Random",
            FeedSortMode::Popular => "Popular",
            FeedSortMode::Trending => "Trending",
        }
    }

    /// Human-readable label for the filter pane.
    pub fn label(self) -> (r: &'static str)
        ensures
            r == self.label_spec(),
    {
        match self {
            FeedSortMode::Dated => "Dated",
            FeedSortMode::Random => "Random",
            FeedSortMode::Popular => "Popular",
            FeedSortMode::Trending => "Trending",
        }
    }
}

/// Size of the area a pane draws into, in terminal cells.
#[derive(Clone, Copy, Debug, PartialEq, Eq, Structural)]
pub struct Viewport {
    pub cols: u16,
    pub rows: u16,
}

impl Viewport {
    pub fn new(cols: u16, rows: u16) -> (v: Self)
        ensures
            v.cols == cols && v.rows == rows,
    {
        Viewport { cols, rows }
    }
}

/// Owned state of the feed pane.
pub struct FeedModel {
    pub feed_tab: FeedTab,
    pub inbox_list: ListState,
    pub library_list: ListState,
    pub history_list: ListState,
    /// Library bulk-select state.
    pub library_visual_mode: bool,
    pub library_visual_anchor: usize,
    pub library_selected_urls: StrSet,
    /// Search bar text and its lowercase mirror.
    pub search_query: String,
    pub search_query_lower: String,
    pub search_active: bool,
    /// An online search is in flight.
    pub search_loading: bool,
    /// Filter panel state.
    pub filter_focus: bool,
    pub filter_cursor: usize,
    pub active_filters: FilterState,
    pub sort_mode: FeedSortMode,
    /// When set, the Subject Browser's drill point narrows the feed.
    pub subject_follow: bool,
    /// Per-session seed of the `Random` sort.
    pub random_seed: u64,
}

// ── Specifications ──────────────────────────────────────────────────────

/// The tab after `t` (Inbox → Browse → Library → Discoveries → History → Inbox).
pub open spec fn next_tab(t: FeedTab) -> FeedTab {
    match t {
        FeedTab::Inbox => FeedTab::Browse,
        FeedTab::Browse => FeedTab::Library,
        FeedTab::Library => FeedTab::Discoveries,
        FeedTab::Discoveries => FeedTab::History,
        FeedTab::History => FeedTab::Inbox,
    }
}

/// The tab before `t`.
pub open spec fn prev_tab(t: FeedTab) -> FeedTab {
    match t {
        FeedTab::Inbox => FeedTab::History,
        FeedTab::Browse => FeedTab::Inbox,
        FeedTab::Library => FeedTab::Browse,
        FeedTab::Discoveries => FeedTab::Library,
        FeedTab::History => FeedTab::Discoveries,
    }
}

/// The list cursor a tab reads. Browse has its own column cursors, so its
/// single-list slot is the inbox list, which it leaves to the Inbox.
pub open spec fn active_list_spec(feed: FeedModel, discovery: DiscoveryModel) -> ListView {
    match feed.feed_tab {
        FeedTab::Inbox | FeedTab::Browse => feed.inbox_list@,
        FeedTab::Library => feed.library_list@,
        FeedTab::Discoveries => discovery.list@,
        FeedTab::History => feed.history_list@,
    }
}

/// A list after `set_count(total)` then `set_viewport(rows)`.
pub open spec fn resized(l: ListView, rows: nat, total: nat) -> ListView {
    let sel = clamp_selection(l.selected, total);
    let off = visible_offset(sel, l.offset, l.viewport);
    ListView { selected: sel, offset: visible_offset(sel, off, rows), count: total, viewport: rows }
}

/// Frame reconciliation of a list: resize it, then keep a two-row buffer
/// below the cursor while more items lie below the window.
pub open spec fn pre_draw_list(l: ListView, rows: nat, total: nat, fit: nat) -> ListView {
    let b = resized(l, rows, total);
    if fit >= 2 && b.selected >= b.offset + fit - 2 && b.offset + fit < total {
        ListView { offset: (b.selected + 2 - fit) as nat, ..b }
    } else {
        b
    }
}

/// How many items, taken in order from `i`, fit into `budget` rows.
pub open spec fn fit_from(h: Seq<usize>, i: int, budget: int) -> nat
    decreases h.len() - i,
{
    if i < 0 || i >= h.len() || h[i] > budget {
        0
    } else {
        1 + fit_from(h, i + 1, budget - h[i])
    }
}

/// Walking back from item `i` while the items still fit into `budget`
/// rows, the first item of the window; `cur` is the last one that fitted.
pub open spec fn walk_back(h: Seq<usize>, i: int, budget: int, cur: int) -> int
    decreases i + 1,
{
    if i < 0 || i >= h.len() || h[i] > budget {
        cur
    } else {
        walk_back(h, i - 1, budget - h[i], i)
    }
}

/// Frame reconciliation of a list whose rows have variable heights `h`
/// (the heights of items `0..=selected`).
pub open spec fn narrow_list(l: ListView, rows: nat, total: nat, h: Seq<usize>) -> ListView {
    let b = resized(l, rows, total);
    if total == 0 || h.len() == 0 {
        b
    } else {
        let vc0 = fit_from(h, b.offset as int, rows as int);
        let vc = if vc0 >= 1 { vc0 } else { 1 };
        let off = if b.selected >= b.offset + vc {
            walk_back(h, b.selected as int, rows as int, b.selected as int)
        } else {
            b.offset as int
        };
        let off2 = if off <= total - 1 { off } else { total - 1 };
        ListView { offset: off2 as nat, ..b }
    }
}

/// Position of the first item whose URL is `url`, searching from `i`.
pub open spec fn url_position_from(items: Seq<FeedItem>, url: Seq<char>, i: int) -> Option<int>
    decreases items.len() - i,
{
    if i < 0 || i >= items.len() {
        None
    } else if items[i].url@ == url {
        Some(i)
    } else {
        url_position_from(items, url, i + 1)
    }
}

/// Position of the first item whose URL is `url`.
pub open spec fn url_position(items: Seq<FeedItem>, url: Seq<char>) -> Option<int> {
    url_position_from(items, url, 0)
}

/// `item` with its workflow state replaced.
pub open spec fn with_state(item: FeedItem, state: WorkflowState) -> FeedItem {
    FeedItem { workflow_state: state, ..item }
}

pub(crate) proof fn lemma_url_position_found(items: Seq<FeedItem>, url: Seq<char>, i: int)
    requires
        0 <= i,
    ensures
        url_position_from(items, url, i) matches Some(k) ==> i <= k < items.len()
            && items[k].url@ == url,
    decreases items.len() - i,
{
    if i < items.len() && items[i].url@ != url {
        lemma_url_position_found(items, url, i + 1);
    }
}

// ── Reconciliation helpers ──────────────────────────────────────────────

fn reconcile_list(list: &mut ListState, rows: usize, total: usize, fit: usize)
    ensures
        final(list)@ == pre_draw_list(old(list)@, rows as nat, total as nat, fit as nat),
{
    list.set_count(total);
    list.set_viewport(rows);
    let selected = list.selected();
    let offset = list.offset();
    // After the resize the window starts at or before the cursor, which is
    // a row of the list: `offset <= selected`, and `selected < total`
    // unless the list is empty.
    if fit >= 2 && selected - offset >= fit - 2 && fit < total - offset {
        let new_offset = selected - (fit - 2);
        list.set_offset(new_offset);
    }
}

fn fit_count(h: &[usize], offset: usize, rows: usize) -> (vc: usize)
    ensures
        vc == fit_from(h@, offset as int, rows as int),
{
    let mut rows_used: usize = 0;
    let mut vc: usize = 0;
    let mut i: usize = offset;
    let mut stop = false;
    while i < h.len() && !stop
        invariant
            rows_used <= rows,
            offset <= i,
            vc == i - offset,
            offset <= h@.len() ==> i <= h@.len(),
            stop ==> i < h@.len() && h@[i as int] > rows - rows_used,
            fit_from(h@, offset as int, rows as int) == vc + fit_from(
                h@,
                i as int,
                rows - rows_used,
            ),
        decreases h@.len() - i, if stop { 0int } else { 1int },
    {
        let hh = h[i];
        if hh > rows - rows_used {
            stop = true;
        } else {
            rows_used = rows_used + hh;
            vc = vc + 1;
            i = i + 1;
        }
    }
    vc
}

fn walk_back_exec(h: &[usize], selected: usize, rows: usize) -> (off: usize)
    requires
        selected < h@.len(),
    ensures
        off == walk_back(h@, selected as int, rows as int, selected as int),
{
    let hl = h.len();
    assert(selected < hl);
    let mut rows_used: usize = 0;
    let mut off: usize = selected;
    let mut j: usize = selected + 1;
    let mut stop = false;
    while j > 0 && !stop
        invariant
            j <= selected + 1,
            selected < h@.len(),
            rows_used <= rows,
            off <= selected,
            walk_back(h@, selected as int, rows as int, selected as int) == walk_back(
                h@,
                j - 1,
                rows - rows_used,
                off as int,
            ),
            stop ==> j > 0 && h@[j - 1] > rows - rows_used,
        decreases j, if stop { 0int } else { 1int },
    {
        let i = j - 1;
        let hh = h[i];
        if hh > rows - rows_used {
            stop = true;
        } else {
            rows_used = rows_used + hh;
            off = i;
            j = i;
        }
    }
    off
}

fn reconcile_narrow(list: &mut ListState, rows: usize, total: usize, h: &[usize])
    requires
        h@.len() == 0 || total == 0 || resized(old(list)@, rows as nat, total as nat).selected
            < h@.len(),
    ensures
        final(list)@ == narrow_list(old(list)@, rows as nat, total as nat, h@),
{
    list.set_count(total);
    list.set_viewport(rows);
    if total == 0 || h.len() == 0 {
        return;
    }
    let selected = list.selected();
    let mut offset = list.offset();
    let vc0 = fit_count(h, offset, rows);
    let vc = if vc0 >= 1 { vc0 } else { 1 };
    if selected >= offset && selected - offset >= vc {
        offset = walk_back_exec(h, selected, rows);
    }
    if offset > total - 1 {
        offset = total - 1;
    }
    list.set_offset(offset);
}

impl FeedModel {
    /// Side-effect-free constructor (same as `default`).
    pub fn new() -> (m: Self)
        ensures
            m.feed_tab == FeedTab::Inbox,
            m.inbox_list@ == (ListView { selected: 0, offset: 0, count: 0, viewport: 0 }),
            m.library_list@ == (ListView { selected: 0, offset: 0, count: 0, viewport: 0 }),
            m.history_list@ == (ListView { selected: 0, offset: 0, count: 0, viewport: 0 }),
            !m.library_visual_mode && m.library_visual_anchor == 0,
            m.library_selected_urls.wf() && m.library_selected_urls@ == Set::<Seq<char>>::empty(),
            m.search_query@.len() == 0 && m.search_query_lower@.len() == 0,
            !m.search_active && !m.search_loading,
            !m.filter_focus && m.filter_cursor == 0,
            m.active_filters.wf() && m.active_filters.is_empty_spec(),
            m.sort_mode == FeedSortMode::Dated,
            !m.subject_follow,
    {
        let seed: u64 = match unix_epoch_nanos(&system_now()) {
            Some(n) => #[verifier::truncate] (n as u64),
            None => 0,
        };
        FeedModel {
            feed_tab: FeedTab::Inbox,
            inbox_list: ListState::new(),
            library_list: ListState::new(),
            history_list: ListState::new(),
            library_visual_mode: false,
            library_visual_anchor: 0,
            library_selected_urls: StrSet::new(),
            search_query: String::new(),
            search_query_lower: String::new(),
            search_active: false,
            search_loading: false,
            filter_focus: false,
            filter_cursor: 0,
            active_filters: FilterState::new(),
            sort_mode: FeedSortMode::Dated,
            subject_follow: false,
            random_seed: seed,
        }
    }

    /// The list cursor of the active tab (Discoveries' lives on `discovery`).
    pub fn active_list<'a>(&'a self, discovery: &'a DiscoveryModel) -> (r: &'a ListState)
        ensures
            r@ == active_list_spec(*self, *discovery),
    {
        match self.feed_tab {
            FeedTab::Inbox => &self.inbox_list,
            FeedTab::Library => &self.library_list,
            FeedTab::Discoveries => &discovery.list,
            FeedTab::Browse => &self.inbox_list,
            FeedTab::History => &self.history_list,
        }
    }

    /// Advance to the next tab.
    pub fn cycle_tab(&mut self)
        ensures
            *final(self) == (FeedModel { feed_tab: next_tab(old(self).feed_tab), ..*old(self) }),
    {
        self.feed_tab = match self.feed_tab {
            FeedTab::Inbox => FeedTab::Browse,
            FeedTab::Browse => FeedTab::Library,
            FeedTab::Library => FeedTab::Discoveries,
            FeedTab::Discoveries => FeedTab::History,
            FeedTab::History => FeedTab::Inbox,
        };
    }

    /// Walk back one tab.
    pub fn cycle_tab_back(&mut self)
        ensures
            *final(self) == (FeedModel { feed_tab: prev_tab(old(self).feed_tab), ..*old(self) }),
    {
        self.feed_tab = match self.feed_tab {
            FeedTab::Inbox => FeedTab::History,
            FeedTab::Browse => FeedTab::Inbox,
            FeedTab::Library => FeedTab::Browse,
            FeedTab::Discoveries => FeedTab::Library,
            FeedTab::History => FeedTab::Discoveries,
        };
    }

    /// Jump directly to a tab.
    pub fn set_tab(&mut self, tab: FeedTab)
        ensures
            *final(self) == (FeedModel { feed_tab: tab, ..*old(self) }),
    {
        self.feed_tab = tab;
    }

    /// Enter search-bar input mode.
    pub fn enter_search(&mut self)
        ensures
            *final(self) == (FeedModel { search_active: true, ..*old(self) }),
    {
        self.search_active = true;
    }

    /// Exit search-bar input mode; the query is kept.
    pub fn exit_search(&mut self)
        ensures
            *final(self) == (FeedModel { search_active: false, ..*old(self) }),
    {
        self.search_active = false;
    }

    /// Move keyboard focus into the filter panel.
    pub fn enter_filter_focus(&mut self)
        ensures
            *final(self) == (FeedModel { filter_focus: true, ..*old(self) }),
    {
        self.filter_focus = true;
    }

    /// Move keyboard focus out of the filter panel.
    pub fn exit_filter_focus(&mut self)
        ensures
            *final(self) == (FeedModel { filter_focus: false, ..*old(self) }),
    {
        self.filter_focus = false;
    }

    /// Enter library bulk-select mode, anchored at the library cursor.
    pub fn enter_library_visual_mode(&mut self)
        ensures
            *final(self) == (FeedModel {
                library_visual_mode: true,
                library_visual_anchor: old(self).library_list@.selected as usize,
                ..*old(self)
            }),
    {
        self.library_visual_mode = true;
        self.library_visual_anchor = self.library_list.selected();
    }

    /// Leave library bulk-select mode: selection cleared, anchor reset.
    pub fn exit_library_visual_mode(&mut self)
        ensures
            final(self).library_selected_urls.wf(),
            final(self).library_selected_urls@ == Set::<Seq<char>>::empty(),
            *final(self) == (FeedModel {
                library_visual_mode: false,
                library_visual_anchor: 0,
                library_selected_urls: final(self).library_selected_urls,
                ..*old(self)
            }),
    {
        self.library_visual_mode = false;
        self.library_visual_anchor = 0;
        self.library_selected_urls.clear();
    }

    /// Reconcile the active list with this frame's layout: set its count
    /// and viewport (which scrolls the cursor into view), then keep two
    /// rows below the cursor while more items lie below the window.
    pub fn pre_draw(
        &mut self,
        discovery: &mut DiscoveryModel,
        viewport: Viewport,
        total_items: usize,
        items_fitting_in_viewport: usize,
    )
        ensures
            ({
                let rows = viewport.rows as nat;
                let total = total_items as nat;
                let fit = items_fitting_in_viewport as nat;
                match old(self).feed_tab {
                    FeedTab::Inbox | FeedTab::Browse => final(self).inbox_list@ == pre_draw_list(
                        old(self).inbox_list@,
                        rows,
                        total,
                        fit,
                    ) && *final(self) == (FeedModel {
                        inbox_list: final(self).inbox_list,
                        ..*old(self)
                    }) && *final(discovery) == *old(discovery),
                    FeedTab::Library => final(self).library_list@ == pre_draw_list(
                        old(self).library_list@,
                        rows,
                        total,
                        fit,
                    ) && *final(self) == (FeedModel {
                        library_list: final(self).library_list,
                        ..*old(self)
                    }) && *final(discovery) == *old(discovery),
                    FeedTab::Discoveries => final(discovery).list@ == pre_draw_list(
                        old(discovery).list@,
                        rows,
                        total,
                        fit,
                    ) && *final(discovery) == (DiscoveryModel {
                        list: final(discovery).list,
                        ..*old(discovery)
                    }) && *final(self) == *old(self),
                    FeedTab::History => final(self).history_list@ == pre_draw_list(
                        old(self).history_list@,
                        rows,
                        total,
                        fit,
                    ) && *final(self) == (FeedModel {
                        history_list: final(self).history_list,
                        ..*old(self)
                    }) && *final(discovery) == *old(discovery),
                }
            }),
    {
        let rows = viewport.rows as usize;
        match self.feed_tab {
            FeedTab::Inbox | FeedTab::Browse => reconcile_list(
                &mut self.inbox_list,
                rows,
                total_items,
                items_fitting_in_viewport,
            ),
            FeedTab::Library => reconcile_list(
                &mut self.library_list,
                rows,
                total_items,
                items_fitting_in_viewport,
            ),
            FeedTab::Discoveries => reconcile_list(
                &mut discovery.list,
                rows,
                total_items,
                items_fitting_in_viewport,
            ),
            FeedTab::History => reconcile_list(
                &mut self.history_list,
                rows,
                total_items,
                items_fitting_in_viewport,
            ),
        }
    }

    /// Variable-height variant of [`pre_draw`](Self::pre_draw) for the
    /// narrow feed: `row_heights_up_to_selected[i]` is the row count of
    /// item `i` for `i` in `0..=selected` (empty when there are no items).
    /// After the resize, the window is re-fitted with the real heights,
    /// walking back from the cursor when it fell below the window.
    pub fn pre_draw_narrow_feed(
        &mut self,
        discovery: &mut DiscoveryModel,
        viewport: Viewport,
        total_items: usize,
        row_heights_up_to_selected: &[usize],
    )
        requires
            ({
                let h = row_heights_up_to_selected@;
                h.len() == 0 || total_items == 0 || resized(
                    active_list_spec(*old(self), *old(discovery)),
                    viewport.rows as nat,
                    total_items as nat,
                ).selected < h.len()
            }),
        ensures
            ({
                let rows = viewport.rows as nat;
                let total = total_items as nat;
                let h = row_heights_up_to_selected@;
                match old(self).feed_tab {
                    FeedTab::Inbox | FeedTab::Browse => final(self).inbox_list@ == narrow_list(
                        old(self).inbox_list@,
                        rows,
                        total,
                        h,
                    ) && *final(self) == (FeedModel {
                        inbox_list: final(self).inbox_list,
                        ..*old(self)
                    }) && *final(discovery) == *old(discovery),
                    FeedTab::Library => final(self).library_list@ == narrow_list(
                        old(self).library_list@,
                        rows,
                        total,
                        h,
                    ) && *final(self) == (FeedModel {
                        library_list: final(self).library_list,
                        ..*old(self)
                    }) && *final(discovery) == *old(discovery),
                    FeedTab::Discoveries => final(discovery).list@ == narrow_list(
                        old(discovery).list@,
                        rows,
                        total,
                        h,
                    ) && *final(discovery) == (DiscoveryModel {
                        list: final(discovery).list,
                        ..*old(discovery)
                    }) && *final(self) == *old(self),
                    FeedTab::History => final(self).history_list@ == narrow_list(
                        old(self).history_list@,
                        rows,
                        total,
                        h,
                    ) && *final(self) == (FeedModel {
                        history_list: final(self).history_list,
                        ..*old(self)
                    }) && *final(discovery) == *old(discovery),
                }
            }),
    {
        let rows = viewport.rows as usize;
        match self.feed_tab {
            FeedTab::Inbox | FeedTab::Browse => reconcile_narrow(
                &mut self.inbox_list,
                rows,
                total_items,
                row_heights_up_to_selected,
            ),
            FeedTab::Library => reconcile_narrow(
                &mut self.library_list,
                rows,
                total_items,
                row_heights_up_to_selected,
            ),
            FeedTab::Discoveries => reconcile_narrow(
                &mut discovery.list,
                rows,
                total_items,
                row_heights_up_to_selected,
            ),
            FeedTab::History => reconcile_narrow(
                &mut self.history_list,
                rows,
                total_items,
                row_heights_up_to_selected,
            ),
        }
    }
}

impl Default for FeedModel {
    fn default() -> (m: Self)
        ensures
            m.feed_tab == FeedTab::Inbox,
            m.inbox_list@ == (ListView { selected: 0, offset: 0, count: 0, viewport: 0 }),
            m.library_list@ == (ListView { selected: 0, offset: 0, count: 0, viewport: 0 }),
            m.history_list@ == (ListView { selected: 0, offset: 0, count: 0, viewport: 0 }),
            !m.library_visual_mode && m.library_visual_anchor == 0,
            m.library_selected_urls.wf() && m.library_selected_urls@ == Set::<Seq<char>>::empty(),
            m.search_query@.len() == 0 && m.search_query_lower@.len() == 0,
            !m.search_active && !m.search_loading,
            !m.filter_focus && m.filter_cursor == 0,
            m.active_filters.wf() && m.active_filters.is_empty_spec(),
            m.sort_mode == FeedSortMode::Dated,
            !m.subject_follow,
    {
        FeedModel::new()
    }
}

/// Index of the first item whose URL is `url`, or `items.len()`.
fn first_url_index(items: &[FeedItem], url: &str) -> (r: usize)
    ensures
        r <= items@.len(),
        r < items@.len() ==> url_position(items@, url@) == Some(r as int),
        r == items@.len() ==> url_position(items@, url@) is None,
{
    let n = items.len();
    let mut i: usize = 0;
    while i < n && !str_eq(items[i].url.as_str(), url)
        invariant
            n == items@.len(),
            i <= n,
            url_position(items@, url@) == url_position_from(items@, url@, i as int),
        decreases n - i,
    {
        i = i + 1;
    }
    i
}

proof fn lemma_url_position_of_member(items: Seq<FeedItem>, url: Seq<char>, k: int)
    requires
        0 <= k < items.len(),
        items[k].url@ == url,
    ensures
        url_position(items, url) is Some,
{
    lemma_url_position_from_member(items, url, 0, k);
}

proof fn lemma_url_position_from_member(items: Seq<FeedItem>, url: Seq<char>, i: int, k: int)
    requires
        0 <= i <= k < items.len(),
        items[k].url@ == url,
    ensures
        url_position_from(items, url, i) is Some,
    decreases k - i,
{
    if items[i].url@ != url {
        lemma_url_position_from_member(items, url, i + 1, k);
    }
}

impl FeedModel {
    /// Set the workflow state of the first item with URL `url` — looked up
    /// in the workspace corpus first, then among the discoveries — and
    /// record it in the persisted states. Returns the one
    /// `WorkflowStateChanged` effect to route, or nothing (and changes
    /// nothing) when no item has that URL.
    pub fn set_workflow_state_for_url(
        &mut self,
        workspace: &mut Workspace,
        discovery: &mut DiscoveryModel,
        url: &str,
        state: WorkflowState,
    ) -> (effects: Vec<Effect>)
        requires
            old(workspace).wf(),
        ensures
            final(workspace).wf(),
            *final(self) == *old(self),
            ({
                let ws = old(workspace).items_store@;
                let ds = old(discovery).items@;
                let found = url_position(ws, url@) is Some || url_position(ds, url@) is Some;
                &&& match url_position(ws, url@) {
                    Some(i) => final(workspace).items_store@ == ws.update(i, with_state(ws[i], state))
                        && *final(discovery) == *old(discovery),
                    None => final(workspace).items_store@ == ws && match url_position(ds, url@) {
                        Some(j) => final(discovery).items@ == ds.update(j, with_state(ds[j], state))
                            && *final(discovery) == (DiscoveryModel {
                            items: final(discovery).items,
                            ..*old(discovery)
                        }),
                        None => *final(discovery) == *old(discovery),
                    },
                }
                &&& final(workspace).items_store.url_map() == old(workspace).items_store.url_map()
                &&& final(workspace).items_store.arxiv_map() == old(
                    workspace,
                ).items_store.arxiv_map()
                &&& found ==> final(workspace).persisted_states@ == old(
                    workspace,
                ).persisted_states@.insert(url@, state)
                &&& !found ==> final(workspace).persisted_states@ == old(workspace).persisted_states@
                &&& found ==> effects@.len() == 1 && (effects@[0] matches Effect::WorkflowStateChanged {
                    url: u,
                    state: s,
                } && u@ == url@ && s == state)
                &&& !found ==> effects@.len() == 0
            }),
    {
        let ghost ws = workspace.items_store@;
        let ghost ds = discovery.items@;
        let mut found = false;
        let i = first_url_index(workspace.items_store.items(), url);
        if i < workspace.items_store.len() {
            proof {
                lemma_url_position_found(ws, url@, 0);
            }
            match workspace.items_store.get_mut(i) {
                Some(item) => {
                    item.workflow_state = state;
                },
                None => {},
            }
            found = true;
        } else {
            let j = first_url_index(discovery.items.as_slice(), url);
            if j < discovery.items.len() {
                proof {
                    lemma_url_position_found(ds, url@, 0);
                }
                discovery.items[j].workflow_state = state;
                found = true;
            }
        }
        if found {
            workspace.persisted_states.insert(to_owned_string(url), state);
            vec![Effect::WorkflowStateChanged { url: to_owned_string(url), state }]
        } else {
            Vec::new()
        }
    }
}

/// The items a tab reads: the workspace corpus for Inbox, Browse and
/// Library, the discoveries for Discoveries, nothing for History.
pub open spec fn items_for_tab_spec(ws: Workspace, feed: FeedModel, discovery: DiscoveryModel) -> Seq<
    FeedItem,
> {
    match feed.feed_tab {
        FeedTab::Inbox | FeedTab::Library | FeedTab::Browse => ws.items_store@,
        FeedTab::Discoveries => discovery.items@,
        FeedTab::History => Seq::empty(),
    }
}

/// The item slice the current tab is reading from.
pub fn items_for_tab<'a>(
    workspace: &'a Workspace,
    feed: &'a FeedModel,
    discovery: &'a DiscoveryModel,
) -> (r: &'a [FeedItem])
    ensures
        r@ == items_for_tab_spec(*workspace, *feed, *discovery),
{
    match feed.feed_tab {
        FeedTab::Inbox | FeedTab::Library | FeedTab::Browse => workspace.items_store.items(),
        FeedTab::Discoveries => discovery.items.as_slice(),
        FeedTab::History => {
            let r = vstd::slice::slice_subrange(discovery.items.as_slice(), 0, 0);
            assert(r@ =~= Seq::<FeedItem>::empty());
            r
        },
    }
}

/// The URL under the cursor: the cursor of the active tab picks a row of
/// `visible` (the indices the tab shows, in display order), and that row
/// names an item of the tab's corpus. `None` when the cursor is past the
/// visible rows or the row names no item.
pub open spec fn selected_url_spec(
    feed: FeedModel,
    visible: Seq<usize>,
    ws: Workspace,
    discovery: DiscoveryModel,
) -> Option<Seq<char>> {
    let sel = active_list_spec(feed, discovery).selected as int;
    let items = items_for_tab_spec(ws, feed, discovery);
    if sel < visible.len() && (visible[sel] as int) < items.len() {
        Some(items[visible[sel] as int].url@)
    } else {
        None
    }
}

/// `ws1`/`d1`/`effects` are what setting workflow state `st` on the item
/// under the cursor leaves of `ws0`/`d0`: nothing changes and no effect is
/// emitted when the cursor is over no item; otherwise the first item with
/// that URL (the corpus first, then the discoveries) takes the state, the
/// state is recorded for the URL, and one change effect is emitted.
pub open spec fn cursor_state_set(
    feed: FeedModel,
    visible: Seq<usize>,
    ws0: Workspace,
    d0: DiscoveryModel,
    ws1: Workspace,
    d1: DiscoveryModel,
    st: WorkflowState,
    effects: Seq<Effect>,
) -> bool {
    match selected_url_spec(feed, visible, ws0, d0) {
        None => ws1 == ws0 && d1 == d0 && effects.len() == 0,
        Some(url) => {
            let ws = ws0.items_store@;
            let ds = d0.items@;
            &&& match url_position(ws, url) {
                Some(i) => ws1.items_store@ == ws.update(i, with_state(ws[i], st)) && d1 == d0,
                None => ws1.items_store@ == ws && match url_position(ds, url) {
                    Some(j) => d1.items@ == ds.update(j, with_state(ds[j], st)) && d1 == (
                    DiscoveryModel { items: d1.items, ..d0 }),
                    None => d1 == d0,
                },
            }
            &&& ws1.persisted_states@ == ws0.persisted_states@.insert(url, st)
            &&& effects.len() == 1 && (effects[0] matches Effect::WorkflowStateChanged {
                url: u,
                state: s,
            } && u@ == url && s == st)
        },
    }
}

impl FeedModel {
    /// The URL of the item the cursor of the active tab points to, given
    /// the tab's visible indices in display order; `None` when the visible
    /// list is empty or the cursor is past its end.
    pub fn selected_url(
        &self,
        visible: &[usize],
        workspace: &Workspace,
        discovery: &DiscoveryModel,
    ) -> (r: Option<String>)
        ensures
            r is Some <==> selected_url_spec(*self, visible@, *workspace, *discovery) is Some,
            r matches Some(u) ==> selected_url_spec(*self, visible@, *workspace, *discovery)
                == Some(u@),
    {
        let selected = self.active_list(discovery).selected();
        if selected >= visible.len() {
            return None;
        }
        let idx = visible[selected];
        let items = items_for_tab(workspace, self, discovery);
        if idx >= items.len() {
            return None;
        }
        Some(items[idx].url.clone())
    }

    /// Set the workflow state of the item under the cursor (see
    /// [`selected_url`](Self::selected_url)): nothing happens and no effect
    /// comes back when the cursor is over no item; otherwise this is
    /// [`set_workflow_state_for_url`](Self::set_workflow_state_for_url) on
    /// that item's URL.
    pub fn set_workflow_state_at_cursor(
        &mut self,
        visible: &[usize],
        workspace: &mut Workspace,
        discovery: &mut DiscoveryModel,
        state: WorkflowState,
    ) -> (effects: Vec<Effect>)
        requires
            old(workspace).wf(),
        ensures
            final(workspace).wf(),
            *final(self) == *old(self),
            cursor_state_set(
                *old(self),
                visible@,
                *old(workspace),
                *old(discovery),
                *final(workspace),
                *final(discovery),
                state,
                effects@,
            ),
    {
        let url = match self.selected_url(visible, workspace, discovery) {
            Some(u) => u,
            None => {
                return Vec::new();
            },
        };
        proof {
            let items = items_for_tab_spec(*old(workspace), *old(self), *old(discovery));
            let sel = active_list_spec(*old(self), *old(discovery)).selected as int;
            let k = visible@[sel] as int;
            lemma_url_position_of_member(items, url@, k);
        }
        self.set_workflow_state_for_url(workspace, discovery, url.as_str(), state)
    }
}

// ── Visible rows ────────────────────────────────────────────────────────

/// The item shown at visible row `idx`, where `visible` lists the shown
/// item indices into `items` in row order.
pub open spec fn visible_item(visible: Seq<usize>, items: Seq<FeedItem>, idx: int) -> Option<FeedItem> {
    if 0 <= idx < visible.len() && (visible[idx] as int) < items.len() {
        Some(items[visible[idx] as int])
    } else {
        None
    }
}

/// The item shown at visible row `idx`, if that row exists and names an
/// item.
pub fn visible_get<'a>(visible: &[usize], items: &'a [FeedItem], idx: usize) -> (r: Option<
    &'a FeedItem,
>)
    ensures
        r == match visible_item(visible@, items@, idx as int) {
            Some(it) => Some(&it),
            None => None,
        },
{
    if idx < visible.len() && visible[idx] < items.len() {
        Some(&items[visible[idx]])
    } else {
        None
    }
}

/// The items shown at visible rows `start..end`, both bounds clamped to
/// the number of rows.
pub fn visible_window<'a>(visible: &[usize], items: &'a [FeedItem], start: usize, end: usize) -> (r:
    Vec<&'a FeedItem>)
    requires
        forall|k: int| 0 <= k < visible@.len() ==> (#[trigger] visible@[k] as int) < items@.len(),
        (if start < visible@.len() { start as int } else { visible@.len() as int }) <= (if end
            < visible@.len() {
            end as int
        } else {
            visible@.len() as int
        }),
    ensures
        ({
            let s = if start < visible@.len() { start as int } else { visible@.len() as int };
            let e = if end < visible@.len() { end as int } else { visible@.len() as int };
            &&& r@.len() == e - s
            &&& forall|k: int| 0 <= k < r@.len() ==> *r@[k] == items@[visible@[s + k] as int]
        }),
{
    let s = if start < visible.len() {
        start
    } else {
        visible.len()
    };
    let e = if end < visible.len() {
        end
    } else {
        visible.len()
    };
    let mut r: Vec<&'a FeedItem> = Vec::new();
    let mut k: usize = s;
    while k < e
        invariant
            s <= k <= e,
            e <= visible@.len(),
            forall|j: int| 0 <= j < visible@.len() ==> (#[trigger] visible@[j] as int) < items@.len(),
            r@.len() == k - s,
            forall|j: int| 0 <= j < r@.len() ==> *r@[j] == items@[visible@[s + j] as int],
        decreases e - k,
    {
        r.push(&items[visible[k]]);
        k += 1;
    }
    r
}

impl FeedModel {
    /// The item under the cursor of the active tab (see
    /// [`selected_url`](Self::selected_url)).
    pub fn selected_item<'a>(
        &'a self,
        visible: &[usize],
        workspace: &'a Workspace,
        discovery: &'a DiscoveryModel,
    ) -> (r: Option<&'a FeedItem>)
        ensures
            r == match visible_item(
                visible@,
                items_for_tab_spec(*workspace, *self, *discovery),
                active_list_spec(*self, *discovery).selected as int,
            ) {
                Some(it) => Some(&it),
                None => None,
            },
    {
        let items = items_for_tab(workspace, self, discovery);
        let sel = self.active_list(discovery).selected();
        visible_get(visible, items, sel)
    }
}

// ── Cursor navigation ───────────────────────────────────────────────────

/// A list after `set_count(count)` then `set_selected(value)`: both the
/// stale selection and the new one are clamped into the `count` rows, and
/// the window follows the cursor.
pub open spec fn select_row(l: ListView, count: nat, value: nat) -> ListView {
    let s1 = clamp_selection(l.selected, count);
    let o1 = visible_offset(s1, l.offset, l.viewport);
    let s2 = clamp_selection(value, count);
    ListView { selected: s2, offset: visible_offset(s2, o1, l.viewport), count, viewport: l.viewport }
}

/// The active tab's list became `l` and nothing else of the feed model or
/// of the discovery model changed.
pub open spec fn active_list_becomes(
    f0: FeedModel,
    d0: DiscoveryModel,
    f1: FeedModel,
    d1: DiscoveryModel,
    l: ListView,
) -> bool {
    match f0.feed_tab {
        FeedTab::Inbox | FeedTab::Browse => f1.inbox_list@ == l && f1 == (FeedModel {
            inbox_list: f1.inbox_list,
            ..f0
        }) && d1 == d0,
        FeedTab::Library => f1.library_list@ == l && f1 == (FeedModel {
            library_list: f1.library_list,
            ..f0
        }) && d1 == d0,
        FeedTab::Discoveries => d1.list@ == l && d1 == (DiscoveryModel { list: d1.list, ..d0 })
            && f1 == f0,
        FeedTab::History => f1.history_list@ == l && f1 == (FeedModel {
            history_list: f1.history_list,
            ..f0
        }) && d1 == d0,
    }
}

fn select_row_in(list: &mut ListState, count: usize, value: usize)
    ensures
        final(list)@ == select_row(old(list)@, count as nat, value as nat),
{
    list.set_count(count);
    list.set_selected(value);
}

/// The row the cursor lands on for `move_down` over `count` rows.
pub open spec fn row_below(selected: nat, count: nat) -> nat {
    if selected + 1 < count {
        selected + 1
    } else {
        (count - 1) as nat
    }
}

impl FeedModel {
    /// The cursor row of the active tab.
    pub fn active_selected_index(&self, discovery: &DiscoveryModel) -> (r: usize)
        ensures
            r == active_list_spec(*self, *discovery).selected,
    {
        self.active_list(discovery).selected()
    }

    /// Put the cursor of the active tab on row `value` of its `count`
    /// visible rows (the row count is synced first, so the cursor is
    /// clamped to the current length rather than a stale one).
    pub fn set_active_selected_index(
        &mut self,
        discovery: &mut DiscoveryModel,
        count: usize,
        value: usize,
    )
        ensures
            active_list_becomes(
                *old(self),
                *old(discovery),
                *final(self),
                *final(discovery),
                select_row(active_list_spec(*old(self), *old(discovery)), count as nat, value as nat),
            ),
    {
        match self.feed_tab {
            FeedTab::Inbox | FeedTab::Browse => select_row_in(&mut self.inbox_list, count, value),
            FeedTab::Library => select_row_in(&mut self.library_list, count, value),
            FeedTab::Discoveries => select_row_in(&mut discovery.list, count, value),
            FeedTab::History => select_row_in(&mut self.history_list, count, value),
        }
    }

    /// Set the first row of the active tab's window.
    pub fn set_active_list_offset(&mut self, discovery: &mut DiscoveryModel, value: usize)
        ensures
            ({
                let l = active_list_spec(*old(self), *old(discovery));
                active_list_becomes(
                    *old(self),
                    *old(discovery),
                    *final(self),
                    *final(discovery),
                    ListView { offset: value as nat, ..l },
                )
            }),
    {
        match self.feed_tab {
            FeedTab::Inbox | FeedTab::Browse => self.inbox_list.set_offset(value),
            FeedTab::Library => self.library_list.set_offset(value),
            FeedTab::Discoveries => discovery.list.set_offset(value),
            FeedTab::History => self.history_list.set_offset(value),
        }
    }

    /// Cursor one row down among `count` visible rows, stopping at the last;
    /// nothing happens when there are no rows.
    pub fn move_down(&mut self, discovery: &mut DiscoveryModel, count: usize)
        ensures
            count == 0 ==> *final(self) == *old(self) && *final(discovery) == *old(discovery),
            count > 0 ==> {
                let l = active_list_spec(*old(self), *old(discovery));
                active_list_becomes(
                    *old(self),
                    *old(discovery),
                    *final(self),
                    *final(discovery),
                    select_row(l, count as nat, row_below(l.selected, count as nat)),
                )
            },
            count > 0 ==> active_list_spec(*final(self), *final(discovery)).selected == row_below(
                active_list_spec(*old(self), *old(discovery)).selected,
                count as nat,
            ),
    {
        if count == 0 {
            return;
        }
        let cur = self.active_selected_index(discovery);
        let next = if cur < count - 1 {
            cur + 1
        } else {
            count - 1
        };
        self.set_active_selected_index(discovery, count, next);
    }

    /// Cursor one row up, stopping at the first.
    pub fn move_up(&mut self, discovery: &mut DiscoveryModel, count: usize)
        ensures
            ({
                let l = active_list_spec(*old(self), *old(discovery));
                let up = if l.selected > 0 {
                    (l.selected - 1) as nat
                } else {
                    0
                };
                &&& active_list_becomes(
                    *old(self),
                    *old(discovery),
                    *final(self),
                    *final(discovery),
                    select_row(l, count as nat, up),
                )
                &&& active_list_spec(*final(self), *final(discovery)).selected == clamp_selection(
                    up,
                    count as nat,
                )
            }),
    {
        let cur = self.active_selected_index(discovery);
        let up = if cur > 0 {
            cur - 1
        } else {
            0
        };
        self.set_active_selected_index(discovery, count, up);
    }

    /// Cursor to the first row.
    pub fn go_to_top(&mut self, discovery: &mut DiscoveryModel, count: usize)
        ensures
            active_list_becomes(
                *old(self),
                *old(discovery),
                *final(self),
                *final(discovery),
                select_row(active_list_spec(*old(self), *old(discovery)), count as nat, 0),
            ),
            active_list_spec(*final(self), *final(discovery)).selected == 0,
    {
        self.set_active_selected_index(discovery, count, 0);
    }

    /// Cursor to the last of `count` rows; nothing happens without rows.
    pub fn go_to_bottom(&mut self, discovery: &mut DiscoveryModel, count: usize)
        ensures
            count == 0 ==> *final(self) == *old(self) && *final(discovery) == *old(discovery),
            count > 0 ==> active_list_becomes(
                *old(self),
                *old(discovery),
                *final(self),
                *final(discovery),
                select_row(
                    active_list_spec(*old(self), *old(discovery)),
                    count as nat,
                    (count - 1) as nat,
                ),
            ),
            count > 0 ==> active_list_spec(*final(self), *final(discovery)).selected == count - 1,
    {
        if count > 0 {
            self.set_active_selected_index(discovery, count, count - 1);
        }
    }

    /// Back to the top of the active tab: cursor on the first of `count`
    /// rows and the window scrolled to the start.
    pub fn reset_active_feed_position(&mut self, discovery: &mut DiscoveryModel, count: usize)
        ensures
            ({
                let l = select_row(active_list_spec(*old(self), *old(discovery)), count as nat, 0);
                active_list_becomes(
                    *old(self),
                    *old(discovery),
                    *final(self),
                    *final(discovery),
                    ListView { offset: 0, ..l },
                )
            }),
    {
        self.set_active_selected_index(discovery, count, 0);
        self.set_active_list_offset(discovery, 0);
    }
}

impl FeedModel {
    /// Activate the filter-panel row under the filter cursor (see
    /// [`FilterState::toggle_at_row`]). The caller resets the feed position
    /// afterwards, against the visible count under the new filters.
    pub fn toggle_filter_at_cursor(&mut self, source_names: &[String], tag_names: &[String])
        requires
            old(self).active_filters.wf(),
            filter_rows(source_names@.len(), tag_names@.len()) <= usize::MAX,
        ensures
            final(self).active_filters.wf(),
            toggled_at_row(
                old(self).active_filters,
                final(self).active_filters,
                old(self).filter_cursor as int,
                source_names@.map_values(|s: String| s@),
                tag_names@.map_values(|s: String| s@),
            ),
            *final(self) == (FeedModel { active_filters: final(self).active_filters, ..*old(self) }),
    {
        let c = self.filter_cursor;
        self.active_filters.toggle_at_row(c, source_names, tag_names);
    }

    /// Turn every filter toggle off.
    pub fn clear_filters(&mut self)
        ensures
            final(self).active_filters.wf(),
            final(self).active_filters.is_empty_spec(),
            *final(self) == (FeedModel { active_filters: final(self).active_filters, ..*old(self) }),
    {
        self.active_filters = FilterState::new();
    }

    /// Filter cursor one row down among `total` rows, stopping at the last.
    pub fn filter_cursor_down(&mut self, total: usize)
        requires
            old(self).filter_cursor < usize::MAX,
        ensures
            final(self).filter_cursor == if old(self).filter_cursor + 1 < total {
                old(self).filter_cursor + 1
            } else if total > 0 {
                total - 1
            } else {
                0
            },
            *final(self) == (FeedModel { filter_cursor: final(self).filter_cursor, ..*old(self) }),
    {
        let max = if total > 0 {
            total - 1
        } else {
            0
        };
        let next = self.filter_cursor + 1;
        self.filter_cursor = if next < max {
            next
        } else {
            max
        };
    }

    /// Filter cursor one row up, stopping at the first.
    pub fn filter_cursor_up(&mut self)
        ensures
            final(self).filter_cursor == if old(self).filter_cursor > 0 {
                old(self).filter_cursor - 1
            } else {
                0
            },
            *final(self) == (FeedModel { filter_cursor: final(self).filter_cursor, ..*old(self) }),
    {
        if self.filter_cursor > 0 {
            self.filter_cursor = self.filter_cursor - 1;
        }
    }
}

impl FeedModel {
    /// Append `c` to the search query and refresh its lowercase mirror. The
    /// caller resets the feed position against the new visible rows.
    pub fn push_search_char(&mut self, c: char)
        ensures
            final(self).search_query@ == old(self).search_query@.push(c),
            final(self).search_query_lower@ == str_lowercase(final(self).search_query@),
            *final(self) == (FeedModel {
                search_query: final(self).search_query,
                search_query_lower: final(self).search_query_lower,
                ..*old(self)
            }),
    {
        push_char(&mut self.search_query, c);
        self.search_query_lower = lowercase(self.search_query.as_str());
    }

    /// Drop the last character of the search query (if any) and refresh its
    /// lowercase mirror.
    pub fn pop_search_char(&mut self)
        ensures
            final(self).search_query@ == if old(self).search_query@.len() > 0 {
                old(self).search_query@.drop_last()
            } else {
                old(self).search_query@
            },
            final(self).search_query_lower@ == str_lowercase(final(self).search_query@),
            *final(self) == (FeedModel {
                search_query: final(self).search_query,
                search_query_lower: final(self).search_query_lower,
                ..*old(self)
            }),
    {
        let _ = pop_char(&mut self.search_query);
        self.search_query_lower = lowercase(self.search_query.as_str());
    }

    /// Empty the search query and its mirror.
    pub fn clear_search_query(&mut self)
        ensures
            final(self).search_query@.len() == 0,
            final(self).search_query_lower@ == str_lowercase(final(self).search_query@),
            *final(self) == (FeedModel {
                search_query: final(self).search_query,
                search_query_lower: final(self).search_query_lower,
                ..*old(self)
            }),
    {
        self.search_query = String::new();
        self.search_query_lower = lowercase(self.search_query.as_str());
    }
}

/// A key the search bar reads.
#[derive(Clone, Copy, Debug, PartialEq, Eq, Structural)]
pub enum SearchBarKey {
    Esc,
    Enter,
    Backspace,
    Char(char),
    Other,
}

/// The workflow state a gesture key sets: `i` inbox, `r` deep read,
/// `w` queued, `x` archived.
pub open spec fn gesture_state_spec(c: char) -> Option<WorkflowState> {
    if c == 'i' {
        Some(WorkflowState::Inbox)
    } else if c == 'r' {
        Some(WorkflowState::DeepRead)
    } else if c == 'w' {
        Some(WorkflowState::Queued)
    } else if c == 'x' {
        Some(WorkflowState::Archived)
    } else {
        None
    }
}

/// The workflow state a gesture key sets, if it is a gesture key.
pub fn gesture_state(c: char) -> (r: Option<WorkflowState>)
    ensures
        r == gesture_state_spec(c),
{
    if c == 'i' {
        Some(WorkflowState::Inbox)
    } else if c == 'r' {
        Some(WorkflowState::DeepRead)
    } else if c == 'w' {
        Some(WorkflowState::Queued)
    } else if c == 'x' {
        Some(WorkflowState::Archived)
    } else {
        None
    }
}

/// `f1` and `reset` are what a search-bar `key` makes of `f0` (see
/// [`FeedModel::search_bar_key`]).
pub open spec fn search_key_spec(f0: FeedModel, f1: FeedModel, key: SearchBarKey, reset: bool) -> bool {
    match key {
        SearchBarKey::Esc => !f1.search_active && f1.search_query@.len()
            == 0 && f1.search_query_lower@ == str_lowercase(f1.search_query@) && f1 == (
        FeedModel {
            search_active: false,
            search_query: f1.search_query,
            search_query_lower: f1.search_query_lower,
            ..f0
        }) && reset,
        SearchBarKey::Enter => f1 == (FeedModel {
            search_active: false,
            ..f0
        }) && !reset,
        SearchBarKey::Backspace => f1.search_query@ == (
        if f0.search_query@.len() > 0 {
            f0.search_query@.drop_last()
        } else {
            f0.search_query@
        }) && f1.search_query_lower@ == str_lowercase(f1.search_query@)
            && f1 == (FeedModel {
            search_query: f1.search_query,
            search_query_lower: f1.search_query_lower,
            ..f0
        }) && reset,
        SearchBarKey::Char(c) => f1.search_query@ == f0.search_query@.push(c)
            && f1.search_query_lower@ == str_lowercase(f1.search_query@)
            && f1 == (FeedModel {
            search_query: f1.search_query,
            search_query_lower: f1.search_query_lower,
            ..f0
        }) && reset,
        SearchBarKey::Other => f1 == f0 && !reset,
    }
}

impl FeedModel {
    /// A key typed into the focused search bar: `Esc` leaves search and
    /// clears the query, `Enter` leaves search keeping it, `Backspace` and
    /// characters edit the query. Returns whether the feed position must
    /// be reset (against the rows the new query shows).
    pub fn search_bar_key(&mut self, key: SearchBarKey) -> (reset: bool)
        ensures
            search_key_spec(*old(self), *final(self), key, reset),
    {
        match key {
            SearchBarKey::Esc => {
                self.exit_search();
                self.clear_search_query();
                true
            },
            SearchBarKey::Enter => {
                self.exit_search();
                false
            },
            SearchBarKey::Backspace => {
                self.pop_search_char();
                true
            },
            SearchBarKey::Char(c) => {
                self.push_search_char(c);
                true
            },
            SearchBarKey::Other => false,
        }
    }

    /// A workflow gesture key: when `key` is one (see
    /// [`gesture_state`]), set that state on the item under the cursor
    /// (see [`set_workflow_state_at_cursor`](Self::set_workflow_state_at_cursor))
    /// and return its effects; `None` and no change otherwise.
    pub fn handle_workflow_gesture(
        &mut self,
        key: char,
        visible: &[usize],
        workspace: &mut Workspace,
        discovery: &mut DiscoveryModel,
    ) -> (r: Option<Vec<Effect>>)
        requires
            old(workspace).wf(),
        ensures
            final(workspace).wf(),
            *final(self) == *old(self),
            gesture_state_spec(key) is None ==> r is None && *final(workspace) == *old(workspace)
                && *final(discovery) == *old(discovery),
            gesture_state_spec(key) matches Some(st) ==> r matches Some(effects) && cursor_state_set(
                *old(self),
                visible@,
                *old(workspace),
                *old(discovery),
                *final(workspace),
                *final(discovery),
                st,
                effects@,
            ),
    {
        match gesture_state(key) {
            Some(st) => Some(self.set_workflow_state_at_cursor(visible, workspace, discovery, st)),
            None => None,
        }
    }
}

/// Law: one row down then one row up comes back to the same row whenever
/// the cursor is above the last row.
pub proof fn lemma_move_down_up_round_trip(selected: nat, count: nat)
    requires
        selected + 1 < count,
    ensures
        ({
            let down = clamp_selection(row_below(selected, count), count);
            clamp_selection((down - 1) as nat, count) == selected
        }),
{
}

// ── Subject follow ──────────────────────────────────────────────────────

/// The first category in `cs` whose name is `tag`, ignoring ASCII case.
pub open spec fn find_name_ci(cs: Seq<Category>, tag: Seq<char>) -> Option<Category>
    decreases cs.len(),
{
    if cs.len() == 0 {
        None
    } else if eq_ignore_ascii_case(cs[0].name@, tag) {
        Some(cs[0])
    } else {
        find_name_ci(cs.drop_first(), tag)
    }
}

/// The category code a tag stands for: the tag itself when it is a
/// category code, else the code of the first category named like it.
pub open spec fn category_code_for_tag(tag: Seq<char>) -> Option<&'static str> {
    match find_code(all_categories_spec(), tag) {
        Some(c) => Some(c.code),
        None => match find_name_ci(all_categories_spec(), tag) {
            Some(c) => Some(c.code),
            None => None,
        },
    }
}

/// The id of the first archive in `keys` whose id or name is `tag`,
/// ignoring ASCII case.
pub open spec fn find_archive_ci(keys: Seq<(&'static str, &'static str)>, tag: Seq<char>) -> Option<
    &'static str,
>
    decreases keys.len(),
{
    if keys.len() == 0 {
        None
    } else if eq_ignore_ascii_case(keys[0].0@, tag) || eq_ignore_ascii_case(keys[0].1@, tag) {
        Some(keys[0].0)
    } else {
        find_archive_ci(keys.drop_first(), tag)
    }
}

/// The archive id a tag stands for (an archive id or name, any case).
pub open spec fn archive_id_for_tag(tag: Seq<char>) -> Option<&'static str> {
    find_archive_ci(all_archive_keys(), tag)
}

/// The category code `tag` stands for, if any.
pub fn taxonomy_category_code_for_tag(tag: &str) -> (r: Option<&'static str>)
    ensures
        r == category_code_for_tag(tag@),
{
    match find_category(tag) {
        Some(c) => Some(c.code),
        None => {
            let cats = all_categories_vec();
            assert(cats@.subrange(0, cats@.len() as int) == cats@);
            let mut i: usize = 0;
            while i < cats.len()
                invariant
                    i <= cats@.len(),
                    cats@ == all_categories_spec(),
                    find_code(all_categories_spec(), tag@) is None,
                    find_name_ci(cats@, tag@) == find_name_ci(
                        cats@.subrange(i as int, cats@.len() as int),
                        tag@,
                    ),
                decreases cats@.len() - i,
            {
                let ghost rest = cats@.subrange(i as int, cats@.len() as int);
                assert(rest.drop_first() == cats@.subrange(i + 1, cats@.len() as int));
                assert(rest[0] == cats@[i as int]);
                if str_eq_ignore_ascii_case(cats[i].name, tag) {
                    return Some(cats[i].code);
                }
                i += 1;
            }
            None
        },
    }
}

/// The archive id `tag` stands for, if any.
pub fn taxonomy_archive_id_for_tag(tag: &str) -> (r: Option<&'static str>)
    ensures
        r == archive_id_for_tag(tag@),
{
    let keys = all_archive_keys_vec();
    assert(keys@.subrange(0, keys@.len() as int) == keys@);
    let mut i: usize = 0;
    while i < keys.len()
        invariant
            i <= keys@.len(),
            keys@ == all_archive_keys(),
            find_archive_ci(keys@, tag@) == find_archive_ci(
                keys@.subrange(i as int, keys@.len() as int),
                tag@,
            ),
        decreases keys@.len() - i,
    {
        let ghost rest = keys@.subrange(i as int, keys@.len() as int);
        assert(rest.drop_first() == keys@.subrange(i + 1, keys@.len() as int));
        assert(rest[0] == keys@[i as int]);
        let (id, name) = keys[i];
        if str_eq_ignore_ascii_case(id, tag) || str_eq_ignore_ascii_case(name, tag) {
            return Some(id);
        }
        i += 1;
    }
    None
}

/// Subject-follow predicate: which items the Subject Browser's drill
/// point lets through.
#[derive(Clone, Copy, Debug)]
pub enum SubjectScope {
    /// Items tagged with any code under this archive: the bare archive id
    /// or any `archive_id.*`.
    Archive(&'static str),
    /// Items tagged with exactly this category code.
    Category(&'static str),
}

/// A tag lies in archive `id`: it is the id, a code under it, names the
/// archive, or names a category whose code is or lies under the id.
pub open spec fn tag_in_archive(t: Seq<char>, id: Seq<char>) -> bool {
    let prefix = id.push('.');
    ||| t == id
    ||| has_prefix(t, prefix)
    ||| (archive_id_for_tag(t) matches Some(a) && a@ == id)
    ||| (category_code_for_tag(t) matches Some(c) && (c@ == id || has_prefix(c@, prefix)))
}

/// A tag is category `code`, or names it.
pub open spec fn tag_in_category(t: Seq<char>, code: Seq<char>) -> bool {
    ||| t == code
    ||| (category_code_for_tag(t) matches Some(c) && c@ == code)
}

impl SubjectScope {
    pub open spec fn tag_matches(self, t: Seq<char>) -> bool {
        match self {
            SubjectScope::Archive(id) => tag_in_archive(t, id@),
            SubjectScope::Category(code) => tag_in_category(t, code@),
        }
    }

    /// Some domain tag of the item lies in the scope.
    pub open spec fn matches_spec(self, item: FeedItem) -> bool {
        exists|i: int| 0 <= i < item.domain_tags@.len() && self.tag_matches(#[trigger] item.domain_tags@[i]@)
    }

    fn tag_matches_exec(&self, t: &str) -> (r: bool)
        ensures
            r == self.tag_matches(t@),
    {
        match self {
            SubjectScope::Archive(id) => {
                let mut prefix = to_owned_string(id);
                push_char(&mut prefix, '.');
                str_eq(t, id) || str_starts_with(t, prefix.as_str()) || match taxonomy_archive_id_for_tag(t) {
                    Some(a) => str_eq(a, id),
                    None => false,
                } || match taxonomy_category_code_for_tag(t) {
                    Some(c) => str_eq(c, id) || str_starts_with(c, prefix.as_str()),
                    None => false,
                }
            },
            SubjectScope::Category(code) => {
                str_eq(t, code) || match taxonomy_category_code_for_tag(t) {
                    Some(c) => str_eq(c, code),
                    None => false,
                }
            },
        }
    }

    /// Whether the item lies in the scope.
    pub fn matches(&self, item: &FeedItem) -> (r: bool)
        ensures
            r == self.matches_spec(*item),
    {
        let n = item.domain_tags.len();
        let mut i: usize = 0;
        while i < n
            invariant
                n == item.domain_tags@.len(),
                i <= n,
                forall|k: int| 0 <= k < i ==> !self.tag_matches(#[trigger] item.domain_tags@[k]@),
            decreases n - i,
        {
            if self.tag_matches_exec(item.domain_tags[i].as_str()) {
                return true;
            }
            i += 1;
        }
        false
    }
}

/// The scope the rail's drill point selects: the highlighted archive at
/// depth 1, the highlighted category at depth 2, everything otherwise.
pub open spec fn subject_scope_spec(path: Seq<RailNode>, sel: int) -> SubjectScope {
    let by_archive = if path.len() == 1 {
        match path_group(path) {
            Some(g) => match at_or_first(g.archives, sel) {
                Some(a) => Some(SubjectScope::Archive(a.id)),
                None => None,
            },
            None => None,
        }
    } else {
        None
    };
    let by_category = if path.len() == 2 {
        match path_archive(path) {
            Some(ar) => match at_or_first(ar.categories, sel) {
                Some(c) => Some(SubjectScope::Category(c.code)),
                None => None,
            },
            None => None,
        }
    } else {
        None
    };
    match by_archive {
        Some(s) => s,
        None => match by_category {
            Some(s) => s,
            None => SubjectScope::Archive(""),
        },
    }
}

/// The subject-follow scope of the rail's current drill point.
pub fn subject_follow_scope(browse: &BrowseModel) -> (r: SubjectScope)
    ensures
        r == subject_scope_spec(browse.rail_path@, browse.rail_cursor@.selected as int),
{
    if browse.rail_path.len() == 1 {
        if let Some(a) = browse.rail_selected_archive() {
            return SubjectScope::Archive(a.id);
        }
    }
    if let Some(c) = browse.rail_selected_category() {
        return SubjectScope::Category(c.code);
    }
    SubjectScope::Archive("")
}

// ── Sort modes ──────────────────────────────────────────────────────────

/// The visible indices under a sort mode (the Trending view under a given
/// cutoff date).
pub open spec fn sort_mode_spec(
    s: Seq<usize>,
    items: Seq<FeedItem>,
    mode: FeedSortMode,
    seed: u64,
    cutoff: Seq<char>,
) -> Seq<usize> {
    match mode {
        FeedSortMode::Dated => s,
        FeedSortMode::Random => shuffle_spec(s, seed),
        FeedSortMode::Popular => sort_by_upvotes_spec(s, items),
        FeedSortMode::Trending => trending_spec(s, items, cutoff),
    }
}

/// Apply a sort mode to filtered indices into `items`, with the Trending
/// cutoff date given (`YYYY-MM-DD`).
pub fn apply_sort_mode_at(
    indices: &mut Vec<usize>,
    items: &[FeedItem],
    mode: FeedSortMode,
    random_seed: u64,
    cutoff: &str,
)
    requires
        (mode == FeedSortMode::Popular || mode == FeedSortMode::Trending) ==> in_range(
            old(indices)@,
            items@,
        ),
    ensures
        final(indices)@ == sort_mode_spec(old(indices)@, items@, mode, random_seed, cutoff@),
        mode != FeedSortMode::Trending ==> final(indices)@.to_multiset() == old(
            indices,
        )@.to_multiset(),
        (mode == FeedSortMode::Popular || mode == FeedSortMode::Trending) ==> sorted_desc(
            final(indices)@,
            items@,
        ),
{
    match mode {
        FeedSortMode::Dated => {},
        FeedSortMode::Random => shuffled(indices, random_seed),
        FeedSortMode::Popular => popular(indices, items),
        FeedSortMode::Trending => trending_since(indices, items, cutoff),
    }
}

/// Apply the active sort mode to filtered indices into `items`: `Dated`
/// keeps the order, `Random` shuffles by the session seed, `Popular`
/// sorts by upvotes (stable), `Trending` keeps the last 14 days' items,
/// then sorts by upvotes (when the clock gives no date, the empty cutoff
/// keeps every item).
pub fn apply_sort_mode(
    indices: &mut Vec<usize>,
    items: &[FeedItem],
    mode: FeedSortMode,
    random_seed: u64,
)
    requires
        (mode == FeedSortMode::Popular || mode == FeedSortMode::Trending) ==> in_range(
            old(indices)@,
            items@,
        ),
    ensures
        mode != FeedSortMode::Trending ==> final(indices)@ == sort_mode_spec(
            old(indices)@,
            items@,
            mode,
            random_seed,
            Seq::empty(),
        ),
        mode == FeedSortMode::Trending ==> exists|cutoff: Seq<char>|
            final(indices)@ == trending_spec(old(indices)@, items@, cutoff),
        mode != FeedSortMode::Trending ==> final(indices)@.to_multiset() == old(
            indices,
        )@.to_multiset(),
        (mode == FeedSortMode::Popular || mode == FeedSortMode::Trending) ==> sorted_desc(
            final(indices)@,
            items@,
        ),
{
    if mode == FeedSortMode::Trending {
        match trending_cutoff() {
            Some(cutoff) => apply_sort_mode_at(indices, items, mode, random_seed, cutoff.as_str()),
            None => apply_sort_mode_at(indices, items, mode, random_seed, ""),
        }
    } else {
        apply_sort_mode_at(indices, items, mode, random_seed, "");
    }
}

/// The feed tab that shows items in workflow state `state`.
pub open spec fn workspace_feed_tab_spec(state: WorkflowState) -> FeedTab {
    match state {
        WorkflowState::Inbox => FeedTab::Inbox,
        _ => FeedTab::Library,
    }
}

/// The tab an item in workflow state `state` is listed under: Inbox for
/// inbox items, Library for every other state.
pub fn workspace_feed_tab(state: WorkflowState) -> (t: FeedTab)
    ensures
        t == workspace_feed_tab_spec(state),
{
    match state {
        WorkflowState::Inbox => FeedTab::Inbox,
        WorkflowState::Queued | WorkflowState::DeepRead | WorkflowState::Archived => FeedTab::Library,
    }
}

// ── Laws ────────────────────────────────────────────────────────────────

/// Law: walking back one tab undoes walking forward one tab, and the
/// other way round.
pub proof fn lemma_cycle_tab_round_trip(t: FeedTab)
    ensures
        prev_tab(next_tab(t)) == t,
        next_tab(prev_tab(t)) == t,
{
}

/// Law: five steps forward through the tabs come back to the start.
pub proof fn lemma_cycle_tab_wraps(t: FeedTab)
    ensures
        next_tab(next_tab(next_tab(next_tab(next_tab(t))))) == t,
{
}

/// Law: after frame reconciliation the cursor is on screen — the window
/// starts at or before it and covers it — whenever the viewport has rows
/// and at most one more item than it has rows fits into it.
pub proof fn lemma_pre_draw_keeps_cursor_visible(l: ListView, rows: nat, total: nat, fit: nat)
    requires
        rows > 0,
        fit <= rows + 1,
    ensures
        pre_draw_list(l, rows, total, fit).offset <= pre_draw_list(l, rows, total, fit).selected,
        pre_draw_list(l, rows, total, fit).selected < pre_draw_list(l, rows, total, fit).offset
            + rows,
{
}

/// Law: frame reconciliation leaves the cursor where it was when it is
/// already a row of the list (only the window moves).
pub proof fn lemma_pre_draw_keeps_selection(l: ListView, rows: nat, total: nat, fit: nat)
    requires
        l.selected < total,
    ensures
        pre_draw_list(l, rows, total, fit).selected == l.selected,
        pre_draw_list(l, rows, total, fit).count == total,
        pre_draw_list(l, rows, total, fit).viewport == rows,
{
}

} // verus!
