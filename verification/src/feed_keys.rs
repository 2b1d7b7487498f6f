//! Keys of the feed view, after the tab-specific handlers (History rows,
//! Library chips and visual mode, the Discoveries search bar) have had
//! their turn: what each key does to the feed's state, and what it asks
//! of the caller (popups, opening a paper, a refresh, ...).

use vstd::prelude::*;

use crate::feed::{
    active_list_becomes, active_list_spec, cursor_state_set, gesture_state, gesture_state_spec,
    items_for_tab, items_for_tab_spec, next_tab, prev_tab, row_below, search_key_spec, select_row,
    visible_get, visible_item, FeedModel, SearchBarKey,
};
use crate::primitives::list_state::ListView;
use crate::primitives::scroll_state::{ScrollState, ScrollView};
use crate::state::feed::FeedTab;
use crate::text::str_lowercase;
use crate::messages::Effect;
use crate::models::FeedItem;
use crate::state::discovery::DiscoveryModel;
use crate::state::feed::{filter_rows, toggled_at_row};
use crate::state::timing::DebounceState;
use crate::text::{str_eq, to_owned_string, views};
use crate::history::{HistoryEntry, HistoryKind};
use crate::workspace::Workspace;

verus! {

/// A key of the feed view.
#[derive(Clone, Copy, Debug, PartialEq, Eq, Structural)]
pub enum FeedKey {
    Tab,
    BackTab,
    Esc,
    Enter,
    Backspace,
    Up,
    Down,
    Left,
    Right,
    PageUp,
    PageDown,
    Char(char),
    Other,
}

/// What the caller does after a feed key.
pub enum FeedAction {
    /// Nothing beyond the state change.
    Nothing,
    /// Reset the active tab's position against the rows it now shows.
    ResetPosition,
    /// The cursor moved: reset the details scroll, clear the notification.
    CursorMoved,
    ShowQuitPopup,
    /// Clear the notification and the status message.
    ClearMessages,
    /// Show the abstract of the item under the cursor.
    OpenAbstract,
    /// Open this URL in the reader.
    OpenPaper(String),
    /// Open this URL in the browser; the title is for the notification.
    OpenInBrowser(String, String),
    /// A refresh is already running.
    AlreadyRefreshing,
    /// Start a refresh.
    Refresh,
    /// The item under the cursor has no repository.
    NoRepoLinked,
    /// Open the repository viewer on this owner and repository.
    OpenRepo(String, String),
    /// A workflow gesture ran; route these effects and save the states.
    WorkflowChanged(Vec<Effect>),
}

/// The parts of the application state the feed keys read.
pub struct FeedKeyContext {
    /// The feed pane has focus.
    pub feed_focused: bool,
    /// The reader is split, with the narrow feed beside it (its keys are
    /// handled elsewhere).
    pub split_active: bool,
    /// A refresh or a load is running.
    pub refreshing: bool,
    /// A full-text fetch is running.
    pub fulltext_loading: bool,
}

/// The view of an optional string.
pub open spec fn opt_chars(o: Option<String>) -> Option<Seq<char>> {
    match o {
        Some(s) => Some(s@),
        None => None,
    }
}

/// The item under the cursor of the active tab.
pub open spec fn cursor_item(
    f: FeedModel,
    visible: Seq<usize>,
    ws: Workspace,
    d: DiscoveryModel,
) -> Option<FeedItem> {
    visible_item(visible, items_for_tab_spec(ws, f, d), active_list_spec(f, d).selected as int)
}

/// The cursor row the active tab moves to, and the resulting list.
pub open spec fn moved_to(f0: FeedModel, d0: DiscoveryModel, f1: FeedModel, d1: DiscoveryModel, rows: nat, row: nat) -> bool {
    active_list_becomes(f0, d0, f1, d1, select_row(active_list_spec(f0, d0), rows, row))
}

/// The filter panel's reaction to `key` (`accepted` is the debounce
/// gate's answer for `j`/`k` moves).
pub open spec fn filter_key_spec(
    f0: FeedModel,
    f1: FeedModel,
    key: FeedKey,
    src: Seq<Seq<char>>,
    tags: Seq<Seq<char>>,
    accepted: bool,
    reset: bool,
) -> bool {
    let total = filter_rows(src.len(), tags.len());
    if key == FeedKey::Down || key == FeedKey::Char('j') {
        !reset && f1 == (FeedModel {
            filter_cursor: if accepted {
                (if f0.filter_cursor + 1 < total {
                    f0.filter_cursor + 1
                } else if total > 0 {
                    total - 1
                } else {
                    0
                }) as usize
            } else {
                f0.filter_cursor
            },
            ..f0
        })
    } else if key == FeedKey::Up || key == FeedKey::Char('k') {
        !reset && f1 == (FeedModel {
            filter_cursor: if accepted && f0.filter_cursor > 0 {
                (f0.filter_cursor - 1) as usize
            } else {
                f0.filter_cursor
            },
            ..f0
        })
    } else if key == FeedKey::Char(' ') {
        reset && toggled_at_row(f0.active_filters, f1.active_filters, f0.filter_cursor as int, src, tags)
            && f1.active_filters.wf() && f1 == (FeedModel { active_filters: f1.active_filters, ..f0 })
    } else if key == FeedKey::Char('c') {
        reset && f1.active_filters.is_empty_spec() && f1.active_filters.wf() && f1 == (FeedModel {
            active_filters: f1.active_filters,
            ..f0
        })
    } else if key == FeedKey::Char('f') || key == FeedKey::Tab {
        !reset && f1 == (FeedModel { filter_focus: false, ..f0 })
    } else if key == FeedKey::Esc {
        reset && f1.active_filters.is_empty_spec() && f1.active_filters.wf() && f1 == (FeedModel {
            active_filters: f1.active_filters,
            filter_focus: false,
            ..f0
        })
    } else {
        !reset && f1 == f0
    }
}

impl FeedModel {
    /// A key while the filter panel has focus: `j`/`k` (or the arrows)
    /// move its cursor when the keyboard debounce lets them, space toggles
    /// the row under the cursor, `c` clears every toggle, `f`/`Tab` leave
    /// the panel, `Esc` clears and leaves. Returns whether the feed
    /// position must be reset. `source_names` and `tag_names` are the
    /// panel's source and tag rows.
    pub fn filter_panel_key(
        &mut self,
        key: FeedKey,
        source_names: &[String],
        tag_names: &[String],
        debounce: &mut DebounceState,
    ) -> (reset: bool)
        requires
            old(self).active_filters.wf(),
            old(self).filter_cursor < usize::MAX,
            filter_rows(source_names@.len(), tag_names@.len()) <= usize::MAX,
        ensures
            final(self).active_filters.wf(),
            exists|accepted: bool|
                #[trigger] filter_key_spec(
                    *old(self),
                    *final(self),
                    key,
                    views(source_names@),
                    views(tag_names@),
                    accepted,
                    reset,
                ) && (old(debounce).last_kbd.is_none() ==> accepted),
            !(key == FeedKey::Down || key == FeedKey::Char('j') || key == FeedKey::Up || key
                == FeedKey::Char('k')) ==> *final(debounce) == *old(debounce),
    {
        let ghost src = views(source_names@);
        let ghost tags = views(tag_names@);
        if key == FeedKey::Down || key == FeedKey::Char('j') {
            let ok = debounce.try_kbd_scroll();
            if ok {
                let total = crate::state::feed::filter_total_items(
                    source_names.len(),
                    tag_names.len(),
                );
                self.filter_cursor_down(total);
            }
            assert(filter_key_spec(*old(self), *self, key, src, tags, ok, false));
            false
        } else if key == FeedKey::Up || key == FeedKey::Char('k') {
            let ok = debounce.try_kbd_scroll();
            if ok {
                self.filter_cursor_up();
            }
            assert(filter_key_spec(*old(self), *self, key, src, tags, ok, false));
            false
        } else if key == FeedKey::Char(' ') {
            self.toggle_filter_at_cursor(source_names, tag_names);
            assert(filter_key_spec(*old(self), *self, key, src, tags, true, true));
            true
        } else if key == FeedKey::Char('c') {
            self.clear_filters();
            assert(filter_key_spec(*old(self), *self, key, src, tags, true, true));
            true
        } else if key == FeedKey::Char('f') || key == FeedKey::Tab {
            self.exit_filter_focus();
            assert(filter_key_spec(*old(self), *self, key, src, tags, true, false));
            false
        } else if key == FeedKey::Esc {
            self.clear_filters();
            self.exit_filter_focus();
            assert(filter_key_spec(*old(self), *self, key, src, tags, true, true));
            true
        } else {
            assert(filter_key_spec(*old(self), *self, key, src, tags, true, false));
            false
        }
    }
}


/// Nothing changed.
pub open spec fn untouched(
    f0: FeedModel,
    d0: DiscoveryModel,
    w0: Workspace,
    f1: FeedModel,
    d1: DiscoveryModel,
    w1: Workspace,
) -> bool {
    f1 == f0 && d1 == d0 && w1 == w0
}

/// The feed pane's reaction to `key` (`accepted` is the debounce gate's
/// answer for `j`/`k` moves; `rows` is the number of rows the active tab
/// lists, `visible` its visible item indices).
pub open spec fn pane_key_spec(
    f0: FeedModel,
    d0: DiscoveryModel,
    w0: Workspace,
    f1: FeedModel,
    d1: DiscoveryModel,
    w1: Workspace,
    key: FeedKey,
    ctx: FeedKeyContext,
    visible: Seq<usize>,
    rows: nat,
    accepted: bool,
    a: FeedAction,
) -> bool {
    let same = untouched(f0, d0, w0, f1, d1, w1);
    let sel = active_list_spec(f0, d0).selected;
    let len = visible.len();
    let item = cursor_item(f0, visible, w0, d0);
    if key == FeedKey::Tab {
        a is ResetPosition && f1 == (FeedModel { feed_tab: next_tab(f0.feed_tab), ..f0 }) && d1
            == d0 && w1 == w0
    } else if key == FeedKey::BackTab {
        a is ResetPosition && f1 == (FeedModel { feed_tab: prev_tab(f0.feed_tab), ..f0 }) && d1
            == d0 && w1 == w0
    } else if key == FeedKey::Char('f') {
        a is Nothing && f1 == (FeedModel { filter_focus: true, ..f0 }) && d1 == d0 && w1 == w0
    } else if key == FeedKey::Char('q') {
        a is ShowQuitPopup && same
    } else if key == FeedKey::Esc {
        a is ClearMessages && same
    } else if key == FeedKey::Down || key == FeedKey::Char('j') {
        if accepted && len > 0 {
            a is CursorMoved && moved_to(f0, d0, f1, d1, rows, row_below(sel, len)) && w1 == w0
        } else {
            a is Nothing && same
        }
    } else if key == FeedKey::Up || key == FeedKey::Char('k') {
        if accepted {
            a is CursorMoved && moved_to(
                f0,
                d0,
                f1,
                d1,
                rows,
                if sel > 0 {
                    (sel - 1) as nat
                } else {
                    0
                },
            ) && w1 == w0
        } else {
            a is Nothing && same
        }
    } else if key == FeedKey::Char('g') {
        a is CursorMoved && moved_to(f0, d0, f1, d1, rows, 0) && w1 == w0
    } else if key == FeedKey::Char('G') {
        a is CursorMoved && w1 == w0 && if len > 0 {
            moved_to(f0, d0, f1, d1, rows, (len - 1) as nat)
        } else {
            f1 == f0 && d1 == d0
        }
    } else if key == FeedKey::Char(' ') {
        same && if item is Some {
            a is OpenAbstract
        } else {
            a is Nothing
        }
    } else if key == FeedKey::Enter {
        same && match item {
            Some(it) => if ctx.fulltext_loading {
                a is Nothing
            } else {
                a matches FeedAction::OpenPaper(u) && u@ == it.url@
            },
            None => a is Nothing,
        }
    } else if key == FeedKey::Char('/') {
        a is ResetPosition && f1.search_query@.len() == 0 && f1.search_query_lower@ == str_lowercase(f1.search_query@)
            && f1 == (FeedModel {
            search_active: true,
            search_query: f1.search_query,
            search_query_lower: f1.search_query_lower,
            ..f0
        }) && d1 == d0 && w1 == w0
    } else if key matches FeedKey::Char(c) && gesture_state_spec(c) is Some {
        a matches FeedAction::WorkflowChanged(effects) && f1 == f0 && cursor_state_set(
            f0,
            visible,
            w0,
            d0,
            w1,
            d1,
            gesture_state_spec(key->Char_0).unwrap(),
            effects@,
        )
    } else if key == FeedKey::Char('o') {
        same && match item {
            Some(it) => a matches FeedAction::OpenInBrowser(u, t) && u@ == it.url@ && t@
                == it.title@,
            None => a is Nothing,
        }
    } else if key == FeedKey::Char('R') {
        same && if ctx.refreshing {
            a is AlreadyRefreshing
        } else {
            a is Refresh
        }
    } else if key == FeedKey::Char('v') {
        same && match item {
            Some(it) => match (it.github_owner, it.github_repo_name) {
                (Some(o), Some(r)) => a matches FeedAction::OpenRepo(ao, ar) && ao@ == o@ && ar@
                    == r@,
                _ => a is NoRepoLinked,
            },
            None => a is Nothing,
        }
    } else {
        a is Nothing && same
    }
}

impl FeedModel {
    /// A key while the feed pane has focus (the reader not split):
    /// `Tab`/`BackTab` switch tabs, `f` opens the filter panel, `j`/`k`,
    /// `g`/`G` move the cursor, `/` starts a fresh search, `i`/`r`/`w`/`x`
    /// set the workflow state of the item under the cursor, and the other
    /// keys ask the caller for something (see [`pane_key_spec`]).
    /// `visible` lists the active tab's visible item indices, `rows` the
    /// number of rows the tab lists (the history length on History).
    pub fn feed_pane_key(
        &mut self,
        key: FeedKey,
        ctx: &FeedKeyContext,
        visible: &[usize],
        rows: usize,
        workspace: &mut Workspace,
        discovery: &mut DiscoveryModel,
        debounce: &mut DebounceState,
    ) -> (a: FeedAction)
        requires
            old(workspace).wf(),
        ensures
            final(workspace).wf(),
            exists|accepted: bool|
                #[trigger] pane_key_spec(
                    *old(self),
                    *old(discovery),
                    *old(workspace),
                    *final(self),
                    *final(discovery),
                    *final(workspace),
                    key,
                    *ctx,
                    visible@,
                    rows as nat,
                    accepted,
                    a,
                ) && (old(debounce).last_kbd.is_none() ==> accepted),
            !(key == FeedKey::Down || key == FeedKey::Char('j') || key == FeedKey::Up || key
                == FeedKey::Char('k')) ==> *final(debounce) == *old(debounce),
    {
        let ghost f0 = *self;
        let ghost d0 = *discovery;
        let ghost w0 = *workspace;
        if key == FeedKey::Tab {
            self.cycle_tab();
            assert(pane_key_spec(f0, d0, w0, *self, *discovery, *workspace, key, *ctx, visible@, rows as nat, true, FeedAction::ResetPosition));
            return FeedAction::ResetPosition;
        }
        if key == FeedKey::BackTab {
            self.cycle_tab_back();
            assert(pane_key_spec(f0, d0, w0, *self, *discovery, *workspace, key, *ctx, visible@, rows as nat, true, FeedAction::ResetPosition));
            return FeedAction::ResetPosition;
        }
        if key == FeedKey::Char('f') {
            self.enter_filter_focus();
            assert(pane_key_spec(f0, d0, w0, *self, *discovery, *workspace, key, *ctx, visible@, rows as nat, true, FeedAction::Nothing));
            return FeedAction::Nothing;
        }
        if key == FeedKey::Char('q') {
            assert(pane_key_spec(f0, d0, w0, *self, *discovery, *workspace, key, *ctx, visible@, rows as nat, true, FeedAction::ShowQuitPopup));
            return FeedAction::ShowQuitPopup;
        }
        if key == FeedKey::Esc {
            assert(pane_key_spec(f0, d0, w0, *self, *discovery, *workspace, key, *ctx, visible@, rows as nat, true, FeedAction::ClearMessages));
            return FeedAction::ClearMessages;
        }
        if key == FeedKey::Down || key == FeedKey::Char('j') {
            let ok = debounce.try_kbd_scroll();
            let len = visible.len();
            if ok && len > 0 {
                let cur = self.active_selected_index(discovery);
                let next = if cur < len - 1 {
                    cur + 1
                } else {
                    len - 1
                };
                self.set_active_selected_index(discovery, rows, next);
                assert(pane_key_spec(f0, d0, w0, *self, *discovery, *workspace, key, *ctx, visible@, rows as nat, ok, FeedAction::CursorMoved));
                return FeedAction::CursorMoved;
            }
            assert(pane_key_spec(f0, d0, w0, *self, *discovery, *workspace, key, *ctx, visible@, rows as nat, ok, FeedAction::Nothing));
            return FeedAction::Nothing;
        }
        if key == FeedKey::Up || key == FeedKey::Char('k') {
            let ok = debounce.try_kbd_scroll();
            if ok {
                let cur = self.active_selected_index(discovery);
                let up = if cur > 0 {
                    cur - 1
                } else {
                    0
                };
                self.set_active_selected_index(discovery, rows, up);
                assert(pane_key_spec(f0, d0, w0, *self, *discovery, *workspace, key, *ctx, visible@, rows as nat, ok, FeedAction::CursorMoved));
                return FeedAction::CursorMoved;
            }
            assert(pane_key_spec(f0, d0, w0, *self, *discovery, *workspace, key, *ctx, visible@, rows as nat, ok, FeedAction::Nothing));
            return FeedAction::Nothing;
        }
        if key == FeedKey::Char('g') {
            self.set_active_selected_index(discovery, rows, 0);
            assert(pane_key_spec(f0, d0, w0, *self, *discovery, *workspace, key, *ctx, visible@, rows as nat, true, FeedAction::CursorMoved));
            return FeedAction::CursorMoved;
        }
        if key == FeedKey::Char('G') {
            let len = visible.len();
            if len > 0 {
                self.set_active_selected_index(discovery, rows, len - 1);
            }
            assert(pane_key_spec(f0, d0, w0, *self, *discovery, *workspace, key, *ctx, visible@, rows as nat, true, FeedAction::CursorMoved));
            return FeedAction::CursorMoved;
        }
        if key == FeedKey::Char('/') {
            self.enter_search();
            self.clear_search_query();
            assert(pane_key_spec(f0, d0, w0, *self, *discovery, *workspace, key, *ctx, visible@, rows as nat, true, FeedAction::ResetPosition));
            return FeedAction::ResetPosition;
        }
        if key == FeedKey::Char('R') {
            let a = if ctx.refreshing {
                FeedAction::AlreadyRefreshing
            } else {
                FeedAction::Refresh
            };
            assert(pane_key_spec(f0, d0, w0, *self, *discovery, *workspace, key, *ctx, visible@, rows as nat, true, a));
            return a;
        }
        match key {
            FeedKey::Char(c) => {
                match gesture_state(c) {
                    Some(_) => {
                        let r = self.handle_workflow_gesture(c, visible, workspace, discovery);
                        match r {
                            Some(effects) => {
                                let a = FeedAction::WorkflowChanged(effects);
                                assert(pane_key_spec(f0, d0, w0, *self, *discovery, *workspace, key, *ctx, visible@, rows as nat, true, a));
                                return a;
                            },
                            None => {
                                return FeedAction::Nothing;
                            },
                        }
                    },
                    None => {},
                }
            },
            _ => {},
        }
        let a = self.item_key_action(key, ctx, visible, workspace, discovery);
        assert(pane_key_spec(f0, d0, w0, *self, *discovery, *workspace, key, *ctx, visible@, rows as nat, true, a));
        a
    }

    /// The keys that act on the item under the cursor without changing any
    /// state: space, `Enter`, `o`, `v`; every other key does nothing.
    fn item_key_action(
        &self,
        key: FeedKey,
        ctx: &FeedKeyContext,
        visible: &[usize],
        workspace: &Workspace,
        discovery: &DiscoveryModel,
    ) -> (a: FeedAction)
        ensures
            ({
                let item = cursor_item(*self, visible@, *workspace, *discovery);
                if key == FeedKey::Char(' ') {
                    if item is Some {
                        a is OpenAbstract
                    } else {
                        a is Nothing
                    }
                } else if key == FeedKey::Enter {
                    match item {
                        Some(it) => if ctx.fulltext_loading {
                            a is Nothing
                        } else {
                            a matches FeedAction::OpenPaper(u) && u@ == it.url@
                        },
                        None => a is Nothing,
                    }
                } else if key == FeedKey::Char('o') {
                    match item {
                        Some(it) => a matches FeedAction::OpenInBrowser(u, t) && u@ == it.url@ && t@
                            == it.title@,
                        None => a is Nothing,
                    }
                } else if key == FeedKey::Char('v') {
                    match item {
                        Some(it) => match (it.github_owner, it.github_repo_name) {
                            (Some(o), Some(r)) => a matches FeedAction::OpenRepo(ao, ar) && ao@
                                == o@ && ar@ == r@,
                            _ => a is NoRepoLinked,
                        },
                        None => a is Nothing,
                    }
                } else {
                    a is Nothing
                }
            }),
    {
        let items = items_for_tab(workspace, self, discovery);
        let sel = self.active_list(discovery).selected();
        let item = visible_get(visible, items, sel);
        match item {
            None => FeedAction::Nothing,
            Some(it) => {
                if key == FeedKey::Char(' ') {
                    FeedAction::OpenAbstract
                } else if key == FeedKey::Enter {
                    if ctx.fulltext_loading {
                        FeedAction::Nothing
                    } else {
                        FeedAction::OpenPaper(it.url.clone())
                    }
                } else if key == FeedKey::Char('o') {
                    FeedAction::OpenInBrowser(it.url.clone(), it.title.clone())
                } else if key == FeedKey::Char('v') {
                    match (&it.github_owner, &it.github_repo_name) {
                        (Some(o), Some(r)) => FeedAction::OpenRepo(o.clone(), r.clone()),
                        _ => FeedAction::NoRepoLinked,
                    }
                } else {
                    FeedAction::Nothing
                }
            },
        }
    }
}


/// The search-bar key a feed key is.
pub open spec fn as_search_key(key: FeedKey) -> SearchBarKey {
    match key {
        FeedKey::Esc => SearchBarKey::Esc,
        FeedKey::Enter => SearchBarKey::Enter,
        FeedKey::Backspace => SearchBarKey::Backspace,
        FeedKey::Char(c) => SearchBarKey::Char(c),
        _ => SearchBarKey::Other,
    }
}

fn to_search_key(key: FeedKey) -> (k: SearchBarKey)
    ensures
        k == as_search_key(key),
{
    match key {
        FeedKey::Esc => SearchBarKey::Esc,
        FeedKey::Enter => SearchBarKey::Enter,
        FeedKey::Backspace => SearchBarKey::Backspace,
        FeedKey::Char(c) => SearchBarKey::Char(c),
        _ => SearchBarKey::Other,
    }
}

impl FeedModel {
    /// A key of the feed view once the tab's own handlers declined it: on
    /// Discoveries any character but `q` focuses the agent search bar and
    /// types itself there; otherwise the search bar, the filter panel or —
    /// when it has focus and the reader is not split — the feed pane reads
    /// the key (see [`search_key_spec`], [`filter_key_spec`],
    /// [`pane_key_spec`]); with none of them, nothing happens.
    pub fn feed_view_key(
        &mut self,
        key: FeedKey,
        ctx: &FeedKeyContext,
        visible: &[usize],
        rows: usize,
        source_names: &[String],
        tag_names: &[String],
        workspace: &mut Workspace,
        discovery: &mut DiscoveryModel,
        debounce: &mut DebounceState,
    ) -> (a: FeedAction)
        requires
            old(workspace).wf(),
            old(self).active_filters.wf(),
            old(self).filter_cursor < usize::MAX,
            filter_rows(source_names@.len(), tag_names@.len()) <= usize::MAX,
        ensures
            final(workspace).wf(),
            final(self).active_filters.wf(),
            ({
                let f0 = *old(self);
                let f1 = *final(self);
                let d0 = *old(discovery);
                let d1 = *final(discovery);
                let w0 = *old(workspace);
                let w1 = *final(workspace);
                if f0.feed_tab == FeedTab::Discoveries && (key matches FeedKey::Char(c) && c != 'q') {
                    a is Nothing && f1 == f0 && w1 == w0 && d1.search_focused && d1.query@
                        == d0.query@.push(key->Char_0) && d1.query_lower@ == str_lowercase(d1.query@)
                        && d1 == (DiscoveryModel {
                        search_focused: true,
                        query: d1.query,
                        query_lower: d1.query_lower,
                        ..d0
                    })
                } else if f0.search_active {
                    exists|reset: bool|
                        #[trigger] search_key_spec(f0, f1, as_search_key(key), reset) && (if reset {
                            a is ResetPosition
                        } else {
                            a is Nothing
                        }) && d1 == d0 && w1 == w0
                } else if f0.filter_focus {
                    exists|accepted: bool, reset: bool|
                        #[trigger] filter_key_spec(
                            f0,
                            f1,
                            key,
                            views(source_names@),
                            views(tag_names@),
                            accepted,
                            reset,
                        ) && (old(debounce).last_kbd.is_none() ==> accepted) && (if reset {
                            a is ResetPosition
                        } else {
                            a is Nothing
                        }) && d1 == d0 && w1 == w0
                } else if ctx.feed_focused && !ctx.split_active {
                    exists|accepted: bool|
                        #[trigger] pane_key_spec(
                            f0,
                            d0,
                            w0,
                            f1,
                            d1,
                            w1,
                            key,
                            *ctx,
                            visible@,
                            rows as nat,
                            accepted,
                            a,
                        ) && (old(debounce).last_kbd.is_none() ==> accepted)
                } else {
                    a is Nothing && f1 == f0 && d1 == d0 && w1 == w0
                }
            }),
    {
        if self.feed_tab == FeedTab::Discoveries {
            match key {
                FeedKey::Char(c) => {
                    if c != 'q' {
                        discovery.search_focused = true;
                        discovery.push_discovery_char(c);
                        return FeedAction::Nothing;
                    }
                },
                _ => {},
            }
        }
        if self.search_active {
            let reset = self.search_bar_key(to_search_key(key));
            return if reset {
                FeedAction::ResetPosition
            } else {
                FeedAction::Nothing
            };
        }
        if self.filter_focus {
            let reset = self.filter_panel_key(key, source_names, tag_names, debounce);
            return if reset {
                FeedAction::ResetPosition
            } else {
                FeedAction::Nothing
            };
        }
        if ctx.feed_focused && !ctx.split_active {
            return self.feed_pane_key(key, ctx, visible, rows, workspace, discovery, debounce);
        }
        FeedAction::Nothing
    }
}


// ── The narrow feed beside a split reader ───────────────────────────────

/// What the caller does after a narrow-feed key.
pub enum NarrowAction {
    Nothing,
    /// Close the split and give the reader focus.
    LeaveSplit,
    /// Reset the active tab's position against the rows it now shows.
    ResetPosition,
    /// The cursor moved: clear the notification.
    CursorMoved,
    /// Open this URL in the reader, which takes focus.
    OpenPaper(String),
}

/// The narrow feed's reaction to `key`: `open0`/`open1` say whether the
/// description popup is open, `s0`/`s1` are its scroll state.
pub open spec fn narrow_key_spec(
    f0: FeedModel,
    d0: DiscoveryModel,
    w: Workspace,
    f1: FeedModel,
    d1: DiscoveryModel,
    open0: bool,
    open1: bool,
    s0: ScrollView,
    s1: ScrollView,
    key: FeedKey,
    ctx: FeedKeyContext,
    visible: Seq<usize>,
    rows: nat,
    accepted: bool,
    a: NarrowAction,
) -> bool {
    let same_feed = f1 == f0 && d1 == d0;
    let sel = active_list_spec(f0, d0).selected;
    let len = visible.len();
    let down = key == FeedKey::Down || key == FeedKey::Char('j');
    let up = key == FeedKey::Up || key == FeedKey::Char('k');
    let scroll_reset = s1 == (ScrollView { offset: 0, ..s0 });
    if open0 {
        a is Nothing && same_feed && if key == FeedKey::Esc || key == FeedKey::Char('q') || key
            == FeedKey::Char('d') {
            !open1 && s1 == s0
        } else if down {
            open1 && s1 == (ScrollView {
                offset: if s0.offset + 1 > s0.max {
                    s0.max
                } else {
                    s0.offset + 1
                },
                ..s0
            })
        } else if up {
            open1 && s1 == (ScrollView {
                offset: if s0.offset >= 1 {
                    (s0.offset - 1) as nat
                } else {
                    0
                },
                ..s0
            })
        } else {
            open1 && s1 == s0
        }
    } else if key == FeedKey::Esc || key == FeedKey::Char('q') {
        a is LeaveSplit && same_feed && !open1 && s1 == s0
    } else if key == FeedKey::Char('d') {
        a is Nothing && same_feed && open1 && scroll_reset
    } else if key == FeedKey::Char('/') {
        a is ResetPosition && !open1 && s1 == s0 && d1 == d0 && f1.search_query@.len() == 0
            && f1.search_query_lower@ == str_lowercase(f1.search_query@) && f1 == (FeedModel {
            search_active: true,
            search_query: f1.search_query,
            search_query_lower: f1.search_query_lower,
            ..f0
        })
    } else if down {
        if !accepted {
            a is Nothing && same_feed && !open1 && s1 == s0
        } else if len == 0 {
            a is Nothing && same_feed && !open1 && s1 == s0
        } else {
            a is CursorMoved && !open1 && scroll_reset && moved_to(f0, d0, f1, d1, rows, row_below(sel, len))
        }
    } else if up {
        if !accepted {
            a is Nothing && same_feed && !open1 && s1 == s0
        } else {
            a is CursorMoved && !open1 && scroll_reset && moved_to(
                f0,
                d0,
                f1,
                d1,
                rows,
                if sel > 0 {
                    (sel - 1) as nat
                } else {
                    0
                },
            )
        }
    } else if key == FeedKey::Enter {
        same_feed && s1 == s0 && match cursor_item(f0, visible, w, d0) {
            Some(it) => if ctx.fulltext_loading {
                a is Nothing && !open1
            } else {
                a matches NarrowAction::OpenPaper(u) && u@ == it.url@ && !open1
            },
            None => a is Nothing && !open1,
        }
    } else {
        a is Nothing && same_feed && !open1 && s1 == s0
    }
}

impl FeedModel {
    /// A key while the narrow feed beside a split reader has focus. With
    /// the description popup open only `j`/`k` (scroll) and `Esc`/`q`/`d`
    /// (close) act; otherwise `Esc`/`q` close the split, `d` opens the
    /// popup, `/` starts a fresh search, `j`/`k` move the cursor (closing
    /// the popup), and `Enter` opens the item under the cursor in the
    /// reader. `details_open` and `details_scroll` are the popup's state.
    pub fn narrow_feed_key(
        &mut self,
        key: FeedKey,
        ctx: &FeedKeyContext,
        visible: &[usize],
        rows: usize,
        workspace: &Workspace,
        discovery: &mut DiscoveryModel,
        details_open: &mut bool,
        details_scroll: &mut ScrollState,
        debounce: &mut DebounceState,
    ) -> (a: NarrowAction)
        ensures
            exists|accepted: bool|
                #[trigger] narrow_key_spec(
                    *old(self),
                    *old(discovery),
                    *workspace,
                    *final(self),
                    *final(discovery),
                    *old(details_open),
                    *final(details_open),
                    old(details_scroll)@,
                    final(details_scroll)@,
                    key,
                    *ctx,
                    visible@,
                    rows as nat,
                    accepted,
                    a,
                ) && (old(debounce).last_kbd.is_none() ==> accepted),
    {
        let ghost f0 = *self;
        let ghost d0 = *discovery;
        let ghost s0 = details_scroll@;
        let ghost o0 = *details_open;
        let down = key == FeedKey::Down || key == FeedKey::Char('j');
        let up = key == FeedKey::Up || key == FeedKey::Char('k');
        if *details_open {
            if key == FeedKey::Esc || key == FeedKey::Char('q') || key == FeedKey::Char('d') {
                *details_open = false;
            } else if down {
                details_scroll.scroll_down(1);
            } else if up {
                details_scroll.scroll_up(1);
            }
            assert(narrow_key_spec(f0, d0, *workspace, *self, *discovery, o0, *details_open, s0, details_scroll@, key, *ctx, visible@, rows as nat, true, NarrowAction::Nothing));
            return NarrowAction::Nothing;
        }
        if key == FeedKey::Esc || key == FeedKey::Char('q') {
            *details_open = false;
            assert(narrow_key_spec(f0, d0, *workspace, *self, *discovery, o0, *details_open, s0, details_scroll@, key, *ctx, visible@, rows as nat, true, NarrowAction::LeaveSplit));
            return NarrowAction::LeaveSplit;
        }
        if key == FeedKey::Char('d') {
            *details_open = true;
            details_scroll.reset();
            assert(narrow_key_spec(f0, d0, *workspace, *self, *discovery, o0, *details_open, s0, details_scroll@, key, *ctx, visible@, rows as nat, true, NarrowAction::Nothing));
            return NarrowAction::Nothing;
        }
        if key == FeedKey::Char('/') {
            self.enter_search();
            self.clear_search_query();
            assert(narrow_key_spec(f0, d0, *workspace, *self, *discovery, o0, *details_open, s0, details_scroll@, key, *ctx, visible@, rows as nat, true, NarrowAction::ResetPosition));
            return NarrowAction::ResetPosition;
        }
        if down {
            let ok = debounce.try_kbd_scroll();
            if !ok {
                assert(narrow_key_spec(f0, d0, *workspace, *self, *discovery, o0, *details_open, s0, details_scroll@, key, *ctx, visible@, rows as nat, ok, NarrowAction::Nothing));
                return NarrowAction::Nothing;
            }
            let len = visible.len();
            if len == 0 {
                *details_open = false;
                assert(narrow_key_spec(f0, d0, *workspace, *self, *discovery, o0, *details_open, s0, details_scroll@, key, *ctx, visible@, rows as nat, ok, NarrowAction::Nothing));
                return NarrowAction::Nothing;
            }
            let cur = self.active_selected_index(discovery);
            let next = if cur < len - 1 {
                cur + 1
            } else {
                len - 1
            };
            self.set_active_selected_index(discovery, rows, next);
            details_scroll.reset();
            *details_open = false;
            assert(narrow_key_spec(f0, d0, *workspace, *self, *discovery, o0, *details_open, s0, details_scroll@, key, *ctx, visible@, rows as nat, ok, NarrowAction::CursorMoved));
            return NarrowAction::CursorMoved;
        }
        if up {
            let ok = debounce.try_kbd_scroll();
            if !ok {
                assert(narrow_key_spec(f0, d0, *workspace, *self, *discovery, o0, *details_open, s0, details_scroll@, key, *ctx, visible@, rows as nat, ok, NarrowAction::Nothing));
                return NarrowAction::Nothing;
            }
            let cur = self.active_selected_index(discovery);
            let prev = if cur > 0 {
                cur - 1
            } else {
                0
            };
            self.set_active_selected_index(discovery, rows, prev);
            details_scroll.reset();
            *details_open = false;
            assert(narrow_key_spec(f0, d0, *workspace, *self, *discovery, o0, *details_open, s0, details_scroll@, key, *ctx, visible@, rows as nat, ok, NarrowAction::CursorMoved));
            return NarrowAction::CursorMoved;
        }
        if key == FeedKey::Enter {
            let a = if ctx.fulltext_loading {
                NarrowAction::Nothing
            } else {
                let items = items_for_tab(workspace, self, discovery);
                let sel = self.active_list(discovery).selected();
                match visible_get(visible, items, sel) {
                    Some(it) => NarrowAction::OpenPaper(it.url.clone()),
                    None => NarrowAction::Nothing,
                }
            };
            *details_open = false;
            assert(narrow_key_spec(f0, d0, *workspace, *self, *discovery, o0, *details_open, s0, details_scroll@, key, *ctx, visible@, rows as nat, true, a));
            return a;
        }
        *details_open = false;
        assert(narrow_key_spec(f0, d0, *workspace, *self, *discovery, o0, *details_open, s0, details_scroll@, key, *ctx, visible@, rows as nat, true, NarrowAction::Nothing));
        NarrowAction::Nothing
    }
}


// ── The History tab's cursor ────────────────────────────────────────────

impl FeedModel {
    /// The History tab's cursor keys over its `history_len` listed entries:
    /// `j`/`k` (or the arrows) move one entry, `g`/`G` jump to the first and
    /// last. Returns whether the key was one of them; other keys change
    /// nothing.
    pub fn history_nav_key(&mut self, key: FeedKey, history_len: usize) -> (handled: bool)
        ensures
            ({
                let l = old(self).history_list@;
                let len = history_len as nat;
                let mut_list = |l1: ListView| *final(self) == (FeedModel {
                    history_list: final(self).history_list,
                    ..*old(self)
                }) && final(self).history_list@ == l1;
                if key == FeedKey::Down || key == FeedKey::Char('j') {
                    handled && if len > 0 {
                        mut_list(select_row(l, len, row_below(l.selected, len)))
                    } else {
                        *final(self) == *old(self)
                    }
                } else if key == FeedKey::Up || key == FeedKey::Char('k') {
                    handled && mut_list(
                        select_row(
                            l,
                            len,
                            if l.selected > 0 {
                                (l.selected - 1) as nat
                            } else {
                                0
                            },
                        ),
                    )
                } else if key == FeedKey::Char('g') {
                    handled && mut_list(select_row(l, len, 0))
                } else if key == FeedKey::Char('G') {
                    handled && if len > 0 {
                        mut_list(select_row(l, len, (len - 1) as nat))
                    } else {
                        *final(self) == *old(self)
                    }
                } else {
                    !handled && *final(self) == *old(self)
                }
            }),
    {
        let len = history_len;
        if key == FeedKey::Down || key == FeedKey::Char('j') {
            if len > 0 {
                let cur = self.history_list.selected();
                let next = if cur < len - 1 {
                    cur + 1
                } else {
                    len - 1
                };
                self.history_list.set_count(len);
                self.history_list.set_selected(next);
            }
            true
        } else if key == FeedKey::Up || key == FeedKey::Char('k') {
            let cur = self.history_list.selected();
            let next = if cur > 0 {
                cur - 1
            } else {
                0
            };
            self.history_list.set_count(len);
            self.history_list.set_selected(next);
            true
        } else if key == FeedKey::Char('g') {
            self.history_list.set_count(len);
            self.history_list.set_selected(0);
            true
        } else if key == FeedKey::Char('G') {
            if len > 0 {
                self.history_list.set_count(len);
                self.history_list.set_selected(len - 1);
            }
            true
        } else {
            false
        }
    }
}

// ── The History tab's entry keys ────────────────────────────────────────

/// What the caller does after an entry key of the History tab.
pub enum HistoryAction {
    /// The key is not one of the History tab's.
    NotHandled,
    /// Handled; nothing more to do.
    Nothing,
    /// An entry was deleted: save the log and route `HistoryMutated`.
    Deleted,
    /// Open this paper URL in the browser; the title is for the
    /// notification.
    OpenInBrowser(String, String),
    /// Open the paper of the log entry at this position in the reader.
    OpenPaper(usize),
    /// Re-run this discovery query in a fresh session on the Discoveries
    /// tab.
    RerunQuery(String),
}

/// Entry `e` is the one logged as `kind` under `key`.
pub open spec fn same_entry(e: HistoryEntry, kind: HistoryKind, key: Seq<char>) -> bool {
    e.kind == kind && e.key@ == key
}

/// The log without every entry logged as `kind` under `key`.
pub open spec fn without_entry(h: Seq<HistoryEntry>, kind: HistoryKind, key: Seq<char>) -> Seq<HistoryEntry>
    decreases h.len(),
{
    if h.len() == 0 {
        h
    } else {
        let prev = without_entry(h.drop_last(), kind, key);
        if same_entry(h.last(), kind, key) {
            prev
        } else {
            prev.push(h.last())
        }
    }
}

/// How many of the listed entries (`visible`, positions into `h`) are not
/// logged as `kind` under `key`.
pub open spec fn listed_kept(h: Seq<HistoryEntry>, visible: Seq<usize>, kind: HistoryKind, key: Seq<char>) -> nat
    decreases visible.len(),
{
    if visible.len() == 0 {
        0
    } else {
        listed_kept(h, visible.drop_last(), kind, key) + if same_entry(
            h[visible.last() as int],
            kind,
            key,
        ) {
            0nat
        } else {
            1nat
        }
    }
}

fn remove_entries(history: &mut Vec<HistoryEntry>, kind: HistoryKind, key: &str)
    ensures
        final(history)@ == without_entry(old(history)@, kind, key@),
{
    let mut src: Vec<HistoryEntry> = Vec::new();
    std::mem::swap(&mut src, history);
    let ghost orig = src@;
    let n = src.len();
    let mut k: usize = 0;
    assert(orig.take(0) =~= Seq::<HistoryEntry>::empty());
    assert(orig.skip(0) == orig);
    while k < n
        invariant
            n == orig.len(),
            k <= n,
            src@ == orig.skip(k as int),
            history@ == without_entry(orig.take(k as int), kind, key@),
        decreases n - k,
    {
        let ghost before = src@;
        let e = src.remove(0);
        proof {
            assert(before[0] == orig[k as int]);
            assert(orig.take(k + 1).drop_last() =~= orig.take(k as int));
            assert(orig.take(k + 1).last() == e);
            assert(src@ =~= orig.skip(k + 1));
        }
        if !(e.kind == kind && str_eq(e.key.as_str(), key)) {
            history.push(e);
        }
        k += 1;
    }
    assert(orig.take(n as int) == orig);
}

fn count_kept(history: &Vec<HistoryEntry>, visible: &[usize], kind: HistoryKind, key: &str) -> (r: usize)
    requires
        forall|j: int| 0 <= j < visible@.len() ==> (#[trigger] visible@[j]) < history@.len(),
    ensures
        r == listed_kept(history@, visible@, kind, key@),
{
    let mut c: usize = 0;
    let mut j: usize = 0;
    while j < visible.len()
        invariant
            j <= visible@.len(),
            forall|t: int| 0 <= t < visible@.len() ==> (#[trigger] visible@[t]) < history@.len(),
            c == listed_kept(history@, visible@.take(j as int), kind, key@),
            c <= j,
        decreases visible@.len() - j,
    {
        proof {
            assert(visible@.take(j + 1).drop_last() =~= visible@.take(j as int));
            assert(visible@.take(j + 1).last() == visible@[j as int]);
        }
        let e = &history[visible[j]];
        if !(e.kind == kind && str_eq(e.key.as_str(), key)) {
            c += 1;
        }
        j += 1;
    }
    assert(visible@.take(visible@.len() as int) == visible@);
    c
}

impl FeedModel {
    /// The History tab's entry keys, over the log `history` and the listed
    /// entries `visible` (positions into the log, in display order):
    /// Ctrl+D deletes every log entry of the kind and key of the entry under
    /// the cursor and pulls the cursor back onto the shortened list; `o`
    /// opens a logged paper in the browser; Enter opens a logged paper in
    /// the reader or re-runs a logged query. With the cursor past the list
    /// these keys do nothing; other keys are not the History tab's.
    pub fn history_entry_key(
        &mut self,
        history: &mut Vec<HistoryEntry>,
        visible: &[usize],
        key: FeedKey,
        ctrl: bool,
    ) -> (a: HistoryAction)
        requires
            forall|j: int| 0 <= j < visible@.len() ==> (#[trigger] visible@[j]) < old(history)@.len(),
        ensures
            ({
                let sel = old(self).history_list@.selected;
                let h = old(history)@;
                let listed = sel < visible@.len();
                let e = h[visible@[sel as int] as int];
                if key == FeedKey::Char('d') && ctrl {
                    if listed {
                        let len = listed_kept(h, visible@, e.kind, e.key@);
                        &&& a is Deleted
                        &&& final(history)@ == without_entry(h, e.kind, e.key@)
                        &&& if len > 0 && sel >= len {
                            final(self).history_list@ == select_row(
                                old(self).history_list@,
                                len,
                                (len - 1) as nat,
                            ) && *final(self) == (FeedModel {
                                history_list: final(self).history_list,
                                ..*old(self)
                            })
                        } else {
                            *final(self) == *old(self)
                        }
                    } else {
                        a is Nothing && final(history)@ == h && *final(self) == *old(self)
                    }
                } else if key == FeedKey::Char('o') {
                    &&& final(history)@ == h && *final(self) == *old(self)
                    &&& if listed && e.kind == HistoryKind::Paper {
                        a matches HistoryAction::OpenInBrowser(u, t) && u@ == e.key@ && t@ == e.title@
                    } else {
                        a is Nothing
                    }
                } else if key == FeedKey::Enter {
                    &&& final(history)@ == h && *final(self) == *old(self)
                    &&& if !listed {
                        a is Nothing
                    } else if e.kind == HistoryKind::Paper {
                        a matches HistoryAction::OpenPaper(i) && i == visible@[sel as int]
                    } else {
                        a matches HistoryAction::RerunQuery(q) && q@ == e.key@
                    }
                } else {
                    a is NotHandled && final(history)@ == h && *final(self) == *old(self)
                }
            }),
    {
        let sel = self.history_list.selected();
        let is_delete = key == FeedKey::Char('d') && ctrl;
        if !(is_delete || key == FeedKey::Char('o') || key == FeedKey::Enter) {
            return HistoryAction::NotHandled;
        }
        if sel >= visible.len() {
            return HistoryAction::Nothing;
        }
        let idx = visible[sel];
        if is_delete {
            let kind = history[idx].kind;
            let target = to_owned_string(history[idx].key.as_str());
            let len = count_kept(history, visible, kind, target.as_str());
            remove_entries(history, kind, target.as_str());
            if len > 0 && sel >= len {
                self.history_list.set_count(len);
                self.history_list.set_selected(len - 1);
            }
            HistoryAction::Deleted
        } else if key == FeedKey::Char('o') {
            if history[idx].kind == HistoryKind::Paper {
                HistoryAction::OpenInBrowser(
                    to_owned_string(history[idx].key.as_str()),
                    to_owned_string(history[idx].title.as_str()),
                )
            } else {
                HistoryAction::Nothing
            }
        } else {
            match history[idx].kind {
                HistoryKind::Paper => HistoryAction::OpenPaper(idx),
                HistoryKind::Query => HistoryAction::RerunQuery(to_owned_string(history[idx].key.as_str())),
            }
        }
    }
}

} // verus!
