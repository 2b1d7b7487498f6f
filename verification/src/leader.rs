//! The leader-key commands (the key pressed after Ctrl+T): chat, help,
//! quit, the three-state reader/feed cycle, the dual reader's bottom pane,
//! pane navigation and tab commands. The step changes the layout flags it
//! owns and names the work left to the caller (notes, fetches, the pane
//! geometry, the tab lists).

use vstd::prelude::*;

use crate::feed_keys::FeedKey;
use crate::mouse::Pane;
use crate::state::feed::NavDirection;
use crate::state::notes::FocusedReader;
use crate::state::simple::{quit_popup_kind_spec, QuitPopupKind};
use crate::state::timing::LeaderState;

verus! {

/// The layout flags the leader commands change.
#[derive(Clone, Copy, Debug, PartialEq, Eq, Structural)]
pub struct LeaderUi {
    pub focused: Pane,
    /// The reader side that has the keys.
    pub reader_side: FocusedReader,
    pub reader_active: bool,
    /// The feed is shown beside the reader.
    pub split_active: bool,
    /// Two readers side by side.
    pub dual_active: bool,
    pub bottom_open: bool,
    pub bottom_focused: bool,
    pub bottom_details: bool,
    /// The feed row the bottom pane shows selected.
    pub bottom_selected: usize,
    pub chat_active: bool,
    pub chat_fullscreen: bool,
    pub chat_at_top: bool,
    pub help_active: bool,
    pub help_section: usize,
    pub help_scroll: u16,
    pub quit_active: bool,
    pub quit_kind: QuitPopupKind,
    pub tab_prompt_active: bool,
    pub fulltext_loading: bool,
    pub reader_popup_active: bool,
}

/// What the leader commands read besides the layout.
pub struct LeaderContext {
    /// The active tab's cursor.
    pub selected_index: usize,
    /// A refresh or a discovery is running.
    pub loading: bool,
    /// The chat pane holds a non-blank draft.
    pub chat_draft: bool,
    /// The primary reader has a tab open.
    pub primary_tabs_open: bool,
}

/// The work a leader command leaves to the caller.
#[derive(Clone, Copy, Debug, PartialEq, Eq, Structural)]
pub enum LeaderAction {
    Nothing,
    /// Show or hide the notes pane of the focused side.
    ToggleNotes,
    /// Create the chat pane if needed and hide the notes (the chat is
    /// already shown and focused).
    OpenChat,
    /// Load the settings into the settings view and show it.
    OpenSettings,
    /// Fetch the selected item into the floating reader popup.
    OpenReaderPopup,
    /// The second reader opened: reset the bottom pane's scroll and fetch
    /// the selected item into it.
    FetchIntoSecondary,
    /// Move the focus to the neighbouring pane in this direction.
    Navigate(NavDirection),
    /// Focus the pane with this number.
    FocusPane(u8),
    /// Close the focused notes pane.
    NotesEsc,
    /// Go back in the reader of this side, or close the readers.
    ReaderEsc(FocusedReader),
    /// Ask which reader a new tab goes to.
    PromptTabWindow,
    /// Open the selected item in the primary reader, in a new tab when
    /// `true`.
    OpenNewTab(bool),
    PrevTab,
    NextTab,
    CloseTab,
}

/// The pane that takes the focus when the chat closes.
pub open spec fn after_chat(u: LeaderUi) -> Pane {
    if u.reader_active {
        Pane::Reader
    } else {
        Pane::Feed
    }
}

/// The leader step: the new layout and the work left.
pub open spec fn leader_step(u: LeaderUi, key: FeedKey, ctx: LeaderContext) -> (LeaderUi, LeaderAction) {
    if key == FeedKey::Char('n') {
        (u, LeaderAction::ToggleNotes)
    } else if key == FeedKey::Char('c') {
        if u.chat_active {
            (LeaderUi { chat_active: false, chat_fullscreen: false, focused: after_chat(u), ..u }, LeaderAction::Nothing)
        } else {
            (LeaderUi { chat_active: true, focused: Pane::Chat, ..u }, LeaderAction::OpenChat)
        }
    } else if key == FeedKey::Char('s') {
        (u, LeaderAction::OpenSettings)
    } else if key == FeedKey::Char('z') {
        (if u.chat_active { LeaderUi { chat_at_top: !u.chat_at_top, ..u } } else { u }, LeaderAction::Nothing)
    } else if key == FeedKey::Enter {
        (u, if !u.fulltext_loading && !u.reader_popup_active { LeaderAction::OpenReaderPopup } else { LeaderAction::Nothing })
    } else if key == FeedKey::Char('f') {
        if u.dual_active {
            if u.bottom_open {
                (LeaderUi {
                    bottom_open: false,
                    bottom_focused: false,
                    bottom_details: false,
                    focused: if u.focused == Pane::Feed { Pane::Reader } else { u.focused },
                    ..u
                }, LeaderAction::Nothing)
            } else {
                (LeaderUi {
                    bottom_open: true,
                    bottom_focused: true,
                    bottom_details: false,
                    bottom_selected: ctx.selected_index,
                    ..u
                }, LeaderAction::Nothing)
            }
        } else if u.split_active {
            (LeaderUi {
                dual_active: true,
                bottom_focused: false,
                bottom_details: false,
                focused: Pane::Reader,
                ..u
            }, LeaderAction::FetchIntoSecondary)
        } else if u.reader_active {
            (LeaderUi { split_active: true, focused: Pane::Feed, ..u }, LeaderAction::Nothing)
        } else {
            (u, LeaderAction::Nothing)
        }
    } else if key == FeedKey::Char('?') {
        (LeaderUi { help_active: true, help_section: 0, help_scroll: 0, ..u }, LeaderAction::Nothing)
    } else if key == FeedKey::Char('q') {
        (LeaderUi {
            quit_active: true,
            quit_kind: quit_popup_kind_spec(u.focused == Pane::Reader && u.reader_active, ctx.loading, ctx.chat_draft),
            ..u
        }, LeaderAction::Nothing)
    } else if key == FeedKey::Char('h') || key == FeedKey::Char('l') {
        (u, if u.bottom_focused {
            LeaderAction::Nothing
        } else if key == FeedKey::Char('h') {
            LeaderAction::Navigate(NavDirection::Left)
        } else {
            LeaderAction::Navigate(NavDirection::Right)
        })
    } else if key == FeedKey::Char('j') {
        if u.dual_active && u.bottom_open && (u.focused == Pane::Reader || u.focused == Pane::Notes) {
            (LeaderUi { reader_side: FocusedReader::Primary, bottom_focused: true, ..u }, LeaderAction::Nothing)
        } else if u.dual_active && u.bottom_open && (u.focused == Pane::SecondaryReader || u.focused
            == Pane::SecondaryNotes) {
            (LeaderUi { reader_side: FocusedReader::Secondary, bottom_focused: true, ..u }, LeaderAction::Nothing)
        } else {
            (u, LeaderAction::Navigate(NavDirection::Down))
        }
    } else if key == FeedKey::Char('k') {
        if u.bottom_focused {
            (LeaderUi {
                bottom_focused: false,
                focused: if u.reader_side == FocusedReader::Primary { Pane::Reader } else { Pane::SecondaryReader },
                ..u
            }, LeaderAction::Nothing)
        } else {
            (u, LeaderAction::Navigate(NavDirection::Up))
        }
    } else if key == FeedKey::Esc {
        if u.focused == Pane::Chat {
            (LeaderUi { chat_active: false, chat_fullscreen: false, focused: after_chat(u), ..u }, LeaderAction::Nothing)
        } else if u.focused == Pane::Notes || u.focused == Pane::SecondaryNotes {
            (u, LeaderAction::NotesEsc)
        } else if u.focused == Pane::SecondaryReader {
            (u, LeaderAction::ReaderEsc(FocusedReader::Secondary))
        } else if u.focused == Pane::Reader {
            (u, LeaderAction::ReaderEsc(FocusedReader::Primary))
        } else {
            (u, LeaderAction::Nothing)
        }
    } else if key == FeedKey::Char('0') {
        (u, LeaderAction::FocusPane(0))
    } else if key == FeedKey::Char('1') {
        (u, LeaderAction::FocusPane(1))
    } else if key == FeedKey::Char('2') {
        (u, LeaderAction::FocusPane(2))
    } else if key == FeedKey::Char('3') {
        (u, LeaderAction::FocusPane(3))
    } else if key == FeedKey::Char('t') {
        if u.fulltext_loading {
            (u, LeaderAction::Nothing)
        } else if u.dual_active {
            (LeaderUi { tab_prompt_active: true, ..u }, LeaderAction::PromptTabWindow)
        } else {
            (u, LeaderAction::OpenNewTab(ctx.primary_tabs_open))
        }
    } else if key == FeedKey::Char('[') {
        (u, LeaderAction::PrevTab)
    } else if key == FeedKey::Char(']') {
        (u, LeaderAction::NextTab)
    } else if key == FeedKey::Char('w') {
        (u, LeaderAction::CloseTab)
    } else {
        (u, LeaderAction::Nothing)
    }
}

/// The pane-navigation keys, which keep the leader armed.
pub open spec fn is_nav_key(key: FeedKey) -> bool {
    key == FeedKey::Char('h') || key == FeedKey::Char('j') || key == FeedKey::Char('k') || key
        == FeedKey::Char('l')
}

fn step_layout(u: LeaderUi, key: FeedKey, ctx: &LeaderContext) -> (r: (LeaderUi, LeaderAction))
    requires
        key == FeedKey::Char('c') || key == FeedKey::Char('z') || key == FeedKey::Char('f') || key
            == FeedKey::Char('?') || key == FeedKey::Char('q') || key == FeedKey::Char('t'),
    ensures
        r == leader_step(u, key, *ctx),
{
    if key == FeedKey::Char('c') {
        if u.chat_active {
            let focused = if u.reader_active { Pane::Reader } else { Pane::Feed };
            (LeaderUi { chat_active: false, chat_fullscreen: false, focused, ..u }, LeaderAction::Nothing)
        } else {
            (LeaderUi { chat_active: true, focused: Pane::Chat, ..u }, LeaderAction::OpenChat)
        }
    } else if key == FeedKey::Char('z') {
        (if u.chat_active { LeaderUi { chat_at_top: !u.chat_at_top, ..u } } else { u }, LeaderAction::Nothing)
    } else if key == FeedKey::Char('f') {
        if u.dual_active {
            if u.bottom_open {
                let focused = if u.focused == Pane::Feed { Pane::Reader } else { u.focused };
                (LeaderUi { bottom_open: false, bottom_focused: false, bottom_details: false, focused, ..u }, LeaderAction::Nothing)
            } else {
                (LeaderUi {
                    bottom_open: true,
                    bottom_focused: true,
                    bottom_details: false,
                    bottom_selected: ctx.selected_index,
                    ..u
                }, LeaderAction::Nothing)
            }
        } else if u.split_active {
            (LeaderUi {
                dual_active: true,
                bottom_focused: false,
                bottom_details: false,
                focused: Pane::Reader,
                ..u
            }, LeaderAction::FetchIntoSecondary)
        } else if u.reader_active {
            (LeaderUi { split_active: true, focused: Pane::Feed, ..u }, LeaderAction::Nothing)
        } else {
            (u, LeaderAction::Nothing)
        }
    } else if key == FeedKey::Char('?') {
        (LeaderUi { help_active: true, help_section: 0, help_scroll: 0, ..u }, LeaderAction::Nothing)
    } else if key == FeedKey::Char('q') {
        let leaving = u.focused == Pane::Reader && u.reader_active;
        let kind = if leaving {
            QuitPopupKind::LeaveReader
        } else if ctx.loading {
            QuitPopupKind::QuitWithProgress
        } else if ctx.chat_draft {
            QuitPopupKind::QuitWithChat
        } else {
            QuitPopupKind::QuitApp
        };
        (LeaderUi { quit_active: true, quit_kind: kind, ..u }, LeaderAction::Nothing)
    } else {
        if u.fulltext_loading {
            (u, LeaderAction::Nothing)
        } else if u.dual_active {
            (LeaderUi { tab_prompt_active: true, ..u }, LeaderAction::PromptTabWindow)
        } else {
            (u, LeaderAction::OpenNewTab(ctx.primary_tabs_open))
        }
    }
}

fn step_focus(u: LeaderUi, key: FeedKey, ctx: &LeaderContext) -> (r: (LeaderUi, LeaderAction))
    requires
        key == FeedKey::Char('h') || key == FeedKey::Char('j') || key == FeedKey::Char('k') || key
            == FeedKey::Char('l') || key == FeedKey::Esc,
    ensures
        r == leader_step(u, key, *ctx),
{
    if key == FeedKey::Char('h') || key == FeedKey::Char('l') {
        (u, if u.bottom_focused {
            LeaderAction::Nothing
        } else if key == FeedKey::Char('h') {
            LeaderAction::Navigate(NavDirection::Left)
        } else {
            LeaderAction::Navigate(NavDirection::Right)
        })
    } else if key == FeedKey::Char('j') {
        if u.dual_active && u.bottom_open && (u.focused == Pane::Reader || u.focused == Pane::Notes) {
            (LeaderUi { reader_side: FocusedReader::Primary, bottom_focused: true, ..u }, LeaderAction::Nothing)
        } else if u.dual_active && u.bottom_open && (u.focused == Pane::SecondaryReader || u.focused
            == Pane::SecondaryNotes) {
            (LeaderUi { reader_side: FocusedReader::Secondary, bottom_focused: true, ..u }, LeaderAction::Nothing)
        } else {
            (u, LeaderAction::Navigate(NavDirection::Down))
        }
    } else if key == FeedKey::Char('k') {
        if u.bottom_focused {
            let focused = if u.reader_side == FocusedReader::Primary { Pane::Reader } else { Pane::SecondaryReader };
            (LeaderUi { bottom_focused: false, focused, ..u }, LeaderAction::Nothing)
        } else {
            (u, LeaderAction::Navigate(NavDirection::Up))
        }
    } else {
        if u.focused == Pane::Chat {
            let focused = if u.reader_active { Pane::Reader } else { Pane::Feed };
            (LeaderUi { chat_active: false, chat_fullscreen: false, focused, ..u }, LeaderAction::Nothing)
        } else if u.focused == Pane::Notes || u.focused == Pane::SecondaryNotes {
            (u, LeaderAction::NotesEsc)
        } else if u.focused == Pane::SecondaryReader {
            (u, LeaderAction::ReaderEsc(FocusedReader::Secondary))
        } else if u.focused == Pane::Reader {
            (u, LeaderAction::ReaderEsc(FocusedReader::Primary))
        } else {
            (u, LeaderAction::Nothing)
        }
    }
}

fn step_plain(key: FeedKey, u: LeaderUi, ctx: &LeaderContext) -> (a: LeaderAction)
    requires
        !(key == FeedKey::Char('c') || key == FeedKey::Char('z') || key == FeedKey::Char('f') || key
            == FeedKey::Char('?') || key == FeedKey::Char('q') || key == FeedKey::Char('t')),
        !(key == FeedKey::Char('h') || key == FeedKey::Char('j') || key == FeedKey::Char('k') || key
            == FeedKey::Char('l') || key == FeedKey::Esc),
    ensures
        (u, a) == leader_step(u, key, *ctx),
{
    if key == FeedKey::Char('n') {
        LeaderAction::ToggleNotes
    } else if key == FeedKey::Char('s') {
        LeaderAction::OpenSettings
    } else if key == FeedKey::Enter {
        if !u.fulltext_loading && !u.reader_popup_active {
            LeaderAction::OpenReaderPopup
        } else {
            LeaderAction::Nothing
        }
    } else if key == FeedKey::Char('0') {
        LeaderAction::FocusPane(0)
    } else if key == FeedKey::Char('1') {
        LeaderAction::FocusPane(1)
    } else if key == FeedKey::Char('2') {
        LeaderAction::FocusPane(2)
    } else if key == FeedKey::Char('3') {
        LeaderAction::FocusPane(3)
    } else if key == FeedKey::Char('[') {
        LeaderAction::PrevTab
    } else if key == FeedKey::Char(']') {
        LeaderAction::NextTab
    } else if key == FeedKey::Char('w') {
        LeaderAction::CloseTab
    } else {
        LeaderAction::Nothing
    }
}

/// Run one leader command (see [`leader_step`]). The leader is disarmed
/// unless the key is a pane-navigation key (h, j, k, l), which keep it
/// armed for the next move.
pub fn leader_key(ui: &mut LeaderUi, leader: &mut LeaderState, key: FeedKey, ctx: &LeaderContext) -> (a: LeaderAction)
    ensures
        (*final(ui), a) == leader_step(*old(ui), key, *ctx),
        final(leader).active == (old(leader).active && is_nav_key(key)),
        final(leader).activated_at == old(leader).activated_at,
        final(leader).timeout_ms == old(leader).timeout_ms,
{
    let is_nav = key == FeedKey::Char('h') || key == FeedKey::Char('j') || key == FeedKey::Char('k')
        || key == FeedKey::Char('l');
    if !is_nav {
        leader.deactivate();
    }
    let u = *ui;
    if key == FeedKey::Char('c') || key == FeedKey::Char('z') || key == FeedKey::Char('f') || key
        == FeedKey::Char('?') || key == FeedKey::Char('q') || key == FeedKey::Char('t') {
        let (nu, a) = step_layout(u, key, ctx);
        *ui = nu;
        a
    } else if key == FeedKey::Char('h') || key == FeedKey::Char('j') || key == FeedKey::Char('k') || key
        == FeedKey::Char('l') || key == FeedKey::Esc {
        let (nu, a) = step_focus(u, key, ctx);
        *ui = nu;
        a
    } else {
        step_plain(key, u, ctx)
    }
}

} // verus!
