//! The top-level key router: which layer of the interface a key goes to.
//! Modal layers intercept first (tag picker, quit prompt, abstract popup,
//! reader popup, tab-window prompt, help overlay), then `?` opens help,
//! then the Ctrl+T leader, then the reader's bottom pane, and otherwise
//! the panes take their turns (chat, notes, reader, repository viewer,
//! sources, settings, feed). The router changes the little state it owns
//! and names the layer; the layer's own handler does the rest.

use vstd::prelude::*;

use crate::feed_keys::FeedKey;
use crate::state::simple::{HelpState, QuitPopupKind, QuitPopupState, TagPickerState, ViewFlags};
use crate::state::timing::{leader_timed_out, LeaderState};

verus! {

/// The parts of the interface state the router reads but does not own.
pub struct DispatchContext {
    /// The floating reader popup is open.
    pub reader_popup_active: bool,
    /// Keys are text entry (a search bar, an input field, a focused chat or
    /// notes pane, a name or hex field of the theme editor).
    pub text_entry: bool,
    /// A reader pane has focus.
    pub reader_focused: bool,
    /// The dual reader's bottom feed pane is open and focused.
    pub bottom_pane_active: bool,
}

/// Where a key goes.
#[derive(Clone, Copy, Debug, PartialEq, Eq, Structural)]
pub enum KeyRoute {
    /// The open tag picker takes every key.
    TagPicker,
    /// The quit prompt was confirmed (it is closed): leave the reader for
    /// `LeaveReader`, quit otherwise.
    QuitConfirmed(QuitPopupKind),
    /// The quit prompt was dismissed.
    QuitDismissed,
    /// The abstract popup was dismissed.
    AbstractDismissed,
    /// A modal layer swallowed the key.
    Swallowed,
    /// Close the reader popup.
    ReaderPopupClose,
    /// The reader popup's editor takes the key.
    ReaderPopupKey,
    /// Open the selected item as a new tab, in the secondary reader when
    /// `true` (the prompt is closed).
    NewTab(bool),
    /// The tab-window prompt was cancelled.
    TabPromptCancelled,
    /// The help overlay takes the key.
    HelpOverlay,
    /// The focused reader's own help.
    ReaderHelp,
    /// The application help was opened (and the leader disarmed).
    AppHelp,
    /// The leader was armed.
    LeaderArmed,
    /// The armed leader takes the key.
    Leader,
    /// The dual reader's bottom pane takes the key.
    BottomPane,
    /// The panes take their turns.
    Panes,
}

/// Whether the leader is still armed after expiring with `elapsed_ms`.
pub open spec fn leader_live(l: LeaderState, elapsed_ms: u128) -> bool {
    l.active && !(l.activated_at.is_some() && leader_timed_out(elapsed_ms, l.timeout_ms))
}

/// The route of `key` (`ctrl_only`: Control is the only modifier held).
pub open spec fn route_spec(
    key: FeedKey,
    ctrl_only: bool,
    tag_active: bool,
    quit: QuitPopupState,
    flags: ViewFlags,
    help_active: bool,
    leader: LeaderState,
    elapsed_ms: u128,
    ctx: DispatchContext,
) -> KeyRoute {
    if tag_active {
        KeyRoute::TagPicker
    } else if quit.active {
        if key == FeedKey::Char('q') || key == FeedKey::Enter {
            KeyRoute::QuitConfirmed(quit.kind)
        } else if key == FeedKey::Esc {
            KeyRoute::QuitDismissed
        } else {
            KeyRoute::Swallowed
        }
    } else if flags.abstract_popup_active {
        if key == FeedKey::Char(' ') || key == FeedKey::Esc || key == FeedKey::Enter {
            KeyRoute::AbstractDismissed
        } else {
            KeyRoute::Swallowed
        }
    } else if ctx.reader_popup_active {
        if key == FeedKey::Esc {
            KeyRoute::ReaderPopupClose
        } else {
            KeyRoute::ReaderPopupKey
        }
    } else if flags.tab_window_prompt_active {
        if key == FeedKey::Char('1') {
            KeyRoute::NewTab(false)
        } else if key == FeedKey::Char('2') {
            KeyRoute::NewTab(true)
        } else if key == FeedKey::Esc {
            KeyRoute::TabPromptCancelled
        } else {
            KeyRoute::Swallowed
        }
    } else if help_active {
        KeyRoute::HelpOverlay
    } else if key == FeedKey::Char('?') && !ctx.text_entry && ctx.reader_focused {
        KeyRoute::ReaderHelp
    } else if key == FeedKey::Char('?') && !ctx.text_entry {
        KeyRoute::AppHelp
    } else if key == FeedKey::Char('t') && ctrl_only {
        KeyRoute::LeaderArmed
    } else if leader_live(leader, elapsed_ms) {
        KeyRoute::Leader
    } else if ctx.bottom_pane_active {
        KeyRoute::BottomPane
    } else {
        KeyRoute::Panes
    }
}

/// The routes that pass the leader's expiry check.
pub open spec fn past_leader_expiry(r: KeyRoute) -> bool {
    r is LeaderArmed || r is Leader || r is BottomPane || r is Panes
}

/// Route one key. `ctrl_only`: Control is the only modifier held;
/// `leader_elapsed_ms`: the time since the leader was armed. The router
/// closes the quit prompt when it is answered, the abstract popup and the
/// tab-window prompt when dismissed or answered, opens the help at its
/// first section for `?`, disarms the leader when help opens, lets an
/// expired leader lapse before the leader's turn, and arms it on Ctrl+T.
/// Nothing else changes.
pub fn dispatch_key(
    key: FeedKey,
    ctrl_only: bool,
    tag_picker: &TagPickerState,
    quit: &mut QuitPopupState,
    flags: &mut ViewFlags,
    help: &mut HelpState,
    leader: &mut LeaderState,
    leader_elapsed_ms: u128,
    ctx: &DispatchContext,
) -> (route: KeyRoute)
    ensures
        route == route_spec(
            key,
            ctrl_only,
            tag_picker.active,
            *old(quit),
            *old(flags),
            old(help).active,
            *old(leader),
            leader_elapsed_ms,
            *ctx,
        ),
        (route is QuitConfirmed || route is QuitDismissed) ==> !final(quit).active
            && final(quit).kind == old(quit).kind,
        !(route is QuitConfirmed || route is QuitDismissed) ==> *final(quit) == *old(quit),
        route is AbstractDismissed ==> *final(flags) == (ViewFlags {
            abstract_popup_active: false,
            ..*old(flags)
        }),
        (route is NewTab || route is TabPromptCancelled) ==> *final(flags) == (ViewFlags {
            tab_window_prompt_active: false,
            ..*old(flags)
        }),
        !(route is AbstractDismissed || route is NewTab || route is TabPromptCancelled) ==> *final(flags) == *old(flags),
        route is AppHelp ==> final(help).active && final(help).section == 0 && final(help).scroll
            == 0,
        !(route is AppHelp) ==> *final(help) == *old(help),
        route is AppHelp ==> !final(leader).active && final(leader).activated_at == old(leader).activated_at && final(leader).timeout_ms == old(leader).timeout_ms,
        route is LeaderArmed ==> final(leader).active && final(leader).activated_at.is_some()
            && final(leader).timeout_ms == old(leader).timeout_ms,
        (route is Leader || route is BottomPane || route is Panes) ==> final(leader).active
            == leader_live(*old(leader), leader_elapsed_ms) && final(leader).activated_at == old(leader).activated_at && final(leader).timeout_ms == old(leader).timeout_ms,
        !(route is AppHelp || past_leader_expiry(route)) ==> final(leader).active == old(leader).active && final(leader).activated_at == old(leader).activated_at
            && final(leader).timeout_ms == old(leader).timeout_ms,
{
    if tag_picker.active {
        return KeyRoute::TagPicker;
    }
    if quit.active {
        if key == FeedKey::Char('q') || key == FeedKey::Enter {
            quit.active = false;
            return KeyRoute::QuitConfirmed(quit.kind);
        } else if key == FeedKey::Esc {
            quit.active = false;
            return KeyRoute::QuitDismissed;
        }
        return KeyRoute::Swallowed;
    }
    if flags.abstract_popup_active {
        if key == FeedKey::Char(' ') || key == FeedKey::Esc || key == FeedKey::Enter {
            flags.abstract_popup_active = false;
            return KeyRoute::AbstractDismissed;
        }
        return KeyRoute::Swallowed;
    }
    if ctx.reader_popup_active {
        if key == FeedKey::Esc {
            return KeyRoute::ReaderPopupClose;
        }
        return KeyRoute::ReaderPopupKey;
    }
    if flags.tab_window_prompt_active {
        if key == FeedKey::Char('1') {
            flags.tab_window_prompt_active = false;
            return KeyRoute::NewTab(false);
        } else if key == FeedKey::Char('2') {
            flags.tab_window_prompt_active = false;
            return KeyRoute::NewTab(true);
        } else if key == FeedKey::Esc {
            flags.tab_window_prompt_active = false;
            return KeyRoute::TabPromptCancelled;
        }
        return KeyRoute::Swallowed;
    }
    if help.active {
        return KeyRoute::HelpOverlay;
    }
    if key == FeedKey::Char('?') && !ctx.text_entry && ctx.reader_focused {
        return KeyRoute::ReaderHelp;
    }
    if key == FeedKey::Char('?') && !ctx.text_entry {
        leader.deactivate();
        help.active = true;
        help.section = 0;
        help.scroll = 0;
        return KeyRoute::AppHelp;
    }
    leader.expire_after(leader_elapsed_ms);
    if key == FeedKey::Char('t') && ctrl_only {
        leader.activate();
        return KeyRoute::LeaderArmed;
    }
    if leader.is_active() {
        return KeyRoute::Leader;
    }
    if ctx.bottom_pane_active {
        return KeyRoute::BottomPane;
    }
    KeyRoute::Panes
}

} // verus!
