//! Plain state clusters: popups, help overlay, reader-bottom drawer, view
//! flags, banner notification, quit prompt, chat pane flags, tag picker.

use vstd::prelude::*;

use crate::primitives::ScrollState;

verus! {

/// Banner notification; `item_id` is the URL of the item that was selected
/// when the notification fired.
#[derive(Debug)]
pub struct NotificationState {
    pub message: Option<String>,
    pub item_id: Option<String>,
}

impl NotificationState {
    pub fn new() -> (s: Self)
        ensures
            s.message.is_none(),
            s.item_id.is_none(),
    {
        NotificationState { message: None, item_id: None }
    }

    pub fn clear(&mut self)
        ensures
            final(self).message.is_none(),
            final(self).item_id.is_none(),
    {
        self.message = None;
        self.item_id = None;
    }
}

impl Default for NotificationState {
    fn default() -> (s: Self)
        ensures
            s.message.is_none(),
            s.item_id.is_none(),
    {
        NotificationState::new()
    }
}

/// The reader-bottom drawer's UI state.
#[derive(Debug)]
pub struct ReaderBottomState {
    pub open: bool,
    pub focused: bool,
    pub details: bool,
    pub feed_popup_selected: usize,
    pub scroll: ScrollState,
}

impl Default for ReaderBottomState {
    fn default() -> (s: Self)
        ensures
            !s.open && !s.focused && !s.details,
            s.feed_popup_selected == 0,
            s.scroll@.offset == 0 && s.scroll@.max == 0 && s.scroll@.viewport_size == 0,
    {
        ReaderBottomState {
            open: false,
            focused: false,
            details: false,
            feed_popup_selected: 0,
            scroll: ScrollState::new(),
        }
    }
}

/// Which transient popups are visible.
#[derive(Debug)]
pub struct ViewFlags {
    pub tab_window_prompt_active: bool,
    pub abstract_popup_active: bool,
    pub narrow_feed_details_open: bool,
}

impl Default for ViewFlags {
    fn default() -> (f: Self)
        ensures
            !f.tab_window_prompt_active && !f.abstract_popup_active && !f.narrow_feed_details_open,
    {
        ViewFlags {
            tab_window_prompt_active: false,
            abstract_popup_active: false,
            narrow_feed_details_open: false,
        }
    }
}

/// Help overlay state.
#[derive(Debug)]
pub struct HelpState {
    pub active: bool,
    pub section: usize,
    pub scroll: u16,
}

impl Default for HelpState {
    fn default() -> (h: Self)
        ensures
            !h.active && h.section == 0 && h.scroll == 0,
    {
        HelpState { active: false, section: 0, scroll: 0 }
    }
}

/// Which quit prompt is shown.
#[derive(Debug, Clone, Copy, PartialEq, Eq, Structural)]
pub enum QuitPopupKind {
    QuitApp,
    QuitWithProgress,
    QuitWithChat,
    LeaveReader,
}

impl Default for QuitPopupKind {
    fn default() -> (k: Self)
        ensures
            k == QuitPopupKind::QuitApp,
    {
        QuitPopupKind::QuitApp
    }
}

#[derive(Debug)]
pub struct QuitPopupState {
    pub active: bool,
    pub kind: QuitPopupKind,
}

impl Default for QuitPopupState {
    fn default() -> (s: Self)
        ensures
            !s.active && s.kind == QuitPopupKind::QuitApp,
    {
        QuitPopupState { active: false, kind: QuitPopupKind::QuitApp }
    }
}

/// The quit prompt that fits the moment: leaving the reader when it is the
/// focused, open pane; warning about work in progress while anything is
/// loading; warning about an unsent chat draft; otherwise a plain quit.
pub open spec fn quit_popup_kind_spec(leaving_reader: bool, loading: bool, chat_draft: bool) -> QuitPopupKind {
    if leaving_reader {
        QuitPopupKind::LeaveReader
    } else if loading {
        QuitPopupKind::QuitWithProgress
    } else if chat_draft {
        QuitPopupKind::QuitWithChat
    } else {
        QuitPopupKind::QuitApp
    }
}

impl QuitPopupState {
    /// Open the quit prompt. `leaving_reader`: the reader is open and
    /// focused; `loading`: a discovery or feed load is running;
    /// `chat_draft`: the chat pane is open with a non-blank draft.
    pub fn show_quit_popup(&mut self, leaving_reader: bool, loading: bool, chat_draft: bool)
        ensures
            final(self).active,
            final(self).kind == quit_popup_kind_spec(leaving_reader, loading, chat_draft),
    {
        let kind = if leaving_reader {
            QuitPopupKind::LeaveReader
        } else if loading {
            QuitPopupKind::QuitWithProgress
        } else if chat_draft {
            QuitPopupKind::QuitWithChat
        } else {
            QuitPopupKind::QuitApp
        };
        self.active = true;
        self.kind = kind;
    }
}

/// Chat pane flags: shown at all, full screen, docked at the top.
#[derive(Debug)]
pub struct ChatState {
    pub active: bool,
    pub fullscreen: bool,
    pub at_top: bool,
}

impl Default for ChatState {
    fn default() -> (c: Self)
        ensures
            !c.active && !c.fullscreen && !c.at_top,
    {
        ChatState { active: false, fullscreen: false, at_top: false }
    }
}

/// Tag picker popup state.
#[derive(Debug)]
pub struct TagPickerState {
    pub active: bool,
    pub input: String,
    pub selected: usize,
    pub target_urls: Vec<String>,
}

impl Default for TagPickerState {
    fn default() -> (s: Self)
        ensures
            !s.active && s.input@.len() == 0 && s.selected == 0 && s.target_urls@.len() == 0,
    {
        TagPickerState { active: false, input: String::new(), selected: 0, target_urls: Vec::new() }
    }
}

impl TagPickerState {
    /// Open the picker on `target_urls` (one item, or a multi-selection)
    /// with an empty input; with no target it stays as it is.
    pub fn open_tag_picker(&mut self, target_urls: Vec<String>)
        ensures
            target_urls@.len() == 0 ==> *final(self) == *old(self),
            target_urls@.len() > 0 ==> final(self).active && final(self).input@.len() == 0
                && final(self).selected == 0 && final(self).target_urls@ == target_urls@,
    {
        if target_urls.len() == 0 {
            return;
        }
        self.target_urls = target_urls;
        self.input = String::new();
        self.selected = 0;
        self.active = true;
    }

    /// Close the picker and forget its input, cursor and targets.
    pub fn close_tag_picker(&mut self)
        ensures
            !final(self).active,
            final(self).input@.len() == 0,
            final(self).selected == 0,
            final(self).target_urls@.len() == 0,
    {
        self.active = false;
        self.input = String::new();
        self.selected = 0;
        self.target_urls.clear();
    }
}

/// Outcome of a feed-discovery request.
#[derive(Clone, Debug)]
pub enum DiscoverResult {
    ArxivCategory(String),
    HuggingFaceAlreadyEnabled,
    RssFeed { url: String, name: String },
    Failed(String),
}

/// Mode of the custom-theme editor.
#[derive(Clone, Copy, PartialEq, Eq, Debug, Structural)]
pub enum CustomThemeEditorMode {
    Palette,
    Name,
    Hex,
    DeleteConfirm,
}

/// Render-benchmark options.
#[derive(Debug)]
pub struct BenchOptions {
    pub scenario: String,
    pub n: usize,
    pub frames: usize,
    pub width: u16,
    pub height: u16,
}

impl Default for BenchOptions {
    fn default() -> (o: Self)
        ensures
            o.scenario@ == "feed"@,
            o.n == 1000 && o.frames == 200 && o.width == 160 && o.height == 48,
    {
        BenchOptions {
            scenario: crate::text::to_owned_string("feed"),
            n: 1000,
            frames: 200,
            width: 160,
            height: 48,
        }
    }
}

} // verus!
