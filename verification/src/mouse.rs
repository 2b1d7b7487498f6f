//! Mouse input on the feed view: the wheel scrolls the pane under the
//! pointer (behind the mouse cooldown), a left click on the feed's
//! scrollbar track jumps the cursor proportionally, and a left click on a
//! pane focuses it.

use std::time::Instant;
use vstd::prelude::*;

use crate::state::timing::{gate_step, scroll_accepted, DebounceState};

verus! {

/// The panes a pointer can be over.
#[derive(Clone, Copy, Debug, PartialEq, Eq, Structural)]
pub enum Pane {
    Feed,
    Details,
    Reader,
    SecondaryReader,
    Notes,
    SecondaryNotes,
    Chat,
}

/// The kind of a mouse event.
#[derive(Clone, Copy, Debug, PartialEq, Eq, Structural)]
pub enum MouseKind {
    ScrollDown,
    ScrollUp,
    LeftDown,
    Other,
}

/// A mouse event at a terminal cell.
#[derive(Clone, Copy, Debug, PartialEq, Eq, Structural)]
pub struct MouseInput {
    pub kind: MouseKind,
    pub column: u16,
    pub row: u16,
}

/// The layout facts a click reads.
#[derive(Clone, Copy, Debug, PartialEq, Eq, Structural)]
pub struct MouseLayout {
    /// The terminal's size.
    pub width: u16,
    pub height: u16,
    /// Width of the right-hand column; the feed's scrollbar sits just left
    /// of it.
    pub right_col_width: u16,
    /// The pane under the pointer.
    pub hovered: Option<Pane>,
    /// The open, focusable pane under the pointer.
    pub focusable: Option<Pane>,
    /// Rows the feed shows.
    pub visible_count: usize,
    /// The filter panel has the keys.
    pub filter_focus: bool,
}

/// What the caller does after a mouse event.
#[derive(Clone, Copy, Debug, PartialEq, Eq, Structural)]
pub enum MouseAction {
    Ignored,
    /// Select the next (`true`) or previous note of the primary (`false`)
    /// or secondary (`true`) notes pane, after focusing its active tab's
    /// note: `(secondary, next)`.
    NoteStep(bool, bool),
    /// Scroll the chat three lines down (`true`) or up.
    ChatScroll(bool),
    /// Move the filter-panel cursor down (`true`) or up.
    FilterCursor(bool),
    /// Move the feed cursor down (`true`) or up.
    MoveCursor(bool),
    /// Select this feed row.
    JumpTo(usize),
    /// Focus this pane (a reader or notes pane also picks its side; the
    /// feed also takes the keys from the filter panel).
    Focus(Pane),
}

/// `a - b`, or 0.
pub open spec fn sat_sub(a: int, b: int) -> int {
    if a > b {
        a - b
    } else {
        0
    }
}

/// The column of the feed's scrollbar.
pub open spec fn scrollbar_col(l: MouseLayout) -> int {
    sat_sub(l.width as int, l.right_col_width + 1)
}

/// The row the scrollbar track ends before (it starts at row 4).
pub open spec fn track_bottom(l: MouseLayout) -> int {
    sat_sub(l.height as int, 6)
}

/// The click is on the feed's scrollbar track.
pub open spec fn on_track(ev: MouseInput, l: MouseLayout) -> bool {
    &&& ev.column == scrollbar_col(l)
    &&& 4 <= ev.row < track_bottom(l)
    &&& l.hovered == Some(Pane::Feed)
}

/// The row a track click selects: proportional to the click's place on the
/// track, and never past the last row.
pub open spec fn jump_row(ev: MouseInput, l: MouseLayout) -> int {
    let h = track_bottom(l) - 4;
    let off = ev.row - 4;
    let r = (off * l.visible_count) / h;
    if r < l.visible_count - 1 {
        r
    } else {
        l.visible_count - 1
    }
}

/// The action of a wheel step down (`down`) or up over the hovered pane.
pub open spec fn wheel_action(l: MouseLayout, down: bool) -> MouseAction {
    match l.hovered {
        Some(Pane::Details) => MouseAction::Ignored,
        Some(Pane::Notes) => MouseAction::NoteStep(false, down),
        Some(Pane::SecondaryNotes) => MouseAction::NoteStep(true, down),
        Some(Pane::Chat) => MouseAction::ChatScroll(down),
        _ => if l.filter_focus {
            MouseAction::FilterCursor(down)
        } else {
            MouseAction::MoveCursor(down)
        },
    }
}

/// The action of a mouse event on the feed view (`feed_view`), with
/// `accepted` whether the mouse cooldown lets a wheel step through.
pub open spec fn mouse_action(ev: MouseInput, l: MouseLayout, feed_view: bool, accepted: bool) -> MouseAction {
    if !feed_view {
        MouseAction::Ignored
    } else {
        match ev.kind {
            MouseKind::ScrollDown => if accepted {
                wheel_action(l, true)
            } else {
                MouseAction::Ignored
            },
            MouseKind::ScrollUp => if accepted {
                wheel_action(l, false)
            } else {
                MouseAction::Ignored
            },
            MouseKind::LeftDown => if on_track(ev, l) {
                if l.visible_count > 0 && track_bottom(l) - 4 > 0 {
                    MouseAction::JumpTo(jump_row(ev, l) as usize)
                } else {
                    MouseAction::Ignored
                }
            } else {
                match l.focusable {
                    Some(p) => MouseAction::Focus(p),
                    None => MouseAction::Ignored,
                }
            },
            MouseKind::Other => MouseAction::Ignored,
        }
    }
}

/// Handle one mouse event. `feed_view`: the feed view is shown (other
/// views ignore the mouse). A wheel step on the feed view goes through the
/// mouse cooldown: `elapsed_ms` is the time since the last wheel step let
/// through (`None` for none yet) and `now` restarts the cooldown when this
/// one passes. Only a wheel step on the feed view touches `debounce`.
pub fn mouse_event(
    ev: MouseInput,
    layout: &MouseLayout,
    feed_view: bool,
    debounce: &mut DebounceState,
    now: Instant,
    elapsed_ms: Option<u128>,
) -> (a: MouseAction)
    ensures
        ({
            let wheel = feed_view && (ev.kind == MouseKind::ScrollDown || ev.kind
                == MouseKind::ScrollUp);
            let accepted = scroll_accepted(elapsed_ms, old(debounce).mouse_cooldown_ms);
            &&& a == mouse_action(ev, *layout, feed_view, accepted)
            &&& final(debounce).last_kbd == old(debounce).last_kbd
            &&& final(debounce).kbd_cooldown_ms == old(debounce).kbd_cooldown_ms
            &&& final(debounce).mouse_cooldown_ms == old(debounce).mouse_cooldown_ms
            &&& final(debounce).last_mouse == if wheel && accepted {
                Some(now)
            } else {
                old(debounce).last_mouse
            }
        }),
{
    if !feed_view {
        return MouseAction::Ignored;
    }
    match ev.kind {
        MouseKind::ScrollDown | MouseKind::ScrollUp => {
            let down = ev.kind == MouseKind::ScrollDown;
            let cooldown = debounce.mouse_cooldown_ms;
            if !gate_step(&mut debounce.last_mouse, now, elapsed_ms, cooldown) {
                return MouseAction::Ignored;
            }
            match layout.hovered {
                Some(Pane::Details) => MouseAction::Ignored,
                Some(Pane::Notes) => MouseAction::NoteStep(false, down),
                Some(Pane::SecondaryNotes) => MouseAction::NoteStep(true, down),
                Some(Pane::Chat) => MouseAction::ChatScroll(down),
                _ => if layout.filter_focus {
                    MouseAction::FilterCursor(down)
                } else {
                    MouseAction::MoveCursor(down)
                },
            }
        },
        MouseKind::LeftDown => {
            let w = layout.width as u32;
            let edge = layout.right_col_width as u32 + 1;
            let col: u32 = if w > edge {
                w - edge
            } else {
                0
            };
            let bottom: u16 = if layout.height > 6 {
                layout.height - 6
            } else {
                0
            };
            if ev.column as u32 == col && ev.row >= 4 && ev.row < bottom && layout.hovered == Some(
                Pane::Feed,
            ) {
                let h = (bottom - 4) as u128;
                let off = (ev.row - 4) as u128;
                let total = layout.visible_count;
                if total > 0 && h > 0 {
                    let t = total as u128;
                    assert(off * t <= 65535 * t) by (nonlinear_arith)
                        requires
                            off <= 65535,
                    ;
                    assert(65535 * t <= 65535 * 0xffff_ffff_ffff_ffffu128) by (nonlinear_arith)
                        requires
                            t <= 0xffff_ffff_ffff_ffffu128,
                    ;
                    let r = (off * t) / h;
                    let last = t - 1;
                    let pick = if r < last {
                        r
                    } else {
                        last
                    };
                    return MouseAction::JumpTo(pick as usize);
                }
                return MouseAction::Ignored;
            }
            match layout.focusable {
                Some(p) => MouseAction::Focus(p),
                None => MouseAction::Ignored,
            }
        },
        MouseKind::Other => MouseAction::Ignored,
    }
}

} // verus!
