//! Shared interaction primitives.
//!
//! Each primitive owns a small state machine for a recurring UI pattern:
//! list selection, scroll, text input, async load. Surfaces compose
//! primitives instead of hand-rolling cursors / offsets / buffers, so the
//! invariants (selection-in-range, scroll-in-bounds, mirror-in-sync) live
//! with the state they belong to.

pub mod async_load;
pub mod list_state;
pub mod scroll_state;
pub mod text_input;

pub use async_load::AsyncLoadState;
pub use list_state::ListState;
pub use scroll_state::ScrollState;
pub use text_input::TextInputState;
