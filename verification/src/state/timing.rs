//! Input-rate gates (`DebounceState`) and the leader-key arm/expire gate
//! (`LeaderState`). Both read the monotonic clock; the decisions they make
//! from the elapsed time are the verified functions below.

use std::time::Instant;
use vstd::prelude::*;

use crate::sys::{elapsed_millis, instant_now};

verus! {

/// The scroll-gate decision: accept the first scroll (`None`), and any
/// scroll that comes at least `cooldown_ms` milliseconds after the last one.
pub open spec fn scroll_accepted(elapsed_ms: Option<u128>, cooldown_ms: u64) -> bool {
    match elapsed_ms {
        None => true,
        Some(e) => e >= cooldown_ms,
    }
}

/// Executable [`scroll_accepted`].
pub fn scroll_gate(elapsed_ms: Option<u128>, cooldown_ms: u64) -> (r: bool)
    ensures
        r == scroll_accepted(elapsed_ms, cooldown_ms),
{
    match elapsed_ms {
        None => true,
        Some(e) => !(e < cooldown_ms as u128),
    }
}

/// Two independent cooldowns: keyboard scrolls and mouse scrolls.
#[derive(Debug)]
pub struct DebounceState {
    pub last_kbd: Option<Instant>,
    pub kbd_cooldown_ms: u64,
    pub last_mouse: Option<Instant>,
    pub mouse_cooldown_ms: u64,
}

impl Default for DebounceState {
    fn default() -> (d: Self)
        ensures
            d.last_kbd.is_none(),
            d.kbd_cooldown_ms == 50,
            d.last_mouse.is_none(),
            d.mouse_cooldown_ms == 80,
    {
        DebounceState { last_kbd: None, kbd_cooldown_ms: 50, last_mouse: None, mouse_cooldown_ms: 80 }
    }
}

/// One scroll against a cooldown timer `last`. `elapsed_ms` is the time
/// since the last scroll let through (`None` for none yet). The scroll
/// passes exactly when [`scroll_accepted`] holds, and `last` then becomes
/// `now`; a refused scroll leaves `last` alone.
pub fn gate_step(last: &mut Option<Instant>, now: Instant, elapsed_ms: Option<u128>, cooldown_ms: u64) -> (r: bool)
    ensures
        r == scroll_accepted(elapsed_ms, cooldown_ms),
        r ==> *final(last) == Some(now),
        !r ==> *final(last) == *old(last),
{
    if scroll_gate(elapsed_ms, cooldown_ms) {
        *last = Some(now);
        true
    } else {
        false
    }
}

fn try_gate(last: &mut Option<Instant>, cooldown_ms: u64) -> (r: bool)
    ensures
        old(last).is_none() ==> r,
        r ==> final(last).is_some(),
        !r ==> *final(last) == *old(last),
{
    let now = instant_now();
    let elapsed = match last {
        Some(t) => Some(elapsed_millis(t)),
        None => None,
    };
    gate_step(last, now, elapsed, cooldown_ms)
}

impl DebounceState {
    /// Accept a keyboard scroll if the keyboard cooldown has elapsed since
    /// the last accepted one, and restart its timer. The first scroll is
    /// always accepted; the mouse gate is untouched.
    pub fn try_kbd_scroll(&mut self) -> (r: bool)
        ensures
            old(self).last_kbd.is_none() ==> r,
            r ==> final(self).last_kbd.is_some(),
            !r ==> final(self).last_kbd == old(self).last_kbd,
            final(self).kbd_cooldown_ms == old(self).kbd_cooldown_ms,
            final(self).last_mouse == old(self).last_mouse,
            final(self).mouse_cooldown_ms == old(self).mouse_cooldown_ms,
    {
        try_gate(&mut self.last_kbd, self.kbd_cooldown_ms)
    }

    /// Mirror of [`DebounceState::try_kbd_scroll`] for mouse-wheel events.
    pub fn try_mouse_scroll(&mut self) -> (r: bool)
        ensures
            old(self).last_mouse.is_none() ==> r,
            r ==> final(self).last_mouse.is_some(),
            !r ==> final(self).last_mouse == old(self).last_mouse,
            final(self).mouse_cooldown_ms == old(self).mouse_cooldown_ms,
            final(self).last_kbd == old(self).last_kbd,
            final(self).kbd_cooldown_ms == old(self).kbd_cooldown_ms,
    {
        try_gate(&mut self.last_mouse, self.mouse_cooldown_ms)
    }
}

/// Whether an armed leader has timed out after `elapsed_ms`.
pub open spec fn leader_timed_out(elapsed_ms: u128, timeout_ms: u64) -> bool {
    elapsed_ms > timeout_ms
}

/// Executable [`leader_timed_out`].
pub fn leader_expired(elapsed_ms: u128, timeout_ms: u64) -> (r: bool)
    ensures
        r == leader_timed_out(elapsed_ms, timeout_ms),
{
    elapsed_ms > timeout_ms as u128
}

/// Ctrl+T leader-key arming with auto-expire.
#[derive(Debug)]
pub struct LeaderState {
    pub active: bool,
    pub activated_at: Option<Instant>,
    pub timeout_ms: u64,
}

impl Default for LeaderState {
    fn default() -> (l: Self)
        ensures
            !l.active,
            l.activated_at.is_none(),
            l.timeout_ms == 1000,
    {
        LeaderState { active: false, activated_at: None, timeout_ms: 1000 }
    }
}

impl LeaderState {
    /// Arm the leader and record when.
    pub fn activate(&mut self)
        ensures
            final(self).active,
            final(self).activated_at.is_some(),
            final(self).timeout_ms == old(self).timeout_ms,
    {
        self.active = true;
        self.activated_at = Some(instant_now());
    }

    /// Disarm the leader.
    pub fn deactivate(&mut self)
        ensures
            !final(self).active,
            final(self).activated_at == old(self).activated_at,
            final(self).timeout_ms == old(self).timeout_ms,
    {
        self.active = false;
    }

    /// The expiry step with `elapsed_ms` the time since the leader was
    /// armed: an armed leader with a timestamp is disarmed when
    /// [`leader_timed_out`]; nothing else changes.
    pub fn expire_after(&mut self, elapsed_ms: u128)
        ensures
            final(self).active == (old(self).active && !(old(self).activated_at.is_some()
                && leader_timed_out(elapsed_ms, old(self).timeout_ms))),
            final(self).activated_at == old(self).activated_at,
            final(self).timeout_ms == old(self).timeout_ms,
    {
        if self.active && self.activated_at.is_some() && leader_expired(elapsed_ms, self.timeout_ms) {
            self.active = false;
        }
    }

    /// Disarm if armed and the timeout has elapsed; otherwise no change.
    /// It never arms the leader and never touches the timestamp.
    pub fn expire_if_timed_out(&mut self)
        ensures
            !old(self).active ==> !final(self).active,
            old(self).activated_at.is_none() ==> final(self).active == old(self).active,
            final(self).active ==> old(self).active,
            final(self).activated_at == old(self).activated_at,
            final(self).timeout_ms == old(self).timeout_ms,
    {
        if self.active {
            let elapsed = match &self.activated_at {
                Some(t) => elapsed_millis(t),
                None => 0,
            };
            self.expire_after(elapsed);
        }
    }

    /// Whether the leader is armed. Pure: does not auto-expire.
    pub fn is_active(&self) -> (r: bool)
        ensures
            r == self.active,
    {
        self.active
    }
}

} // verus!
