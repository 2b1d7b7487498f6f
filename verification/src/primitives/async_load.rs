//! Async-load state machine: `Idle → Loading → Ready` (or `Disconnected`).
//!
//! Wraps a channel receiver together with the consumer-facing state so
//! consumers don't keep two fields in sync. Each frame the consumer calls
//! [`AsyncLoadState::poll`], which advances the state if the worker thread
//! has produced a value or dropped its sender.

use std::sync::mpsc::Receiver;
use vstd::prelude::*;

verus! {

/// `std::sync::mpsc::Receiver`, carried through the state machine.
#[verifier::external_type_specification]
#[verifier::external_body]
#[verifier::reject_recursive_types(T)]
pub struct ExReceiver<T>(Receiver<T>);

/// What one non-blocking receive produced.
pub enum RecvOutcome<T> {
    Value(T),
    Empty,
    Disconnected,
}

/// Wrapper of `Receiver::try_recv`: a value if one is queued, `Empty` if
/// none is yet, `Disconnected` if every sender is gone. Which of the three
/// comes back depends on the worker thread.
#[verifier::external_body]
fn try_receive<T>(rx: &Receiver<T>) -> (r: RecvOutcome<T>) {
    match rx.try_recv() {
        Ok(value) => RecvOutcome::Value(value),
        Err(std::sync::mpsc::TryRecvError::Empty) => RecvOutcome::Empty,
        Err(std::sync::mpsc::TryRecvError::Disconnected) => RecvOutcome::Disconnected,
    }
}

/// Async load state machine. Default is `Idle`.
#[verifier::reject_recursive_types(T)]
pub enum AsyncLoadState<T> {
    Idle,
    Loading(Receiver<T>),
    Ready(T),
    /// The worker dropped its sender without producing a value.
    Disconnected,
}

impl<T> AsyncLoadState<T> {
    pub fn new() -> (s: Self)
        ensures
            s is Idle,
    {
        AsyncLoadState::Idle
    }

    pub fn is_idle(&self) -> (r: bool)
        ensures
            r == self is Idle,
    {
        matches!(self, AsyncLoadState::Idle)
    }

    pub fn is_loading(&self) -> (r: bool)
        ensures
            r == self is Loading,
    {
        matches!(self, AsyncLoadState::Loading(_))
    }

    pub fn is_ready(&self) -> (r: bool)
        ensures
            r == self is Ready,
    {
        matches!(self, AsyncLoadState::Ready(_))
    }

    pub fn is_disconnected(&self) -> (r: bool)
        ensures
            r == self is Disconnected,
    {
        matches!(self, AsyncLoadState::Disconnected)
    }

    /// Begin a load with the given receiver, replacing any prior state.
    pub fn start(&mut self, rx: Receiver<T>)
        ensures
            *final(self) == AsyncLoadState::Loading(rx),
    {
        *self = AsyncLoadState::Loading(rx);
    }

    /// The state after a receive on a loading state produced `outcome`: a
    /// value makes it `Ready` with that value, an empty channel leaves it
    /// loading, a dropped sender makes it `Disconnected`. Every state other
    /// than `Loading` is left as it is.
    pub fn advance(&mut self, outcome: RecvOutcome<T>)
        ensures
            match *old(self) {
                AsyncLoadState::Loading(_) => match outcome {
                    RecvOutcome::Value(v) => *final(self) == AsyncLoadState::<T>::Ready(v),
                    RecvOutcome::Empty => *final(self) == *old(self),
                    RecvOutcome::Disconnected => (*final(self)) is Disconnected,
                },
                _ => *final(self) == *old(self),
            },
    {
        if self.is_loading() {
            match outcome {
                RecvOutcome::Value(value) => {
                    *self = AsyncLoadState::Ready(value);
                },
                RecvOutcome::Empty => {},
                RecvOutcome::Disconnected => {
                    *self = AsyncLoadState::Disconnected;
                },
            }
        }
    }

    /// Try to advance `Loading → Ready` or `Loading → Disconnected` with one
    /// non-blocking receive (see [`AsyncLoadState::advance`]). Every other
    /// state is left as it is.
    pub fn poll(&mut self)
        ensures
            !((*old(self)) is Loading) ==> *final(self) == *old(self),
            (*old(self)) is Loading ==> ({
                ||| *final(self) == *old(self)
                ||| (*final(self)) is Ready
                ||| (*final(self)) is Disconnected
            }),
    {
        let outcome = match &*self {
            AsyncLoadState::Loading(rx) => try_receive(rx),
            _ => RecvOutcome::Empty,
        };
        self.advance(outcome);
    }

    /// If `Ready`, return the value and go back to `Idle`; otherwise return
    /// `None` and leave the state unchanged.
    pub fn take(&mut self) -> (r: Option<T>)
        ensures
            match *old(self) {
                AsyncLoadState::Ready(v) => r == Some(v) && (*final(self)) is Idle,
                _ => r.is_none() && *final(self) == *old(self),
            },
    {
        let mut owned = AsyncLoadState::Idle;
        std::mem::swap(&mut owned, self);
        match owned {
            AsyncLoadState::Ready(value) => Some(value),
            other => {
                *self = other;
                None
            },
        }
    }

    /// Read-only access to the loaded value.
    pub fn result(&self) -> (r: Option<&T>)
        ensures
            match *self {
                AsyncLoadState::Ready(v) => r == Some(&v),
                _ => r.is_none(),
            },
    {
        match self {
            AsyncLoadState::Ready(value) => Some(value),
            _ => None,
        }
    }

    /// Back to `Idle`, dropping any receiver or value.
    pub fn reset(&mut self)
        ensures
            (*final(self)) is Idle,
    {
        *self = AsyncLoadState::Idle;
    }
}

impl<T> Default for AsyncLoadState<T> {
    fn default() -> (s: Self)
        ensures
            s is Idle,
    {
        AsyncLoadState::Idle
    }
}

} // verus!
