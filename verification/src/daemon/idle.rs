//! Session idle state, as ext-idle-notify-v1 reports it.

use vstd::prelude::*;

verus! {

/// Whether the compositor last reported the session idle.
pub struct IdleState {
    pub idle: bool,
}

/// The two notifications of ext-idle-notification-v1.
#[derive(Clone, Copy, Debug, PartialEq, Eq, Structural)]
pub enum IdleEvent {
    Idled,
    Resumed,
}

impl IdleState {
    /// A freshly bound notification: not idle.
    pub fn new() -> (r: IdleState)
        ensures
            !r.idle,
    {
        IdleState { idle: false }
    }
}

/// The idle timeout handed to the compositor, in milliseconds: the
/// configured seconds times 1000, capped at `u32::MAX`.
pub fn idle_timeout_ms(timeout_secs: u64) -> (r: u32)
    requires
        timeout_secs * 1000 <= u64::MAX,
    ensures
        r == (if timeout_secs * 1000 <= u32::MAX { timeout_secs * 1000 } else { u32::MAX as int }),
{
    let ms = timeout_secs * 1000;
    if ms <= 0xffff_ffff {
        ms as u32
    } else {
        0xffff_ffff
    }
}

} // verus!
