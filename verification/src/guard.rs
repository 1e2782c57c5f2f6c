//! The focus-race guard. Clicking the tray icon moves OS focus to the
//! notification area, so the window sees a focus-loss event just before
//! the tray click that showed it — and a handler that hides on every
//! focus loss would fight the one that shows. The guard is the signal
//! between the two: explicit state with a timestamp-based expiry, armed
//! when the window is shown, consulted by the focus-loss handler.

use vstd::prelude::*;

verus! {

/// A short-lived mutual-exclusion signal between the tray handler that
/// shows the window and the focus-loss handler that hides it.
pub struct FocusGuard {
    /// The moment, in milliseconds of the host's clock, at which the
    /// guard lapses.
    pub expires_at_ms: u64,
}

/// Arms the guard at `now_ms` for a grace period of `grace_ms`
/// milliseconds: until it lapses, a focus loss does not hide the window.
pub fn arm_guard(now_ms: u64, grace_ms: u64) -> (g: FocusGuard)
    requires
        now_ms + grace_ms <= u64::MAX,
    ensures
        g.expires_at_ms == now_ms + grace_ms,
{
    FocusGuard { expires_at_ms: now_ms + grace_ms }
}

/// Whether the guard still holds at `now_ms`.
pub fn guard_active(g: &FocusGuard, now_ms: u64) -> (r: bool)
    ensures
        r == (now_ms < g.expires_at_ms),
{
    now_ms < g.expires_at_ms
}

/// The decision of the focus-loss handler: hide the window exactly when
/// no guard was ever armed or the last armed guard has lapsed.
pub fn should_hide_on_focus_loss(guard: &Option<FocusGuard>, now_ms: u64) -> (r: bool)
    ensures
        r == match guard {
            Some(g) => now_ms >= g.expires_at_ms,
            None => true,
        },
{
    match guard {
        Some(g) => !guard_active(g, now_ms),
        None => true,
    }
}

} // verus!
