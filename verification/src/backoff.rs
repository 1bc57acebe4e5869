//! The randomized exponential backoff policy for lock contention.
//!
//! On each collision the policy picks a pseudo-random delay inside a waiting
//! window, then doubles the window, up to a fixed cap. The window starts at
//! one unit, so the window before the `k`-th retry is `2^k` units until the
//! cap is reached. The source of randomness and the sleeping are the
//! embedding program's: it hands a raw random value in and performs the wait;
//! the schedule itself — which delay, and how the window grows — is decided
//! and verified here.

use vstd::prelude::*;
use vstd::arithmetic::power2::pow2;
use vstd::arithmetic::power2::lemma_pow2_unfold;

use crate::lock::Action;

verus! {

/// The waiting window before the first retry, in delay units.
pub const INITIAL_BACKOFF_WINDOW: u64 = 1;

/// The cap on the waiting window: doubling stops here, so no delay ever
/// exceeds this many units.
pub const MAX_BACKOFF_WINDOW: u64 = 0x1_0000_0000;

/// The window after one collision: doubled, saturated at the cap.
pub open spec fn spec_next_window(window: u64) -> u64 {
    if window * 2 <= MAX_BACKOFF_WINDOW {
        (window * 2) as u64
    } else {
        MAX_BACKOFF_WINDOW
    }
}

/// The window before the `k`-th retry, starting from the initial window.
pub open spec fn spec_window_after(k: nat) -> u64
    decreases k,
{
    if k == 0 {
        INITIAL_BACKOFF_WINDOW
    } else {
        spec_next_window(spec_window_after((k - 1) as nat))
    }
}

/// The delay drawn for one retry: the raw random value reduced into the
/// current window, so it always falls in `[0, window)`.
pub open spec fn spec_delay(window: u64, random: u64) -> u64
    recommends
        window > 0,
{
    (random as int % window as int) as u64
}

/// The retry policy's mutable state: the current waiting window.
pub struct BackoffState {
    window: u64,
}

impl BackoffState {
    /// The current waiting window, in delay units.
    pub closed spec fn window(&self) -> u64 {
        self.window
    }

    /// The window is always at least the initial one and at most the cap.
    pub open spec fn wf(&self) -> bool {
        INITIAL_BACKOFF_WINDOW <= self.window() <= MAX_BACKOFF_WINDOW
    }

    /// A fresh policy, as installed at the start of a waiting acquisition.
    pub fn new() -> (st: BackoffState)
        ensures
            st.wf(),
            st.window() == INITIAL_BACKOFF_WINDOW,
    {
        BackoffState { window: INITIAL_BACKOFF_WINDOW }
    }

    /// One collision: draws the delay to wait from the supplied random value,
    /// grows the window, and instructs the caller to retry — the only
    /// sanctioned response to contention. Successive windows never shrink, so
    /// the expected delays grow until the cap.
    pub fn on_contention(&mut self, random: u64) -> (r: (u64, Action))
        requires
            old(self).wf(),
        ensures
            final(self).wf(),
            r.0 == spec_delay(old(self).window(), random),
            r.0 < old(self).window(),
            final(self).window() == spec_next_window(old(self).window()),
            old(self).window() <= final(self).window(),
            r.1 == Action::Retry,
    {
        let delay: u64 = random % self.window;
        if self.window <= MAX_BACKOFF_WINDOW / 2 {
            self.window = self.window * 2;
        } else {
            self.window = MAX_BACKOFF_WINDOW;
        }
        (delay, Action::Retry)
    }
}

/// Backoff boundedness, the window's exact growth: before the `k`-th retry
/// the waiting window is `2^k` delay units, until doubling reaches the cap,
/// from where it stays at the cap; in particular the windows never decrease
/// and every delay stays below the cap.
pub proof fn lemma_backoff_window_bound(k: nat)
    ensures
        pow2(k) <= MAX_BACKOFF_WINDOW ==> spec_window_after(k) == pow2(k),
        pow2(k) > MAX_BACKOFF_WINDOW ==> spec_window_after(k) == MAX_BACKOFF_WINDOW,
        spec_window_after(k) <= spec_window_after(k + 1),
    decreases k,
{
    assert(pow2(0) == 1) by {
        vstd::arithmetic::power2::lemma2_to64();
    }
    if k == 0 {
    } else {
        lemma_backoff_window_bound((k - 1) as nat);
        lemma_pow2_unfold(k);
    }
    lemma_pow2_unfold(k + 1);
}

} // verus!
