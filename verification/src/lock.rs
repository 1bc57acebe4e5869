//! The exclusive access lock: a process-wide mutual-exclusion flag that
//! serializes every use of the counter facility.
//!
//! The flag starts free, flips to held on a successful acquisition and back
//! to free on release, and at most one [`LockGuard`] is outstanding at any
//! instant: a guard is created only by [`CounterLock::try_acquire`], which succeeds
//! exactly when the flag is free, and releasing a guard clears the flag
//! unconditionally. The embedding program owns one process-lifetime [`CounterLock`]
//! and drives the retry loop around `try_acquire`; the policy for the waiting
//! between attempts lives in [`crate::backoff`].

use vstd::prelude::*;

verus! {

/// The decision a retry policy may take when the lock is contended.
///
/// The only sanctioned response to contention is to retry: giving up is not
/// representable at this layer, so a caller that wants a bounded number of
/// attempts must escalate to an abrupt failure itself.
#[derive(Clone, Copy, PartialEq, Eq, Structural, Debug)]
pub enum Action {
    Retry,
}

/// The process-wide mutual-exclusion flag over the counter facility.
pub struct CounterLock {
    held: bool,
}

/// A token witnessing one successful acquisition of the lock.
///
/// It can be created only by [`CounterLock::try_acquire`] and owes the lock one
/// release; a counting session owns its guard for its whole active lifetime.
pub struct LockGuard {
    token: (),
}

/// One acquisition attempt as a transition of the lock's flag: the pair of
/// the flag after the attempt and whether the attempt succeeded. The flag is
/// held afterwards either way; the attempt succeeds exactly when the flag was
/// free.
pub open spec fn spec_try_acquire(held: bool) -> (bool, bool) {
    (true, !held)
}

/// Releasing clears the flag unconditionally.
pub open spec fn spec_release(held: bool) -> bool {
    false
}

impl CounterLock {
    /// Whether the lock is currently held by a guard.
    pub closed spec fn is_held(&self) -> bool {
        self.held
    }

    /// A fresh lock, free as at process start.
    pub fn new() -> (g: CounterLock)
        ensures
            !g.is_held(),
    {
        CounterLock { held: false }
    }

    /// One atomic test-and-set attempt on the flag: a guard exactly when the
    /// lock was free. On contention the caller decides, through its retry
    /// policy, when to attempt again; this call itself never waits.
    pub fn try_acquire(&mut self) -> (r: Option<LockGuard>)
        ensures
            final(self).is_held() == spec_try_acquire(old(self).is_held()).0,
            r is Some <==> spec_try_acquire(old(self).is_held()).1,
            r is Some <==> !old(self).is_held(),
            final(self).is_held(),
    {
        if self.held {
            None
        } else {
            self.held = true;
            Some(LockGuard { token: () })
        }
    }

    /// Consumes a guard and clears the flag unconditionally. Since only the
    /// guard holder can release, and a session's teardown always runs, the
    /// flag can never be left held by a guard whose owner is gone.
    pub fn release(&mut self, guard: LockGuard)
        ensures
            final(self).is_held() == spec_release(old(self).is_held()),
            !final(self).is_held(),
    {
        let LockGuard { token: _ } = guard;
        self.held = false;
    }
}

/// Mutual exclusion: from any flag state, two acquisition attempts with no
/// release between them never both succeed, so at most one guard — and hence
/// at most one active counting session — exists at any instant.
pub proof fn lemma_mutual_exclusion(held: bool)
    ensures
        !(spec_try_acquire(held).1 && spec_try_acquire(spec_try_acquire(held).0).1),
{
}

/// Guaranteed release: whatever state the lock was in, once a guard is
/// released the next acquisition attempt succeeds without external
/// intervention.
pub proof fn lemma_release_enables_acquire(held: bool)
    ensures
        spec_try_acquire(spec_release(held)).1,
{
}

} // verus!
