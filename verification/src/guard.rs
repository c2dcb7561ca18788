//! One-time-execution guards.
//!
//! Each idempotent installation site (a per-selector swizzle, the
//! present-hook installation, the device binding) is wrapped in a guard so
//! that repeated triggers perform the guarded work exactly once. The guard
//! itself is a plain flag; the process-wide lock that makes concurrent
//! triggers take turns lives with the caller, outside the library.

use vstd::prelude::*;

verus! {

/// A guard that grants acquisition to exactly one of any number of
/// sequential attempts.
#[derive(Clone, Copy, Debug, PartialEq, Eq, Structural)]
pub struct OnceGuard {
    /// Whether the guarded work has been claimed already.
    pub fired: bool,
}

impl OnceGuard {
    /// A fresh guard: nothing has been claimed yet.
    pub fn new() -> (g: OnceGuard)
        ensures
            !g.fired,
    {
        OnceGuard { fired: false }
    }

    /// Attempts to claim the guarded work. Returns true exactly when this
    /// attempt is the first; every later attempt is a no-op.
    pub fn try_fire(&mut self) -> (claimed: bool)
        ensures
            claimed <==> !old(self).fired,
            final(self).fired,
    {
        let was_fired = self.fired;
        self.fired = true;
        !was_fired
    }
}

/// How many of `n` consecutive `try_fire` attempts succeed, starting from
/// a guard whose flag is `fired0`. Models the transition of `try_fire`:
/// an attempt succeeds exactly when the flag is still clear, and every
/// attempt leaves the flag set.
pub open spec fn fires_in_run(fired0: bool, n: nat) -> nat
    decreases n,
{
    if n == 0 {
        0
    } else if !fired0 {
        1 + fires_in_run(true, (n - 1) as nat)
    } else {
        fires_in_run(true, (n - 1) as nat)
    }
}

/// A guard that has already fired grants nothing more.
pub proof fn lemma_fired_guard_grants_nothing(n: nat)
    ensures
        fires_in_run(true, n) == 0,
    decreases n,
{
    if n > 0 {
        lemma_fired_guard_grants_nothing((n - 1) as nat);
    }
}

/// Law: a fresh guard attempted any number of times (at least once) grants
/// acquisition exactly once; the other attempts are no-ops.
pub proof fn lemma_once_guard_exactly_once(n: nat)
    requires
        n >= 1,
    ensures
        fires_in_run(false, n) == 1,
{
    lemma_fired_guard_grants_nothing((n - 1) as nat);
}

} // verus!
