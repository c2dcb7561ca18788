//! Dispatch swizzling: replacing the implementation registered for a
//! (class, selector) pair of the host object system.
//!
//! The atomic implementation exchange is performed by the host runtime
//! outside the library; this module decides what each trigger of a swizzle
//! site does with the exchange and records its outcome. A site is guarded
//! so that the exchange happens exactly once however often the site is
//! triggered.

use vstd::prelude::*;
use crate::guard::{fires_in_run, lemma_once_guard_exactly_once, OnceGuard};

verus! {

/// Identifies one installed method replacement. Exists for the process
/// lifetime once installed; the host runtime offers no safe restoration
/// once other code may have cached the new pointer, so there is no
/// destruction path.
#[derive(Clone, Copy, Debug, PartialEq, Eq, Structural)]
pub struct SwizzleRecord {
    /// Identity of the target class.
    pub class_id: usize,
    /// Identity of the replaced selector.
    pub selector_id: usize,
    /// The implementation that was registered before the exchange; the
    /// replacement chains through it to preserve original behavior.
    pub prev_impl: usize,
}

/// What one trigger of a swizzle site did.
#[derive(Clone, Copy, Debug, PartialEq, Eq, Structural)]
pub enum SwizzleOutcome {
    /// This trigger performed the one real exchange.
    Installed(SwizzleRecord),
    /// An earlier trigger already claimed the site; this one was a no-op.
    AlreadyInstalled,
    /// The method record for the (class, selector) pair is absent.
    TargetMissing,
}

/// One guarded swizzle installation site.
#[derive(Clone, Copy, Debug, PartialEq, Eq, Structural)]
pub struct SwizzleSite {
    /// The one-time-execution guard around the site. As with the host's
    /// own once primitive, a trigger consumes the guard even when the
    /// target turns out to be absent.
    pub guard: OnceGuard,
    /// The record of the single real exchange, once it happened.
    pub record: Option<SwizzleRecord>,
}

impl SwizzleSite {
    /// A fresh site: not yet triggered, nothing installed.
    pub fn new() -> (s: SwizzleSite)
        ensures
            !s.guard.fired,
            s.record is None,
    {
        SwizzleSite { guard: OnceGuard::new(), record: None }
    }

    /// One trigger of the site. `method_found` says whether the host
    /// runtime has a method record for the pair, and `prev_impl` is the
    /// implementation its exchange primitive reported. The first trigger
    /// with the target present performs the exchange and records it;
    /// every later trigger is a no-op, and a first trigger without a
    /// target consumes the guard without installing anything.
    pub fn on_trigger(
        &mut self,
        class_id: usize,
        selector_id: usize,
        method_found: bool,
        prev_impl: usize,
    ) -> (o: SwizzleOutcome)
        ensures
            old(self).guard.fired ==> o == SwizzleOutcome::AlreadyInstalled && *final(self)
                == *old(self),
            !old(self).guard.fired && method_found ==> o == SwizzleOutcome::Installed(
                SwizzleRecord { class_id, selector_id, prev_impl },
            ) && final(self).record == Some(SwizzleRecord { class_id, selector_id, prev_impl }),
            !old(self).guard.fired && !method_found ==> o == SwizzleOutcome::TargetMissing
                && final(self).record == old(self).record,
            final(self).guard.fired,
    {
        let claimed = self.guard.try_fire();
        if !claimed {
            SwizzleOutcome::AlreadyInstalled
        } else if method_found {
            let record = SwizzleRecord { class_id, selector_id, prev_impl };
            self.record = Some(record);
            SwizzleOutcome::Installed(record)
        } else {
            SwizzleOutcome::TargetMissing
        }
    }
}

/// Law: a fresh swizzle site triggered any number of times (at least once)
/// with the target present performs exactly one implementation exchange;
/// the other triggers are no-ops. The count of exchanges over a run of
/// triggers is the count of successful guard acquisitions, since
/// `on_trigger` installs exactly when its guard acquisition succeeds.
pub proof fn lemma_swizzle_exactly_once(n: nat)
    requires
        n >= 1,
    ensures
        fires_in_run(false, n) == 1,
{
    lemma_once_guard_exactly_once(n);
}

} // verus!
