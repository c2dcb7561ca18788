//! Module load watcher: a process-wide callback fires once per loaded
//! module; the watcher filters the resolved file names down to the target
//! runtime module and triggers downstream initialization exactly once,
//! even when the loader delivers a matching module more than once.

use vstd::prelude::*;
use crate::hachimi::{is_il2cpp_lib, is_target_module};

verus! {

/// What the watcher does with one load event.
#[derive(Clone, Copy, Debug, PartialEq, Eq, Structural)]
pub enum LoadAction {
    /// The event did not warrant anything: no resolvable path, no match,
    /// or the downstream initializer already ran.
    Ignored,
    /// This event is the one that initializes the dependent hooks: the
    /// caller acquires a load handle for the module and invokes the
    /// downstream entry point.
    Initialize,
}

/// The watcher's process-wide state. Registration is terminal: the
/// watcher stays active for the process lifetime to catch late-loaded
/// target modules, so there is no unregister step.
#[derive(Clone, Copy, Debug, PartialEq, Eq, Structural)]
pub struct ModuleWatcher {
    /// Whether the load callback has been registered with the loader.
    pub registered: bool,
    /// Whether downstream initialization has been triggered.
    pub initialized: bool,
    /// Whether the downstream installer reported that all dependent
    /// hooks are in place.
    pub hooking_finished: bool,
}

/// The file path the loader introspection resolved for a module, as a
/// sequence of characters; `None` when the module has no resolvable path
/// (an anonymous region, for example).
pub open spec fn path_view(path: Option<&str>) -> Option<Seq<char>> {
    match path {
        Option::Some(p) => Option::Some(p@),
        Option::None => Option::None,
    }
}

/// A load event matches when it carries a resolvable path naming the
/// target runtime module.
pub open spec fn event_matches(ev: Option<Seq<char>>) -> bool {
    match ev {
        Option::Some(p) => is_target_module(p),
        Option::None => false,
    }
}

impl ModuleWatcher {
    /// A fresh watcher: unregistered, nothing initialized.
    pub fn new() -> (w: ModuleWatcher)
        ensures
            !w.registered,
            !w.initialized,
            !w.hooking_finished,
    {
        ModuleWatcher { registered: false, initialized: false, hooking_finished: false }
    }

    /// Registers the process-wide load callback; the watcher is watching
    /// from here on, for the rest of the process lifetime.
    pub fn register(&mut self)
        requires
            !old(self).registered,
        ensures
            final(self).registered,
            final(self).initialized == old(self).initialized,
            final(self).hooking_finished == old(self).hooking_finished,
    {
        self.registered = true;
    }

    /// Handles one module load event. An event with no resolvable path is
    /// ignored (not fatal); a resolvable path is matched against the
    /// target predicate; the first matching event triggers downstream
    /// initialization, and every later match is ignored.
    pub fn on_module_event(&mut self, path: Option<&str>) -> (a: LoadAction)
        requires
            old(self).registered,
        ensures
            a == LoadAction::Initialize <==> !old(self).initialized && event_matches(
                path_view(path),
            ),
            final(self).initialized == (old(self).initialized || event_matches(path_view(path))),
            final(self).registered == old(self).registered,
            final(self).hooking_finished == old(self).hooking_finished,
    {
        match path {
            Option::Some(p) => {
                if is_il2cpp_lib(p) {
                    if !self.initialized {
                        self.initialized = true;
                        LoadAction::Initialize
                    } else {
                        LoadAction::Ignored
                    }
                } else {
                    LoadAction::Ignored
                }
            },
            Option::None => LoadAction::Ignored,
        }
    }
}

/// How many of a run of load events trigger downstream initialization,
/// starting from a watcher whose `initialized` flag is `initialized0`.
/// Models the transition of `on_module_event`: an event triggers exactly
/// when it matches and nothing was initialized before it, and a matching
/// event leaves the flag set.
pub open spec fn inits_in_run(initialized0: bool, evs: Seq<Option<Seq<char>>>) -> nat
    decreases evs.len(),
{
    if evs.len() == 0 {
        0
    } else {
        let fired = !initialized0 && event_matches(evs[0]);
        (if fired {
            1nat
        } else {
            0nat
        }) + inits_in_run(initialized0 || event_matches(evs[0]), evs.drop_first())
    }
}

/// Some event of the run matches the target predicate.
pub open spec fn any_match(evs: Seq<Option<Seq<char>>>) -> bool {
    exists|i: int| 0 <= i < evs.len() && event_matches(evs[i])
}

/// An already-initialized watcher never initializes again.
pub proof fn lemma_initialized_watcher_stays_quiet(evs: Seq<Option<Seq<char>>>)
    ensures
        inits_in_run(true, evs) == 0,
    decreases evs.len(),
{
    if evs.len() > 0 {
        lemma_initialized_watcher_stays_quiet(evs.drop_first());
    }
}

/// A run without a matching event initializes nothing.
pub proof fn lemma_watcher_no_match_no_init(evs: Seq<Option<Seq<char>>>)
    requires
        !any_match(evs),
    ensures
        inits_in_run(false, evs) == 0,
    decreases evs.len(),
{
    if evs.len() > 0 {
        assert(!event_matches(evs[0]));
        assert(!any_match(evs.drop_first())) by {
            if any_match(evs.drop_first()) {
                let i = choose|i: int|
                    0 <= i < evs.drop_first().len() && event_matches(evs.drop_first()[i]);
                assert(event_matches(evs[i + 1]));
            }
        }
        lemma_watcher_no_match_no_init(evs.drop_first());
    }
}

/// Law: over any run of load events in which some event matches the
/// target predicate, a fresh watcher triggers downstream initialization
/// exactly once — even when the matching module is delivered twice.
pub proof fn lemma_watcher_initializes_once(evs: Seq<Option<Seq<char>>>)
    requires
        any_match(evs),
    ensures
        inits_in_run(false, evs) == 1,
    decreases evs.len(),
{
    if event_matches(evs[0]) {
        lemma_initialized_watcher_stays_quiet(evs.drop_first());
    } else {
        assert(any_match(evs.drop_first())) by {
            let i = choose|i: int| 0 <= i < evs.len() && event_matches(evs[i]);
            assert(i != 0);
            assert(event_matches(evs.drop_first()[i - 1]));
        }
        lemma_watcher_initializes_once(evs.drop_first());
    }
}

} // verus!
