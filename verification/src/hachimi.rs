//! Target-module predicates and per-deployment configuration.

use vstd::prelude::*;
use crate::text::{contains_str, contains_sub};
use crate::watcher::ModuleWatcher;

verus! {

/// Per-deployment configuration. The platform has no extra settings of
/// its own; the struct stays as the configuration surface.
#[derive(Clone, Copy, Debug, PartialEq, Eq, Structural)]
pub struct Config {
}

impl Default for Config {
    /// The default (empty) configuration.
    fn default() -> (c: Config)
        ensures
            c == (Config {  }),
    {
        Config {  }
    }
}

/// A module name names the scripting runtime exactly when it mentions the
/// runtime framework.
pub open spec fn is_target_module(name: Seq<char>) -> bool {
    contains_sub(name, "UnityFramework"@)
}

/// Whether a loaded module's file name is the scripting-runtime library
/// the watcher is waiting for.
pub fn is_il2cpp_lib(filename: &str) -> (r: bool)
    ensures
        r <==> is_target_module(filename@),
{
    contains_str(filename, "UnityFramework")
}

/// Whether a loaded module's file name is the host's audio middleware.
/// No such module is hooked on this platform.
pub fn is_criware_lib(filename: &str) -> (r: bool)
    ensures
        !r,
{
    let _ = filename;
    false
}

/// Called by the downstream installer once all dependent hooks are in
/// place; records completion on the watcher.
pub fn on_hooking_finished(watcher: &mut ModuleWatcher)
    ensures
        final(watcher).hooking_finished,
        final(watcher).registered == old(watcher).registered,
        final(watcher).initialized == old(watcher).initialized,
{
    watcher.hooking_finished = true;
}

} // verus!
