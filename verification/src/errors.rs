//! Error types shared by the interception subsystems.

use vstd::prelude::*;

verus! {

/// Why the underlying patch engine could not complete an installation.
#[derive(Clone, Copy, Debug, PartialEq, Eq, Structural)]
pub enum HookFault {
    /// The patch engine itself could not be located in the process.
    EngineUnavailable,
    /// The engine ran but produced no trampoline for the target.
    TrampolineFailed,
    /// Virtual-table slot patching is not supported by this build.
    VtableUnsupported,
}

/// Failures surfaced by hook installation, symbol resolution and the
/// overlay pipeline. Installation failures are reported to the caller;
/// they never abort the host process.
#[derive(Clone, Debug)]
pub enum HookError {
    /// A null target or replacement address was supplied.
    InvalidAddress,
    /// The underlying patch engine refused or failed.
    HookingError(HookFault),
    /// A symbol could not be resolved; carries the module and symbol names.
    SymbolNotFound(String, String),
    /// The swizzle target class or selector does not exist.
    TargetNotFound,
    /// The surface has no reachable graphics device yet; non-fatal,
    /// the overlay retries on the next frame.
    DeviceUnavailable,
}

} // verus!
