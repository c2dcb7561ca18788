//! Function-level hook installation: address validation, outcome
//! classification, and the handles that identify installed hooks.
//!
//! The actual code patching is performed by an external engine outside the
//! library. The functions here make every decision around that call: whether
//! the addresses are valid enough to attempt a patch at all, and what an
//! engine outcome means for the caller.

use vstd::prelude::*;
use vstd::string::StringExecFns;
use crate::errors::{HookError, HookFault};

verus! {

/// How a hook was installed.
#[derive(Clone, Copy, Debug, PartialEq, Eq, Structural)]
pub enum HookKind {
    /// Code bytes at the target were overwritten with a jump.
    DirectPatch,
    /// A virtual-table slot was replaced.
    VtableSlot,
}

/// Identifies one installed function hook.
#[derive(Clone, Copy, Debug, PartialEq, Eq, Structural)]
pub struct HookHandle {
    /// Address of the hooked function.
    pub orig_addr: usize,
    /// Address of the executable trampoline that still performs the
    /// original behavior; zero when none was produced.
    pub trampoline_addr: usize,
    /// How the hook was installed.
    pub kind: HookKind,
}

/// Validates an installation request before any memory is touched.
///
/// Returns `Ok(())` exactly when both addresses are non-null, so a null
/// target or replacement is rejected without a single write.
pub fn prepare_install(target_addr: usize, replacement_addr: usize) -> (r: Result<(), HookError>)
    ensures
        r is Ok <==> target_addr != 0 && replacement_addr != 0,
        r is Err ==> r matches Err(HookError::InvalidAddress),
{
    if target_addr == 0 || replacement_addr == 0 {
        Err(HookError::InvalidAddress)
    } else {
        Ok(())
    }
}

/// Classifies what the patch engine produced for a validated request.
///
/// `engine_available` says whether the engine could be located at all;
/// `engine_trampoline` is the trampoline address it reported (zero when it
/// failed to produce one). On success the returned handle carries the
/// target and the engine's trampoline unchanged.
pub fn complete_install(
    target_addr: usize,
    engine_available: bool,
    engine_trampoline: usize,
) -> (r: Result<HookHandle, HookError>)
    requires
        target_addr != 0,
    ensures
        !engine_available ==> r matches Err(HookError::HookingError(
            HookFault::EngineUnavailable,
        )),
        engine_available && engine_trampoline == 0 ==> r matches Err(HookError::HookingError(
            HookFault::TrampolineFailed,
        )),
        engine_available && engine_trampoline != 0 ==> (r matches Ok(h) && h == (HookHandle {
            orig_addr: target_addr,
            trampoline_addr: engine_trampoline,
            kind: HookKind::DirectPatch,
        })),
{
    if !engine_available {
        Err(HookError::HookingError(HookFault::EngineUnavailable))
    } else if engine_trampoline == 0 {
        Err(HookError::HookingError(HookFault::TrampolineFailed))
    } else {
        Ok(HookHandle { orig_addr: target_addr, trampoline_addr: engine_trampoline, kind: HookKind::DirectPatch })
    }
}

/// Best-effort removal of a direct patch.
///
/// The underlying engine exposes no safe reversal, so removal reports
/// success without reverting the patch; callers must not assume the
/// original code bytes are restored.
pub fn unhook(handle: &HookHandle) -> (r: Result<(), HookError>)
    ensures
        r is Ok,
{
    let _ = handle;
    Ok(())
}

/// Virtual-table slot patching is unsupported; reports so explicitly
/// instead of returning a handle that does not correspond to an
/// installed hook.
pub fn hook_vtable(vtable_addr: usize, slot_index: usize, replacement_addr: usize) -> (r: Result<
    HookHandle,
    HookError,
>)
    ensures
        r matches Err(HookError::HookingError(HookFault::VtableUnsupported)),
{
    let _ = vtable_addr;
    let _ = slot_index;
    let _ = replacement_addr;
    Err(HookError::HookingError(HookFault::VtableUnsupported))
}

/// Best-effort removal of a virtual-table hook; a documented no-op that
/// reports success, matching the removal policy of `unhook`.
pub fn unhook_vtable(handle: &HookHandle) -> (r: Result<(), HookError>)
    ensures
        r is Ok,
{
    let _ = handle;
    Ok(())
}

/// Maps a raw symbol-lookup result to a typed outcome.
///
/// `resolved_addr` is the address the loader reported for `symbol` in
/// `module`, zero when the lookup failed. A failed lookup is reported as
/// `SymbolNotFound` carrying both names.
pub fn find_symbol_by_name(module: &str, symbol: &str, resolved_addr: usize) -> (r: Result<
    usize,
    HookError,
>)
    ensures
        resolved_addr != 0 ==> (r matches Ok(a) && a == resolved_addr),
        resolved_addr == 0 ==> (r matches Err(HookError::SymbolNotFound(m, s)) && m@ == module@
            && s@ == symbol@),
{
    if resolved_addr != 0 {
        Ok(resolved_addr)
    } else {
        Err(HookError::SymbolNotFound(String::from_str(module), String::from_str(symbol)))
    }
}

} // verus!
