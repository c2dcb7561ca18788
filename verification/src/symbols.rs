//! Symbol-resolution policy: which loader scope a lookup opens and how
//! the two-stage search (module handle first, global table second) picks
//! its result. The loader calls themselves live outside the library.

use vstd::prelude::*;

verus! {

/// Which image a symbol lookup searches.
#[derive(Clone, Copy, Debug, PartialEq, Eq, Structural)]
pub enum LookupScope {
    /// The main process image: used when no module name is given.
    MainProcess,
    /// The named module.
    NamedModule,
}

/// Picks the loader scope for a lookup: an empty module name means the
/// main process image, anything else the named module.
pub fn lookup_scope(module: &str) -> (s: LookupScope)
    ensures
        s == LookupScope::MainProcess <==> module@.len() == 0,
        s == LookupScope::NamedModule <==> module@.len() != 0,
{
    if module.is_empty() {
        LookupScope::MainProcess
    } else {
        LookupScope::NamedModule
    }
}

/// The search order of a two-stage symbol lookup: the address found
/// through the provided module handle wins; the global table's address
/// is the fallback; zero stands for "not found" throughout.
pub fn resolve_search_order(handle_result: usize, global_result: usize) -> (r: usize)
    ensures
        handle_result != 0 ==> r == handle_result,
        handle_result == 0 ==> r == global_result,
{
    if handle_result != 0 {
        handle_result
    } else {
        global_result
    }
}

/// Maps a scoped lookup's raw outcome to a typed one: the lookup yields
/// an address only when the module could be opened and the loader
/// reported a non-null symbol.
pub fn symbol_lookup_result(module_opened: bool, sym_addr: usize) -> (r: Option<usize>)
    ensures
        r == (if module_opened && sym_addr != 0 {
            Option::Some(sym_addr)
        } else {
            Option::<usize>::None
        }),
{
    if module_opened && sym_addr != 0 {
        Option::Some(sym_addr)
    } else {
        Option::None
    }
}

} // verus!
