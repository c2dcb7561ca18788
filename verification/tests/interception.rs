use hachimi_ios::errors::{HookError, HookFault};
use hachimi_ios::game::{get_region, Region};
use hachimi_ios::guard::OnceGuard;
use hachimi_ios::hachimi::{is_criware_lib, is_il2cpp_lib, on_hooking_finished, Config};
use hachimi_ios::interceptor::{
    complete_install, find_symbol_by_name, hook_vtable, prepare_install, unhook, unhook_vtable,
    HookHandle, HookKind,
};
use hachimi_ios::logging::{log_enabled, LogLevel};
use hachimi_ios::swizzle::{SwizzleOutcome, SwizzleRecord, SwizzleSite};
use hachimi_ios::symbols::{lookup_scope, resolve_search_order, symbol_lookup_result, LookupScope};
use hachimi_ios::text::{contains_str, find_str, str_eq};
use hachimi_ios::watcher::{LoadAction, ModuleWatcher};

#[test]
fn install_rejects_null_target() {
    let r = prepare_install(0, 0x2000);
    assert!(matches!(r, Err(HookError::InvalidAddress)));
}

#[test]
fn install_rejects_null_replacement() {
    let r = prepare_install(0x1000, 0);
    assert!(matches!(r, Err(HookError::InvalidAddress)));
}

#[test]
fn install_rejects_both_null() {
    let r = prepare_install(0, 0);
    assert!(matches!(r, Err(HookError::InvalidAddress)));
}

#[test]
fn install_accepts_valid_addresses() {
    assert!(prepare_install(0x1000, 0x2000).is_ok());
}

#[test]
fn complete_install_returns_engine_trampoline() {
    let r = complete_install(0x1000, true, 0x3000);
    match r {
        Ok(handle) => {
            assert_eq!(handle.orig_addr, 0x1000);
            assert_eq!(handle.trampoline_addr, 0x3000);
            assert_eq!(handle.kind, HookKind::DirectPatch);
        }
        Err(_) => panic!("expected a handle"),
    }
}

#[test]
fn complete_install_reports_missing_engine() {
    let r = complete_install(0x1000, false, 0);
    assert!(matches!(r, Err(HookError::HookingError(HookFault::EngineUnavailable))));
}

#[test]
fn complete_install_reports_failed_trampoline() {
    let r = complete_install(0x1000, true, 0);
    assert!(matches!(r, Err(HookError::HookingError(HookFault::TrampolineFailed))));
}

#[test]
fn unhook_reports_success_without_revert() {
    let handle = HookHandle { orig_addr: 0x1000, trampoline_addr: 0x3000, kind: HookKind::DirectPatch };
    assert!(unhook(&handle).is_ok());
}

#[test]
fn vtable_hooking_is_unsupported() {
    let r = hook_vtable(0x4000, 3, 0x2000);
    assert!(matches!(r, Err(HookError::HookingError(HookFault::VtableUnsupported))));
}

#[test]
fn vtable_unhook_reports_success() {
    let handle = HookHandle { orig_addr: 0, trampoline_addr: 0, kind: HookKind::VtableSlot };
    assert!(unhook_vtable(&handle).is_ok());
}

#[test]
fn symbol_found_passes_address_through() {
    let r = find_symbol_by_name("UnityFramework", "il2cpp_init", 0x5000);
    assert!(matches!(r, Ok(0x5000)));
}

#[test]
fn symbol_missing_names_module_and_symbol() {
    let r = find_symbol_by_name("UnityFramework", "il2cpp_init", 0);
    match r {
        Err(HookError::SymbolNotFound(module, symbol)) => {
            assert_eq!(module, "UnityFramework");
            assert_eq!(symbol, "il2cpp_init");
        }
        _ => panic!("expected SymbolNotFound"),
    }
}

#[test]
fn once_guard_fires_once() {
    let mut g = OnceGuard::new();
    assert!(g.try_fire());
    assert!(!g.try_fire());
    assert!(!g.try_fire());
}

#[test]
fn swizzle_site_installs_exactly_once() {
    let mut site = SwizzleSite::new();
    let first = site.on_trigger(0x10, 0x20, true, 0x77);
    assert_eq!(
        first,
        SwizzleOutcome::Installed(SwizzleRecord { class_id: 0x10, selector_id: 0x20, prev_impl: 0x77 })
    );
    let second = site.on_trigger(0x10, 0x20, true, 0x88);
    assert_eq!(second, SwizzleOutcome::AlreadyInstalled);
    let third = site.on_trigger(0x10, 0x20, true, 0x99);
    assert_eq!(third, SwizzleOutcome::AlreadyInstalled);
    assert_eq!(
        site.record,
        Some(SwizzleRecord { class_id: 0x10, selector_id: 0x20, prev_impl: 0x77 })
    );
}

#[test]
fn swizzle_missing_target_consumes_guard() {
    let mut site = SwizzleSite::new();
    let first = site.on_trigger(0x10, 0x20, false, 0);
    assert_eq!(first, SwizzleOutcome::TargetMissing);
    assert_eq!(site.record, None);
    let second = site.on_trigger(0x10, 0x20, true, 0x77);
    assert_eq!(second, SwizzleOutcome::AlreadyInstalled);
}

#[test]
fn watcher_initializes_once_despite_duplicate_match() {
    let mut w = ModuleWatcher::new();
    assert!(!w.registered);
    w.register();
    assert!(w.registered);
    let unity = String::from("/System/Frameworks/UnityFramework.framework/UnityFramework");
    assert_eq!(w.on_module_event(None), LoadAction::Ignored);
    assert_eq!(w.on_module_event(Some("/usr/lib/libc++.dylib")), LoadAction::Ignored);
    assert_eq!(w.on_module_event(Some(unity.as_str())), LoadAction::Initialize);
    assert_eq!(w.on_module_event(Some(unity.as_str())), LoadAction::Ignored);
    assert!(w.initialized);
}

#[test]
fn hooking_finished_is_recorded() {
    let mut w = ModuleWatcher::new();
    w.register();
    assert!(!w.hooking_finished);
    on_hooking_finished(&mut w);
    assert!(w.hooking_finished);
    assert!(w.registered);
}

#[test]
fn il2cpp_module_is_matched_by_fragment() {
    assert!(is_il2cpp_lib("/private/var/UnityFramework.framework/UnityFramework"));
    assert!(is_il2cpp_lib("UnityFramework"));
    assert!(!is_il2cpp_lib("/usr/lib/libSystem.B.dylib"));
    assert!(!is_il2cpp_lib(""));
}

#[test]
fn criware_is_never_matched() {
    assert!(!is_criware_lib("libcri_ware_unity.so"));
    assert!(!is_criware_lib(""));
}

#[test]
fn default_config_is_empty() {
    let c = Config::default();
    assert_eq!(c, Config {});
}

#[test]
fn regions_map_from_package_names() {
    assert_eq!(get_region("jp.co.cygames.umamusume"), Region::Japan);
    assert_eq!(get_region("com.komoe.kmumamusumegp"), Region::Taiwan);
    assert_eq!(get_region("com.komoe.umamusumeofficial"), Region::Taiwan);
    assert_eq!(get_region("com.kakaogames.umamusume"), Region::Korea);
    assert_eq!(get_region("com.bilibili.umamusu"), Region::China);
    assert_eq!(get_region("com.cygames.umamusume"), Region::Global);
    assert_eq!(get_region("com.example.other"), Region::Unknown);
    assert_eq!(get_region(""), Region::Unknown);
}

#[test]
fn lookup_scope_follows_module_name() {
    assert_eq!(lookup_scope(""), LookupScope::MainProcess);
    assert_eq!(lookup_scope("UnityFramework"), LookupScope::NamedModule);
}

#[test]
fn search_order_prefers_module_handle() {
    assert_eq!(resolve_search_order(0x5000, 0x6000), 0x5000);
    assert_eq!(resolve_search_order(0, 0x6000), 0x6000);
    assert_eq!(resolve_search_order(0, 0), 0);
}

#[test]
fn scoped_lookup_requires_open_module_and_symbol() {
    assert_eq!(symbol_lookup_result(true, 0x5000), Some(0x5000));
    assert_eq!(symbol_lookup_result(true, 0), None);
    assert_eq!(symbol_lookup_result(false, 0x5000), None);
}

#[test]
fn log_filter_keeps_info_and_above() {
    assert!(log_enabled(LogLevel::Error));
    assert!(log_enabled(LogLevel::Warn));
    assert!(log_enabled(LogLevel::Info));
    assert!(!log_enabled(LogLevel::Debug));
    assert!(!log_enabled(LogLevel::Trace));
}

#[test]
fn substring_search_finds_leftmost() {
    assert_eq!(find_str("abcabc", "bc"), Some(1));
    assert_eq!(find_str("abcabc", "ca"), Some(2));
    assert_eq!(find_str("abcabc", "zz"), None);
    assert_eq!(find_str("", "a"), None);
    assert_eq!(find_str("abc", ""), Some(0));
}

#[test]
fn substring_and_equality_helpers() {
    assert!(contains_str("UnityFramework.framework", "UnityFramework"));
    assert!(!contains_str("Unity", "UnityFramework"));
    assert!(str_eq("same", "same"));
    assert!(!str_eq("same", "sane"));
    assert!(!str_eq("same", "same "));
}
