//! The capability interface against fabricated backends.

use unity::common::domain::UnityDomain;
use unity::common::method::MethodPointer;
use unity::common::thread::UnityThread;
use unity::il2cpp::exports::Il2CppExports;
use unity::il2cpp::Il2Cpp;
use unity::libs::{NativeLibrary, SymbolEntry};
use unity::mono::exports::MonoExports;
use unity::mono::{AssemblyHookType, Mono};
use unity::runtime::{ForeignCall, Runtime, RuntimeError, RuntimeType, UnityRuntime};

fn mk_lib(entries: &[(&str, usize)]) -> NativeLibrary {
    NativeLibrary {
        handle: 0x10,
        symbols: entries
            .iter()
            .map(|(n, a)| SymbolEntry { name: n.to_string(), addr: *a })
            .collect(),
    }
}

fn full_mono_lib() -> NativeLibrary {
    let names = MonoExports::names();
    let entries: Vec<(&str, usize)> =
        names.iter().enumerate().map(|(i, n)| (*n, 0x1000 + i * 0x10)).collect();
    mk_lib(&entries)
}

fn full_mono() -> Mono {
    Mono::new("/g/Game_Data/mono-2.0-bdwgc.dll", full_mono_lib()).unwrap()
}

fn mono_without(name: &str) -> Mono {
    let names = MonoExports::names();
    let entries: Vec<(&str, usize)> = names
        .iter()
        .enumerate()
        .filter(|(_, n)| **n != name)
        .map(|(i, n)| (*n, 0x1000 + i * 0x10))
        .collect();
    Mono::new("/g/Game_Data/mono-2.0-bdwgc.dll", mk_lib(&entries)).unwrap()
}

fn full_il2cpp_lib() -> NativeLibrary {
    let names = Il2CppExports::names();
    let entries: Vec<(&str, usize)> =
        names.iter().enumerate().map(|(i, n)| (*n, 0x2000 + i * 0x10)).collect();
    mk_lib(&entries)
}

fn full_il2cpp() -> Il2Cpp {
    Il2Cpp::new(full_il2cpp_lib()).unwrap()
}

fn func() -> MethodPointer {
    MethodPointer { inner: 0x9000 }
}

#[test]
fn mono_get_domain_plans_the_root_domain_call() {
    let m = full_mono();
    let target = m.exports.mono_get_root_domain.unwrap();
    assert_eq!(m.get_domain().unwrap(), ForeignCall::NoArgs { target });
}

#[test]
fn mono_get_current_thread_plans_the_thread_current_call() {
    let m = full_mono();
    let target = m.exports.mono_thread_current.unwrap();
    assert_eq!(m.get_current_thread().unwrap(), ForeignCall::NoArgs { target });
}

#[test]
fn missing_export_fails_without_a_foreign_call() {
    let m = mono_without("mono_get_root_domain");
    assert_eq!(
        m.get_domain().unwrap_err(),
        RuntimeError::MissingFunction("mono_get_root_domain")
    );

    let m = mono_without("mono_thread_current");
    assert_eq!(
        m.get_current_thread().unwrap_err(),
        RuntimeError::MissingFunction("mono_thread_current")
    );

    let m = mono_without("mono_thread_set_main");
    assert_eq!(
        m.set_main_thread(UnityThread { inner: 5 }).unwrap_err(),
        RuntimeError::MissingFunction("mono_thread_set_main")
    );

    let m = mono_without("mono_thread_attach");
    assert_eq!(
        m.attach_to_thread(UnityDomain { inner: 5 }).unwrap_err(),
        RuntimeError::MissingFunction("mono_thread_attach")
    );

    let m = mono_without("mono_add_internal_call");
    assert_eq!(
        m.add_internal_call("Ns.Cls::Fn".to_string(), func()).unwrap_err(),
        RuntimeError::MissingFunction("mono_add_internal_call")
    );

    let m = mono_without("mono_jit_init_version");
    assert_eq!(
        m.init("MyMod", Some("v4.0.30319")).unwrap_err(),
        RuntimeError::MissingFunction("mono_jit_init_version")
    );
}

#[test]
fn missing_hook_export_fails_only_that_hook_kind() {
    let m = mono_without("mono_install_assembly_load_hook");
    assert_eq!(
        m.install_assembly_hook(AssemblyHookType::Load, func()).unwrap_err(),
        RuntimeError::MissingFunction("mono_install_assembly_hook")
    );
    // the other two kinds still plan their own installers
    let preload = m.exports.mono_install_assembly_preload_hook.unwrap();
    assert_eq!(
        m.install_assembly_hook(AssemblyHookType::Preload, func()).unwrap(),
        ForeignCall::FuncWithNullData { target: preload, func: func() }
    );
    let search = m.exports.mono_install_assembly_search_hook.unwrap();
    assert_eq!(
        m.install_assembly_hook(AssemblyHookType::Search, func()).unwrap(),
        ForeignCall::FuncWithNullData { target: search, func: func() }
    );
}

#[test]
fn il2cpp_missing_export_fails_without_a_foreign_call() {
    let names = Il2CppExports::names();
    let entries: Vec<(&str, usize)> = names
        .iter()
        .enumerate()
        .filter(|(_, n)| **n != "il2cpp_domain_get")
        .map(|(i, n)| (*n, 0x2000 + i * 0x10))
        .collect();
    let c = Il2Cpp::new(mk_lib(&entries)).unwrap();
    assert_eq!(
        c.get_domain().unwrap_err(),
        RuntimeError::MissingFunction("il2cpp_domain_get")
    );
}

#[test]
fn null_thread_handle_is_rejected_on_both_backends() {
    let null_thread = UnityThread { inner: 0 };
    let m = full_mono();
    assert_eq!(
        m.set_main_thread(null_thread).unwrap_err(),
        RuntimeError::NullPointer("thread")
    );
    let c = full_il2cpp();
    assert_eq!(
        c.set_main_thread(null_thread).unwrap_err(),
        RuntimeError::NullPointer("thread")
    );
}

#[test]
fn null_domain_handle_is_rejected_on_both_backends() {
    let null_domain = UnityDomain { inner: 0 };
    let m = full_mono();
    assert_eq!(
        m.attach_to_thread(null_domain).unwrap_err(),
        RuntimeError::NullPointer("domain")
    );
    let c = full_il2cpp();
    assert_eq!(
        c.attach_to_thread(null_domain).unwrap_err(),
        RuntimeError::NullPointer("domain")
    );
}

#[test]
fn null_callback_is_rejected_before_the_export_lookup() {
    let null_func = MethodPointer { inner: 0 };
    let m = full_mono();
    assert_eq!(
        m.add_internal_call("Ns.Cls::Fn".to_string(), null_func).unwrap_err(),
        RuntimeError::NullPointer("func")
    );
    assert_eq!(
        m.install_assembly_hook(AssemblyHookType::Preload, null_func).unwrap_err(),
        RuntimeError::NullPointer("func")
    );
    let c = full_il2cpp();
    assert_eq!(
        c.add_internal_call("Ns.Cls::Fn".to_string(), null_func).unwrap_err(),
        RuntimeError::NullPointer("func")
    );
}

#[test]
fn empty_internal_call_name_is_rejected_on_both_backends() {
    let m = full_mono();
    assert_eq!(
        m.add_internal_call(String::new(), func()).unwrap_err(),
        RuntimeError::EmptyString
    );
    let c = full_il2cpp();
    assert_eq!(
        c.add_internal_call(String::new(), func()).unwrap_err(),
        RuntimeError::EmptyString
    );
    // the empty name wins even when the export is absent: the table is
    // never consulted
    let m = mono_without("mono_add_internal_call");
    assert_eq!(
        m.add_internal_call(String::new(), func()).unwrap_err(),
        RuntimeError::EmptyString
    );
}

#[test]
fn internal_call_name_with_nul_cannot_be_encoded() {
    let m = full_mono();
    assert_eq!(
        m.add_internal_call("Ns.\0Cls".to_string(), func()).unwrap_err(),
        RuntimeError::FailedToCreateCString
    );
    let c = full_il2cpp();
    assert_eq!(
        c.add_internal_call("Ns.\0Cls".to_string(), func()).unwrap_err(),
        RuntimeError::FailedToCreateCString
    );
}

#[test]
fn add_internal_call_plans_name_and_callback() {
    let m = full_mono();
    let target = m.exports.mono_add_internal_call.unwrap();
    assert_eq!(
        m.add_internal_call("Ns.Cls::Fn".to_string(), func()).unwrap(),
        ForeignCall::NameAndFunc {
            target,
            name: "Ns.Cls::Fn".to_string(),
            func: func(),
        }
    );
}

#[test]
fn assembly_hooks_are_unsupported_on_il2cpp_for_every_kind() {
    let c = full_il2cpp();
    for hook in [AssemblyHookType::Preload, AssemblyHookType::Load, AssemblyHookType::Search] {
        assert_eq!(
            c.install_assembly_hook(hook, func()).unwrap_err(),
            RuntimeError::NotImplemented("install_assembly_hook are mono only functions")
        );
        // unconditional: even a null callback reports the unsupported kind
        assert_eq!(
            c.install_assembly_hook(hook, MethodPointer { inner: 0 }).unwrap_err(),
            RuntimeError::NotImplemented("install_assembly_hook are mono only functions")
        );
    }
}

#[test]
fn il2cpp_set_main_thread_forwards_to_thread_attach() {
    let c = full_il2cpp();
    let attach = c.exports.il2cpp_thread_attach.unwrap();
    assert_eq!(
        c.set_main_thread(UnityThread { inner: 0x42 }).unwrap(),
        ForeignCall::HandleArg { target: attach, handle: 0x42 }
    );
    assert_eq!(
        c.attach_to_thread(UnityDomain { inner: 0x43 }).unwrap(),
        ForeignCall::HandleArg { target: attach, handle: 0x43 }
    );
}

#[test]
fn get_export_ptr_plans_a_symbol_resolution() {
    let m = full_mono();
    assert_eq!(
        m.get_export_ptr("mono_custom_export").unwrap(),
        ForeignCall::ResolveSymbol {
            handle: m.mono_lib.handle,
            name: "mono_custom_export".to_string(),
        }
    );
    assert_eq!(
        m.get_export_ptr("bad\0name").unwrap_err(),
        RuntimeError::FailedToCreateCString
    );
    let c = full_il2cpp();
    assert_eq!(
        c.get_export_ptr("il2cpp_custom").unwrap(),
        ForeignCall::ResolveSymbol {
            handle: c.game_assembly.handle,
            name: "il2cpp_custom".to_string(),
        }
    );
}

#[test]
fn dispatcher_forwards_to_the_backend_it_owns() {
    let rt = UnityRuntime::Mono(full_mono());
    match rt.get_type() {
        RuntimeType::Mono(_) => {},
        RuntimeType::Il2Cpp(_) => panic!("dispatcher should report the mono backend"),
    }
    assert_eq!(
        rt.set_main_thread(UnityThread { inner: 0 }).unwrap_err(),
        RuntimeError::NullPointer("thread")
    );
    assert_eq!(
        rt.add_internal_call(String::new(), func()).unwrap_err(),
        RuntimeError::EmptyString
    );

    let rt = UnityRuntime::Il2Cpp(full_il2cpp());
    match rt.get_type() {
        RuntimeType::Il2Cpp(_) => {},
        RuntimeType::Mono(_) => panic!("dispatcher should report the il2cpp backend"),
    }
    assert_eq!(
        rt.install_assembly_hook(AssemblyHookType::Search, func()).unwrap_err(),
        RuntimeError::NotImplemented("install_assembly_hook are mono only functions")
    );
    assert_eq!(
        rt.attach_to_thread(UnityDomain { inner: 0 }).unwrap_err(),
        RuntimeError::NullPointer("domain")
    );
}

#[test]
fn mono_init_without_version_is_rejected_before_anything_else() {
    let m = full_mono();
    assert_eq!(m.init("MyMod", None).unwrap_err(), RuntimeError::JitInitVersionArgMissing);
    // pinned ordering: the version check comes before the export lookup and
    // before name encoding
    let m = mono_without("mono_jit_init_version");
    assert_eq!(m.init("My\0Mod", None).unwrap_err(), RuntimeError::JitInitVersionArgMissing);
}

#[test]
fn il2cpp_init_ignores_the_version_argument() {
    let c = full_il2cpp();
    let target = c.exports.il2cpp_init.unwrap();
    let expected = ForeignCall::NameArg { target, name: "MyMod".to_string() };
    assert_eq!(c.init("MyMod", None).unwrap(), expected);
    assert_eq!(c.init("MyMod", Some("v4.0.30319")).unwrap(), expected);
}
