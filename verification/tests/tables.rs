//! Symbol lookup, export-table resolution, and diagnostic text.

use unity::common::domain::UnityDomain;
use unity::common::method::MethodPointer;
use unity::common::thread::UnityThread;
use unity::il2cpp::exports::Il2CppExports;
use unity::libs::{LibError, NativeLibrary, SymbolEntry};
use unity::mono::exports::MonoExports;
use unity::mono::AssemblyHookType;
use unity::runtime::RuntimeError;

fn mk_lib(entries: &[(&str, usize)]) -> NativeLibrary {
    NativeLibrary {
        handle: 0x10,
        symbols: entries
            .iter()
            .map(|(n, a)| SymbolEntry { name: n.to_string(), addr: *a })
            .collect(),
    }
}

#[test]
fn sym_returns_the_first_entry_under_a_name() {
    let lib = mk_lib(&[("a", 1), ("b", 2), ("a", 3)]);
    assert_eq!(lib.sym("a").unwrap(), MethodPointer { inner: 1 });
    assert_eq!(lib.sym("b").unwrap(), MethodPointer { inner: 2 });
}

#[test]
fn sym_reports_absent_and_null_symbols_alike() {
    let lib = mk_lib(&[("present", 5), ("null_export", 0)]);
    assert_eq!(
        lib.sym("missing").unwrap_err(),
        LibError::SymbolNotFound("missing".to_string())
    );
    assert_eq!(
        lib.sym("null_export").unwrap_err(),
        LibError::SymbolNotFound("null_export".to_string())
    );
    assert_eq!(lib.opt_sym("null_export"), None);
    assert_eq!(lib.opt_sym("present"), Some(MethodPointer { inner: 5 }));
}

#[test]
fn mono_export_table_records_every_resolved_name() {
    let names = MonoExports::names();
    assert_eq!(names.len(), 17);
    let entries: Vec<(&str, usize)> =
        names.iter().enumerate().map(|(i, n)| (*n, 0x100 + i)).collect();
    let lib = mk_lib(&entries);
    let table = MonoExports::new(&lib);
    assert_eq!(table.mono_jit_init_version, Some(MethodPointer { inner: 0x100 }));
    assert_eq!(table.mono_get_root_domain, Some(MethodPointer { inner: 0x101 }));
    assert_eq!(table.mono_string_to_utf8, Some(MethodPointer { inner: 0x110 }));
}

#[test]
fn mono_export_table_leaves_absent_entries_unpopulated() {
    let lib = mk_lib(&[("mono_thread_current", 0x9)]);
    let table = MonoExports::new(&lib);
    assert_eq!(table.mono_thread_current, Some(MethodPointer { inner: 0x9 }));
    assert_eq!(table.mono_get_root_domain, None);
    assert_eq!(table.mono_jit_init_version, None);
    assert_eq!(table.mono_install_assembly_search_hook, None);
}

#[test]
fn il2cpp_export_table_requires_its_bootstrap_set() {
    let names = Il2CppExports::names();
    assert_eq!(names.len(), 7);
    let entries: Vec<(&str, usize)> =
        names.iter().enumerate().map(|(i, n)| (*n, 0x200 + i)).collect();
    let table = Il2CppExports::new(&mk_lib(&entries)).unwrap();
    assert_eq!(table.il2cpp_init, Some(MethodPointer { inner: 0x200 }));
    assert_eq!(table.il2cpp_domain_get, Some(MethodPointer { inner: 0x206 }));

    // dropping an optional entry still resolves
    let entries: Vec<(&str, usize)> = names
        .iter()
        .enumerate()
        .filter(|(_, n)| **n != "il2cpp_domain_get")
        .map(|(i, n)| (*n, 0x200 + i))
        .collect();
    let table = Il2CppExports::new(&mk_lib(&entries)).unwrap();
    assert_eq!(table.il2cpp_domain_get, None);

    // dropping a bootstrap entry fails with that name
    let entries: Vec<(&str, usize)> = names
        .iter()
        .enumerate()
        .filter(|(_, n)| **n != "il2cpp_runtime_invoke")
        .map(|(i, n)| (*n, 0x200 + i))
        .collect();
    assert_eq!(
        Il2CppExports::new(&mk_lib(&entries)).unwrap_err(),
        LibError::SymbolNotFound("il2cpp_runtime_invoke".to_string())
    );
}

#[test]
fn hook_kinds_have_their_lower_case_names() {
    assert_eq!(AssemblyHookType::Preload.name(), "preload");
    assert_eq!(AssemblyHookType::Load.name(), "load");
    assert_eq!(AssemblyHookType::Search.name(), "search");
}

#[test]
fn error_messages_carry_their_diagnostic_text() {
    assert_eq!(RuntimeError::NotUnity.message(), "Not a unity process");
    assert_eq!(RuntimeError::BasePathNotFound.message(), "Failed to find Base Path");
    assert_eq!(RuntimeError::DataPathNotFound.message(), "Data Path not found!");
    assert_eq!(RuntimeError::MonoLibPath.message(), "Failed to find mono library path");
    assert_eq!(RuntimeError::MonoLibName.message(), "Failed to get mono lib name");
    assert_eq!(
        RuntimeError::JitInitVersionArgMissing.message(),
        "Missing version argument in mono_jit_init_version"
    );
    assert_eq!(
        RuntimeError::MissingFunction("mono_thread_current").message(),
        "Function 'mono_thread_current' not found"
    );
    assert_eq!(
        RuntimeError::ReturnedNull("il2cpp_domain_get").message(),
        "Function Returned Null at il2cpp_domain_get"
    );
    assert_eq!(RuntimeError::GameAssemblyNotFound.message(), "Failed to get Game Assembly");
    assert_eq!(RuntimeError::FailedToInitRuntime.message(), "Failed to initialize Runtime");
    assert_eq!(RuntimeError::FailedToCreateCString.message(), "Failed to create C-String");
    assert_eq!(RuntimeError::Passthrough("anything".to_string()).message(), "anything");
    assert_eq!(RuntimeError::EmptyString.message(), "String may not be empty!");
    assert_eq!(
        RuntimeError::NullPointer("func").message(),
        "Argument func is a null pointer!"
    );
    assert_eq!(
        RuntimeError::NotImplemented("install_assembly_hook are mono only functions").message(),
        "Not Implemented: install_assembly_hook are mono only functions"
    );
    assert_eq!(
        RuntimeError::Lib(LibError::SymbolNotFound("il2cpp_init".to_string())).message(),
        "Symbol 'il2cpp_init' not found"
    );
    assert_eq!(
        RuntimeError::Lib(LibError::LoadFailed("bad ELF header".to_string())).message(),
        "bad ELF header"
    );
}

#[test]
fn handles_compare_and_test_null_by_bit_pattern() {
    let d1 = UnityDomain { inner: 0xAA };
    let d2 = UnityDomain { inner: 0xAA };
    assert_eq!(d1, d2);
    assert!(!d1.is_null());
    assert!(UnityDomain { inner: 0 }.is_null());
    assert!(UnityThread { inner: 0 }.is_null());
    assert!(!UnityThread { inner: 1 }.is_null());
    assert!(MethodPointer { inner: 0 }.is_null());
}
