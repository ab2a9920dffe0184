//! The tracing-JIT backend's export table.

use vstd::prelude::*;

use crate::common::method::MethodPointer;
use crate::libs::NativeLibrary;

verus! {

/// The fixed set of exports this layer consumes from the tracing-JIT
/// library, each as the resolved address or `None` where the library build
/// lacks the export.
///
/// Every entry is optional: older library builds miss some of these, and a
/// missing entry must fail only the specific capability that needs it, at
/// the moment it is invoked.  The table is populated once at backend
/// construction and never changes.
#[derive(Debug, Clone, PartialEq, Eq)]
pub struct MonoExports {
    pub mono_jit_init_version: Option<MethodPointer>,
    pub mono_get_root_domain: Option<MethodPointer>,
    pub mono_thread_current: Option<MethodPointer>,
    pub mono_thread_set_main: Option<MethodPointer>,
    pub mono_thread_attach: Option<MethodPointer>,
    pub mono_add_internal_call: Option<MethodPointer>,
    pub mono_install_assembly_preload_hook: Option<MethodPointer>,
    pub mono_install_assembly_load_hook: Option<MethodPointer>,
    pub mono_install_assembly_search_hook: Option<MethodPointer>,
    pub mono_runtime_invoke: Option<MethodPointer>,
    pub mono_method_get_name: Option<MethodPointer>,
    pub mono_class_from_name: Option<MethodPointer>,
    pub mono_class_get_method_from_name: Option<MethodPointer>,
    pub mono_assembly_get_image: Option<MethodPointer>,
    pub mono_domain_assembly_open: Option<MethodPointer>,
    pub mono_string_new: Option<MethodPointer>,
    pub mono_string_to_utf8: Option<MethodPointer>,
}

impl MonoExports {
    /// Well-formedness: every populated entry holds a non-null address.
    /// Tables resolved from a library have this by construction
    /// ([`lemma_resolved_mono_table_wf`]); it is what lets a planned call
    /// name its target without a further null check.
    pub open spec fn wf(self) -> bool {
        &&& (self.mono_jit_init_version matches Some(p) ==> p.inner != 0)
        &&& (self.mono_get_root_domain matches Some(p) ==> p.inner != 0)
        &&& (self.mono_thread_current matches Some(p) ==> p.inner != 0)
        &&& (self.mono_thread_set_main matches Some(p) ==> p.inner != 0)
        &&& (self.mono_thread_attach matches Some(p) ==> p.inner != 0)
        &&& (self.mono_add_internal_call matches Some(p) ==> p.inner != 0)
        &&& (self.mono_install_assembly_preload_hook matches Some(p) ==> p.inner != 0)
        &&& (self.mono_install_assembly_load_hook matches Some(p) ==> p.inner != 0)
        &&& (self.mono_install_assembly_search_hook matches Some(p) ==> p.inner != 0)
        &&& (self.mono_runtime_invoke matches Some(p) ==> p.inner != 0)
        &&& (self.mono_method_get_name matches Some(p) ==> p.inner != 0)
        &&& (self.mono_class_from_name matches Some(p) ==> p.inner != 0)
        &&& (self.mono_class_get_method_from_name matches Some(p) ==> p.inner != 0)
        &&& (self.mono_assembly_get_image matches Some(p) ==> p.inner != 0)
        &&& (self.mono_domain_assembly_open matches Some(p) ==> p.inner != 0)
        &&& (self.mono_string_new matches Some(p) ==> p.inner != 0)
        &&& (self.mono_string_to_utf8 matches Some(p) ==> p.inner != 0)
    }

    /// The closed set of export names this table is resolved from, in table
    /// order: the embedding code resolves exactly these against the loaded
    /// library before handing it to the backend constructor.
    pub fn names() -> (v: Vec<&'static str>)
        ensures
            v@.len() == 17,
            v@[0]@ == "mono_jit_init_version"@,
            v@[1]@ == "mono_get_root_domain"@,
            v@[2]@ == "mono_thread_current"@,
            v@[3]@ == "mono_thread_set_main"@,
            v@[4]@ == "mono_thread_attach"@,
            v@[5]@ == "mono_add_internal_call"@,
            v@[6]@ == "mono_install_assembly_preload_hook"@,
            v@[7]@ == "mono_install_assembly_load_hook"@,
            v@[8]@ == "mono_install_assembly_search_hook"@,
            v@[9]@ == "mono_runtime_invoke"@,
            v@[10]@ == "mono_method_get_name"@,
            v@[11]@ == "mono_class_from_name"@,
            v@[12]@ == "mono_class_get_method_from_name"@,
            v@[13]@ == "mono_assembly_get_image"@,
            v@[14]@ == "mono_domain_assembly_open"@,
            v@[15]@ == "mono_string_new"@,
            v@[16]@ == "mono_string_to_utf8"@,
    {
        let mut v: Vec<&'static str> = Vec::new();
        v.push("mono_jit_init_version");
        v.push("mono_get_root_domain");
        v.push("mono_thread_current");
        v.push("mono_thread_set_main");
        v.push("mono_thread_attach");
        v.push("mono_add_internal_call");
        v.push("mono_install_assembly_preload_hook");
        v.push("mono_install_assembly_load_hook");
        v.push("mono_install_assembly_search_hook");
        v.push("mono_runtime_invoke");
        v.push("mono_method_get_name");
        v.push("mono_class_from_name");
        v.push("mono_class_get_method_from_name");
        v.push("mono_assembly_get_image");
        v.push("mono_domain_assembly_open");
        v.push("mono_string_new");
        v.push("mono_string_to_utf8");
        v
    }

    /// The table that resolving every export name against `lib` yields.
    pub open spec fn spec_table(lib: NativeLibrary) -> MonoExports {
        MonoExports {
            mono_jit_init_version: lib.spec_opt_sym("mono_jit_init_version"@),
            mono_get_root_domain: lib.spec_opt_sym("mono_get_root_domain"@),
            mono_thread_current: lib.spec_opt_sym("mono_thread_current"@),
            mono_thread_set_main: lib.spec_opt_sym("mono_thread_set_main"@),
            mono_thread_attach: lib.spec_opt_sym("mono_thread_attach"@),
            mono_add_internal_call: lib.spec_opt_sym("mono_add_internal_call"@),
            mono_install_assembly_preload_hook: lib.spec_opt_sym(
                "mono_install_assembly_preload_hook"@,
            ),
            mono_install_assembly_load_hook: lib.spec_opt_sym("mono_install_assembly_load_hook"@),
            mono_install_assembly_search_hook: lib.spec_opt_sym(
                "mono_install_assembly_search_hook"@,
            ),
            mono_runtime_invoke: lib.spec_opt_sym("mono_runtime_invoke"@),
            mono_method_get_name: lib.spec_opt_sym("mono_method_get_name"@),
            mono_class_from_name: lib.spec_opt_sym("mono_class_from_name"@),
            mono_class_get_method_from_name: lib.spec_opt_sym("mono_class_get_method_from_name"@),
            mono_assembly_get_image: lib.spec_opt_sym("mono_assembly_get_image"@),
            mono_domain_assembly_open: lib.spec_opt_sym("mono_domain_assembly_open"@),
            mono_string_new: lib.spec_opt_sym("mono_string_new"@),
            mono_string_to_utf8: lib.spec_opt_sym("mono_string_to_utf8"@),
        }
    }

    /// Resolves the whole export set against `lib`.  Construction never
    /// fails: an absent export leaves its entry `None` and surfaces only
    /// when the capability needing it is invoked.
    pub fn new(lib: &NativeLibrary) -> (e: MonoExports)
        ensures
            e == MonoExports::spec_table(*lib),
    {
        MonoExports {
            mono_jit_init_version: lib.opt_sym("mono_jit_init_version"),
            mono_get_root_domain: lib.opt_sym("mono_get_root_domain"),
            mono_thread_current: lib.opt_sym("mono_thread_current"),
            mono_thread_set_main: lib.opt_sym("mono_thread_set_main"),
            mono_thread_attach: lib.opt_sym("mono_thread_attach"),
            mono_add_internal_call: lib.opt_sym("mono_add_internal_call"),
            mono_install_assembly_preload_hook: lib.opt_sym("mono_install_assembly_preload_hook"),
            mono_install_assembly_load_hook: lib.opt_sym("mono_install_assembly_load_hook"),
            mono_install_assembly_search_hook: lib.opt_sym("mono_install_assembly_search_hook"),
            mono_runtime_invoke: lib.opt_sym("mono_runtime_invoke"),
            mono_method_get_name: lib.opt_sym("mono_method_get_name"),
            mono_class_from_name: lib.opt_sym("mono_class_from_name"),
            mono_class_get_method_from_name: lib.opt_sym("mono_class_get_method_from_name"),
            mono_assembly_get_image: lib.opt_sym("mono_assembly_get_image"),
            mono_domain_assembly_open: lib.opt_sym("mono_domain_assembly_open"),
            mono_string_new: lib.opt_sym("mono_string_new"),
            mono_string_to_utf8: lib.opt_sym("mono_string_to_utf8"),
        }
    }
}

/// A table resolved from a library is well-formed: symbol resolution never
/// records a null address as present.
pub proof fn lemma_resolved_mono_table_wf(lib: NativeLibrary)
    ensures
        MonoExports::spec_table(lib).wf(),
{
    crate::libs::lemma_lookup_nonnull(lib.symbols@, "mono_jit_init_version"@);
    crate::libs::lemma_lookup_nonnull(lib.symbols@, "mono_get_root_domain"@);
    crate::libs::lemma_lookup_nonnull(lib.symbols@, "mono_thread_current"@);
    crate::libs::lemma_lookup_nonnull(lib.symbols@, "mono_thread_set_main"@);
    crate::libs::lemma_lookup_nonnull(lib.symbols@, "mono_thread_attach"@);
    crate::libs::lemma_lookup_nonnull(lib.symbols@, "mono_add_internal_call"@);
    crate::libs::lemma_lookup_nonnull(lib.symbols@, "mono_install_assembly_preload_hook"@);
    crate::libs::lemma_lookup_nonnull(lib.symbols@, "mono_install_assembly_load_hook"@);
    crate::libs::lemma_lookup_nonnull(lib.symbols@, "mono_install_assembly_search_hook"@);
    crate::libs::lemma_lookup_nonnull(lib.symbols@, "mono_runtime_invoke"@);
    crate::libs::lemma_lookup_nonnull(lib.symbols@, "mono_method_get_name"@);
    crate::libs::lemma_lookup_nonnull(lib.symbols@, "mono_class_from_name"@);
    crate::libs::lemma_lookup_nonnull(lib.symbols@, "mono_class_get_method_from_name"@);
    crate::libs::lemma_lookup_nonnull(lib.symbols@, "mono_assembly_get_image"@);
    crate::libs::lemma_lookup_nonnull(lib.symbols@, "mono_domain_assembly_open"@);
    crate::libs::lemma_lookup_nonnull(lib.symbols@, "mono_string_new"@);
    crate::libs::lemma_lookup_nonnull(lib.symbols@, "mono_string_to_utf8"@);
}

} // verus!
