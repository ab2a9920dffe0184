//! The native-AOT backend's export table.

use vstd::prelude::*;

use crate::common::method::MethodPointer;
use crate::libs::{LibError, LibErrorView, NativeLibrary};

verus! {

/// The fixed set of exports this layer consumes from the native-AOT
/// library.
///
/// The first four are the bootstrap set: resolving the table fails outright
/// when any of them is absent.  The remaining entries are optional and fail
/// only the capability that needs them, when it is invoked.
#[derive(Debug, Clone, PartialEq, Eq)]
pub struct Il2CppExports {
    /// Initializes a domain; called by the engine itself.
    pub il2cpp_init: Option<MethodPointer>,
    /// Returns the current thread.
    pub il2cpp_thread_current: Option<MethodPointer>,
    /// Invokes a managed method.
    pub il2cpp_runtime_invoke: Option<MethodPointer>,
    /// Returns a method's name.
    pub il2cpp_method_get_name: Option<MethodPointer>,
    /// Attaches the calling thread to a domain.
    pub il2cpp_thread_attach: Option<MethodPointer>,
    /// Registers an internal call.
    pub il2cpp_add_internal_call: Option<MethodPointer>,
    /// Returns the active domain.
    pub il2cpp_domain_get: Option<MethodPointer>,
}

impl Il2CppExports {
    /// Well-formedness: every populated entry holds a non-null address.
    /// Tables resolved from a library have this by construction
    /// ([`lemma_resolved_il2cpp_table_wf`]).
    pub open spec fn wf(self) -> bool {
        &&& (self.il2cpp_init matches Some(p) ==> p.inner != 0)
        &&& (self.il2cpp_thread_current matches Some(p) ==> p.inner != 0)
        &&& (self.il2cpp_runtime_invoke matches Some(p) ==> p.inner != 0)
        &&& (self.il2cpp_method_get_name matches Some(p) ==> p.inner != 0)
        &&& (self.il2cpp_thread_attach matches Some(p) ==> p.inner != 0)
        &&& (self.il2cpp_add_internal_call matches Some(p) ==> p.inner != 0)
        &&& (self.il2cpp_domain_get matches Some(p) ==> p.inner != 0)
    }

    /// The closed set of export names this table is resolved from, in table
    /// order: the embedding code resolves exactly these against the loaded
    /// library before handing it to the backend constructor.
    pub fn names() -> (v: Vec<&'static str>)
        ensures
            v@.len() == 7,
            v@[0]@ == "il2cpp_init"@,
            v@[1]@ == "il2cpp_thread_current"@,
            v@[2]@ == "il2cpp_runtime_invoke"@,
            v@[3]@ == "il2cpp_method_get_name"@,
            v@[4]@ == "il2cpp_thread_attach"@,
            v@[5]@ == "il2cpp_add_internal_call"@,
            v@[6]@ == "il2cpp_domain_get"@,
    {
        let mut v: Vec<&'static str> = Vec::new();
        v.push("il2cpp_init");
        v.push("il2cpp_thread_current");
        v.push("il2cpp_runtime_invoke");
        v.push("il2cpp_method_get_name");
        v.push("il2cpp_thread_attach");
        v.push("il2cpp_add_internal_call");
        v.push("il2cpp_domain_get");
        v
    }

    /// The table that resolving every export name against `lib` yields.
    pub open spec fn spec_table(lib: NativeLibrary) -> Il2CppExports {
        Il2CppExports {
            il2cpp_init: lib.spec_opt_sym("il2cpp_init"@),
            il2cpp_thread_current: lib.spec_opt_sym("il2cpp_thread_current"@),
            il2cpp_runtime_invoke: lib.spec_opt_sym("il2cpp_runtime_invoke"@),
            il2cpp_method_get_name: lib.spec_opt_sym("il2cpp_method_get_name"@),
            il2cpp_thread_attach: lib.spec_opt_sym("il2cpp_thread_attach"@),
            il2cpp_add_internal_call: lib.spec_opt_sym("il2cpp_add_internal_call"@),
            il2cpp_domain_get: lib.spec_opt_sym("il2cpp_domain_get"@),
        }
    }

    /// What resolving the table yields: the table, or the first bootstrap
    /// export found absent, in resolution order.
    pub open spec fn spec_new(lib: NativeLibrary) -> Result<Il2CppExports, LibErrorView> {
        if lib.spec_sym("il2cpp_init"@) is None {
            Err(LibErrorView::SymbolNotFound("il2cpp_init"@))
        } else if lib.spec_sym("il2cpp_thread_current"@) is None {
            Err(LibErrorView::SymbolNotFound("il2cpp_thread_current"@))
        } else if lib.spec_sym("il2cpp_runtime_invoke"@) is None {
            Err(LibErrorView::SymbolNotFound("il2cpp_runtime_invoke"@))
        } else if lib.spec_sym("il2cpp_method_get_name"@) is None {
            Err(LibErrorView::SymbolNotFound("il2cpp_method_get_name"@))
        } else {
            Ok(Il2CppExports::spec_table(lib))
        }
    }

    /// Resolves the whole export set against `lib`, failing on the first
    /// absent bootstrap export.
    pub fn new(lib: &NativeLibrary) -> (r: Result<Il2CppExports, LibError>)
        ensures
            match r {
                Ok(e) => Il2CppExports::spec_new(*lib) == Ok::<Il2CppExports, LibErrorView>(e),
                Err(err) => Il2CppExports::spec_new(*lib) == Err::<Il2CppExports, LibErrorView>(
                    err@,
                ),
            },
    {
        let il2cpp_init = match lib.sym("il2cpp_init") {
            Ok(p) => Some(p),
            Err(e) => {
                return Err(e);
            },
        };
        let il2cpp_thread_current = match lib.sym("il2cpp_thread_current") {
            Ok(p) => Some(p),
            Err(e) => {
                return Err(e);
            },
        };
        let il2cpp_runtime_invoke = match lib.sym("il2cpp_runtime_invoke") {
            Ok(p) => Some(p),
            Err(e) => {
                return Err(e);
            },
        };
        let il2cpp_method_get_name = match lib.sym("il2cpp_method_get_name") {
            Ok(p) => Some(p),
            Err(e) => {
                return Err(e);
            },
        };
        Ok(
            Il2CppExports {
                il2cpp_init,
                il2cpp_thread_current,
                il2cpp_runtime_invoke,
                il2cpp_method_get_name,
                il2cpp_thread_attach: lib.opt_sym("il2cpp_thread_attach"),
                il2cpp_add_internal_call: lib.opt_sym("il2cpp_add_internal_call"),
                il2cpp_domain_get: lib.opt_sym("il2cpp_domain_get"),
            },
        )
    }
}

/// A table resolved from a library is well-formed: symbol resolution never
/// records a null address as present.
pub proof fn lemma_resolved_il2cpp_table_wf(lib: NativeLibrary)
    ensures
        Il2CppExports::spec_table(lib).wf(),
{
    crate::libs::lemma_lookup_nonnull(lib.symbols@, "il2cpp_init"@);
    crate::libs::lemma_lookup_nonnull(lib.symbols@, "il2cpp_thread_current"@);
    crate::libs::lemma_lookup_nonnull(lib.symbols@, "il2cpp_runtime_invoke"@);
    crate::libs::lemma_lookup_nonnull(lib.symbols@, "il2cpp_method_get_name"@);
    crate::libs::lemma_lookup_nonnull(lib.symbols@, "il2cpp_thread_attach"@);
    crate::libs::lemma_lookup_nonnull(lib.symbols@, "il2cpp_add_internal_call"@);
    crate::libs::lemma_lookup_nonnull(lib.symbols@, "il2cpp_domain_get"@);
}

} // verus!
