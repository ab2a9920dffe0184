//! The native-AOT backend.

use vstd::prelude::*;
use vstd::string::*;

use crate::common::domain::UnityDomain;
use crate::common::method::MethodPointer;
use crate::common::thread::UnityThread;
use crate::libs::NativeLibrary;
use crate::mono::AssemblyHookType;
use crate::runtime::{CallView, ErrorView, ForeignCall, Runtime, RuntimeError, RuntimeType};
use crate::utils::strings::{has_nul, spec_has_nul};

use self::exports::Il2CppExports;

pub mod exports;
pub mod types;

verus! {

/// The native-AOT backend: its loaded native library (named after the game)
/// and the export table resolved from it.  Immutable once constructed.
#[derive(Debug, Clone)]
pub struct Il2Cpp {
    /// The loaded game-assembly library.
    pub game_assembly: NativeLibrary,
    /// The resolved export table.
    pub exports: Il2CppExports,
}

impl Il2Cpp {
    /// Well-formedness: the export table records no null address as
    /// present.  [`Il2Cpp::new`] establishes this, and no operation changes
    /// the table.
    pub open spec fn wf(self) -> bool {
        self.exports.wf()
    }

    /// What construction from a loaded library yields.
    pub open spec fn spec_new(lib: NativeLibrary) -> Result<Il2Cpp, ErrorView> {
        match Il2CppExports::spec_new(lib) {
            Ok(e) => Ok(Il2Cpp { game_assembly: lib, exports: e }),
            Err(err) => Err(ErrorView::Lib(err)),
        }
    }

    /// Constructs the backend from its loaded library, resolving the export
    /// table and failing on the first absent bootstrap export.
    pub fn new(game_assembly: NativeLibrary) -> (r: Result<Il2Cpp, RuntimeError>)
        ensures
            match r {
                Ok(c) => Il2Cpp::spec_new(game_assembly) == Ok::<Il2Cpp, ErrorView>(c),
                Err(e) => Il2Cpp::spec_new(game_assembly) == Err::<Il2Cpp, ErrorView>(e@),
            },
    {
        match Il2CppExports::new(&game_assembly) {
            Ok(exports) => Ok(Il2Cpp { game_assembly, exports }),
            Err(e) => Err(RuntimeError::Lib(e)),
        }
    }
}

impl Runtime for Il2Cpp {
    open spec fn get_type_spec<'a>(&'a self) -> RuntimeType<'a> {
        RuntimeType::Il2Cpp(self)
    }

    fn get_type<'a>(&'a self) -> (r: RuntimeType<'a>) {
        RuntimeType::Il2Cpp(self)
    }

    open spec fn get_domain_spec(&self) -> Result<CallView, ErrorView> {
        match self.exports.il2cpp_domain_get {
            Some(p) => Ok(CallView::NoArgs { target: p }),
            None => Err(ErrorView::MissingFunction("il2cpp_domain_get"@)),
        }
    }

    fn get_domain(&self) -> (r: Result<ForeignCall, RuntimeError>) {
        match self.exports.il2cpp_domain_get {
            Some(p) => Ok(ForeignCall::NoArgs { target: p }),
            None => Err(RuntimeError::MissingFunction("il2cpp_domain_get")),
        }
    }

    open spec fn get_current_thread_spec(&self) -> Result<CallView, ErrorView> {
        match self.exports.il2cpp_thread_current {
            Some(p) => Ok(CallView::NoArgs { target: p }),
            None => Err(ErrorView::MissingFunction("il2cpp_thread_current"@)),
        }
    }

    fn get_current_thread(&self) -> (r: Result<ForeignCall, RuntimeError>) {
        match self.exports.il2cpp_thread_current {
            Some(p) => Ok(ForeignCall::NoArgs { target: p }),
            None => Err(RuntimeError::MissingFunction("il2cpp_thread_current")),
        }
    }

    open spec fn set_main_thread_spec(&self, thread: UnityThread) -> Result<CallView, ErrorView> {
        if thread.inner == 0 {
            Err(ErrorView::NullPointer("thread"@))
        } else {
            match self.exports.il2cpp_thread_attach {
                Some(p) => Ok(CallView::HandleArg { target: p, handle: thread.inner }),
                None => Err(ErrorView::MissingFunction("il2cpp_thread_attach"@)),
            }
        }
    }

    /// The native-AOT runtime has no set-main-thread export; the operation
    /// forwards to the thread-attach export, ignoring its return value.
    fn set_main_thread(&self, thread: UnityThread) -> (r: Result<ForeignCall, RuntimeError>) {
        if thread.is_null() {
            return Err(RuntimeError::NullPointer("thread"));
        }
        match self.exports.il2cpp_thread_attach {
            Some(p) => Ok(ForeignCall::HandleArg { target: p, handle: thread.inner }),
            None => Err(RuntimeError::MissingFunction("il2cpp_thread_attach")),
        }
    }

    open spec fn attach_to_thread_spec(&self, domain: UnityDomain) -> Result<CallView, ErrorView> {
        if domain.inner == 0 {
            Err(ErrorView::NullPointer("domain"@))
        } else {
            match self.exports.il2cpp_thread_attach {
                Some(p) => Ok(CallView::HandleArg { target: p, handle: domain.inner }),
                None => Err(ErrorView::MissingFunction("il2cpp_thread_attach"@)),
            }
        }
    }

    fn attach_to_thread(&self, domain: UnityDomain) -> (r: Result<ForeignCall, RuntimeError>) {
        if domain.is_null() {
            return Err(RuntimeError::NullPointer("domain"));
        }
        match self.exports.il2cpp_thread_attach {
            Some(p) => Ok(ForeignCall::HandleArg { target: p, handle: domain.inner }),
            None => Err(RuntimeError::MissingFunction("il2cpp_thread_attach")),
        }
    }

    open spec fn add_internal_call_spec(&self, name: Seq<char>, func: MethodPointer) -> Result<
        CallView,
        ErrorView,
    > {
        if name.len() == 0 {
            Err(ErrorView::EmptyString)
        } else if func.inner == 0 {
            Err(ErrorView::NullPointer("func"@))
        } else {
            match self.exports.il2cpp_add_internal_call {
                Some(p) => if spec_has_nul(name) {
                    Err(ErrorView::FailedToCreateCString)
                } else {
                    Ok(CallView::NameAndFunc { target: p, name, func })
                },
                None => Err(ErrorView::MissingFunction("il2cpp_add_internal_call"@)),
            }
        }
    }

    fn add_internal_call(&self, name: String, func: MethodPointer) -> (r: Result<
        ForeignCall,
        RuntimeError,
    >) {
        if name.as_str().unicode_len() == 0 {
            return Err(RuntimeError::EmptyString);
        }
        if func.is_null() {
            return Err(RuntimeError::NullPointer("func"));
        }
        match self.exports.il2cpp_add_internal_call {
            Some(p) => if has_nul(name.as_str()) {
                Err(RuntimeError::FailedToCreateCString)
            } else {
                Ok(ForeignCall::NameAndFunc { target: p, name, func })
            },
            None => Err(RuntimeError::MissingFunction("il2cpp_add_internal_call")),
        }
    }

    open spec fn install_assembly_hook_spec(
        &self,
        hook_type: AssemblyHookType,
        func: MethodPointer,
    ) -> Result<CallView, ErrorView> {
        Err(ErrorView::NotImplemented("install_assembly_hook are mono only functions"@))
    }

    /// Assembly hooks have no equivalent in the native-AOT runtime: the
    /// operation fails unconditionally, for every hook kind, with the
    /// unsupported-operation kind — an expected outcome, distinct from a
    /// missing export.
    fn install_assembly_hook(&self, hook_type: AssemblyHookType, func: MethodPointer) -> (r: Result<
        ForeignCall,
        RuntimeError,
    >) {
        Err(RuntimeError::NotImplemented("install_assembly_hook are mono only functions"))
    }

    open spec fn get_export_ptr_spec(&self, name: Seq<char>) -> Result<CallView, ErrorView> {
        if spec_has_nul(name) {
            Err(ErrorView::FailedToCreateCString)
        } else {
            Ok(CallView::ResolveSymbol { handle: self.game_assembly.handle, name })
        }
    }

    fn get_export_ptr(&self, name: &str) -> (r: Result<ForeignCall, RuntimeError>) {
        if has_nul(name) {
            return Err(RuntimeError::FailedToCreateCString);
        }
        Ok(ForeignCall::ResolveSymbol {
            handle: self.game_assembly.handle,
            name: String::from_str(name),
        })
    }

    open spec fn init_spec(&self, name: Seq<char>, version: Option<Seq<char>>) -> Result<
        CallView,
        ErrorView,
    > {
        match self.exports.il2cpp_init {
            Some(p) => if spec_has_nul(name) {
                Err(ErrorView::FailedToCreateCString)
            } else {
                Ok(CallView::NameArg { target: p, name })
            },
            None => Err(ErrorView::MissingFunction("il2cpp_init"@)),
        }
    }

    /// The native-AOT init export takes only the name; a version argument is
    /// ignored entirely.
    fn init(&self, name: &str, version: Option<&str>) -> (r: Result<ForeignCall, RuntimeError>) {
        match self.exports.il2cpp_init {
            Some(p) => if has_nul(name) {
                Err(RuntimeError::FailedToCreateCString)
            } else {
                Ok(ForeignCall::NameArg { target: p, name: String::from_str(name) })
            },
            None => Err(RuntimeError::MissingFunction("il2cpp_init")),
        }
    }
}

/// Installing an assembly hook on the native-AOT backend fails with the
/// unsupported-operation kind for every hook kind and callback,
/// unconditionally: the backend has no such concept.
pub proof fn lemma_il2cpp_assembly_hooks_unsupported(
    c: Il2Cpp,
    hook_type: AssemblyHookType,
    func: MethodPointer,
)
    ensures
        c.install_assembly_hook_spec(hook_type, func) == Err::<CallView, ErrorView>(
            ErrorView::NotImplemented("install_assembly_hook are mono only functions"@),
        ),
{
}

/// With an export absent from the table, the capability needing it fails
/// with the missing-export kind — no foreign call is described — whatever
/// the (otherwise valid) arguments.
pub proof fn lemma_il2cpp_missing_export_fails(
    c: Il2Cpp,
    t: UnityThread,
    d: UnityDomain,
    name: Seq<char>,
    func: MethodPointer,
)
    requires
        t.inner != 0,
        d.inner != 0,
        func.inner != 0,
        name.len() > 0,
        !spec_has_nul(name),
    ensures
        c.exports.il2cpp_domain_get is None ==> c.get_domain_spec() == Err::<CallView, ErrorView>(
            ErrorView::MissingFunction("il2cpp_domain_get"@),
        ),
        c.exports.il2cpp_thread_current is None ==> c.get_current_thread_spec() == Err::<
            CallView,
            ErrorView,
        >(ErrorView::MissingFunction("il2cpp_thread_current"@)),
        c.exports.il2cpp_thread_attach is None ==> c.set_main_thread_spec(t) == Err::<
            CallView,
            ErrorView,
        >(ErrorView::MissingFunction("il2cpp_thread_attach"@)),
        c.exports.il2cpp_thread_attach is None ==> c.attach_to_thread_spec(d) == Err::<
            CallView,
            ErrorView,
        >(ErrorView::MissingFunction("il2cpp_thread_attach"@)),
        c.exports.il2cpp_add_internal_call is None ==> c.add_internal_call_spec(name, func)
            == Err::<CallView, ErrorView>(ErrorView::MissingFunction("il2cpp_add_internal_call"@)),
        c.exports.il2cpp_init is None ==> c.init_spec(name, None) == Err::<CallView, ErrorView>(
            ErrorView::MissingFunction("il2cpp_init"@),
        ),
{
}

} // verus!
