//! The tracing-JIT backend.

use vstd::prelude::*;
use vstd::string::*;

use crate::common::domain::UnityDomain;
use crate::common::method::MethodPointer;
use crate::common::thread::UnityThread;
use crate::libs::NativeLibrary;
use crate::runtime::{CallView, ErrorView, ForeignCall, Runtime, RuntimeError, RuntimeType};
use crate::utils::path::{file_stem_part, spec_file_stem};
use crate::utils::strings::{has_nul, spec_has_nul, str_eq};

use self::exports::MonoExports;

pub mod exports;
pub mod types;

verus! {

/// The moments at which the tracing-JIT runtime can fire an assembly hook.
#[derive(Debug, Clone, Copy, PartialEq, Eq, Structural)]
pub enum AssemblyHookType {
    /// Fired when an assembly is about to be loaded.
    Preload,
    /// Fired when an assembly has been loaded.
    Load,
    /// Fired when an assembly is searched for.
    Search,
}

impl AssemblyHookType {
    /// The lower-case name of the hook kind.
    pub open spec fn spec_name(self) -> Seq<char> {
        match self {
            AssemblyHookType::Preload => "preload"@,
            AssemblyHookType::Load => "load"@,
            AssemblyHookType::Search => "search"@,
        }
    }

    /// The lower-case name of the hook kind.
    pub fn name(&self) -> (r: String)
        ensures
            r@ == self.spec_name(),
    {
        match self {
            AssemblyHookType::Preload => String::from_str("preload"),
            AssemblyHookType::Load => String::from_str("load"),
            AssemblyHookType::Search => String::from_str("search"),
        }
    }
}

/// Whether a library file stem is one of the two legacy names of the
/// tracing-JIT library.
pub open spec fn spec_is_legacy_name(stem: Seq<char>) -> bool {
    stem == "mono"@ || stem == "libmono"@
}

/// The tracing-JIT backend: its loaded native library and the export table
/// resolved from it.  Immutable once constructed.
#[derive(Debug, Clone)]
pub struct Mono {
    /// Whether the library file carries one of the two legacy names; kept
    /// for callers that branch on runtime-version quirks, unused here.
    pub is_old: bool,
    /// The loaded tracing-JIT library.
    pub mono_lib: NativeLibrary,
    /// The resolved export table.
    pub exports: MonoExports,
}

impl Mono {
    /// Well-formedness: the export table records no null address as
    /// present.  [`Mono::new`] establishes this, and no operation changes
    /// the table.
    pub open spec fn wf(self) -> bool {
        self.exports.wf()
    }

    /// Constructs the backend from the path the library was found under and
    /// the loaded library itself.
    ///
    /// The path decides `is_old` by its file stem; a path with no file-name
    /// component is rejected.  Every export entry is optional, so
    /// construction fails on no other account.
    pub fn new(mono_path: &str, mono_lib: NativeLibrary) -> (r: Result<Mono, RuntimeError>)
        ensures
            match r {
                Ok(m) => spec_file_stem(mono_path@) matches Some(stem) && m == (Mono {
                    is_old: spec_is_legacy_name(stem),
                    exports: MonoExports::spec_table(mono_lib),
                    mono_lib,
                }),
                Err(e) => spec_file_stem(mono_path@) is None && e@ == ErrorView::MonoLibName,
            },
    {
        let stem = match file_stem_part(mono_path) {
            Some(s) => s,
            None => {
                return Err(RuntimeError::MonoLibName);
            },
        };
        let is_old = str_eq(stem, "mono") || str_eq(stem, "libmono");
        let exports = MonoExports::new(&mono_lib);
        Ok(Mono { is_old, mono_lib, exports })
    }
}

impl Runtime for Mono {
    open spec fn get_type_spec<'a>(&'a self) -> RuntimeType<'a> {
        RuntimeType::Mono(self)
    }

    fn get_type<'a>(&'a self) -> (r: RuntimeType<'a>) {
        RuntimeType::Mono(self)
    }

    open spec fn get_domain_spec(&self) -> Result<CallView, ErrorView> {
        match self.exports.mono_get_root_domain {
            Some(p) => Ok(CallView::NoArgs { target: p }),
            None => Err(ErrorView::MissingFunction("mono_get_root_domain"@)),
        }
    }

    fn get_domain(&self) -> (r: Result<ForeignCall, RuntimeError>) {
        match self.exports.mono_get_root_domain {
            Some(p) => Ok(ForeignCall::NoArgs { target: p }),
            None => Err(RuntimeError::MissingFunction("mono_get_root_domain")),
        }
    }

    open spec fn get_current_thread_spec(&self) -> Result<CallView, ErrorView> {
        match self.exports.mono_thread_current {
            Some(p) => Ok(CallView::NoArgs { target: p }),
            None => Err(ErrorView::MissingFunction("mono_thread_current"@)),
        }
    }

    fn get_current_thread(&self) -> (r: Result<ForeignCall, RuntimeError>) {
        match self.exports.mono_thread_current {
            Some(p) => Ok(ForeignCall::NoArgs { target: p }),
            None => Err(RuntimeError::MissingFunction("mono_thread_current")),
        }
    }

    open spec fn set_main_thread_spec(&self, thread: UnityThread) -> Result<CallView, ErrorView> {
        if thread.inner == 0 {
            Err(ErrorView::NullPointer("thread"@))
        } else {
            match self.exports.mono_thread_set_main {
                Some(p) => Ok(CallView::HandleArg { target: p, handle: thread.inner }),
                None => Err(ErrorView::MissingFunction("mono_thread_set_main"@)),
            }
        }
    }

    fn set_main_thread(&self, thread: UnityThread) -> (r: Result<ForeignCall, RuntimeError>) {
        if thread.is_null() {
            return Err(RuntimeError::NullPointer("thread"));
        }
        match self.exports.mono_thread_set_main {
            Some(p) => Ok(ForeignCall::HandleArg { target: p, handle: thread.inner }),
            None => Err(RuntimeError::MissingFunction("mono_thread_set_main")),
        }
    }

    open spec fn attach_to_thread_spec(&self, domain: UnityDomain) -> Result<CallView, ErrorView> {
        if domain.inner == 0 {
            Err(ErrorView::NullPointer("domain"@))
        } else {
            match self.exports.mono_thread_attach {
                Some(p) => Ok(CallView::HandleArg { target: p, handle: domain.inner }),
                None => Err(ErrorView::MissingFunction("mono_thread_attach"@)),
            }
        }
    }

    fn attach_to_thread(&self, domain: UnityDomain) -> (r: Result<ForeignCall, RuntimeError>) {
        if domain.is_null() {
            return Err(RuntimeError::NullPointer("domain"));
        }
        match self.exports.mono_thread_attach {
            Some(p) => Ok(ForeignCall::HandleArg { target: p, handle: domain.inner }),
            None => Err(RuntimeError::MissingFunction("mono_thread_attach")),
        }
    }

    open spec fn add_internal_call_spec(&self, name: Seq<char>, func: MethodPointer) -> Result<
        CallView,
        ErrorView,
    > {
        if name.len() == 0 {
            Err(ErrorView::EmptyString)
        } else if func.inner == 0 {
            Err(ErrorView::NullPointer("func"@))
        } else {
            match self.exports.mono_add_internal_call {
                Some(p) => if spec_has_nul(name) {
                    Err(ErrorView::FailedToCreateCString)
                } else {
                    Ok(CallView::NameAndFunc { target: p, name, func })
                },
                None => Err(ErrorView::MissingFunction("mono_add_internal_call"@)),
            }
        }
    }

    fn add_internal_call(&self, name: String, func: MethodPointer) -> (r: Result<
        ForeignCall,
        RuntimeError,
    >) {
        if name.as_str().unicode_len() == 0 {
            return Err(RuntimeError::EmptyString);
        }
        if func.is_null() {
            return Err(RuntimeError::NullPointer("func"));
        }
        match self.exports.mono_add_internal_call {
            Some(p) => if has_nul(name.as_str()) {
                Err(RuntimeError::FailedToCreateCString)
            } else {
                Ok(ForeignCall::NameAndFunc { target: p, name, func })
            },
            None => Err(RuntimeError::MissingFunction("mono_add_internal_call")),
        }
    }

    open spec fn install_assembly_hook_spec(
        &self,
        hook_type: AssemblyHookType,
        func: MethodPointer,
    ) -> Result<CallView, ErrorView> {
        if func.inner == 0 {
            Err(ErrorView::NullPointer("func"@))
        } else {
            let entry = match hook_type {
                AssemblyHookType::Preload => self.exports.mono_install_assembly_preload_hook,
                AssemblyHookType::Load => self.exports.mono_install_assembly_load_hook,
                AssemblyHookType::Search => self.exports.mono_install_assembly_search_hook,
            };
            match entry {
                Some(p) => Ok(CallView::FuncWithNullData { target: p, func }),
                None => Err(ErrorView::MissingFunction("mono_install_assembly_hook"@)),
            }
        }
    }

    fn install_assembly_hook(&self, hook_type: AssemblyHookType, func: MethodPointer) -> (r: Result<
        ForeignCall,
        RuntimeError,
    >) {
        if func.is_null() {
            return Err(RuntimeError::NullPointer("func"));
        }
        let entry = match hook_type {
            AssemblyHookType::Preload => self.exports.mono_install_assembly_preload_hook,
            AssemblyHookType::Load => self.exports.mono_install_assembly_load_hook,
            AssemblyHookType::Search => self.exports.mono_install_assembly_search_hook,
        };
        match entry {
            Some(p) => Ok(ForeignCall::FuncWithNullData { target: p, func }),
            None => Err(RuntimeError::MissingFunction("mono_install_assembly_hook")),
        }
    }

    open spec fn get_export_ptr_spec(&self, name: Seq<char>) -> Result<CallView, ErrorView> {
        if spec_has_nul(name) {
            Err(ErrorView::FailedToCreateCString)
        } else {
            Ok(CallView::ResolveSymbol { handle: self.mono_lib.handle, name })
        }
    }

    fn get_export_ptr(&self, name: &str) -> (r: Result<ForeignCall, RuntimeError>) {
        if has_nul(name) {
            return Err(RuntimeError::FailedToCreateCString);
        }
        Ok(ForeignCall::ResolveSymbol {
            handle: self.mono_lib.handle,
            name: String::from_str(name),
        })
    }

    open spec fn init_spec(&self, name: Seq<char>, version: Option<Seq<char>>) -> Result<
        CallView,
        ErrorView,
    > {
        match version {
            None => Err(ErrorView::JitInitVersionArgMissing),
            Some(v) => match self.exports.mono_jit_init_version {
                Some(p) => if spec_has_nul(name) || spec_has_nul(v) {
                    Err(ErrorView::FailedToCreateCString)
                } else {
                    Ok(CallView::NameVersionArgs { target: p, name, version: v })
                },
                None => Err(ErrorView::MissingFunction("mono_jit_init_version"@)),
            },
        }
    }

    /// The version argument is checked before anything else: asking the
    /// tracing-JIT backend to initialize without one fails even when the
    /// init export is absent or the name will not encode.
    fn init(&self, name: &str, version: Option<&str>) -> (r: Result<ForeignCall, RuntimeError>) {
        let v = match version {
            Some(v) => v,
            None => {
                return Err(RuntimeError::JitInitVersionArgMissing);
            },
        };
        match self.exports.mono_jit_init_version {
            Some(p) => if has_nul(name) || has_nul(v) {
                Err(RuntimeError::FailedToCreateCString)
            } else {
                Ok(ForeignCall::NameVersionArgs {
                    target: p,
                    name: String::from_str(name),
                    version: String::from_str(v),
                })
            },
            None => Err(RuntimeError::MissingFunction("mono_jit_init_version")),
        }
    }
}

/// With an export absent from the table, the capability needing it fails
/// with the missing-export kind — no foreign call is described — whatever
/// the (otherwise valid) arguments.
pub proof fn lemma_mono_missing_export_fails(
    m: Mono,
    t: UnityThread,
    d: UnityDomain,
    name: Seq<char>,
    version: Seq<char>,
    func: MethodPointer,
)
    requires
        t.inner != 0,
        d.inner != 0,
        func.inner != 0,
        name.len() > 0,
        !spec_has_nul(name),
        !spec_has_nul(version),
    ensures
        m.exports.mono_get_root_domain is None ==> m.get_domain_spec() == Err::<
            CallView,
            ErrorView,
        >(ErrorView::MissingFunction("mono_get_root_domain"@)),
        m.exports.mono_thread_current is None ==> m.get_current_thread_spec() == Err::<
            CallView,
            ErrorView,
        >(ErrorView::MissingFunction("mono_thread_current"@)),
        m.exports.mono_thread_set_main is None ==> m.set_main_thread_spec(t) == Err::<
            CallView,
            ErrorView,
        >(ErrorView::MissingFunction("mono_thread_set_main"@)),
        m.exports.mono_thread_attach is None ==> m.attach_to_thread_spec(d) == Err::<
            CallView,
            ErrorView,
        >(ErrorView::MissingFunction("mono_thread_attach"@)),
        m.exports.mono_add_internal_call is None ==> m.add_internal_call_spec(name, func) == Err::<
            CallView,
            ErrorView,
        >(ErrorView::MissingFunction("mono_add_internal_call"@)),
        m.exports.mono_install_assembly_preload_hook is None ==> m.install_assembly_hook_spec(
            AssemblyHookType::Preload,
            func,
        ) == Err::<CallView, ErrorView>(ErrorView::MissingFunction("mono_install_assembly_hook"@)),
        m.exports.mono_install_assembly_load_hook is None ==> m.install_assembly_hook_spec(
            AssemblyHookType::Load,
            func,
        ) == Err::<CallView, ErrorView>(ErrorView::MissingFunction("mono_install_assembly_hook"@)),
        m.exports.mono_install_assembly_search_hook is None ==> m.install_assembly_hook_spec(
            AssemblyHookType::Search,
            func,
        ) == Err::<CallView, ErrorView>(ErrorView::MissingFunction("mono_install_assembly_hook"@)),
        m.exports.mono_jit_init_version is None ==> m.init_spec(name, Some(version)) == Err::<
            CallView,
            ErrorView,
        >(ErrorView::MissingFunction("mono_jit_init_version"@)),
{
}

} // verus!
