//! Backend detection and the uniform capability interface.
//!
//! Detection inspects the executable's on-disk layout (through a
//! [`FsSnapshot`](crate::utils::path::FsSnapshot)) and selects which of the
//! two backends the process embeds.  The capability interface is declared
//! once, as the [`Runtime`] trait, and implemented by both backends and by
//! the [`UnityRuntime`] dispatcher that owns the selected one.
//!
//! A capability call cannot jump to a foreign address from verified code, so
//! each capability answers with a [`ForeignCall`]: the exact invocation the
//! embedding code must perform, produced only after every argument has been
//! validated and the export table consulted.  The raw address a foreign call
//! returns comes back through the completion functions at the bottom of this
//! module, which perform the null-checking the interface promises.

use vstd::prelude::*;
use vstd::string::*;

use crate::common::domain::UnityDomain;
use crate::common::method::MethodPointer;
use crate::common::thread::UnityThread;
use crate::il2cpp::Il2Cpp;
use crate::libs::{LibError, LibErrorView};
use crate::mono::{AssemblyHookType, Mono};
use crate::utils::path::{
    find_game_assembly, find_mono, get_data_path, join_path, parent_part, spec_data_dir,
    spec_find_game_assembly, spec_find_mono, spec_join, spec_parent, FsSnapshot,
};
use crate::utils::strings::spec_has_nul;

verus! {

/// Everything that can go wrong in this layer.
///
/// Environment errors (`NotUnity`, the path errors) are fatal to a whole
/// detection attempt; library errors (`Lib`, `GameAssemblyNotFound`,
/// `MonoLibPath`) are fatal to constructing one backend; call-time errors
/// (`MissingFunction`, `ReturnedNull`, `EmptyString`, `NullPointer`) are
/// scoped to a single operation; `NotImplemented` marks an operation a
/// backend structurally cannot perform — an expected outcome, distinct from
/// a missing export.
#[derive(Debug, Clone, PartialEq, Eq)]
pub enum RuntimeError {
    /// A native-library loader failure.
    Lib(LibError),
    /// The process is not an engine process.
    NotUnity,
    /// The executable path has no usable stem or parent.
    BasePathNotFound,
    /// The sibling data directory could not be derived.
    DataPathNotFound,
    /// No tracing-JIT library file was found.
    MonoLibPath,
    /// The tracing-JIT library path has no file stem.
    MonoLibName,
    /// The tracing-JIT backend was asked to initialize without the version
    /// argument its init export requires.
    JitInitVersionArgMissing,
    /// The named export is absent from the backend's table.
    MissingFunction(&'static str),
    /// The named foreign call returned a null address.
    ReturnedNull(&'static str),
    /// No native-AOT library file was found.
    GameAssemblyNotFound,
    /// The runtime could not be initialized.
    FailedToInitRuntime,
    /// A string argument cannot be encoded as a C string.
    FailedToCreateCString,
    /// A diagnostic carried through from elsewhere.
    Passthrough(String),
    /// A string argument was empty where a name is required.
    EmptyString,
    /// The named argument was a null handle or address.
    NullPointer(&'static str),
    /// The operation does not exist on this backend.
    NotImplemented(&'static str),
}

impl RuntimeError {
    /// The diagnostic text of this error.
    pub open spec fn spec_message(self) -> Seq<char> {
        match self {
            RuntimeError::Lib(e) => e.spec_message(),
            RuntimeError::NotUnity => "Not a unity process"@,
            RuntimeError::BasePathNotFound => "Failed to find Base Path"@,
            RuntimeError::DataPathNotFound => "Data Path not found!"@,
            RuntimeError::MonoLibPath => "Failed to find mono library path"@,
            RuntimeError::MonoLibName => "Failed to get mono lib name"@,
            RuntimeError::JitInitVersionArgMissing
                => "Missing version argument in mono_jit_init_version"@,
            RuntimeError::MissingFunction(s) => "Function '"@ + s@ + "' not found"@,
            RuntimeError::ReturnedNull(s) => "Function Returned Null at "@ + s@,
            RuntimeError::GameAssemblyNotFound => "Failed to get Game Assembly"@,
            RuntimeError::FailedToInitRuntime => "Failed to initialize Runtime"@,
            RuntimeError::FailedToCreateCString => "Failed to create C-String"@,
            RuntimeError::Passthrough(s) => s@,
            RuntimeError::EmptyString => "String may not be empty!"@,
            RuntimeError::NullPointer(s) => "Argument "@ + s@ + " is a null pointer!"@,
            RuntimeError::NotImplemented(s) => "Not Implemented: "@ + s@,
        }
    }

    /// The diagnostic text of this error.
    pub fn message(&self) -> (r: String)
        ensures
            r@ == self.spec_message(),
    {
        match self {
            RuntimeError::Lib(e) => e.message(),
            RuntimeError::NotUnity => String::from_str("Not a unity process"),
            RuntimeError::BasePathNotFound => String::from_str("Failed to find Base Path"),
            RuntimeError::DataPathNotFound => String::from_str("Data Path not found!"),
            RuntimeError::MonoLibPath => String::from_str("Failed to find mono library path"),
            RuntimeError::MonoLibName => String::from_str("Failed to get mono lib name"),
            RuntimeError::JitInitVersionArgMissing => String::from_str(
                "Missing version argument in mono_jit_init_version",
            ),
            RuntimeError::MissingFunction(s) => {
                let mut m = String::from_str("Function '");
                m.append(s);
                m.append("' not found");
                m
            },
            RuntimeError::ReturnedNull(s) => {
                let mut m = String::from_str("Function Returned Null at ");
                m.append(s);
                m
            },
            RuntimeError::GameAssemblyNotFound => String::from_str("Failed to get Game Assembly"),
            RuntimeError::FailedToInitRuntime => String::from_str("Failed to initialize Runtime"),
            RuntimeError::FailedToCreateCString => String::from_str("Failed to create C-String"),
            RuntimeError::Passthrough(s) => s.clone(),
            RuntimeError::EmptyString => String::from_str("String may not be empty!"),
            RuntimeError::NullPointer(s) => {
                let mut m = String::from_str("Argument ");
                m.append(s);
                m.append(" is a null pointer!");
                m
            },
            RuntimeError::NotImplemented(s) => {
                let mut m = String::from_str("Not Implemented: ");
                m.append(s);
                m
            },
        }
    }
}

/// Spec-level image of [`RuntimeError`], with text as character sequences.
pub enum ErrorView {
    Lib(LibErrorView),
    NotUnity,
    BasePathNotFound,
    DataPathNotFound,
    MonoLibPath,
    MonoLibName,
    JitInitVersionArgMissing,
    MissingFunction(Seq<char>),
    ReturnedNull(Seq<char>),
    GameAssemblyNotFound,
    FailedToInitRuntime,
    FailedToCreateCString,
    Passthrough(Seq<char>),
    EmptyString,
    NullPointer(Seq<char>),
    NotImplemented(Seq<char>),
}

impl View for RuntimeError {
    type V = ErrorView;

    open spec fn view(&self) -> ErrorView {
        match self {
            RuntimeError::Lib(e) => ErrorView::Lib(e@),
            RuntimeError::NotUnity => ErrorView::NotUnity,
            RuntimeError::BasePathNotFound => ErrorView::BasePathNotFound,
            RuntimeError::DataPathNotFound => ErrorView::DataPathNotFound,
            RuntimeError::MonoLibPath => ErrorView::MonoLibPath,
            RuntimeError::MonoLibName => ErrorView::MonoLibName,
            RuntimeError::JitInitVersionArgMissing => ErrorView::JitInitVersionArgMissing,
            RuntimeError::MissingFunction(s) => ErrorView::MissingFunction(s@),
            RuntimeError::ReturnedNull(s) => ErrorView::ReturnedNull(s@),
            RuntimeError::GameAssemblyNotFound => ErrorView::GameAssemblyNotFound,
            RuntimeError::FailedToInitRuntime => ErrorView::FailedToInitRuntime,
            RuntimeError::FailedToCreateCString => ErrorView::FailedToCreateCString,
            RuntimeError::Passthrough(s) => ErrorView::Passthrough(s@),
            RuntimeError::EmptyString => ErrorView::EmptyString,
            RuntimeError::NullPointer(s) => ErrorView::NullPointer(s@),
            RuntimeError::NotImplemented(s) => ErrorView::NotImplemented(s@),
        }
    }
}

/// The foreign invocation a capability asks the embedding code to perform.
///
/// A plan is produced only after every argument has been validated: a string
/// crossing the boundary is non-empty where the operation requires a name
/// and never contains NUL, and every address in a plan is non-null.
#[derive(Debug, Clone, PartialEq, Eq)]
pub enum ForeignCall {
    /// Call `target` with no arguments; it returns an address.
    NoArgs { target: MethodPointer },
    /// Call `target` with the handle address as its one argument.
    HandleArg { target: MethodPointer, handle: usize },
    /// Call `target` with `name` as a C string and the callback `func`.
    NameAndFunc { target: MethodPointer, name: String, func: MethodPointer },
    /// Call `target` with the callback `func` and null user data.
    FuncWithNullData { target: MethodPointer, func: MethodPointer },
    /// Call `target` with `name` as a C string; it returns an address.
    NameArg { target: MethodPointer, name: String },
    /// Call `target` with `name` and `version` as C strings; it returns an
    /// address.
    NameVersionArgs { target: MethodPointer, name: String, version: String },
    /// Resolve `name` in the library under `handle` with the platform's
    /// symbol lookup; it returns an address.
    ResolveSymbol { handle: usize, name: String },
}

/// Spec-level image of [`ForeignCall`], with text as character sequences.
pub enum CallView {
    NoArgs { target: MethodPointer },
    HandleArg { target: MethodPointer, handle: usize },
    NameAndFunc { target: MethodPointer, name: Seq<char>, func: MethodPointer },
    FuncWithNullData { target: MethodPointer, func: MethodPointer },
    NameArg { target: MethodPointer, name: Seq<char> },
    NameVersionArgs { target: MethodPointer, name: Seq<char>, version: Seq<char> },
    ResolveSymbol { handle: usize, name: Seq<char> },
}

impl View for ForeignCall {
    type V = CallView;

    open spec fn view(&self) -> CallView {
        match self {
            ForeignCall::NoArgs { target } => CallView::NoArgs { target: *target },
            ForeignCall::HandleArg { target, handle } => CallView::HandleArg {
                target: *target,
                handle: *handle,
            },
            ForeignCall::NameAndFunc { target, name, func } => CallView::NameAndFunc {
                target: *target,
                name: name@,
                func: *func,
            },
            ForeignCall::FuncWithNullData { target, func } => CallView::FuncWithNullData {
                target: *target,
                func: *func,
            },
            ForeignCall::NameArg { target, name } => CallView::NameArg {
                target: *target,
                name: name@,
            },
            ForeignCall::NameVersionArgs { target, name, version } => CallView::NameVersionArgs {
                target: *target,
                name: name@,
                version: version@,
            },
            ForeignCall::ResolveSymbol { handle, name } => CallView::ResolveSymbol {
                handle: *handle,
                name: name@,
            },
        }
    }
}

/// The view of a capability answer: the planned call or the typed failure.
pub open spec fn plan_view(r: Result<ForeignCall, RuntimeError>) -> Result<CallView, ErrorView> {
    match r {
        Ok(c) => Ok(c@),
        Err(e) => Err(e@),
    }
}

/// The view of a completed result whose success value needs no view of its
/// own.
pub open spec fn res_view<T>(r: Result<T, RuntimeError>) -> Result<T, ErrorView> {
    match r {
        Ok(v) => Ok(v),
        Err(e) => Err(e@),
    }
}

/// What interpreting a raw foreign-returned address yields: the address as a
/// handle, or the null-return failure named after the foreign call `op`.
pub open spec fn spec_raw_to_handle(raw: usize, op: Seq<char>) -> Result<usize, ErrorView> {
    if raw == 0 {
        Err(ErrorView::ReturnedNull(op))
    } else {
        Ok(raw)
    }
}

/// Interprets the raw address a domain-returning foreign call produced.
pub fn domain_result(raw: usize, op: &'static str) -> (r: Result<UnityDomain, RuntimeError>)
    ensures
        res_view(r) == match spec_raw_to_handle(raw, op@) {
            Ok(a) => Ok::<UnityDomain, ErrorView>(UnityDomain { inner: a }),
            Err(e) => Err(e),
        },
{
    if raw == 0 {
        Err(RuntimeError::ReturnedNull(op))
    } else {
        Ok(UnityDomain { inner: raw })
    }
}

/// Interprets the raw address a thread-returning foreign call produced.
pub fn thread_result(raw: usize, op: &'static str) -> (r: Result<UnityThread, RuntimeError>)
    ensures
        res_view(r) == match spec_raw_to_handle(raw, op@) {
            Ok(a) => Ok::<UnityThread, ErrorView>(UnityThread { inner: a }),
            Err(e) => Err(e),
        },
{
    if raw == 0 {
        Err(RuntimeError::ReturnedNull(op))
    } else {
        Ok(UnityThread { inner: raw })
    }
}

/// Interprets the raw address that symbol resolution for `get_export_ptr`
/// produced.
pub fn export_result(raw: usize) -> (r: Result<MethodPointer, RuntimeError>)
    ensures
        res_view(r) == match spec_raw_to_handle(raw, "get_export_ptr"@) {
            Ok(a) => Ok::<MethodPointer, ErrorView>(MethodPointer { inner: a }),
            Err(e) => Err(e),
        },
{
    if raw == 0 {
        Err(RuntimeError::ReturnedNull("get_export_ptr"))
    } else {
        Ok(MethodPointer { inner: raw })
    }
}

/// Whether the on-disk layout around `exe` is an engine-produced bundle: the
/// sibling `<stem>_Data` directory exists and holds at least one of the three
/// marker files.
pub open spec fn spec_is_unity(exe: Seq<char>, fs: FsSnapshot) -> bool {
    match spec_data_dir(exe) {
        Some(d) => fs.spec_has(d) && (fs.spec_has(spec_join(d, "globalgamemanagers"@))
            || fs.spec_has(spec_join(d, "data.unity3d"@)) || fs.spec_has(
            spec_join(d, "mainData"@),
        )),
        None => false,
    }
}

/// Decides whether the process whose executable stands at `exe_path` is an
/// engine process, from the snapshot of the paths that exist around it.
pub fn is_unity(exe_path: &str, fs: &FsSnapshot) -> (r: Result<bool, RuntimeError>)
    ensures
        match r {
            Ok(b) => spec_data_dir(exe_path@) is Some && b == spec_is_unity(exe_path@, *fs),
            Err(e) => spec_data_dir(exe_path@) is None && e@ == ErrorView::BasePathNotFound,
        },
{
    let data_dir = match get_data_path(exe_path) {
        Some(d) => d,
        None => {
            return Err(RuntimeError::BasePathNotFound);
        },
    };
    if !fs.has(data_dir.as_str()) {
        return Ok(false);
    }
    let ggm = join_path(data_dir.as_str(), "globalgamemanagers");
    if fs.has(ggm.as_str()) {
        return Ok(true);
    }
    let du = join_path(data_dir.as_str(), "data.unity3d");
    if fs.has(du.as_str()) {
        return Ok(true);
    }
    let md = join_path(data_dir.as_str(), "mainData");
    Ok(fs.has(md.as_str()))
}

/// The backend detection chose, with the library file to load for it.
#[derive(Debug, Clone, PartialEq, Eq)]
pub enum RuntimeSelection {
    Mono { lib_path: String },
    Il2Cpp { lib_path: String },
}

/// Spec-level image of [`RuntimeSelection`].
pub enum SelectionView {
    Mono { lib_path: Seq<char> },
    Il2Cpp { lib_path: Seq<char> },
}

impl View for RuntimeSelection {
    type V = SelectionView;

    open spec fn view(&self) -> SelectionView {
        match self {
            RuntimeSelection::Mono { lib_path } => SelectionView::Mono { lib_path: lib_path@ },
            RuntimeSelection::Il2Cpp { lib_path } => SelectionView::Il2Cpp { lib_path: lib_path@ },
        }
    }
}

/// What detection decides for a given executable path and disk layout:
/// engine confirmation first, then the tracing-JIT library search, then the
/// native-AOT fallback — the absence of the tracing-JIT library is the
/// normal signal to probe for the other backend, not a failure.
pub open spec fn spec_get_runtime(exe: Seq<char>, fs: FsSnapshot) -> Result<
    SelectionView,
    ErrorView,
> {
    match spec_data_dir(exe) {
        None => Err(ErrorView::BasePathNotFound),
        Some(data) => if !spec_is_unity(exe, fs) {
            Err(ErrorView::NotUnity)
        } else {
            let base = spec_parent(exe);
            match spec_find_mono(base, data, fs) {
                Some(p) => Ok(SelectionView::Mono { lib_path: p }),
                None => match spec_find_game_assembly(base, fs) {
                    Some(p) => Ok(SelectionView::Il2Cpp { lib_path: p }),
                    None => Err(ErrorView::GameAssemblyNotFound),
                },
            }
        },
    }
}

/// Runs detection once: confirms the engine layout, then selects the backend
/// and the library file it must load.  No library is loaded here; the caller
/// loads the file of the returned selection and hands the result to the
/// matching backend constructor.
pub fn get_runtime(exe_path: &str, fs: &FsSnapshot) -> (r: Result<RuntimeSelection, RuntimeError>)
    ensures
        ({
            let s = spec_get_runtime(exe_path@, *fs);
            match r {
                Ok(sel) => s == Ok::<SelectionView, ErrorView>(sel@),
                Err(e) => s == Err::<SelectionView, ErrorView>(e@),
            }
        }),
{
    match is_unity(exe_path, fs) {
        Err(e) => Err(e),
        Ok(false) => Err(RuntimeError::NotUnity),
        Ok(true) => {
            let base_path = parent_part(exe_path);
            let data_path = match get_data_path(exe_path) {
                Some(d) => d,
                None => {
                    // `is_unity` returned `Ok`, so the data directory derives.
                    return Err(RuntimeError::DataPathNotFound);
                },
            };
            match find_mono(base_path, data_path.as_str(), fs) {
                Some(p) => Ok(RuntimeSelection::Mono { lib_path: p }),
                None => match find_game_assembly(base_path, fs) {
                    Some(p) => Ok(RuntimeSelection::Il2Cpp { lib_path: p }),
                    None => Err(RuntimeError::GameAssemblyNotFound),
                },
            }
        },
    }
}

/// A borrowed view of whichever backend is active, for callers that must
/// branch on the concrete backend.
#[derive(Debug)]
pub enum RuntimeType<'a> {
    Mono(&'a Mono),
    Il2Cpp(&'a Il2Cpp),
}

/// The view of an optional string argument.
pub open spec fn opt_str_view(v: Option<&str>) -> Option<Seq<char>> {
    match v {
        Some(s) => Some(s@),
        None => None,
    }
}

/// The capability interface, declared once over both backends.
///
/// Each operation answers with the [`ForeignCall`] the embedding code must
/// perform, or with the typed failure the interface promises; the spec
/// methods pin the answer exactly, per implementation.  No operation
/// describes a call before its arguments are validated: a null handle, an
/// empty or unencodable name, and an absent export each yield their own
/// error kind with no call planned.
pub trait Runtime {
    /// The concrete backend behind this value.
    spec fn get_type_spec<'a>(&'a self) -> RuntimeType<'a>;

    /// The exact answer of [`Runtime::get_domain`].
    spec fn get_domain_spec(&self) -> Result<CallView, ErrorView>;

    /// The exact answer of [`Runtime::get_current_thread`].
    spec fn get_current_thread_spec(&self) -> Result<CallView, ErrorView>;

    /// The exact answer of [`Runtime::set_main_thread`].
    spec fn set_main_thread_spec(&self, thread: UnityThread) -> Result<CallView, ErrorView>;

    /// The exact answer of [`Runtime::attach_to_thread`].
    spec fn attach_to_thread_spec(&self, domain: UnityDomain) -> Result<CallView, ErrorView>;

    /// The exact answer of [`Runtime::add_internal_call`].
    spec fn add_internal_call_spec(&self, name: Seq<char>, func: MethodPointer) -> Result<
        CallView,
        ErrorView,
    >;

    /// The exact answer of [`Runtime::install_assembly_hook`].
    spec fn install_assembly_hook_spec(
        &self,
        hook_type: AssemblyHookType,
        func: MethodPointer,
    ) -> Result<CallView, ErrorView>;

    /// The exact answer of [`Runtime::get_export_ptr`].
    spec fn get_export_ptr_spec(&self, name: Seq<char>) -> Result<CallView, ErrorView>;

    /// The exact answer of [`Runtime::init`].
    spec fn init_spec(&self, name: Seq<char>, version: Option<Seq<char>>) -> Result<
        CallView,
        ErrorView,
    >;

    /// Which backend this is.
    fn get_type<'a>(&'a self) -> (r: RuntimeType<'a>)
        ensures
            r == self.get_type_spec(),
    ;

    /// The call that obtains the active application domain.
    fn get_domain(&self) -> (r: Result<ForeignCall, RuntimeError>)
        ensures
            plan_view(r) == self.get_domain_spec(),
    ;

    /// The call that obtains the calling native thread's managed thread.
    fn get_current_thread(&self) -> (r: Result<ForeignCall, RuntimeError>)
        ensures
            plan_view(r) == self.get_current_thread_spec(),
    ;

    /// The call that designates `thread` as the main managed thread.
    fn set_main_thread(&self, thread: UnityThread) -> (r: Result<ForeignCall, RuntimeError>)
        ensures
            plan_view(r) == self.set_main_thread_spec(thread),
    ;

    /// The call that attaches the calling native thread to `domain`.
    fn attach_to_thread(&self, domain: UnityDomain) -> (r: Result<ForeignCall, RuntimeError>)
        ensures
            plan_view(r) == self.attach_to_thread_spec(domain),
    ;

    /// The call that registers `func` as the internal call named `name`.
    fn add_internal_call(&self, name: String, func: MethodPointer) -> (r: Result<
        ForeignCall,
        RuntimeError,
    >)
        ensures
            plan_view(r) == self.add_internal_call_spec(name@, func),
    ;

    /// The call that installs `func` as an assembly hook of the given kind.
    fn install_assembly_hook(&self, hook_type: AssemblyHookType, func: MethodPointer) -> (r: Result<
        ForeignCall,
        RuntimeError,
    >)
        ensures
            plan_view(r) == self.install_assembly_hook_spec(hook_type, func),
    ;

    /// The symbol resolution that turns an export name into a callable
    /// address.
    fn get_export_ptr(&self, name: &str) -> (r: Result<ForeignCall, RuntimeError>)
        ensures
            plan_view(r) == self.get_export_ptr_spec(name@),
    ;

    /// The call that initializes the runtime under the application name
    /// `name`.  The tracing-JIT backend requires `version`; the native-AOT
    /// backend ignores it entirely.
    fn init(&self, name: &str, version: Option<&str>) -> (r: Result<ForeignCall, RuntimeError>)
        ensures
            plan_view(r) == self.init_spec(name@, opt_str_view(version)),
    ;
}

/// The dispatcher: owns exactly the one backend detection selected and
/// forwards every capability to it.
#[derive(Debug, Clone)]
pub enum UnityRuntime {
    Mono(Mono),
    Il2Cpp(Il2Cpp),
}

impl Runtime for UnityRuntime {
    open spec fn get_type_spec<'a>(&'a self) -> RuntimeType<'a> {
        match self {
            UnityRuntime::Mono(m) => m.get_type_spec(),
            UnityRuntime::Il2Cpp(c) => c.get_type_spec(),
        }
    }

    fn get_type<'a>(&'a self) -> (r: RuntimeType<'a>) {
        match self {
            UnityRuntime::Mono(m) => m.get_type(),
            UnityRuntime::Il2Cpp(c) => c.get_type(),
        }
    }

    open spec fn get_domain_spec(&self) -> Result<CallView, ErrorView> {
        match self {
            UnityRuntime::Mono(m) => m.get_domain_spec(),
            UnityRuntime::Il2Cpp(c) => c.get_domain_spec(),
        }
    }

    fn get_domain(&self) -> (r: Result<ForeignCall, RuntimeError>) {
        match self {
            UnityRuntime::Mono(m) => m.get_domain(),
            UnityRuntime::Il2Cpp(c) => c.get_domain(),
        }
    }

    open spec fn get_current_thread_spec(&self) -> Result<CallView, ErrorView> {
        match self {
            UnityRuntime::Mono(m) => m.get_current_thread_spec(),
            UnityRuntime::Il2Cpp(c) => c.get_current_thread_spec(),
        }
    }

    fn get_current_thread(&self) -> (r: Result<ForeignCall, RuntimeError>) {
        match self {
            UnityRuntime::Mono(m) => m.get_current_thread(),
            UnityRuntime::Il2Cpp(c) => c.get_current_thread(),
        }
    }

    open spec fn set_main_thread_spec(&self, thread: UnityThread) -> Result<CallView, ErrorView> {
        match self {
            UnityRuntime::Mono(m) => m.set_main_thread_spec(thread),
            UnityRuntime::Il2Cpp(c) => c.set_main_thread_spec(thread),
        }
    }

    fn set_main_thread(&self, thread: UnityThread) -> (r: Result<ForeignCall, RuntimeError>) {
        match self {
            UnityRuntime::Mono(m) => m.set_main_thread(thread),
            UnityRuntime::Il2Cpp(c) => c.set_main_thread(thread),
        }
    }

    open spec fn attach_to_thread_spec(&self, domain: UnityDomain) -> Result<CallView, ErrorView> {
        match self {
            UnityRuntime::Mono(m) => m.attach_to_thread_spec(domain),
            UnityRuntime::Il2Cpp(c) => c.attach_to_thread_spec(domain),
        }
    }

    fn attach_to_thread(&self, domain: UnityDomain) -> (r: Result<ForeignCall, RuntimeError>) {
        match self {
            UnityRuntime::Mono(m) => m.attach_to_thread(domain),
            UnityRuntime::Il2Cpp(c) => c.attach_to_thread(domain),
        }
    }

    open spec fn add_internal_call_spec(&self, name: Seq<char>, func: MethodPointer) -> Result<
        CallView,
        ErrorView,
    > {
        match self {
            UnityRuntime::Mono(m) => m.add_internal_call_spec(name, func),
            UnityRuntime::Il2Cpp(c) => c.add_internal_call_spec(name, func),
        }
    }

    fn add_internal_call(&self, name: String, func: MethodPointer) -> (r: Result<
        ForeignCall,
        RuntimeError,
    >) {
        match self {
            UnityRuntime::Mono(m) => m.add_internal_call(name, func),
            UnityRuntime::Il2Cpp(c) => c.add_internal_call(name, func),
        }
    }

    open spec fn install_assembly_hook_spec(
        &self,
        hook_type: AssemblyHookType,
        func: MethodPointer,
    ) -> Result<CallView, ErrorView> {
        match self {
            UnityRuntime::Mono(m) => m.install_assembly_hook_spec(hook_type, func),
            UnityRuntime::Il2Cpp(c) => c.install_assembly_hook_spec(hook_type, func),
        }
    }

    fn install_assembly_hook(&self, hook_type: AssemblyHookType, func: MethodPointer) -> (r: Result<
        ForeignCall,
        RuntimeError,
    >) {
        match self {
            UnityRuntime::Mono(m) => m.install_assembly_hook(hook_type, func),
            UnityRuntime::Il2Cpp(c) => c.install_assembly_hook(hook_type, func),
        }
    }

    open spec fn get_export_ptr_spec(&self, name: Seq<char>) -> Result<CallView, ErrorView> {
        match self {
            UnityRuntime::Mono(m) => m.get_export_ptr_spec(name),
            UnityRuntime::Il2Cpp(c) => c.get_export_ptr_spec(name),
        }
    }

    fn get_export_ptr(&self, name: &str) -> (r: Result<ForeignCall, RuntimeError>) {
        match self {
            UnityRuntime::Mono(m) => m.get_export_ptr(name),
            UnityRuntime::Il2Cpp(c) => c.get_export_ptr(name),
        }
    }

    open spec fn init_spec(&self, name: Seq<char>, version: Option<Seq<char>>) -> Result<
        CallView,
        ErrorView,
    > {
        match self {
            UnityRuntime::Mono(m) => m.init_spec(name, version),
            UnityRuntime::Il2Cpp(c) => c.init_spec(name, version),
        }
    }

    fn init(&self, name: &str, version: Option<&str>) -> (r: Result<ForeignCall, RuntimeError>) {
        match self {
            UnityRuntime::Mono(m) => m.init(name, version),
            UnityRuntime::Il2Cpp(c) => c.init(name, version),
        }
    }
}

impl UnityRuntime {
    /// Well-formedness: the owned backend's export table records no null
    /// address as present.
    pub open spec fn wf(self) -> bool {
        match self {
            UnityRuntime::Mono(m) => m.wf(),
            UnityRuntime::Il2Cpp(c) => c.wf(),
        }
    }
}

/// Whether a planned call can be performed as written: its target and
/// callback addresses are non-null, its handle argument is non-null, and
/// every string in it encodes as a C string (and is non-empty where the
/// operation requires a name).
pub open spec fn spec_call_wf(c: CallView) -> bool {
    match c {
        CallView::NoArgs { target } => target.inner != 0,
        CallView::HandleArg { target, handle } => target.inner != 0 && handle != 0,
        CallView::NameAndFunc { target, name, func } => target.inner != 0 && func.inner != 0
            && name.len() > 0 && !spec_has_nul(name),
        CallView::FuncWithNullData { target, func } => target.inner != 0 && func.inner != 0,
        CallView::NameArg { target, name } => target.inner != 0 && !spec_has_nul(name),
        CallView::NameVersionArgs { target, name, version } => target.inner != 0 && !spec_has_nul(
            name,
        ) && !spec_has_nul(version),
        CallView::ResolveSymbol { handle, name } => !spec_has_nul(name),
    }
}

/// Every call a well-formed backend plans is performable as planned: no
/// capability ever describes a jump to a null address, a null handle or
/// callback argument, or a string that cannot cross the boundary.
pub proof fn lemma_planned_calls_well_formed(
    rt: UnityRuntime,
    t: UnityThread,
    d: UnityDomain,
    name: Seq<char>,
    version: Option<Seq<char>>,
    func: MethodPointer,
    hook_type: AssemblyHookType,
)
    requires
        rt.wf(),
    ensures
        rt.get_domain_spec() matches Ok(c) ==> spec_call_wf(c),
        rt.get_current_thread_spec() matches Ok(c) ==> spec_call_wf(c),
        rt.set_main_thread_spec(t) matches Ok(c) ==> spec_call_wf(c),
        rt.attach_to_thread_spec(d) matches Ok(c) ==> spec_call_wf(c),
        rt.add_internal_call_spec(name, func) matches Ok(c) ==> spec_call_wf(c),
        rt.install_assembly_hook_spec(hook_type, func) matches Ok(c) ==> spec_call_wf(c),
        rt.get_export_ptr_spec(name) matches Ok(c) ==> spec_call_wf(c),
        rt.init_spec(name, version) matches Ok(c) ==> spec_call_wf(c),
{
}

/// The marker files alone decide detection, given the data directory: any
/// one of the three present makes the layout an engine layout, and with
/// none present the layout is not one — whatever other files exist.
pub proof fn lemma_marker_files_decide_detection(exe: Seq<char>, d: Seq<char>, fs: FsSnapshot)
    requires
        spec_data_dir(exe) == Some(d),
    ensures
        (fs.spec_has(d) && fs.spec_has(spec_join(d, "globalgamemanagers"@))) ==> spec_is_unity(
            exe,
            fs,
        ),
        (fs.spec_has(d) && fs.spec_has(spec_join(d, "data.unity3d"@))) ==> spec_is_unity(exe, fs),
        (fs.spec_has(d) && fs.spec_has(spec_join(d, "mainData"@))) ==> spec_is_unity(exe, fs),
        (!fs.spec_has(spec_join(d, "globalgamemanagers"@)) && !fs.spec_has(
            spec_join(d, "data.unity3d"@),
        ) && !fs.spec_has(spec_join(d, "mainData"@))) ==> !spec_is_unity(exe, fs),
{
}

/// A null handle argument is rejected with the null-argument kind before
/// any foreign call is described, on every backend and whatever the export
/// table holds.
pub proof fn lemma_null_handle_rejected(rt: UnityRuntime, t: UnityThread, d: UnityDomain)
    requires
        t.inner == 0,
        d.inner == 0,
    ensures
        rt.set_main_thread_spec(t) == Err::<CallView, ErrorView>(ErrorView::NullPointer("thread"@)),
        rt.attach_to_thread_spec(d) == Err::<CallView, ErrorView>(ErrorView::NullPointer(
            "domain"@,
        )),
{
}

/// An empty internal-call name is rejected with the empty-name kind on both
/// backends, before the export table is even consulted.
pub proof fn lemma_empty_name_rejected(rt: UnityRuntime, name: Seq<char>, func: MethodPointer)
    requires
        name.len() == 0,
    ensures
        rt.add_internal_call_spec(name, func) == Err::<CallView, ErrorView>(ErrorView::EmptyString),
{
}

} // verus!
