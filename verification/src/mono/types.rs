//! Types mirroring what the tracing-JIT runtime hands across the boundary.
//!
//! The marker structs stand for foreign objects this layer never inspects;
//! where the foreign layout holds pointers, the model carries the address
//! bit patterns.  The error enums belong to the higher-level helper
//! operations built over this backend.

use vstd::prelude::*;

verus! {

/// A foreign application domain.
#[derive(Debug)]
pub struct MonoDomain {}

/// A foreign managed thread.
#[derive(Debug)]
pub struct MonoThread {}

/// What can go wrong driving a managed method.
#[derive(Debug, Clone, PartialEq, Eq)]
pub enum MonoMethodError {
    /// The process is not running under the tracing-JIT backend.
    NotMono,
    /// The runtime could not be obtained.
    GetRuntimeFailed,
    /// The image could not be obtained.
    GetImageFailed,
    /// The named export is absent.
    MissingFunction(String),
    /// A name could not be encoded as a C string.
    CStringCreationFailed(String),
    /// The named foreign call returned null.
    NullMethod(String),
    /// Managed code raised an exception.
    ManagedException(String),
}

/// A foreign managed method.
#[derive(Debug)]
pub struct MonoMethod {}

/// What can go wrong looking up a managed class.
#[derive(Debug, Clone, PartialEq, Eq)]
pub enum MonoClassError {
    /// The process is not running under the tracing-JIT backend.
    NotMono,
    /// The runtime could not be obtained.
    GetRuntimeFailed,
    /// The image could not be obtained.
    GetImageFailed,
    /// The named export is absent.
    MissingFunction(String),
    /// A name could not be encoded as a C string.
    CStringCreationFailed(String),
    /// The named foreign call returned null.
    NullMethod(String),
}

/// A foreign managed class.
#[derive(Debug)]
pub struct MonoClass {}

/// What can go wrong opening a managed assembly.
#[derive(Debug, Clone, PartialEq, Eq)]
pub enum MonoAssemblyError {
    /// The process is not running under the tracing-JIT backend.
    NotMono,
    /// The runtime could not be obtained.
    GetRuntimeFailed,
    /// The image could not be obtained.
    GetImageFailed,
    /// The named export is absent.
    MissingFunction(String),
    /// A name could not be encoded as a C string.
    CStringCreationFailed(String),
    /// The domain could not be obtained.
    GetDomainFailed,
}

/// A foreign managed assembly.
#[derive(Debug)]
pub struct MonoAssembly {}

/// What can go wrong reading a managed image.
#[derive(Debug, Clone, PartialEq, Eq)]
pub enum MonoImageError {
    /// The process is not running under the tracing-JIT backend.
    NotMono,
    /// The runtime could not be obtained.
    GetRuntimeFailed,
    /// The image could not be obtained.
    GetImageFailed,
    /// The named export is absent.
    MissingFunction(String),
    /// The owning assembly could not be obtained.
    GetAssemblyFailed(String),
}

/// A foreign managed image.
#[derive(Debug)]
pub struct MonoImage {}

/// A foreign managed string.
#[derive(Debug)]
pub struct MonoString {}

/// The header every managed object starts with; both fields are foreign
/// addresses.
#[derive(Debug, Clone, Copy)]
pub struct MonoObject {
    /// The vtable address.
    pub vtable: usize,
    /// The synchronisation block address.
    pub syncchronisation: usize,
}

/// A reflection view of a managed assembly.
#[derive(Debug, Clone, Copy)]
pub struct MonoReflectionAssembly {
    /// The object header.
    pub object: MonoObject,
    /// The assembly address.
    pub assembly: usize,
    /// The evidence object address.
    pub evidence: usize,
}

/// The identity record of a managed assembly; the first four fields are
/// foreign string addresses.
#[derive(Debug, Clone, Copy)]
pub struct AssemblyName {
    pub name: usize,
    pub culture: usize,
    pub hash_value: usize,
    pub public_key: usize,
    pub public_key_token: [u8; 17],
    pub hash_alg: u32,
    pub hash_len: u32,
    pub flags: u32,
    pub major: u16,
    pub minor: u16,
    pub build: u16,
    pub revision: u16,
    pub arch: u32,
}

/// What can go wrong converting a managed string.
#[derive(Debug, Clone, PartialEq, Eq)]
pub enum MonoStringError {
    /// The process is not running under the tracing-JIT backend.
    NotMono,
    /// The UTF-8 conversion export failed.
    Utf8Failed,
    /// The managed string could not be created.
    CreateFailed,
    /// The runtime could not be obtained.
    GetRuntimeFailed,
    /// The domain could not be obtained.
    GetDomainFailed,
}

} // verus!
