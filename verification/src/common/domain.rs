//! The application-domain handle.

use vstd::prelude::*;

verus! {

/// An opaque handle to an application domain owned by the foreign runtime.
///
/// `inner` is the address bit pattern the runtime returned; `0` is the null
/// handle.  The handle is never dereferenced by this layer, only passed back
/// into other foreign calls, so copying it is always safe and equality is by
/// bit pattern alone.
#[derive(Debug, Clone, Copy, PartialEq, Eq, Hash, Structural)]
pub struct UnityDomain {
    pub inner: usize,
}

impl UnityDomain {
    /// Whether this is the null handle.
    pub fn is_null(&self) -> (r: bool)
        ensures
            r == (self.inner == 0),
    {
        self.inner == 0
    }
}

} // verus!
