//! The managed-thread handle.

use vstd::prelude::*;

verus! {

/// An opaque handle to a thread known to the foreign runtime.
///
/// Like every handle in this layer it carries only the address bit pattern
/// (`0` meaning null) and is never dereferenced here.
#[derive(Debug, Clone, Copy, PartialEq, Eq, Hash, Structural)]
pub struct UnityThread {
    pub inner: usize,
}

impl UnityThread {
    /// Whether this is the null handle.
    pub fn is_null(&self) -> (r: bool)
        ensures
            r == (self.inner == 0),
    {
        self.inner == 0
    }
}

} // verus!
