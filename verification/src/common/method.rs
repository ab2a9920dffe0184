//! Raw callable addresses.

use vstd::prelude::*;

verus! {

/// A raw callable address: either an export resolved from a native library,
/// or a native function supplied by calling code to be registered as an
/// internal call or hook callback.
///
/// The address is an opaque bit pattern (`0` meaning null); it is validated
/// against null at the boundary of each operation and never otherwise
/// interpreted by this layer.
#[derive(Debug, Clone, Copy, PartialEq, Eq, Hash, Structural)]
pub struct MethodPointer {
    pub inner: usize,
}

impl MethodPointer {
    /// Whether this is the null address.
    pub fn is_null(&self) -> (r: bool)
        ensures
            r == (self.inner == 0),
    {
        self.inner == 0
    }
}

} // verus!
