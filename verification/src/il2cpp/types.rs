//! Marker types for objects the native-AOT runtime hands across the
//! boundary; this layer never inspects them.

use vstd::prelude::*;

verus! {

/// A foreign application domain.
#[derive(Debug)]
pub struct Il2CppDomain {}

/// A foreign managed thread.
#[derive(Debug)]
pub struct Il2CppThread {}

/// A foreign managed object.
#[derive(Debug)]
pub struct Il2CppObject {}

/// A foreign managed method.
#[derive(Debug)]
pub struct Il2CppMethod {}

} // verus!
