//! Runtime-abstraction layer for component-engine game processes.
//!
//! A process built on the engine embeds one of two managed-code backends: a
//! tracing-JIT virtual machine ("mono" family) or an ahead-of-time-compiled
//! native variant ("il2cpp").  This crate holds the verified core of a layer
//! that detects which backend is present from the on-disk layout, models the
//! backend's export table, and answers the uniform capability interface over
//! both backends.
//!
//! Foreign state is modelled by plain values: a handle owned by the foreign
//! runtime is carried as its address bit pattern (`0` meaning null), the
//! filesystem enters as a snapshot of the paths that exist, and a loaded
//! library enters as its handle together with the addresses that symbol
//! resolution produced for the fixed export-name set.  Every capability call
//! is split into a verified decision — validate the arguments, consult the
//! export table, and describe the exact foreign invocation to perform — and a
//! verified interpretation of the raw value the foreign call returned.  The
//! unverifiable step in the middle (jumping to a foreign address) is left to
//! the embedding code.

pub mod common;
pub mod il2cpp;
pub mod mono;
pub mod libs;
pub mod runtime;
pub mod utils;
