//! Opaque handle types shared by both backends.

pub mod domain;
pub mod method;
pub mod thread;
