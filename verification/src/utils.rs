//! Small verified utilities: character-level string helpers and the
//! path/filesystem model that backend detection works over.

pub mod path;
pub mod strings;
