//! Helpers shared by the rest of the library.

pub mod errors;
pub mod hash;
pub mod text;

pub use hash::hexify_hash;
