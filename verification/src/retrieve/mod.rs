//! Bringing packages to disk, and keeping what was brought.

pub mod builds;
pub mod cache;
pub mod fetch;
pub mod indices;
pub mod meta;
pub mod naming;
pub mod source;
