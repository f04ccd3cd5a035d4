//! Package identity, source caching and build fingerprints for a package manager.
//!
//! The library decides; it performs no input or output of its own. Every path
//! is text, every answer of the disk or the network comes in as a value, and
//! what has to be done next goes out as a value.

pub mod util;
pub mod package;
pub mod retrieve;
pub mod index;
pub mod cli;
