//! Package indices.

pub mod config;
