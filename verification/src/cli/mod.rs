//! What the command line asks of the library.

pub mod new;
