//! The ways in which an operation of the library fails.

use vstd::prelude::*;

verus! {

/// What went wrong.
#[derive(Clone, Copy, Debug, PartialEq, Eq, Structural)]
pub enum ErrorKind {
    /// A package name or package id is not of the form the library reads.
    InvalidPackageId,
    /// A locator string is malformed.
    InvalidSourceUrl,
    /// No manifest stands at the root of a checkout.
    MissingManifest,
    /// A manifest was found and could not be read as one.
    InvalidManifest,
    /// An index could not be read as one.
    InvalidIndex,
    /// A directory lock is held by someone else, or could not be set up.
    LockAcquisitionFailure,
    /// The transport could not bring what was asked for.
    FetchFailure,
}

/// An optional value as plain values.
pub open spec fn some_view<T: View>(o: Option<T>) -> Option<T::V> {
    match o {
        Some(t) => Some(t@),
        None => None,
    }
}

/// The outcome of an operation as plain values.
pub open spec fn ok_view<T: View>(r: Result<T, ErrorKind>) -> Result<T::V, ErrorKind> {
    match r {
        Ok(t) => Ok(t@),
        Err(e) => Err(e),
    }
}

} // verus!
