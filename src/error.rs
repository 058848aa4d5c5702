//! Error and result types.
use vstd::prelude::*;

verus! {

/// What can go wrong while decoding protocol data or serving the watcher.
#[derive(Debug, Clone, PartialEq, Eq)]
pub enum Error {
    /// The properties lack a required field, named here.
    MissingProperty(&'static str),
    /// A value has another D-Bus type than the one expected.
    IncorrectType,
    /// A structure is malformed; what was wrong is named here.
    InvalidData(&'static str),
    /// A method argument was rejected; why is named here.
    InvalidArgs(&'static str),
}

/// A result whose error is an [`Error`].
pub type Result<T> = core::result::Result<T, Error>;

} // verus!
