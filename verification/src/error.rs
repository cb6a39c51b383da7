//! Error type of the library.
use vstd::prelude::*;

use crate::text::TextValue;

verus! {

/// Errors that can occur in flag operations.
#[derive(Debug)]
pub enum FlagError {
    /// Flag not found.
    NotFound(String),
    /// Flag already exists.
    AlreadyExists(String),
    /// Invalid flag name.
    InvalidName {
        /// The supplied name.
        name: String,
        /// Reason for invalidity.
        reason: String,
    },
    /// Storage error.
    Storage(String),
}

/// Convenience result type for flag operations.
pub type Result<T> = core::result::Result<T, FlagError>;

impl FlagError {
    /// Creates an `InvalidName` error.
    pub fn invalid_name<N: TextValue, R: TextValue>(name: N, reason: R) -> (e: FlagError)
        ensures
            e matches FlagError::InvalidName { name: n, reason: r } && n@ == name.text()
                && r@ == reason.text(),
    {
        FlagError::InvalidName { name: name.into_string(), reason: reason.into_string() }
    }

    /// Creates a `NotFound` error.
    pub fn not_found<N: TextValue>(name: N) -> (e: FlagError)
        ensures
            e matches FlagError::NotFound(n) && n@ == name.text(),
    {
        FlagError::NotFound(name.into_string())
    }

    /// Creates an `AlreadyExists` error.
    pub fn already_exists<N: TextValue>(name: N) -> (e: FlagError)
        ensures
            e matches FlagError::AlreadyExists(n) && n@ == name.text(),
    {
        FlagError::AlreadyExists(name.into_string())
    }

    /// Creates a `Storage` error.
    pub fn storage<M: TextValue>(msg: M) -> (e: FlagError)
        ensures
            e matches FlagError::Storage(m) && m@ == msg.text(),
    {
        FlagError::Storage(msg.into_string())
    }
}

} // verus!
