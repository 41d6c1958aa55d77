//! A query whose parameters may hold arrays.

use vstd::prelude::*;

verus! {

/// The error type of `serde_qs`.
#[verifier::external_type_specification]
#[verifier::external_body]
pub struct ExQueryError(serde_qs::Error);

/// Why a query could not be read.
#[derive(Debug)]
pub enum ArrayQueryPayloadError {
    /// Query deserialize error.
    Deserialize(serde_qs::Error),
}

/// The parameters read from a query string in which a key may carry an array.
#[derive(Debug, Clone, PartialEq, Eq, PartialOrd, Ord)]
pub struct ArrayQuery<T>(pub T);

impl<T> ArrayQuery<T> {
    /// Unwraps into the inner `T` value.
    pub fn into_inner(self) -> (inner: T)
        ensures
            inner == self.0,
    {
        self.0
    }

    /// Wraps what was read from a query string, or the error for which
    /// nothing was read.
    pub fn from_query(parsed: Result<T, serde_qs::Error>) -> (query: Result<
        Self,
        ArrayQueryPayloadError,
    >)
        ensures
            match parsed {
                Ok(value) => query == Ok::<Self, ArrayQueryPayloadError>(ArrayQuery(value)),
                Err(error) => query == Err::<Self, ArrayQueryPayloadError>(
                    ArrayQueryPayloadError::Deserialize(error),
                ),
            },
    {
        match parsed {
            Ok(value) => Ok(ArrayQuery(value)),
            Err(error) => Err(ArrayQueryPayloadError::Deserialize(error)),
        }
    }
}

impl<T> std::ops::Deref for ArrayQuery<T> {
    type Target = T;

    fn deref(&self) -> (inner: &T)
        ensures
            *inner == self.0,
    {
        &self.0
    }
}

} // verus!
