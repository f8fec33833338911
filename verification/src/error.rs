//! The failures of an operation, each with a message for the caller.

use vstd::prelude::*;

verus! {

/// A store operation that did not complete as expected.
#[derive(Clone, Copy, Debug, PartialEq, Eq, Hash, Structural)]
pub enum StoreError {
    /// The insert of a new record failed.
    WriteFailed,
    /// The record just inserted could not be read again by its identifier.
    ReadBackFailed,
    /// The scan of the collection could not be opened or followed to its
    /// end.
    ReadFailed,
}

/// The request context holds no store: the service was wired without one.
#[derive(Clone, Copy, Debug, PartialEq, Eq, Hash, Structural)]
pub struct ContextError {}

/// Why a resolver gave no result.
#[derive(Clone, Copy, Debug, PartialEq, Eq, Hash, Structural)]
pub enum ResolveError {
    Context(ContextError),
    Store(StoreError),
}

/// The message of a store failure.
pub open spec fn store_error_text(error: StoreError) -> Seq<char> {
    match error {
        StoreError::WriteFailed => "Error creating todo"@,
        StoreError::ReadBackFailed => "Error finding todo"@,
        StoreError::ReadFailed => "Error getting list of todos"@,
    }
}

/// The message of a missing store.
pub open spec fn context_error_text() -> Seq<char> {
    "Store is missing from the request context"@
}

/// The message of a resolver failure: that of its cause.
pub open spec fn resolve_error_text(error: ResolveError) -> Seq<char> {
    match error {
        ResolveError::Context(_) => context_error_text(),
        ResolveError::Store(cause) => store_error_text(cause),
    }
}

impl StoreError {
    /// A message for the caller.
    pub fn message(&self) -> (text: String)
        ensures
            text@ == store_error_text(*self),
    {
        match self {
            StoreError::WriteFailed => "Error creating todo".to_owned(),
            StoreError::ReadBackFailed => "Error finding todo".to_owned(),
            StoreError::ReadFailed => "Error getting list of todos".to_owned(),
        }
    }
}

impl ContextError {
    /// A message for the caller.
    pub fn message(&self) -> (text: String)
        ensures
            text@ == context_error_text(),
    {
        "Store is missing from the request context".to_owned()
    }
}

impl ResolveError {
    /// A message for the caller.
    pub fn message(&self) -> (text: String)
        ensures
            text@ == resolve_error_text(*self),
    {
        match self {
            ResolveError::Context(cause) => cause.message(),
            ResolveError::Store(cause) => cause.message(),
        }
    }
}

} // verus!
