//! Failures of the record store and of the index engine.

use vstd::prelude::*;

verus! {

/// Why a record or index operation did not take place.
#[derive(Debug, PartialEq, Eq)]
pub enum DataIntegrityError {
    /// The store refused the write.
    IntegrityError,
    /// Nothing live is stored at the address.
    EntryNotFound,
    /// An entry is stored at the address, but not one of the expected type.
    DeserializationError,
    /// The revision that an update names is no longer the head of its record.
    RevisionMismatch,
    /// The remote half of an operation failed; the text says how.
    RemoteRequestError(String),
}

impl Clone for DataIntegrityError {
    fn clone(&self) -> (copy: Self)
        ensures
            copy == *self,
    {
        match self {
            DataIntegrityError::IntegrityError => DataIntegrityError::IntegrityError,
            DataIntegrityError::EntryNotFound => DataIntegrityError::EntryNotFound,
            DataIntegrityError::DeserializationError => DataIntegrityError::DeserializationError,
            DataIntegrityError::RevisionMismatch => DataIntegrityError::RevisionMismatch,
            DataIntegrityError::RemoteRequestError(text) => DataIntegrityError::RemoteRequestError(text.clone()),
        }
    }
}

} // verus!
