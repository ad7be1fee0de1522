//! The records of the proposal interface in which a proposal is addressed by
//! its identity alone, whatever its revision.

use vstd::prelude::*;
use crate::attributes::{MaybeUndefined, ProposalAddress, ProposedIntentAddress, Timestamp};

verus! {

/// The complete record as it is returned.
#[derive(Debug, PartialEq, Eq)]
pub struct Response {
    pub id: ProposalAddress,
    pub name: Option<String>,
    pub has_beginning: Option<Timestamp>,
    pub has_end: Option<Timestamp>,
    pub unit_based: Option<bool>,
    pub created: Option<Timestamp>,
    pub note: Option<String>,
    pub in_scope_of: Option<Vec<String>>,
    pub publishes: Option<Vec<ProposedIntentAddress>>,
}

/// What a handler returns: the record under a name of its own.
#[derive(Debug, PartialEq, Eq)]
pub struct ResponseData {
    pub proposal: Response,
}

/// The fields of a proposal to be created.
#[derive(Debug, PartialEq, Eq)]
pub struct CreateRequest {
    pub name: MaybeUndefined<String>,
    pub has_beginning: MaybeUndefined<Timestamp>,
    pub has_end: MaybeUndefined<Timestamp>,
    pub unit_based: MaybeUndefined<bool>,
    pub created: MaybeUndefined<Timestamp>,
    pub note: MaybeUndefined<String>,
    pub in_scope_of: MaybeUndefined<Vec<String>>,
}

/// The fields of a proposal to be changed, and the proposal's identity.
#[derive(Debug, PartialEq, Eq)]
pub struct UpdateRequest {
    pub id: ProposalAddress,
    pub name: MaybeUndefined<String>,
    pub has_beginning: MaybeUndefined<Timestamp>,
    pub has_end: MaybeUndefined<Timestamp>,
    pub unit_based: MaybeUndefined<bool>,
    pub created: MaybeUndefined<Timestamp>,
    pub note: MaybeUndefined<String>,
    pub in_scope_of: MaybeUndefined<Vec<String>>,
}

impl UpdateRequest {
    /// The identity of the proposal to be changed.
    pub fn get_id(&self) -> (id: &ProposalAddress)
        ensures
            *id == self.id,
    {
        &self.id
    }
}

/// The filters of a query for proposals.
#[derive(Debug, PartialEq, Eq)]
pub struct QueryParams {
    pub publishes: Option<ProposedIntentAddress>,
}

} // verus!
