//! Proposed intents: the records that tie an intent to the proposal that
//! publishes it.

use vstd::prelude::*;
use vstd::std_specs::convert::FromSpecImpl;
use crate::attributes::{IntentAddress, ProposalAddress};

verus! {

/// The part of the cell's configuration that concerns proposed intents.
#[derive(Debug, PartialEq)]
pub struct DnaConfigSlice {
    pub proposed_intent: ProposedIntentZomeConfig,
}

impl Clone for DnaConfigSlice {
    fn clone(&self) -> (copy: Self)
        ensures
            copy == *self,
    {
        DnaConfigSlice { proposed_intent: self.proposed_intent.clone() }
    }
}

/// The configuration of the proposed intent module: the module that keeps
/// the proposal indexes, and the one that keeps its own.
#[derive(Debug, PartialEq)]
pub struct ProposedIntentZomeConfig {
    pub proposal_index_zome: String,
    pub index_zome: String,
}

impl Clone for ProposedIntentZomeConfig {
    fn clone(&self) -> (copy: Self)
        ensures
            copy == *self,
    {
        ProposedIntentZomeConfig {
            proposal_index_zome: self.proposal_index_zome.clone(),
            index_zome: self.index_zome.clone(),
        }
    }
}

/// The fields of a proposed intent to be created.
#[derive(Clone, Copy, Debug, PartialEq, Eq, Structural)]
pub struct CreateRequest {
    pub reciprocal: bool,
    pub publishes: IntentAddress,
    pub published_in: ProposalAddress,
}

/// A proposed intent as it is stored.
#[derive(Clone, Copy, Debug, PartialEq, Eq, Structural)]
pub struct EntryData {
    pub reciprocal: bool,
    pub publishes: IntentAddress,
    pub published_in: ProposalAddress,
}

impl From<CreateRequest> for EntryData {
    /// Picks the stored fields out of the request.
    fn from(e: CreateRequest) -> (entry: EntryData) {
        EntryData { reciprocal: e.reciprocal, publishes: e.publishes, published_in: e.published_in }
    }
}

impl FromSpecImpl<CreateRequest> for EntryData {
    open spec fn obeys_from_spec() -> bool {
        true
    }

    open spec fn from_spec(e: CreateRequest) -> EntryData {
        EntryData { reciprocal: e.reciprocal, publishes: e.publishes, published_in: e.published_in }
    }
}

} // verus!
