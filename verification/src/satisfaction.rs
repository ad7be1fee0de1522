//! Satisfactions as they apply to commitments: the index pair between a
//! commitment and the intents that it satisfies, which are kept by another
//! module.

use vstd::prelude::*;
use crate::errors::DataIntegrityError;
use crate::identity::IdentityAddress;
use crate::indexes::remote::{is_link_request, is_reported, RemoteIndexRequest, RemoteIndexResponse};
use crate::indexes::{forward_edges, IndexStore};
use crate::rpc::CrossCellError;

verus! {

/// The module that keeps the intents.
pub const INTENT_ZOME: &'static str = "intent";

/// The function of that module that writes its half of the index pair.
pub const LINK_SATISFACTIONS_METHOD: &'static str = "link_satisfactions";

/// The entry type that anchors an intent.
pub const INTENT_BASE_ENTRY_TYPE: &'static str = "vf_intent_baseurl";

/// The type and tag of the edges from a commitment to the intents that it
/// satisfies.
pub const COMMITMENT_SATISFIES_LINK_TYPE: &'static str = "vf_commitment_satisfies";

pub const COMMITMENT_SATISFIES_LINK_TAG: &'static str = "satisfies";

/// The type and tag of the edges from an intent back to the commitments that
/// satisfy it.
pub const INTENT_SATISFIEDBY_LINK_TYPE: &'static str = "vf_intent_satisfied_by";

pub const INTENT_SATISFIEDBY_LINK_TAG: &'static str = "satisfied_by";

/// Links a commitment to the intents that it satisfies, and asks the module
/// that keeps the intents to link each of them back.
pub fn link_satisfactions<F>(
    indexes: &mut IndexStore,
    base_address: &IdentityAddress,
    targets: &Vec<IdentityAddress>,
    remote: F,
) -> (linked: Result<RemoteIndexResponse, DataIntegrityError>) where
    F: FnOnce(RemoteIndexRequest) -> Result<RemoteIndexResponse, CrossCellError>,

    requires
        forall|request: RemoteIndexRequest| call_requires(remote, (request,)),
    ensures
        final(indexes)@ == old(indexes)@.with_all(
            forward_edges(
                *base_address,
                COMMITMENT_SATISFIES_LINK_TYPE@,
                COMMITMENT_SATISFIES_LINK_TAG@,
                targets@,
            ),
        ),
        exists|request: RemoteIndexRequest, outcome: Result<RemoteIndexResponse, CrossCellError>|
            {
                &&& is_link_request(
                    request,
                    *base_address,
                    INTENT_SATISFIEDBY_LINK_TYPE@,
                    INTENT_SATISFIEDBY_LINK_TAG@,
                    targets@,
                )
                &&& call_ensures(remote, (request,), outcome)
                &&& is_reported(outcome, linked)
            },
{
    indexes.create_remote_index_pair(
        *base_address,
        COMMITMENT_SATISFIES_LINK_TYPE,
        COMMITMENT_SATISFIES_LINK_TAG,
        INTENT_SATISFIEDBY_LINK_TYPE,
        INTENT_SATISFIEDBY_LINK_TAG,
        targets,
        remote,
    )
}

/// The intents that a commitment satisfies, in the order in which they were
/// linked.
pub fn get_satisfactions(indexes: &IndexStore, address: &IdentityAddress) -> (satisfied: Result<
    Vec<IdentityAddress>,
    DataIntegrityError,
>)
    ensures
        satisfied matches Ok(intents) && intents@ == indexes@.targets(*address, COMMITMENT_SATISFIES_LINK_TYPE@),
{
    Ok(indexes.read_index(*address, COMMITMENT_SATISFIES_LINK_TYPE))
}

} // verus!
