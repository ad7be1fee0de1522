//! Proposals: the stored entry, the request and response records of the
//! interface, and the handlers that tie them to the record store and to the
//! indexes.

use vstd::prelude::*;
use vstd::std_specs::convert::FromSpecImpl;
use crate::attributes::{
    copy_text, copy_texts, merge_text, merge_texts, merge_value, MaybeUndefined, ProposalAddress,
    ProposedIntentAddress, ProposedToAddress, Timestamp,
};
use crate::errors::DataIntegrityError;
use crate::identity::{IdentityAddress, RecordAddress, RevisionPointer};
use crate::indexes::IndexStore;
use crate::records::{RecordStore, Updateable};

verus! {

/// The entry type of proposals.
pub const PROPOSAL_ENTRY_TYPE: &'static str = "vf_proposal";

/// The type of the edges from a proposal to the proposed intents that it
/// publishes.
pub const PROPOSAL_PUBLISHES_LINK_TYPE: &'static str = "vf_proposal_publishes";

/// The tag of those edges.
pub const PROPOSAL_PUBLISHES_LINK_TAG: &'static str = "publishes";

/// The type of the edges from a proposal to the records of whom it was
/// published to.
pub const PROPOSAL_PUBLISHED_TO_LINK_TYPE: &'static str = "vf_proposal_published_to";

/// The tag of those edges.
pub const PROPOSAL_PUBLISHED_TO_LINK_TAG: &'static str = "published_to";

/// A proposal as it is stored.
#[derive(Debug, PartialEq, Eq)]
pub struct EntryData {
    pub name: Option<String>,
    pub has_beginning: Option<Timestamp>,
    pub has_end: Option<Timestamp>,
    pub unit_based: Option<bool>,
    pub created: Option<Timestamp>,
    pub note: Option<String>,
    pub in_scope_of: Option<Vec<String>>,
}

/// A stored proposal as the contracts speak of it.
pub struct EntryDataView {
    pub name: Option<Seq<char>>,
    pub has_beginning: Option<Timestamp>,
    pub has_end: Option<Timestamp>,
    pub unit_based: Option<bool>,
    pub created: Option<Timestamp>,
    pub note: Option<Seq<char>>,
    pub in_scope_of: Option<Seq<Seq<char>>>,
}

impl DeepView for EntryData {
    type V = EntryDataView;

    open spec fn deep_view(&self) -> EntryDataView {
        EntryDataView {
            name: self.name.deep_view(),
            has_beginning: self.has_beginning,
            has_end: self.has_end,
            unit_based: self.unit_based,
            created: self.created,
            note: self.note.deep_view(),
            in_scope_of: self.in_scope_of.deep_view(),
        }
    }
}

impl Clone for EntryData {
    fn clone(&self) -> (copy: Self)
        ensures
            copy.deep_view() == self.deep_view(),
    {
        EntryData {
            name: copy_text(&self.name),
            has_beginning: self.has_beginning,
            has_end: self.has_end,
            unit_based: self.unit_based,
            created: self.created,
            note: copy_text(&self.note),
            in_scope_of: copy_texts(&self.in_scope_of),
        }
    }
}

/// The complete record as it is returned, with the fields that are read from
/// the indexes.
#[derive(Debug, PartialEq, Eq)]
pub struct Response {
    pub id: ProposalAddress,
    pub revision_id: RevisionPointer,
    pub name: Option<String>,
    pub has_beginning: Option<Timestamp>,
    pub has_end: Option<Timestamp>,
    pub unit_based: Option<bool>,
    pub created: Option<Timestamp>,
    pub note: Option<String>,
    pub in_scope_of: Option<Vec<String>>,
    pub publishes: Vec<ProposedIntentAddress>,
    pub published_to: Vec<ProposedToAddress>,
}

/// A returned record as the contracts speak of it.
pub struct ResponseView {
    pub id: ProposalAddress,
    pub revision_id: RevisionPointer,
    pub entry: EntryDataView,
    pub publishes: Seq<ProposedIntentAddress>,
    pub published_to: Seq<ProposedToAddress>,
}

impl DeepView for Response {
    type V = ResponseView;

    open spec fn deep_view(&self) -> ResponseView {
        ResponseView {
            id: self.id,
            revision_id: self.revision_id,
            entry: EntryDataView {
                name: self.name.deep_view(),
                has_beginning: self.has_beginning,
                has_end: self.has_end,
                unit_based: self.unit_based,
                created: self.created,
                note: self.note.deep_view(),
                in_scope_of: self.in_scope_of.deep_view(),
            },
            publishes: self.publishes@,
            published_to: self.published_to@,
        }
    }
}

/// What a handler returns: the record under a name of its own, so that more
/// can be returned beside it later.
#[derive(Debug, PartialEq, Eq)]
pub struct ResponseData {
    pub proposal: Response,
}

/// The fields of a proposal to be created.
#[derive(Debug, PartialEq, Eq)]
pub struct CreateRequest {
    pub name: MaybeUndefined<String>,
    pub has_beginning: MaybeUndefined<Timestamp>,
    pub has_end: MaybeUndefined<Timestamp>,
    pub unit_based: MaybeUndefined<bool>,
    pub created: MaybeUndefined<Timestamp>,
    pub note: MaybeUndefined<String>,
    pub in_scope_of: MaybeUndefined<Vec<String>>,
}

/// The fields of a proposal to be changed, and the revision that the caller
/// believes to be current.
#[derive(Debug, PartialEq, Eq)]
pub struct UpdateRequest {
    pub revision_id: RevisionPointer,
    pub name: MaybeUndefined<String>,
    pub has_beginning: MaybeUndefined<Timestamp>,
    pub has_end: MaybeUndefined<Timestamp>,
    pub unit_based: MaybeUndefined<bool>,
    pub note: MaybeUndefined<String>,
    pub in_scope_of: MaybeUndefined<Vec<String>>,
}

impl UpdateRequest {
    /// The revision that the update is made against.
    pub fn get_revision_id(&self) -> (revision: &RevisionPointer)
        ensures
            *revision == self.revision_id,
    {
        &self.revision_id
    }
}

/// The argument of the create endpoint.
#[derive(Debug, PartialEq, Eq)]
pub struct CreateParams {
    pub proposal: CreateRequest,
}

/// The argument of the update endpoint.
#[derive(Debug, PartialEq, Eq)]
pub struct UpdateParams {
    pub proposal: UpdateRequest,
}

/// The filters of a query for proposals.
#[derive(Debug, PartialEq, Eq)]
pub struct QueryParams {
    pub publishes: Option<ProposedIntentAddress>,
    pub published_to: Option<ProposedToAddress>,
}

/// The part of the cell's configuration that concerns proposals.
#[derive(Debug, PartialEq, Eq)]
pub struct DnaConfigSlice {
    pub proposal: ProposalZomeConfig,
}

/// The configuration of the proposal module.
#[derive(Debug, PartialEq, Eq)]
pub struct ProposalZomeConfig {
    pub index_zome: String,
}

/// The name of the module that keeps the proposal indexes.
pub fn read_proposal_index_zome(conf: DnaConfigSlice) -> (zome: Option<String>)
    ensures
        zome == Some(conf.proposal.index_zome),
{
    Some(conf.proposal.index_zome)
}

/// The entry that a create request asks for: each field holds the value
/// that was sent for it, and nothing where null or nothing was sent.
pub open spec fn entry_of(request: CreateRequest) -> EntryData {
    EntryData {
        name: request.name.as_option(),
        has_beginning: request.has_beginning.as_option(),
        has_end: request.has_end.as_option(),
        unit_based: request.unit_based.as_option(),
        created: request.created.as_option(),
        note: request.note.as_option(),
        in_scope_of: request.in_scope_of.as_option(),
    }
}

impl From<CreateRequest> for EntryData {
    fn from(e: CreateRequest) -> (entry: EntryData) {
        EntryData {
            name: e.name.to_option(),
            has_beginning: e.has_beginning.to_option(),
            has_end: e.has_end.to_option(),
            unit_based: e.unit_based.to_option(),
            created: e.created.to_option(),
            note: e.note.to_option(),
            in_scope_of: e.in_scope_of.to_option(),
        }
    }
}

impl FromSpecImpl<CreateRequest> for EntryData {
    open spec fn obeys_from_spec() -> bool {
        true
    }

    open spec fn from_spec(e: CreateRequest) -> EntryData {
        entry_of(e)
    }
}

/// The stored fields after an update request was applied to them: a field
/// that was sent takes the sent value, one sent as null is cleared, one left
/// out stays. The creation time is not open to updates.
pub open spec fn updated_entry(
    prior: EntryDataView,
    name: MaybeUndefined<Seq<char>>,
    has_beginning: MaybeUndefined<Timestamp>,
    has_end: MaybeUndefined<Timestamp>,
    unit_based: MaybeUndefined<bool>,
    note: MaybeUndefined<Seq<char>>,
    in_scope_of: MaybeUndefined<Seq<Seq<char>>>,
) -> EntryDataView {
    EntryDataView {
        name: name.applied_to(prior.name),
        has_beginning: has_beginning.applied_to(prior.has_beginning),
        has_end: has_end.applied_to(prior.has_end),
        unit_based: unit_based.applied_to(prior.unit_based),
        created: prior.created,
        note: note.applied_to(prior.note),
        in_scope_of: in_scope_of.applied_to(prior.in_scope_of),
    }
}

impl Updateable<UpdateRequest> for EntryData {
    open spec fn updated_by(&self, update: &UpdateRequest, result: &EntryData) -> bool {
        result.deep_view() == updated_entry(
            self.deep_view(),
            update.name.deep_view(),
            update.has_beginning,
            update.has_end,
            update.unit_based,
            update.note.deep_view(),
            update.in_scope_of.deep_view(),
        )
    }

    fn update_with(&self, update: &UpdateRequest) -> (result: EntryData) {
        EntryData {
            name: merge_text(&self.name, &update.name),
            has_beginning: merge_value(&self.has_beginning, &update.has_beginning),
            has_end: merge_value(&self.has_end, &update.has_end),
            unit_based: merge_value(&self.unit_based, &update.unit_based),
            created: self.created,
            note: merge_text(&self.note, &update.note),
            in_scope_of: merge_texts(&self.in_scope_of, &update.in_scope_of),
        }
    }
}

/// The record that is returned for an entry: its two addresses, its fields,
/// and what the indexes hold for it.
pub open spec fn response_of(
    address: ProposalAddress,
    revision_id: RevisionPointer,
    entry: EntryDataView,
    publishes: Seq<ProposedIntentAddress>,
    published_to: Seq<ProposedToAddress>,
) -> ResponseView {
    ResponseView { id: address, revision_id, entry, publishes, published_to }
}

/// Builds the returned record from an entry, its addresses and its links.
pub fn construct_response(
    address: &ProposalAddress,
    revision_id: &RevisionPointer,
    e: &EntryData,
    links: (Vec<ProposedIntentAddress>, Vec<ProposedToAddress>),
) -> (response: ResponseData)
    ensures
        response.proposal.deep_view() == response_of(*address, *revision_id, e.deep_view(), links.0@, links.1@),
{
    let (publishes, published_to) = links;
    ResponseData {
        proposal: Response {
            id: *address,
            revision_id: *revision_id,
            name: copy_text(&e.name),
            has_beginning: e.has_beginning,
            has_end: e.has_end,
            unit_based: e.unit_based,
            created: e.created,
            note: copy_text(&e.note),
            in_scope_of: copy_texts(&e.in_scope_of),
            publishes,
            published_to,
        },
    }
}

/// The fields of a proposal that are read from the indexes: the proposed
/// intents that it publishes, and whom it was published to.
pub fn get_link_fields(indexes: &IndexStore, proposal: &ProposalAddress) -> (links: (
    Vec<ProposedIntentAddress>,
    Vec<ProposedToAddress>,
))
    ensures
        links.0@ == indexes@.targets(*proposal, PROPOSAL_PUBLISHES_LINK_TYPE@),
        links.1@ == indexes@.targets(*proposal, PROPOSAL_PUBLISHED_TO_LINK_TYPE@),
{
    (
        indexes.read_index(*proposal, PROPOSAL_PUBLISHES_LINK_TYPE),
        indexes.read_index(*proposal, PROPOSAL_PUBLISHED_TO_LINK_TYPE),
    )
}

/// The record that is returned for what a read found, or the read's error.
pub open spec fn is_response_to(
    found: Result<(RevisionPointer, IdentityAddress, EntryData), DataIntegrityError>,
    indexes: crate::indexes::IndexState,
    response: Result<ResponseData, DataIntegrityError>,
) -> bool {
    match found {
        Ok((revision, identity, entry)) => {
            &&& response matches Ok(data)
            &&& data.proposal.deep_view() == response_of(
                identity,
                revision,
                entry.deep_view(),
                indexes.targets(identity, PROPOSAL_PUBLISHES_LINK_TYPE@),
                indexes.targets(identity, PROPOSAL_PUBLISHED_TO_LINK_TYPE@),
            )
        },
        Err(e) => response == Err::<ResponseData, DataIntegrityError>(e),
    }
}

/// Stores a new proposal and returns its record.
pub fn handle_create_proposal(
    store: &mut RecordStore<EntryData>,
    indexes: &IndexStore,
    entry_def_id: &str,
    proposal: CreateRequest,
) -> (response: Result<ResponseData, DataIntegrityError>)
    ensures
        old(store)@.is_registered(entry_def_id@) ==> {
            &&& final(store)@ == old(store)@.created(entry_def_id@, entry_of(proposal))
            &&& final(store)@.read(
                entry_def_id@,
                RecordAddress::Identity(IdentityAddress { raw: old(store)@.records.len() as u64 }),
            ) is Ok
            &&& is_response_to(
                final(store)@.read(
                    entry_def_id@,
                    RecordAddress::Identity(IdentityAddress { raw: old(store)@.records.len() as u64 }),
                ),
                indexes@,
                response,
            )
        },
        !old(store)@.is_registered(entry_def_id@) ==> {
            &&& final(store)@ == old(store)@
            &&& response == Err::<ResponseData, DataIntegrityError>(DataIntegrityError::IntegrityError)
        },
{
    let entry = EntryData::from(proposal);
    match store.create_record(entry_def_id, entry) {
        Ok((revision_id, base_address, entry_resp)) => {
            proof {
                store.view_is_addressable();
            }
            Ok(construct_response(&base_address, &revision_id, &entry_resp, get_link_fields(indexes, &base_address)))
        },
        Err(e) => Err(e),
    }
}

/// Returns the record of the newest version of a proposal.
pub fn handle_get_proposal(
    store: &RecordStore<EntryData>,
    indexes: &IndexStore,
    entry_def_id: &str,
    address: ProposalAddress,
) -> (response: Result<ResponseData, DataIntegrityError>)
    ensures
        is_response_to(store@.read(entry_def_id@, RecordAddress::Identity(address)), indexes@, response),
{
    match store.read_record_entry(entry_def_id, &RecordAddress::Identity(address)) {
        Ok((revision, base_address, entry)) => Ok(
            construct_response(&base_address, &revision, &entry, get_link_fields(indexes, &base_address)),
        ),
        Err(e) => Err(e),
    }
}

/// Applies an update to a proposal and returns the record of the new
/// version. The update names the revision that it is made against; where that
/// is not the newest one, nothing is written.
pub fn handle_update_proposal(
    store: &mut RecordStore<EntryData>,
    indexes: &IndexStore,
    entry_def_id: &str,
    proposal: UpdateRequest,
) -> (response: Result<ResponseData, DataIntegrityError>)
    ensures
        match old(store)@.check_update(entry_def_id@, proposal.revision_id) {
            Err(e) => {
                &&& final(store)@ == old(store)@
                &&& response == Err::<ResponseData, DataIntegrityError>(e)
            },
            Ok(()) => {
                let revision = RevisionPointer {
                    record: proposal.revision_id.record,
                    version: (proposal.revision_id.version + 1) as u64,
                };
                let identity = IdentityAddress { raw: proposal.revision_id.record };
                let stored = final(store)@.payload_at(revision);
                &&& final(store)@ == old(store)@.appended(proposal.revision_id.record as int, stored)
                &&& old(store)@.payload_at(proposal.revision_id).updated_by(&proposal, &stored)
                &&& is_response_to(
                    Ok::<(RevisionPointer, IdentityAddress, EntryData), DataIntegrityError>(
                        (revision, identity, stored),
                    ),
                    indexes@,
                    response,
                )
            },
        },
{
    let old_revision = *proposal.get_revision_id();
    match store.update_record(entry_def_id, &old_revision, &proposal) {
        Ok((revision_id, base_address, new_entry, _prev_entry)) => {
            proof {
                store.view_is_addressable();
            }
            Ok(construct_response(&base_address, &revision_id, &new_entry, get_link_fields(indexes, &base_address)))
        },
        Err(e) => Err(e),
    }
}

/// Deletes a revision of a proposal.
pub fn handle_delete_proposal(store: &mut RecordStore<EntryData>, address: RevisionPointer) -> (deleted: Result<
    bool,
    DataIntegrityError,
>)
    ensures
        old(store)@.can_delete(address) ==> {
            &&& final(store)@ == old(store)@.deleted_at(address)
            &&& deleted == Ok::<bool, DataIntegrityError>(true)
        },
        !old(store)@.can_delete(address) ==> {
            &&& final(store)@ == old(store)@
            &&& deleted == Err::<bool, DataIntegrityError>(DataIntegrityError::EntryNotFound)
        },
{
    store.delete_record(&address)
}

} // verus!
