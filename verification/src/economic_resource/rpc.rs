//! The records of a resource as they are returned, one by one and in
//! pages.

use vstd::prelude::*;
use crate::attributes::{
    copy_text, copy_texts, EconomicResourceAddress, LocationAddress, ProcessSpecificationAddress,
    ProductBatchAddress, ResourceSpecificationAddress,
};
use crate::economic_event::{copy_quantity, ActionId, QuantityValue};
use crate::economic_resource::storage::EntryData;
use crate::errors::DataIntegrityError;
use crate::identity::RevisionPointer;
use crate::pagination::{cursor_of, cursor_text, PageInfo};

verus! {

/// The complete record of a resource as it is returned: the stored fields,
/// the stage and state that its events give it, and its place among other
/// resources.
#[derive(Debug, PartialEq, Eq)]
pub struct Response {
    pub id: EconomicResourceAddress,
    pub revision_id: RevisionPointer,
    pub conforms_to: Option<ResourceSpecificationAddress>,
    pub classified_as: Option<Vec<String>>,
    pub tracking_identifier: Option<String>,
    pub lot: Option<ProductBatchAddress>,
    pub image: Option<String>,
    pub accounting_quantity: Option<QuantityValue>,
    pub onhand_quantity: Option<QuantityValue>,
    pub unit_of_effort: Option<String>,
    pub stage: Option<ProcessSpecificationAddress>,
    pub state: Option<ActionId>,
    pub current_location: Option<LocationAddress>,
    pub note: Option<String>,
    pub contained_in: Option<EconomicResourceAddress>,
    pub contains: Vec<EconomicResourceAddress>,
}

/// What a handler returns: the record under a name of its own.
#[derive(Debug, PartialEq, Eq)]
pub struct ResponseData {
    pub economic_resource: Response,
}

/// One record of a listing, with its cursor.
#[derive(Debug, PartialEq, Eq)]
pub struct Edge {
    pub node: Response,
    pub cursor: String,
}

/// One page of a listing.
#[derive(Debug, PartialEq, Eq)]
pub struct Collection {
    pub edges: Vec<Edge>,
    pub page_info: PageInfo,
}

/// The fields of a record that are not stored with the resource but read
/// from the indexes and from the events: the resource that it is in, its
/// stage, its state, and the resources in it.
pub struct LinkFields {
    pub contained_in: Option<EconomicResourceAddress>,
    pub stage: Option<ProcessSpecificationAddress>,
    pub state: Option<ActionId>,
    pub contains: Seq<EconomicResourceAddress>,
}

/// Whether `response` is the record of the entry `e` at these addresses
/// with these link fields.
pub open spec fn is_record_of(
    response: Response,
    address: EconomicResourceAddress,
    revision_id: RevisionPointer,
    e: EntryData,
    links: LinkFields,
) -> bool {
    &&& response.id == address
    &&& response.revision_id == revision_id
    &&& response.conforms_to == e.conforms_to
    &&& response.classified_as.deep_view() == e.classified_as.deep_view()
    &&& response.tracking_identifier == e.tracking_identifier
    &&& response.lot == e.lot
    &&& response.image == e.image
    &&& response.accounting_quantity == e.accounting_quantity
    &&& response.onhand_quantity == e.onhand_quantity
    &&& response.unit_of_effort == e.unit_of_effort
    &&& response.stage == links.stage
    &&& response.state == links.state
    &&& response.current_location == e.current_location
    &&& response.note == e.note
    &&& response.contained_in == links.contained_in
    &&& response.contains@ == links.contains
}

/// The link fields that a tuple of them stands for.
pub open spec fn link_fields_of(
    links: (
        Option<EconomicResourceAddress>,
        Option<ProcessSpecificationAddress>,
        Option<ActionId>,
        Vec<EconomicResourceAddress>,
    ),
) -> LinkFields {
    LinkFields { contained_in: links.0, stage: links.1, state: links.2, contains: links.3@ }
}

/// Builds the record of a resource from its entry, its addresses and its
/// link fields.
pub fn construct_response_record(
    address: &EconomicResourceAddress,
    revision_id: &RevisionPointer,
    e: &EntryData,
    links: (
        Option<EconomicResourceAddress>,
        Option<ProcessSpecificationAddress>,
        Option<ActionId>,
        Vec<EconomicResourceAddress>,
    ),
) -> (response: Result<Response, DataIntegrityError>)
    ensures
        response matches Ok(record) && is_record_of(record, *address, *revision_id, *e, link_fields_of(links)),
{
    let (contained_in, stage, state, contains) = links;
    Ok(
        Response {
            id: *address,
            revision_id: *revision_id,
            conforms_to: e.conforms_to,
            classified_as: copy_texts(&e.classified_as),
            tracking_identifier: copy_text(&e.tracking_identifier),
            lot: e.lot,
            image: copy_text(&e.image),
            accounting_quantity: copy_quantity(&e.accounting_quantity),
            onhand_quantity: copy_quantity(&e.onhand_quantity),
            unit_of_effort: copy_text(&e.unit_of_effort),
            stage,
            state,
            current_location: e.current_location,
            note: copy_text(&e.note),
            contained_in,
            contains,
        },
    )
}

/// Builds what a handler returns for a resource.
pub fn construct_response(
    address: &EconomicResourceAddress,
    revision_id: &RevisionPointer,
    e: &EntryData,
    links: (
        Option<EconomicResourceAddress>,
        Option<ProcessSpecificationAddress>,
        Option<ActionId>,
        Vec<EconomicResourceAddress>,
    ),
) -> (response: Result<ResponseData, DataIntegrityError>)
    ensures
        response matches Ok(data) && is_record_of(
            data.economic_resource,
            *address,
            *revision_id,
            *e,
            link_fields_of(links),
        ),
{
    match construct_response_record(address, revision_id, e, links) {
        Ok(record) => Ok(ResponseData { economic_resource: record }),
        Err(error) => Err(error),
    }
}

/// Builds one record of a listing: the record of the resource, and the cursor
/// that its identity address gives.
pub fn construct_list_response(
    address: &EconomicResourceAddress,
    revision_id: &RevisionPointer,
    e: &EntryData,
    links: (
        Option<EconomicResourceAddress>,
        Option<ProcessSpecificationAddress>,
        Option<ActionId>,
        Vec<EconomicResourceAddress>,
    ),
) -> (response: Result<Edge, DataIntegrityError>)
    ensures
        response matches Ok(edge) && is_record_of(edge.node, *address, *revision_id, *e, link_fields_of(links))
            && edge.cursor@ == cursor_text(*address),
{
    match construct_response(address, revision_id, e, links) {
        Ok(data) => Ok(Edge { node: data.economic_resource, cursor: cursor_of(address) }),
        Err(error) => Err(error),
    }
}

} // verus!
