//! The stored entry of a resource, the requests that create and change it,
//! and the rules by which a request or an event changes what is stored.

use vstd::prelude::*;
use vstd::std_specs::convert::FromSpecImpl;
use crate::attributes::{
    copy_text, copy_texts, merge_text, merge_texts, merge_value, EconomicResourceAddress,
    LocationAddress, MaybeUndefined, ProductBatchAddress, ResourceSpecificationAddress,
};
use crate::economic_event::{copy_quantity, QuantityValue, ResourceInventoryType};
use crate::identity::RevisionPointer;
use crate::records::Updateable;

verus! {

/// The entry type of economic resources.
pub const RESOURCE_ENTRY_TYPE: &'static str = "vf_economic_resource";

/// The type and tag of the edges from a resource to the resources in it.
pub const RESOURCE_CONTAINS_LINK_TYPE: &'static str = "vf_resource_contains";

pub const RESOURCE_CONTAINS_LINK_TAG: &'static str = "contains";

/// The type and tag of the edge from a resource to the resource it is in.
pub const RESOURCE_CONTAINED_IN_LINK_TYPE: &'static str = "vf_resource_contained_in";

pub const RESOURCE_CONTAINED_IN_LINK_TAG: &'static str = "contained_in";

/// The type and tag of the edges from a resource to the events that
/// affected it.
pub const RESOURCE_AFFECTED_BY_EVENT_LINK_TYPE: &'static str = "vf_resource_affected_by";

pub const RESOURCE_AFFECTED_BY_EVENT_LINK_TAG: &'static str = "affected_by";

/// The type and tag of the edge from a resource to its specification.
pub const RESOURCE_CONFORMS_TO_LINK_TYPE: &'static str = "vf_resource_conforms_to";

pub const RESOURCE_CONFORMS_TO_LINK_TAG: &'static str = "conforms_to";

/// The type and tag of the edges from a specification, in its own
/// partition, back to the resources that conform to it.
pub const RESOURCE_SPECIFICATION_CONFORMING_RESOURCE_LINK_TYPE: &'static str =
    "vf_resource_specification_conforming_resources";

pub const RESOURCE_SPECIFICATION_CONFORMING_RESOURCE_LINK_TAG: &'static str = "conforming_resources";

/// An economic resource as it is stored.
#[derive(Debug, PartialEq, Eq)]
pub struct EntryData {
    pub conforms_to: Option<ResourceSpecificationAddress>,
    pub classified_as: Option<Vec<String>>,
    pub tracking_identifier: Option<String>,
    pub lot: Option<ProductBatchAddress>,
    pub image: Option<String>,
    pub accounting_quantity: Option<QuantityValue>,
    pub onhand_quantity: Option<QuantityValue>,
    pub unit_of_effort: Option<String>,
    pub current_location: Option<LocationAddress>,
    pub note: Option<String>,
    pub contained_in: Option<EconomicResourceAddress>,
}

/// Whether two stored resources hold the same: every field is equal, the
/// classifications as lists of texts.
pub open spec fn same_entry(a: EntryData, b: EntryData) -> bool {
    &&& a.conforms_to == b.conforms_to
    &&& a.classified_as.deep_view() == b.classified_as.deep_view()
    &&& a.tracking_identifier == b.tracking_identifier
    &&& a.lot == b.lot
    &&& a.image == b.image
    &&& a.accounting_quantity == b.accounting_quantity
    &&& a.onhand_quantity == b.onhand_quantity
    &&& a.unit_of_effort == b.unit_of_effort
    &&& a.current_location == b.current_location
    &&& a.note == b.note
    &&& a.contained_in == b.contained_in
}

impl Clone for EntryData {
    fn clone(&self) -> (copy: Self)
        ensures
            same_entry(copy, *self),
    {
        EntryData {
            conforms_to: self.conforms_to,
            classified_as: copy_texts(&self.classified_as),
            tracking_identifier: copy_text(&self.tracking_identifier),
            lot: self.lot,
            image: copy_text(&self.image),
            accounting_quantity: copy_quantity(&self.accounting_quantity),
            onhand_quantity: copy_quantity(&self.onhand_quantity),
            unit_of_effort: copy_text(&self.unit_of_effort),
            current_location: self.current_location,
            note: copy_text(&self.note),
            contained_in: self.contained_in,
        }
    }
}

/// The fields of a resource to be created, beside those that its first event
/// brings.
#[derive(Debug, PartialEq, Eq)]
pub struct CreateRequest {
    pub conforms_to: MaybeUndefined<ResourceSpecificationAddress>,
    pub tracking_identifier: MaybeUndefined<String>,
    pub lot: MaybeUndefined<ProductBatchAddress>,
    pub image: MaybeUndefined<String>,
    pub contained_in: MaybeUndefined<EconomicResourceAddress>,
    pub current_location: MaybeUndefined<LocationAddress>,
    pub note: MaybeUndefined<String>,
}

impl CreateRequest {
    /// The resource that the new one is to be put in, if any.
    pub fn get_contained_in(&self) -> (container: Option<EconomicResourceAddress>)
        ensures
            container == self.contained_in.as_option(),
    {
        match self.contained_in {
            MaybeUndefined::Value(container) => Some(container),
            _ => None,
        }
    }
}

/// What creates a resource: the event that brings it into the inventory, and
/// the fields of the resource itself.
#[derive(Debug, PartialEq, Eq)]
pub struct CreationPayload {
    pub event: crate::economic_event::CreateRequest,
    pub resource: CreateRequest,
}

/// The specification that a new resource conforms to: the one that the
/// resource names, and else the one that the event names.
pub open spec fn specification_of(payload: CreationPayload) -> Option<ResourceSpecificationAddress> {
    if payload.resource.conforms_to is Value {
        payload.resource.conforms_to.as_option()
    } else {
        payload.event.resource_conforms_to.as_option()
    }
}

/// The payload with its event marked for one side.
pub open spec fn marked_payload(payload: CreationPayload, side: ResourceInventoryType) -> CreationPayload {
    CreationPayload {
        event: crate::economic_event::CreateRequest {
            action: payload.event.action,
            note: payload.event.note,
            input_of: payload.event.input_of,
            output_of: payload.event.output_of,
            resource_inventoried_as: payload.event.resource_inventoried_as,
            to_resource_inventoried_as: payload.event.to_resource_inventoried_as,
            resource_classified_as: payload.event.resource_classified_as,
            resource_conforms_to: payload.event.resource_conforms_to,
            resource_quantity: payload.event.resource_quantity,
            at_location: payload.event.at_location,
            target_inventory_type: Some(side),
        },
        resource: payload.resource,
    }
}

impl CreationPayload {
    /// The event that brings the resource into the inventory.
    pub fn get_event_params(&self) -> (event: &crate::economic_event::CreateRequest)
        ensures
            *event == self.event,
    {
        &self.event
    }

    /// The fields of the resource itself.
    pub fn get_resource_params(&self) -> (resource: &CreateRequest)
        ensures
            *resource == self.resource,
    {
        &self.resource
    }

    /// The specification that the new resource conforms to, if any.
    pub fn get_resource_specification_id(&self) -> (specification: Option<ResourceSpecificationAddress>)
        ensures
            specification == specification_of(*self),
    {
        match self.resource.conforms_to {
            MaybeUndefined::Value(specification) => Some(specification),
            _ => match self.event.resource_conforms_to {
                MaybeUndefined::Value(specification) => Some(specification),
                _ => None,
            },
        }
    }

    /// The payload with its event marked for one side.
    pub fn with_inventory_type(self, side: ResourceInventoryType) -> (marked: CreationPayload)
        ensures
            marked == marked_payload(self, side),
    {
        let CreationPayload { event, resource } = self;
        CreationPayload {
            event: crate::economic_event::CreateRequest {
                action: event.action,
                note: event.note,
                input_of: event.input_of,
                output_of: event.output_of,
                resource_inventoried_as: event.resource_inventoried_as,
                to_resource_inventoried_as: event.to_resource_inventoried_as,
                resource_classified_as: event.resource_classified_as,
                resource_conforms_to: event.resource_conforms_to,
                resource_quantity: event.resource_quantity,
                at_location: event.at_location,
                target_inventory_type: Some(side),
            },
            resource,
        }
    }
}

/// The entry of a new resource. Its classification and its two quantities
/// are those of the event; the quantity on hand starts equal to the
/// accounting quantity. No unit of effort is set.
pub open spec fn entry_of(payload: CreationPayload) -> EntryData {
    EntryData {
        conforms_to: specification_of(payload),
        classified_as: payload.event.resource_classified_as.as_option(),
        tracking_identifier: payload.resource.tracking_identifier.as_option(),
        lot: payload.resource.lot.as_option(),
        image: payload.resource.image.as_option(),
        accounting_quantity: payload.event.resource_quantity.as_option(),
        onhand_quantity: payload.event.resource_quantity.as_option(),
        unit_of_effort: None,
        current_location: payload.resource.current_location.as_option(),
        note: payload.resource.note.as_option(),
        contained_in: payload.resource.contained_in.as_option(),
    }
}

impl From<CreationPayload> for EntryData {
    fn from(payload: CreationPayload) -> (entry: EntryData) {
        let conforms_to = payload.get_resource_specification_id();
        let CreationPayload { event, resource } = payload;
        let accounting_quantity = event.resource_quantity.to_option();
        let onhand_quantity = copy_quantity(&accounting_quantity);
        EntryData {
            conforms_to,
            classified_as: event.resource_classified_as.to_option(),
            tracking_identifier: resource.tracking_identifier.to_option(),
            lot: resource.lot.to_option(),
            image: resource.image.to_option(),
            accounting_quantity,
            onhand_quantity,
            unit_of_effort: None,
            current_location: resource.current_location.to_option(),
            note: resource.note.to_option(),
            contained_in: resource.contained_in.to_option(),
        }
    }
}

impl FromSpecImpl<CreationPayload> for EntryData {
    open spec fn obeys_from_spec() -> bool {
        true
    }

    open spec fn from_spec(payload: CreationPayload) -> EntryData {
        entry_of(payload)
    }
}

/// The fields of a resource to be changed, and the revision that the caller
/// believes to be current.
#[derive(Debug, PartialEq, Eq)]
pub struct UpdateRequest {
    pub revision_id: RevisionPointer,
    pub classified_as: MaybeUndefined<Vec<String>>,
    pub image: MaybeUndefined<String>,
    pub contained_in: MaybeUndefined<EconomicResourceAddress>,
    pub unit_of_effort: MaybeUndefined<String>,
    pub note: MaybeUndefined<String>,
}

impl UpdateRequest {
    /// The revision that the update is made against.
    pub fn get_revision_id(&self) -> (revision: &RevisionPointer)
        ensures
            *revision == self.revision_id,
    {
        &self.revision_id
    }
}

/// Whether `result` is the stored resource `prior` after an update request:
/// a field that was sent takes the sent value, one sent as null is cleared,
/// one left out stays, and the fields that are not open to updates stay.
pub open spec fn is_after_update(prior: EntryData, update: UpdateRequest, result: EntryData) -> bool {
    &&& result.conforms_to == prior.conforms_to
    &&& result.classified_as.deep_view() == update.classified_as.deep_view().applied_to(
        prior.classified_as.deep_view(),
    )
    &&& result.tracking_identifier == prior.tracking_identifier
    &&& result.lot == prior.lot
    &&& result.image == update.image.applied_to(prior.image)
    &&& result.accounting_quantity == prior.accounting_quantity
    &&& result.onhand_quantity == prior.onhand_quantity
    &&& result.unit_of_effort == update.unit_of_effort.applied_to(prior.unit_of_effort)
    &&& result.current_location == prior.current_location
    &&& result.note == update.note.applied_to(prior.note)
    &&& result.contained_in == update.contained_in.applied_to(prior.contained_in)
}

impl Updateable<UpdateRequest> for EntryData {
    open spec fn updated_by(&self, update: &UpdateRequest, result: &EntryData) -> bool {
        is_after_update(*self, *update, *result)
    }

    fn update_with(&self, update: &UpdateRequest) -> (result: EntryData) {
        EntryData {
            conforms_to: self.conforms_to,
            classified_as: merge_texts(&self.classified_as, &update.classified_as),
            tracking_identifier: copy_text(&self.tracking_identifier),
            lot: self.lot,
            image: merge_text(&self.image, &update.image),
            accounting_quantity: copy_quantity(&self.accounting_quantity),
            onhand_quantity: copy_quantity(&self.onhand_quantity),
            unit_of_effort: merge_text(&self.unit_of_effort, &update.unit_of_effort),
            current_location: self.current_location,
            note: merge_text(&self.note, &update.note),
            contained_in: merge_value(&self.contained_in, &update.contained_in),
        }
    }
}

/// Whether `result` is the stored resource `prior` after an event at
/// `at_location`: the resource is where the event took place, if the event
/// says where that was, and is otherwise as before. Quantities are carried
/// over as they are.
pub open spec fn is_after_event(prior: EntryData, at_location: MaybeUndefined<LocationAddress>, result: EntryData) -> bool {
    &&& result.conforms_to == prior.conforms_to
    &&& result.classified_as.deep_view() == prior.classified_as.deep_view()
    &&& result.tracking_identifier == prior.tracking_identifier
    &&& result.lot == prior.lot
    &&& result.image == prior.image
    &&& result.accounting_quantity == prior.accounting_quantity
    &&& result.onhand_quantity == prior.onhand_quantity
    &&& result.unit_of_effort == prior.unit_of_effort
    &&& result.current_location == (match at_location {
        MaybeUndefined::Value(location) => Some(location),
        _ => prior.current_location,
    })
    &&& result.note == prior.note
    &&& result.contained_in == prior.contained_in
}

impl Updateable<crate::economic_event::CreateRequest> for EntryData {
    open spec fn updated_by(&self, update: &crate::economic_event::CreateRequest, result: &EntryData) -> bool {
        is_after_event(*self, update.at_location, *result)
    }

    fn update_with(&self, update: &crate::economic_event::CreateRequest) -> (result: EntryData) {
        EntryData {
            conforms_to: self.conforms_to,
            classified_as: copy_texts(&self.classified_as),
            tracking_identifier: copy_text(&self.tracking_identifier),
            lot: self.lot,
            image: copy_text(&self.image),
            accounting_quantity: copy_quantity(&self.accounting_quantity),
            onhand_quantity: copy_quantity(&self.onhand_quantity),
            unit_of_effort: copy_text(&self.unit_of_effort),
            current_location: match update.at_location {
                MaybeUndefined::Value(location) => Some(location),
                _ => self.current_location,
            },
            note: copy_text(&self.note),
            contained_in: self.contained_in,
        }
    }
}

/// The part of the cell's configuration that concerns resources.
#[derive(Debug, PartialEq, Eq)]
pub struct DnaConfigSlice {
    pub economic_resource: EconomicResourceZomeConfig,
}

/// The configuration of the resource module.
#[derive(Debug, PartialEq, Eq)]
pub struct EconomicResourceZomeConfig {
    pub index_zome: String,
}

/// The name of the module that keeps the resource indexes.
pub fn read_economic_resource_index_zome(conf: DnaConfigSlice) -> (zome: Option<String>)
    ensures
        zome == Some(conf.economic_resource.index_zome),
{
    Some(conf.economic_resource.index_zome)
}

} // verus!
