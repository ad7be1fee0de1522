//! Economic events: the stored entry and the create request, as far as the
//! inventory of resources depends on them.

use vstd::prelude::*;
use crate::attributes::{
    copy_maybe_text, copy_maybe_texts, copy_maybe_value, copy_text, EconomicResourceAddress,
    LocationAddress, MaybeUndefined, ProcessAddress, ResourceSpecificationAddress,
};

verus! {

/// The entry type of economic events.
pub const EVENT_ENTRY_TYPE: &'static str = "vf_economic_event";

/// The name of an action of the vocabulary, such as `produce` or `pass`.
#[derive(Debug, PartialEq, Eq)]
pub struct ActionId {
    pub id: String,
}

impl View for ActionId {
    type V = Seq<char>;

    open spec fn view(&self) -> Seq<char> {
        self.id@
    }
}

impl DeepView for ActionId {
    type V = Seq<char>;

    open spec fn deep_view(&self) -> Seq<char> {
        self.id@
    }
}

impl Clone for ActionId {
    fn clone(&self) -> (copy: Self)
        ensures
            copy == *self,
    {
        ActionId { id: self.id.clone() }
    }
}

/// An amount with its unit. The amount is held as the bit pattern of an
/// IEEE 754 double: quantities are carried through and never computed with.
#[derive(Debug, PartialEq, Eq)]
pub struct QuantityValue {
    pub has_numerical_value: u64,
    pub has_unit: Option<String>,
}

impl Clone for QuantityValue {
    fn clone(&self) -> (copy: Self)
        ensures
            copy == *self,
    {
        QuantityValue { has_numerical_value: self.has_numerical_value, has_unit: copy_text(&self.has_unit) }
    }
}

/// A copy of an optional quantity.
pub fn copy_quantity(quantity: &Option<QuantityValue>) -> (copy: Option<QuantityValue>)
    ensures
        copy == *quantity,
{
    match quantity {
        Some(q) => Some(q.clone()),
        None => None,
    }
}

/// Which side of an event an inventory is on.
#[derive(Clone, Copy, Debug, PartialEq, Eq, Structural)]
pub enum ResourceInventoryType {
    /// The inventory that the resource comes from.
    ProvidingInventory,
    /// The inventory that the resource goes to.
    ReceivingInventory,
}

/// An economic event as it is stored.
#[derive(Debug, PartialEq, Eq)]
pub struct EntryData {
    pub action: ActionId,
    pub note: Option<String>,
    pub input_of: Option<ProcessAddress>,
    pub output_of: Option<ProcessAddress>,
    pub resource_inventoried_as: Option<EconomicResourceAddress>,
    pub to_resource_inventoried_as: Option<EconomicResourceAddress>,
}

impl Clone for EntryData {
    fn clone(&self) -> (copy: Self)
        ensures
            copy == *self,
    {
        EntryData {
            action: self.action.clone(),
            note: copy_text(&self.note),
            input_of: self.input_of,
            output_of: self.output_of,
            resource_inventoried_as: self.resource_inventoried_as,
            to_resource_inventoried_as: self.to_resource_inventoried_as,
        }
    }
}

/// The fields of an economic event to be recorded.
#[derive(Debug, PartialEq, Eq)]
pub struct CreateRequest {
    pub action: ActionId,
    pub note: MaybeUndefined<String>,
    pub input_of: MaybeUndefined<ProcessAddress>,
    pub output_of: MaybeUndefined<ProcessAddress>,
    pub resource_inventoried_as: MaybeUndefined<EconomicResourceAddress>,
    pub to_resource_inventoried_as: MaybeUndefined<EconomicResourceAddress>,
    pub resource_classified_as: MaybeUndefined<Vec<String>>,
    pub resource_conforms_to: MaybeUndefined<ResourceSpecificationAddress>,
    pub resource_quantity: MaybeUndefined<QuantityValue>,
    pub at_location: MaybeUndefined<LocationAddress>,
    /// The side of the event that an inventory update is made for. It is set
    /// while the event is applied and is not part of what is sent.
    pub target_inventory_type: Option<ResourceInventoryType>,
}

/// Whether `tagged` is the request `event` marked for one side of the event:
/// every field that was sent is the same, the classifications as lists of
/// texts.
pub open spec fn is_marked_for(tagged: CreateRequest, event: CreateRequest, side: ResourceInventoryType) -> bool {
    &&& tagged.action == event.action
    &&& tagged.note == event.note
    &&& tagged.input_of == event.input_of
    &&& tagged.output_of == event.output_of
    &&& tagged.resource_inventoried_as == event.resource_inventoried_as
    &&& tagged.to_resource_inventoried_as == event.to_resource_inventoried_as
    &&& tagged.resource_classified_as.deep_view() == event.resource_classified_as.deep_view()
    &&& tagged.resource_conforms_to == event.resource_conforms_to
    &&& tagged.resource_quantity == event.resource_quantity
    &&& tagged.at_location == event.at_location
    &&& tagged.target_inventory_type == Some(side)
}

impl CreateRequest {
    /// The request marked for the side of the event that an inventory update
    /// is made for.
    pub fn with_inventory_type(&self, side: ResourceInventoryType) -> (tagged: CreateRequest)
        ensures
            is_marked_for(tagged, *self, side),
    {
        CreateRequest {
            action: self.action.clone(),
            note: copy_maybe_text(&self.note),
            input_of: copy_maybe_value(&self.input_of),
            output_of: copy_maybe_value(&self.output_of),
            resource_inventoried_as: copy_maybe_value(&self.resource_inventoried_as),
            to_resource_inventoried_as: copy_maybe_value(&self.to_resource_inventoried_as),
            resource_classified_as: copy_maybe_texts(&self.resource_classified_as),
            resource_conforms_to: copy_maybe_value(&self.resource_conforms_to),
            resource_quantity: match &self.resource_quantity {
                MaybeUndefined::Null => MaybeUndefined::Null,
                MaybeUndefined::Value(quantity) => MaybeUndefined::Value(quantity.clone()),
                MaybeUndefined::Undefined => MaybeUndefined::Undefined,
            },
            at_location: copy_maybe_value(&self.at_location),
            target_inventory_type: Some(side),
        }
    }
}

} // verus!
