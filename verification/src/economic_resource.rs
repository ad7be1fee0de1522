//! Economic resources: the stored entry, the records of the interface, and
//! the library that keeps the inventory in step with the events that affect
//! it.

pub mod inventory;
pub mod links;
pub mod rpc;
pub mod storage;

pub use self::inventory::{
    handle_list_output, handle_update_inventory_resource, EconomicResourceZomePermissableDefault,
    InventoryChange,
};
pub use self::links::get_link_fields;
pub use self::rpc::{
    construct_list_response, construct_response, construct_response_record, Collection, Edge,
    Response, ResponseData,
};
pub use self::storage::{
    read_economic_resource_index_zome, CreateRequest, CreationPayload, DnaConfigSlice,
    EconomicResourceZomeConfig, EntryData, UpdateRequest, RESOURCE_AFFECTED_BY_EVENT_LINK_TAG,
    RESOURCE_AFFECTED_BY_EVENT_LINK_TYPE, RESOURCE_CONFORMS_TO_LINK_TAG,
    RESOURCE_CONFORMS_TO_LINK_TYPE, RESOURCE_CONTAINED_IN_LINK_TAG, RESOURCE_CONTAINED_IN_LINK_TYPE,
    RESOURCE_CONTAINS_LINK_TAG, RESOURCE_CONTAINS_LINK_TYPE, RESOURCE_ENTRY_TYPE,
    RESOURCE_SPECIFICATION_CONFORMING_RESOURCE_LINK_TAG,
    RESOURCE_SPECIFICATION_CONFORMING_RESOURCE_LINK_TYPE,
};
