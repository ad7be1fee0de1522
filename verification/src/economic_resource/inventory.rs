//! The interface of the resource module: creating a resource from its first
//! event, keeping inventories in step with later events, moving a resource
//! between containers, and listing.

use vstd::prelude::*;
use vstd::string::StringExecFns;
use crate::attributes::{EconomicResourceAddress, LocationAddress, MaybeUndefined, ResourceSpecificationAddress};
use crate::economic_event::ResourceInventoryType;
use crate::economic_resource::links::{get_link_fields, link_fields};
use crate::economic_resource::rpc::{
    construct_list_response, construct_response, is_record_of, Collection, Edge, LinkFields, ResponseData,
};
use crate::economic_resource::storage::{
    entry_of, is_after_event, is_after_update, marked_payload, same_entry, specification_of,
    CreationPayload, EntryData, UpdateRequest, RESOURCE_CONFORMS_TO_LINK_TAG,
    RESOURCE_CONFORMS_TO_LINK_TYPE, RESOURCE_CONTAINED_IN_LINK_TAG, RESOURCE_CONTAINED_IN_LINK_TYPE,
    RESOURCE_CONTAINS_LINK_TAG, RESOURCE_CONTAINS_LINK_TYPE,
    RESOURCE_SPECIFICATION_CONFORMING_RESOURCE_LINK_TAG,
    RESOURCE_SPECIFICATION_CONFORMING_RESOURCE_LINK_TYPE,
};
use crate::errors::DataIntegrityError;
use crate::identity::{IdentityAddress, RecordAddress, RevisionPointer};
use crate::indexes::remote::is_link_request;
use crate::indexes::{
    forward_edges, EdgeState, IndexState, IndexStore, RemoteIndexRequest, RemoteIndexResponse,
};
use crate::pagination::cursor_text;
use crate::records::{is_copy_of, RecordStore, StoreState};
use crate::rpc::CrossCellError;
use crate::sequences::{filter_next, filter_none};

verus! {

/// What one update of an inventory returns: the new pointer, the identity,
/// the new entry and the entry before.
pub type InventoryChange = (RevisionPointer, EconomicResourceAddress, EntryData, EntryData);

/// Whether `after` and `outcome` are what applying an event to the inventory
/// at `revision` leads to from `before`.
pub open spec fn is_inventory_change(
    before: StoreState<EntryData>,
    resource_entry_def: Seq<char>,
    revision: RevisionPointer,
    at_location: MaybeUndefined<LocationAddress>,
    after: StoreState<EntryData>,
    outcome: Result<InventoryChange, DataIntegrityError>,
) -> bool {
    match before.check_update(resource_entry_def, revision) {
        Err(e) => after == before && outcome == Err::<InventoryChange, DataIntegrityError>(e),
        Ok(()) => {
            let next = RevisionPointer { record: revision.record, version: (revision.version + 1) as u64 };
            let stored = after.payload_at(next);
            &&& after == before.appended(revision.record as int, stored)
            &&& is_after_event(before.payload_at(revision), at_location, stored)
            &&& outcome matches Ok((moved, identity, new_entry, prior_entry))
            &&& moved == next
            &&& identity == (IdentityAddress { raw: revision.record })
            &&& same_entry(new_entry, stored)
            &&& same_entry(prior_entry, before.payload_at(revision))
        },
    }
}

/// Applies an event to one inventory, against the revision that is named.
pub fn handle_update_inventory_resource(
    resources: &mut RecordStore<EntryData>,
    resource_entry_def_id: &str,
    resource_addr: &RevisionPointer,
    event: crate::economic_event::CreateRequest,
) -> (change: Result<InventoryChange, DataIntegrityError>)
    ensures
        is_inventory_change(
            old(resources)@,
            resource_entry_def_id@,
            *resource_addr,
            event.at_location,
            final(resources)@,
            change,
        ),
{
    proof {
        resources.view_is_addressable();
    }
    match resources.update_record(resource_entry_def_id, resource_addr, &event) {
        Ok(change) => Ok(change),
        Err(error) => Err(error),
    }
}

/// Whether `after` and `outcome` are what applying an event to the inventory
/// with this identity leads to from `before`: the inventory's newest revision
/// is looked up, and the event is applied against it.
pub open spec fn is_inventory_step(
    before: StoreState<EntryData>,
    resource_entry_def: Seq<char>,
    inventory: EconomicResourceAddress,
    at_location: MaybeUndefined<LocationAddress>,
    after: StoreState<EntryData>,
    outcome: Result<InventoryChange, DataIntegrityError>,
) -> bool {
    match before.resolve(RecordAddress::Identity(inventory)) {
        None => after == before && outcome == Err::<InventoryChange, DataIntegrityError>(
            DataIntegrityError::EntryNotFound,
        ),
        Some(head) => is_inventory_change(before, resource_entry_def, head, at_location, after, outcome),
    }
}

/// Whether `after` and `result` are what an event does to the inventories
/// that it names, `mid` being the store between the two updates and
/// `received` and `provided` what the two returned. The receiving inventory
/// comes first, then the providing one. Each is updated against its newest
/// revision. The first failure ends the work and is returned; what was
/// written before it stays written.
pub open spec fn is_inventory_run(
    before: StoreState<EntryData>,
    resource_entry_def: Seq<char>,
    event: crate::economic_event::CreateRequest,
    mid: StoreState<EntryData>,
    received: Result<InventoryChange, DataIntegrityError>,
    provided: Result<InventoryChange, DataIntegrityError>,
    after: StoreState<EntryData>,
    result: Result<Vec<InventoryChange>, DataIntegrityError>,
) -> bool {
    &&& match event.to_resource_inventoried_as {
        MaybeUndefined::Value(receiver) => is_inventory_step(
            before,
            resource_entry_def,
            receiver,
            event.at_location,
            mid,
            received,
        ),
        _ => mid == before,
    }
    &&& if event.to_resource_inventoried_as is Value && received is Err {
        &&& after == mid
        &&& result == Err::<Vec<InventoryChange>, DataIntegrityError>(received->Err_0)
    } else {
        &&& match event.resource_inventoried_as {
            MaybeUndefined::Value(provider) => is_inventory_step(
                mid,
                resource_entry_def,
                provider,
                event.at_location,
                after,
                provided,
            ),
            _ => after == mid,
        }
        &&& if event.resource_inventoried_as is Value && provided is Err {
            result == Err::<Vec<InventoryChange>, DataIntegrityError>(provided->Err_0)
        } else {
            &&& result matches Ok(changes)
            &&& changes@ == (if event.to_resource_inventoried_as is Value {
                seq![received->Ok_0]
            } else {
                Seq::<InventoryChange>::empty()
            }) + (if event.resource_inventoried_as is Value {
                seq![provided->Ok_0]
            } else {
                Seq::<InventoryChange>::empty()
            })
        }
    }
}

/// Whether `after` and `result` are what an event does to the inventories
/// that it names.
pub open spec fn is_inventory_update(
    before: StoreState<EntryData>,
    resource_entry_def: Seq<char>,
    event: crate::economic_event::CreateRequest,
    after: StoreState<EntryData>,
    result: Result<Vec<InventoryChange>, DataIntegrityError>,
) -> bool {
    exists|
        mid: StoreState<EntryData>,
        received: Result<InventoryChange, DataIntegrityError>,
        provided: Result<InventoryChange, DataIntegrityError>,
    |
        #[trigger] is_inventory_run(before, resource_entry_def, event, mid, received, provided, after, result)
}

/// The test that the entries of a listing that were read pass.
pub open spec fn was_read() -> spec_fn(
    Result<(RevisionPointer, EconomicResourceAddress, EntryData), DataIntegrityError>,
) -> bool {
    |entry: Result<(RevisionPointer, EconomicResourceAddress, EntryData), DataIntegrityError>| entry is Ok
}

/// The cursors of the entries of a listing.
pub open spec fn cursors_of(
    entries: Seq<Result<(RevisionPointer, EconomicResourceAddress, EntryData), DataIntegrityError>>,
) -> Seq<Seq<char>> {
    entries.map_values(
        |entry: Result<(RevisionPointer, EconomicResourceAddress, EntryData), DataIntegrityError>|
            cursor_text(entry->Ok_0.1),
    )
}

/// Whether `collection` is the page that lists `entries`: one record for each
/// entry that was read, in order, each with the link fields and the cursor of
/// its resource. An entry that could not be read is left out. The page starts
/// at the cursor of its first record and ends at the cursor of its last.
pub open spec fn is_listing_of(
    entries: Seq<Result<(RevisionPointer, EconomicResourceAddress, EntryData), DataIntegrityError>>,
    events: StoreState<crate::economic_event::EntryData>,
    processes: StoreState<crate::process::EntryData>,
    indexes: IndexState,
    event_entry_def: Seq<char>,
    process_entry_def: Seq<char>,
    collection: Collection,
) -> bool {
    let listed = entries.filter(was_read());
    &&& collection.edges@.len() == listed.len()
    &&& forall|k: int|
        0 <= k < listed.len() ==> {
            let (revision, address, entry) = listed[k]->Ok_0;
            &&& is_record_of(
                (#[trigger] collection.edges@[k]).node,
                address,
                revision,
                entry,
                link_fields(events, processes, indexes, event_entry_def, process_entry_def, address),
            )
            &&& collection.edges@[k].cursor@ == cursor_text(address)
        }
    &&& collection.page_info.start_cursor@ == crate::pagination::start_of_page(cursors_of(listed))
    &&& collection.page_info.end_cursor@ == crate::pagination::end_of_page(cursors_of(listed))
    &&& collection.page_info.has_next_page
    &&& collection.page_info.has_previous_page
    &&& collection.page_info.page_limit is None
    &&& collection.page_info.total_count is None
}

/// Builds the page that lists what a query found.
pub fn handle_list_output(
    events: &RecordStore<crate::economic_event::EntryData>,
    processes: &RecordStore<crate::process::EntryData>,
    indexes: &IndexStore,
    event_entry_def_id: &str,
    process_entry_def_id: &str,
    entries_result: Vec<Result<(RevisionPointer, EconomicResourceAddress, EntryData), DataIntegrityError>>,
) -> (listing: Result<Collection, DataIntegrityError>)
    ensures
        listing matches Ok(collection) && is_listing_of(
            entries_result@,
            events@,
            processes@,
            indexes@,
            event_entry_def_id@,
            process_entry_def_id@,
            collection,
        ),
{
    let mut edges: Vec<Edge> = Vec::new();
    let mut cursors: Vec<String> = Vec::new();
    let mut i: usize = 0;
    proof {
        filter_none(entries_result@, was_read());
        assert(cursors.deep_view() =~= cursors_of(entries_result@.take(0).filter(was_read())));
    }
    while i < entries_result.len()
        invariant
            i <= entries_result.len(),
            edges@.len() == entries_result@.take(i as int).filter(was_read()).len(),
            cursors.deep_view() == cursors_of(entries_result@.take(i as int).filter(was_read())),
            forall|k: int|
                0 <= k < edges@.len() ==> {
                    let (revision, address, entry) = entries_result@.take(i as int).filter(was_read())[k]->Ok_0;
                    &&& is_record_of(
                        (#[trigger] edges@[k]).node,
                        address,
                        revision,
                        entry,
                        link_fields(
                            events@,
                            processes@,
                            indexes@,
                            event_entry_def_id@,
                            process_entry_def_id@,
                            address,
                        ),
                    )
                    &&& edges@[k].cursor@ == cursor_text(address)
                },
        decreases entries_result.len() - i,
    {
        proof {
            filter_next(entries_result@, was_read(), i as int);
        }
        let ghost listed_before = entries_result@.take(i as int).filter(was_read());
        match &entries_result[i] {
            Err(_) => {},
            Ok((revision_id, entry_base_address, entry)) => {
                match get_link_fields(
                    events,
                    processes,
                    indexes,
                    event_entry_def_id,
                    process_entry_def_id,
                    entry_base_address,
                ) {
                    Err(_) => {
                        // the link fields of a resource can always be read
                        assert(false);
                    },
                    Ok(links) => {
                        match construct_list_response(entry_base_address, revision_id, entry, links) {
                            Err(_) => {
                                // a record can always be built
                                assert(false);
                            },
                            Ok(edge) => {
                                let ghost cursors_before = cursors;
                                cursors.push(edge.cursor.clone());
                                edges.push(edge);
                                proof {
                                    let listed = entries_result@.take(i + 1).filter(was_read());
                                    assert(listed == listed_before.push(entries_result@[i as int]));
                                    assert(cursors_before.deep_view().len() == cursors_before@.len());
                                    assert(cursors_of(listed_before).len() == listed_before.len());
                                    assert(cursors.deep_view().len() == cursors@.len());
                                    assert(cursors_of(listed).len() == listed.len());
                                    assert forall|k: int| 0 <= k < cursors@.len() implies cursors.deep_view()[k]
                                        == cursors_of(listed)[k] by {
                                        if k < cursors_before@.len() {
                                            assert(cursors@[k] == cursors_before@[k]);
                                            assert(cursors_before.deep_view()[k] == cursors_of(listed_before)[k]);
                                            assert(listed[k] == listed_before[k]);
                                        } else {
                                            assert(listed[k] == entries_result@[i as int]);
                                        }
                                    }
                                    assert(cursors.deep_view() =~= cursors_of(listed));
                                    assert forall|k: int| 0 <= k < edges@.len() implies {
                                        let (revision, address, entry) = listed[k]->Ok_0;
                                        &&& is_record_of(
                                            (#[trigger] edges@[k]).node,
                                            address,
                                            revision,
                                            entry,
                                            link_fields(
                                                events@,
                                                processes@,
                                                indexes@,
                                                event_entry_def_id@,
                                                process_entry_def_id@,
                                                address,
                                            ),
                                        )
                                        &&& edges@[k].cursor@ == cursor_text(address)
                                    } by {
                                        if k < listed_before.len() {
                                            assert(listed[k] == listed_before[k]);
                                        }
                                    }
                                }
                            },
                        }
                    },
                }
            },
        }
        i = i + 1;
    }
    assert(entries_result@.take(entries_result@.len() as int) == entries_result@);
    let page_info = crate::pagination::page_info(&cursors);
    Ok(Collection { edges, page_info })
}

/// The one-element or empty list that an optional address stands for.
pub open spec fn listed_address(address: Option<EconomicResourceAddress>) -> Seq<EconomicResourceAddress> {
    match address {
        Some(a) => seq![a],
        None => Seq::empty(),
    }
}

/// The one-element or empty list that an optional address stands for.
fn list_address(address: &Option<EconomicResourceAddress>) -> (list: Vec<EconomicResourceAddress>)
    ensures
        list@ == listed_address(*address),
{
    let mut list: Vec<EconomicResourceAddress> = Vec::new();
    match address {
        Some(a) => {
            list.push(*a);
            assert(list@ =~= seq![*a]);
        },
        None => {},
    }
    list
}

/// The indexes after a resource was created: linked to the specification
/// that it conforms to, and put into its container, with the edge back from
/// the container.
pub open spec fn indexes_after_creation(
    before: IndexState,
    base: EconomicResourceAddress,
    specification: Option<ResourceSpecificationAddress>,
    container: Option<EconomicResourceAddress>,
) -> IndexState {
    let conformed = match specification {
        Some(conforms_to) => before.with_all(
            forward_edges(
                base,
                RESOURCE_CONFORMS_TO_LINK_TYPE@,
                RESOURCE_CONFORMS_TO_LINK_TAG@,
                seq![conforms_to],
            ),
        ),
        None => before,
    };
    match container {
        Some(contained_in) => conformed.with_edge(
            EdgeState {
                source: base,
                target: contained_in,
                link_type: RESOURCE_CONTAINED_IN_LINK_TYPE@,
                link_tag: RESOURCE_CONTAINED_IN_LINK_TAG@,
            },
        ).with_edge(
            EdgeState {
                source: contained_in,
                target: base,
                link_type: RESOURCE_CONTAINS_LINK_TYPE@,
                link_tag: RESOURCE_CONTAINS_LINK_TAG@,
            },
        ),
        None => conformed,
    }
}

/// The indexes after the container of a resource changed from `previous` to
/// `now`: of the edges to the container and of the edges back, only the
/// difference is written.
pub open spec fn indexes_after_move(
    before: IndexState,
    resource: EconomicResourceAddress,
    now: Option<EconomicResourceAddress>,
    previous: Option<EconomicResourceAddress>,
) -> IndexState {
    let linked = crate::indexes::difference(listed_address(now), listed_address(previous));
    let unlinked = crate::indexes::difference(listed_address(previous), listed_address(now));
    before.with_all(
        forward_edges(resource, RESOURCE_CONTAINED_IN_LINK_TYPE@, RESOURCE_CONTAINED_IN_LINK_TAG@, linked),
    ).without_all(
        forward_edges(resource, RESOURCE_CONTAINED_IN_LINK_TYPE@, RESOURCE_CONTAINED_IN_LINK_TAG@, unlinked),
    ).with_all(
        crate::indexes::reciprocal_edges(
            resource,
            RESOURCE_CONTAINS_LINK_TYPE@,
            RESOURCE_CONTAINS_LINK_TAG@,
            linked,
        ),
    ).without_all(
        crate::indexes::reciprocal_edges(
            resource,
            RESOURCE_CONTAINS_LINK_TYPE@,
            RESOURCE_CONTAINS_LINK_TAG@,
            unlinked,
        ),
    )
}

/// The text of the refusal to create a resource for an event that names an
/// inventory of its own.
pub open spec fn inventoried_creation_refusal() -> Seq<char> {
    "cannot create a new EconomicResource and specify an inventoried resource ID in the same event"@
}

/// The record that a read leads to, or the read's error.
pub open spec fn is_response_to(
    found: Result<(RevisionPointer, EconomicResourceAddress, EntryData), DataIntegrityError>,
    links: LinkFields,
    response: Result<ResponseData, DataIntegrityError>,
) -> bool {
    match found {
        Ok((revision, identity, entry)) => {
            &&& response matches Ok(data)
            &&& is_record_of(data.economic_resource, identity, revision, entry, links)
        },
        Err(e) => response == Err::<ResponseData, DataIntegrityError>(e),
    }
}

/// Whether `entries` is what a query for all resources of one type finds:
/// one entry for each such resource, oldest first, each read through its
/// identity.
pub open spec fn is_query_result(
    resources: StoreState<EntryData>,
    entry_def: Seq<char>,
    entries: Seq<Result<(RevisionPointer, EconomicResourceAddress, EntryData), DataIntegrityError>>,
) -> bool {
    &&& entries.len() == resources.roots(entry_def).len()
    &&& forall|k: int|
        0 <= k < entries.len() ==> is_copy_of(
            resources.read(entry_def, RecordAddress::Identity(resources.roots(entry_def)[k])),
            #[trigger] entries[k],
        )
}

/// The default interface of the resource module. It is a permissive one:
/// what an entry holds is not validated.
pub struct EconomicResourceZomePermissableDefault;

impl EconomicResourceZomePermissableDefault {
    /// Creates a resource from the event that brings it into the inventory.
    /// An event that names an inventory of its own cannot create one, and is
    /// refused before anything is written. The new resource is linked to its
    /// specification, across partitions, and put into its container. The
    /// outcome of the remote half of the link to the specification is not
    /// reported.
    pub fn create_inventory_from_event<F>(
        resources: &mut RecordStore<EntryData>,
        indexes: &mut IndexStore,
        resource_entry_def_id: &str,
        params: CreationPayload,
        remote: F,
    ) -> (created: Result<(RevisionPointer, EconomicResourceAddress, EntryData), DataIntegrityError>) where
        F: FnOnce(RemoteIndexRequest) -> Result<RemoteIndexResponse, CrossCellError>,

        requires
            forall|request: RemoteIndexRequest| call_requires(remote, (request,)),
        ensures
            params.event.resource_inventoried_as is Value ==> {
                &&& final(resources)@ == old(resources)@
                &&& final(indexes)@ == old(indexes)@
                &&& created matches Err(DataIntegrityError::RemoteRequestError(text))
                &&& text@ == inventoried_creation_refusal()
            },
            !(params.event.resource_inventoried_as is Value) && !old(resources)@.is_registered(
                resource_entry_def_id@,
            ) ==> {
                &&& final(resources)@ == old(resources)@
                &&& final(indexes)@ == old(indexes)@
                &&& created == Err::<(RevisionPointer, EconomicResourceAddress, EntryData), DataIntegrityError>(
                    DataIntegrityError::IntegrityError,
                )
            },
            !(params.event.resource_inventoried_as is Value) && old(resources)@.is_registered(
                resource_entry_def_id@,
            ) ==> {
                let base = IdentityAddress { raw: old(resources)@.records.len() as u64 };
                let entry = entry_of(marked_payload(params, ResourceInventoryType::ProvidingInventory));
                &&& final(resources)@ == old(resources)@.created(resource_entry_def_id@, entry)
                &&& final(indexes)@ == indexes_after_creation(
                    old(indexes)@,
                    base,
                    specification_of(params),
                    params.resource.contained_in.as_option(),
                )
                &&& created matches Ok((revision, identity, stored))
                &&& revision == (RevisionPointer { record: base.raw, version: 0 })
                &&& identity == base
                &&& same_entry(stored, entry)
                &&& specification_of(params) matches Some(conforms_to) ==> exists|
                    request: RemoteIndexRequest,
                    outcome: Result<RemoteIndexResponse, CrossCellError>,
                |
                    {
                        &&& is_link_request(
                            request,
                            base,
                            RESOURCE_SPECIFICATION_CONFORMING_RESOURCE_LINK_TYPE@,
                            RESOURCE_SPECIFICATION_CONFORMING_RESOURCE_LINK_TAG@,
                            seq![conforms_to],
                        )
                        &&& call_ensures(remote, (request,), outcome)
                    }
            },
    {
        if params.get_event_params().resource_inventoried_as.is_some() {
            return Err(
                DataIntegrityError::RemoteRequestError(
                    String::from_str(
                        "cannot create a new EconomicResource and specify an inventoried resource ID in the same event",
                    ),
                ),
            );
        }
        let contained_in = params.get_resource_params().get_contained_in();
        let resource_spec = params.get_resource_specification_id();
        let entry = EntryData::from(params.with_inventory_type(ResourceInventoryType::ProvidingInventory));
        let (revision_id, base_address, entry_resp) = match resources.create_record(resource_entry_def_id, entry) {
            Ok(written) => written,
            Err(error) => {
                return Err(error);
            },
        };
        match resource_spec {
            Some(conforms_to) => {
                let mut targets: Vec<IdentityAddress> = Vec::new();
                targets.push(conforms_to);
                assert(targets@ =~= seq![conforms_to]);
                let _ = indexes.create_remote_index_pair(
                    base_address,
                    RESOURCE_CONFORMS_TO_LINK_TYPE,
                    RESOURCE_CONFORMS_TO_LINK_TAG,
                    RESOURCE_SPECIFICATION_CONFORMING_RESOURCE_LINK_TYPE,
                    RESOURCE_SPECIFICATION_CONFORMING_RESOURCE_LINK_TAG,
                    &targets,
                    remote,
                );
            },
            None => {},
        }
        match contained_in {
            Some(container) => {
                indexes.create_index_pair(
                    base_address,
                    RESOURCE_CONTAINED_IN_LINK_TYPE,
                    RESOURCE_CONTAINED_IN_LINK_TAG,
                    RESOURCE_CONTAINS_LINK_TYPE,
                    RESOURCE_CONTAINS_LINK_TAG,
                    container,
                );
            },
            None => {},
        }
        Ok((revision_id, base_address, entry_resp))
    }

    /// Returns the record of the newest version of a resource.
    pub fn get_economic_resource(
        resources: &RecordStore<EntryData>,
        events: &RecordStore<crate::economic_event::EntryData>,
        processes: &RecordStore<crate::process::EntryData>,
        indexes: &IndexStore,
        entry_def_id: &str,
        event_entry_def_id: &str,
        process_entry_def_id: &str,
        address: EconomicResourceAddress,
    ) -> (response: Result<ResponseData, DataIntegrityError>)
        ensures
            is_response_to(
                resources@.read(entry_def_id@, RecordAddress::Identity(address)),
                link_fields(events@, processes@, indexes@, event_entry_def_id@, process_entry_def_id@, address),
                response,
            ),
    {
        let (revision, base_address, entry) = match resources.read_record_entry(
            entry_def_id,
            &RecordAddress::Identity(address),
        ) {
            Ok(found) => found,
            Err(error) => {
                return Err(error);
            },
        };
        let links = match get_link_fields(
            events,
            processes,
            indexes,
            event_entry_def_id,
            process_entry_def_id,
            &address,
        ) {
            Ok(fields) => fields,
            Err(error) => {
                return Err(error);
            },
        };
        construct_response(&base_address, &revision, &entry, links)
    }

    /// Brings the inventories that an event names up to date: first the one
    /// that receives, then the one that provides. Each is updated against its
    /// newest revision.
    pub fn update_inventory_from_event(
        resources: &mut RecordStore<EntryData>,
        resource_entry_def_id: &str,
        event: crate::economic_event::CreateRequest,
    ) -> (changes: Result<Vec<InventoryChange>, DataIntegrityError>)
        ensures
            is_inventory_update(old(resources)@, resource_entry_def_id@, event, final(resources)@, changes),
    {
        let mut resources_affected: Vec<InventoryChange> = Vec::new();
        let ghost start = resources@;
        let ghost mut received: Result<InventoryChange, DataIntegrityError> = Err(
            DataIntegrityError::EntryNotFound,
        );
        let ghost mut provided: Result<InventoryChange, DataIntegrityError> = Err(
            DataIntegrityError::EntryNotFound,
        );
        match &event.to_resource_inventoried_as {
            MaybeUndefined::Value(receiver_inventory) => {
                let latest = match resources.get_latest_header_hash(*receiver_inventory) {
                    Ok(head) => head,
                    Err(error) => {
                        proof {
                            received = Err(error);
                            assert(is_inventory_run(
                                start,
                                resource_entry_def_id@,
                                event,
                                start,
                                received,
                                provided,
                                resources@,
                                Err::<Vec<InventoryChange>, DataIntegrityError>(error),
                            ));
                        }
                        return Err(error);
                    },
                };
                let change = handle_update_inventory_resource(
                    resources,
                    resource_entry_def_id,
                    &latest,
                    event.with_inventory_type(ResourceInventoryType::ReceivingInventory),
                );
                proof {
                    received = change;
                }
                match change {
                    Ok(written) => {
                        resources_affected.push(written);
                    },
                    Err(error) => {
                        proof {
                            assert(is_inventory_run(
                                start,
                                resource_entry_def_id@,
                                event,
                                resources@,
                                received,
                                provided,
                                resources@,
                                Err::<Vec<InventoryChange>, DataIntegrityError>(error),
                            ));
                        }
                        return Err(error);
                    },
                }
            },
            _ => {},
        }
        let ghost mid = resources@;
        match &event.resource_inventoried_as {
            MaybeUndefined::Value(provider_inventory) => {
                let latest = match resources.get_latest_header_hash(*provider_inventory) {
                    Ok(head) => head,
                    Err(error) => {
                        proof {
                            provided = Err(error);
                            assert(is_inventory_run(
                                start,
                                resource_entry_def_id@,
                                event,
                                mid,
                                received,
                                provided,
                                resources@,
                                Err::<Vec<InventoryChange>, DataIntegrityError>(error),
                            ));
                        }
                        return Err(error);
                    },
                };
                let change = handle_update_inventory_resource(
                    resources,
                    resource_entry_def_id,
                    &latest,
                    event.with_inventory_type(ResourceInventoryType::ProvidingInventory),
                );
                proof {
                    provided = change;
                }
                match change {
                    Ok(written) => {
                        resources_affected.push(written);
                    },
                    Err(error) => {
                        proof {
                            assert(is_inventory_run(
                                start,
                                resource_entry_def_id@,
                                event,
                                mid,
                                received,
                                provided,
                                resources@,
                                Err::<Vec<InventoryChange>, DataIntegrityError>(error),
                            ));
                        }
                        return Err(error);
                    },
                }
            },
            _ => {},
        }
        proof {
            assert(resources_affected@ =~= (if event.to_resource_inventoried_as is Value {
                seq![received->Ok_0]
            } else {
                Seq::<InventoryChange>::empty()
            }) + (if event.resource_inventoried_as is Value {
                seq![provided->Ok_0]
            } else {
                Seq::<InventoryChange>::empty()
            }));
            assert(is_inventory_run(
                start,
                resource_entry_def_id@,
                event,
                mid,
                received,
                provided,
                resources@,
                Ok::<Vec<InventoryChange>, DataIntegrityError>(resources_affected),
            ));
        }
        Ok(resources_affected)
    }

    /// Applies an update to a resource, moves it between containers where its
    /// container changed, and returns the record of the new version. The
    /// update names the revision that it is made against; where that is not
    /// the newest one, nothing is written.
    pub fn update_economic_resource(
        resources: &mut RecordStore<EntryData>,
        events: &RecordStore<crate::economic_event::EntryData>,
        processes: &RecordStore<crate::process::EntryData>,
        indexes: &mut IndexStore,
        entry_def_id: &str,
        event_entry_def_id: &str,
        process_entry_def_id: &str,
        resource: UpdateRequest,
    ) -> (response: Result<ResponseData, DataIntegrityError>)
        ensures
            match old(resources)@.check_update(entry_def_id@, resource.revision_id) {
                Err(e) => {
                    &&& final(resources)@ == old(resources)@
                    &&& final(indexes)@ == old(indexes)@
                    &&& response == Err::<ResponseData, DataIntegrityError>(e)
                },
                Ok(()) => {
                    let revision = RevisionPointer {
                        record: resource.revision_id.record,
                        version: (resource.revision_id.version + 1) as u64,
                    };
                    let identity = IdentityAddress { raw: resource.revision_id.record };
                    let stored = final(resources)@.payload_at(revision);
                    let prior = old(resources)@.payload_at(resource.revision_id);
                    &&& final(resources)@ == old(resources)@.appended(resource.revision_id.record as int, stored)
                    &&& is_after_update(prior, resource, stored)
                    &&& final(indexes)@ == indexes_after_move(
                        old(indexes)@,
                        identity,
                        stored.contained_in,
                        prior.contained_in,
                    )
                    &&& response matches Ok(data)
                    &&& is_record_of(
                        data.economic_resource,
                        identity,
                        revision,
                        stored,
                        link_fields(
                            events@,
                            processes@,
                            final(indexes)@,
                            event_entry_def_id@,
                            process_entry_def_id@,
                            identity,
                        ),
                    )
                },
            },
    {
        let address = *resource.get_revision_id();
        proof {
            resources.view_is_addressable();
        }
        let (revision_id, identity_address, entry, prev_entry) = match resources.update_record(
            entry_def_id,
            &address,
            &resource,
        ) {
            Ok(written) => written,
            Err(error) => {
                return Err(error);
            },
        };
        let now_contained = list_address(&entry.contained_in);
        let prev_contained = list_address(&prev_entry.contained_in);
        indexes.update_index_pair(
            identity_address,
            RESOURCE_CONTAINED_IN_LINK_TYPE,
            RESOURCE_CONTAINED_IN_LINK_TAG,
            RESOURCE_CONTAINS_LINK_TYPE,
            RESOURCE_CONTAINS_LINK_TAG,
            &now_contained,
            &prev_contained,
        );
        let links = match get_link_fields(
            events,
            processes,
            indexes,
            event_entry_def_id,
            process_entry_def_id,
            &identity_address,
        ) {
            Ok(fields) => fields,
            Err(error) => {
                return Err(error);
            },
        };
        construct_response(&identity_address, &revision_id, &entry, links)
    }

    /// Lists all resources of one type, oldest first, as one page.
    pub fn get_all_economic_resources(
        resources: &RecordStore<EntryData>,
        events: &RecordStore<crate::economic_event::EntryData>,
        processes: &RecordStore<crate::process::EntryData>,
        indexes: &IndexStore,
        entry_def_id: &str,
        event_entry_def_id: &str,
        process_entry_def_id: &str,
    ) -> (listing: Result<Collection, DataIntegrityError>)
        ensures
            listing matches Ok(collection) && exists|
                entries: Seq<Result<(RevisionPointer, EconomicResourceAddress, EntryData), DataIntegrityError>>,
            |
                is_query_result(resources@, entry_def_id@, entries) && #[trigger] is_listing_of(
                    entries,
                    events@,
                    processes@,
                    indexes@,
                    event_entry_def_id@,
                    process_entry_def_id@,
                    collection,
                ),
    {
        let entries_result = resources.query_root_index(entry_def_id);
        let ghost entries = entries_result@;
        let listing = handle_list_output(
            events,
            processes,
            indexes,
            event_entry_def_id,
            process_entry_def_id,
            entries_result,
        );
        proof {
            assert(is_query_result(resources@, entry_def_id@, entries));
        }
        listing
    }
}

} // verus!
