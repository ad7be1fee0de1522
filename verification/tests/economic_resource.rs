use holo_rea::attributes::MaybeUndefined;
use holo_rea::economic_event::{
    ActionId, CreateRequest as EventCreateRequest, EntryData as EventData, QuantityValue,
    ResourceInventoryType, EVENT_ENTRY_TYPE,
};
use holo_rea::economic_resource::{
    construct_list_response, construct_response, construct_response_record, get_link_fields,
    read_economic_resource_index_zome, CreateRequest, CreationPayload, DnaConfigSlice,
    EconomicResourceZomeConfig, EconomicResourceZomePermissableDefault as Api, EntryData, Response,
    UpdateRequest, RESOURCE_AFFECTED_BY_EVENT_LINK_TAG, RESOURCE_AFFECTED_BY_EVENT_LINK_TYPE,
    RESOURCE_CONFORMS_TO_LINK_TYPE, RESOURCE_CONTAINED_IN_LINK_TYPE, RESOURCE_CONTAINS_LINK_TYPE,
    RESOURCE_ENTRY_TYPE, RESOURCE_SPECIFICATION_CONFORMING_RESOURCE_LINK_TYPE,
};
use holo_rea::errors::DataIntegrityError;
use holo_rea::identity::{IdentityAddress, RevisionPointer};
use holo_rea::indexes::{IndexStore, RemoteIndexRequest};
use holo_rea::pagination::cursor_of;
use holo_rea::process::{
    EntryData as ProcessData, PROCESS_COMMITMENT_INPUTS_LINK_TAG,
    PROCESS_COMMITMENT_INPUTS_READ_API_METHOD, PROCESS_COMMITMENT_OUTPUTS_LINK_TAG,
    PROCESS_COMMITMENT_OUTPUTS_READ_API_METHOD, PROCESS_ENTRY_TYPE, PROCESS_EVENT_INPUTS_LINK_TAG,
    PROCESS_EVENT_INPUTS_READ_API_METHOD, PROCESS_EVENT_OUTPUTS_LINK_TAG,
    PROCESS_EVENT_OUTPUTS_READ_API_METHOD, PROCESS_INTENT_INPUTS_LINK_TAG,
    PROCESS_INTENT_INPUTS_READ_API_METHOD, PROCESS_INTENT_OUTPUTS_LINK_TAG,
    PROCESS_INTENT_OUTPUTS_READ_API_METHOD,
};
use holo_rea::records::RecordStore;
use holo_rea::rpc::CrossCellError;

fn id(raw: u64) -> IdentityAddress {
    IdentityAddress { raw }
}

fn action(name: &str) -> ActionId {
    ActionId { id: name.to_string() }
}

fn resources() -> RecordStore<EntryData> {
    RecordStore::new(vec![RESOURCE_ENTRY_TYPE.to_string()])
}

fn events() -> RecordStore<EventData> {
    RecordStore::new(vec![EVENT_ENTRY_TYPE.to_string()])
}

fn processes() -> RecordStore<ProcessData> {
    RecordStore::new(vec![PROCESS_ENTRY_TYPE.to_string()])
}

fn event(name: &str, output_of: Option<IdentityAddress>) -> EventData {
    EventData {
        action: action(name),
        note: None,
        input_of: None,
        output_of,
        resource_inventoried_as: None,
        to_resource_inventoried_as: None,
    }
}

fn plain_entry(note: &str) -> EntryData {
    EntryData {
        conforms_to: None,
        classified_as: Some(vec!["https://example.org/kind".to_string()]),
        tracking_identifier: Some("lot-7".to_string()),
        lot: None,
        image: None,
        accounting_quantity: Some(QuantityValue {
            has_numerical_value: 2.5f64.to_bits(),
            has_unit: Some("kg".to_string()),
        }),
        onhand_quantity: None,
        unit_of_effort: None,
        current_location: None,
        note: Some(note.to_string()),
        contained_in: None,
    }
}

fn event_request() -> EventCreateRequest {
    EventCreateRequest {
        action: action("produce"),
        note: MaybeUndefined::Undefined,
        input_of: MaybeUndefined::Undefined,
        output_of: MaybeUndefined::Undefined,
        resource_inventoried_as: MaybeUndefined::Undefined,
        to_resource_inventoried_as: MaybeUndefined::Undefined,
        resource_classified_as: MaybeUndefined::Undefined,
        resource_conforms_to: MaybeUndefined::Undefined,
        resource_quantity: MaybeUndefined::Undefined,
        at_location: MaybeUndefined::Undefined,
        target_inventory_type: None,
    }
}

fn resource_request() -> CreateRequest {
    CreateRequest {
        conforms_to: MaybeUndefined::Undefined,
        tracking_identifier: MaybeUndefined::Undefined,
        lot: MaybeUndefined::Undefined,
        image: MaybeUndefined::Undefined,
        contained_in: MaybeUndefined::Undefined,
        current_location: MaybeUndefined::Undefined,
        note: MaybeUndefined::Undefined,
    }
}

fn affect(indexes: &mut IndexStore, resource: IdentityAddress, event: IdentityAddress) {
    indexes.create_index(
        resource,
        RESOURCE_AFFECTED_BY_EVENT_LINK_TYPE,
        RESOURCE_AFFECTED_BY_EVENT_LINK_TAG,
        event,
    );
}

fn unreachable_remote(_request: RemoteIndexRequest) -> Result<holo_rea::indexes::RemoteIndexResponse, CrossCellError> {
    Err(CrossCellError::NetworkError("unreachable".to_string()))
}

#[test]
fn state_is_the_latest_pass_or_fail_and_later_actions_are_skipped() {
    let mut ev = events();
    let pr = processes();
    let mut ix = IndexStore::new();
    let resource = id(40);
    for name in ["create", "pass", "note"] {
        let (_, e, _) = ev.create_record(EVENT_ENTRY_TYPE, event(name, None)).unwrap();
        affect(&mut ix, resource, e);
    }
    let (_, _, state, _) = get_link_fields(&ev, &pr, &ix, EVENT_ENTRY_TYPE, PROCESS_ENTRY_TYPE, &resource).unwrap();
    assert_eq!(state, Some(action("pass")));
}

#[test]
fn state_prefers_the_newer_of_two_verdicts() {
    let mut ev = events();
    let pr = processes();
    let mut ix = IndexStore::new();
    let resource = id(40);
    for name in ["pass", "consume", "fail", "use"] {
        let (_, e, _) = ev.create_record(EVENT_ENTRY_TYPE, event(name, None)).unwrap();
        affect(&mut ix, resource, e);
    }
    let (_, _, state, _) = get_link_fields(&ev, &pr, &ix, EVENT_ENTRY_TYPE, PROCESS_ENTRY_TYPE, &resource).unwrap();
    assert_eq!(state, Some(action("fail")));
}

#[test]
fn state_scan_passes_over_events_that_cannot_be_read() {
    let mut ev = events();
    let pr = processes();
    let mut ix = IndexStore::new();
    let resource = id(40);
    let (_, first, _) = ev.create_record(EVENT_ENTRY_TYPE, event("pass", None)).unwrap();
    let (gone, second, _) = ev.create_record(EVENT_ENTRY_TYPE, event("fail", None)).unwrap();
    affect(&mut ix, resource, first);
    affect(&mut ix, resource, second);
    affect(&mut ix, resource, id(99));
    ev.delete_record(&gone).unwrap();
    let (_, _, state, _) = get_link_fields(&ev, &pr, &ix, EVENT_ENTRY_TYPE, PROCESS_ENTRY_TYPE, &resource).unwrap();
    assert_eq!(state, Some(action("pass")));
    let (_, _, mistyped, _) = get_link_fields(&ev, &pr, &ix, "vf_other", PROCESS_ENTRY_TYPE, &resource).unwrap();
    assert_eq!(mistyped, None);
}

#[test]
fn state_and_stage_are_none_without_events() {
    let ev = events();
    let pr = processes();
    let ix = IndexStore::new();
    assert_eq!(
        get_link_fields(&ev, &pr, &ix, EVENT_ENTRY_TYPE, PROCESS_ENTRY_TYPE, &id(1)),
        Ok((None, None, None, vec![]))
    );
}

#[test]
fn stage_is_the_specification_of_the_latest_process_that_has_one() {
    let mut ev = events();
    let mut pr = processes();
    let mut ix = IndexStore::new();
    let resource = id(40);
    let (_, milled, _) = pr
        .create_record(
            PROCESS_ENTRY_TYPE,
            ProcessData { name: "mill".to_string(), based_on: Some(id(500)), note: None },
        )
        .unwrap();
    let (_, packed, _) = pr
        .create_record(
            PROCESS_ENTRY_TYPE,
            ProcessData { name: "pack".to_string(), based_on: Some(id(501)), note: None },
        )
        .unwrap();
    let (_, unspecified, _) = pr
        .create_record(PROCESS_ENTRY_TYPE, ProcessData { name: "ad hoc".to_string(), based_on: None, note: None })
        .unwrap();
    for output_of in [Some(milled), Some(packed), None, Some(unspecified), Some(id(77))] {
        let (_, e, _) = ev.create_record(EVENT_ENTRY_TYPE, event("produce", output_of)).unwrap();
        affect(&mut ix, resource, e);
    }
    let (_, stage, state, _) = get_link_fields(&ev, &pr, &ix, EVENT_ENTRY_TYPE, PROCESS_ENTRY_TYPE, &resource).unwrap();
    assert_eq!(stage, Some(id(501)));
    assert_eq!(state, None);
}

#[test]
fn link_fields_give_the_latest_container_and_all_contents() {
    let ev = events();
    let pr = processes();
    let mut ix = IndexStore::new();
    let resource = id(40);
    ix.create_index(resource, RESOURCE_CONTAINED_IN_LINK_TYPE, "contained_in", id(1));
    ix.create_index(resource, RESOURCE_CONTAINED_IN_LINK_TYPE, "contained_in", id(2));
    ix.create_index(resource, RESOURCE_CONTAINS_LINK_TYPE, "contains", id(7));
    ix.create_index(resource, RESOURCE_CONTAINS_LINK_TYPE, "contains", id(8));
    assert_eq!(
        get_link_fields(&ev, &pr, &ix, EVENT_ENTRY_TYPE, PROCESS_ENTRY_TYPE, &resource),
        Ok((Some(id(2)), None, None, vec![id(7), id(8)]))
    );
}

#[test]
fn response_record_copies_entry_and_link_fields() {
    let entry = plain_entry("flour");
    let revision = RevisionPointer { record: 3, version: 2 };
    let links = (Some(id(1)), Some(id(500)), Some(action("pass")), vec![id(7)]);
    let expected = Response {
        id: id(3),
        revision_id: revision,
        conforms_to: None,
        classified_as: Some(vec!["https://example.org/kind".to_string()]),
        tracking_identifier: Some("lot-7".to_string()),
        lot: None,
        image: None,
        accounting_quantity: Some(QuantityValue {
            has_numerical_value: 2.5f64.to_bits(),
            has_unit: Some("kg".to_string()),
        }),
        onhand_quantity: None,
        unit_of_effort: None,
        stage: Some(id(500)),
        state: Some(action("pass")),
        current_location: None,
        note: Some("flour".to_string()),
        contained_in: Some(id(1)),
        contains: vec![id(7)],
    };
    let record = construct_response_record(
        &id(3),
        &revision,
        &entry,
        (Some(id(1)), Some(id(500)), Some(action("pass")), vec![id(7)]),
    )
    .unwrap();
    assert_eq!(record, expected);
    let data = construct_response(&id(3), &revision, &entry, links).unwrap();
    assert_eq!(data.economic_resource, expected);
    let edge = construct_list_response(
        &id(0x4142434445464748),
        &revision,
        &entry,
        (None, None, None, vec![]),
    )
    .unwrap();
    assert_eq!(edge.cursor, "ABCDEFGH");
    assert_eq!(edge.node.id, id(0x4142434445464748));
    assert_eq!(edge.node.note, Some("flour".to_string()));
}

#[test]
fn creation_is_refused_for_an_event_with_an_inventory_of_its_own() {
    let mut rs = resources();
    let mut ix = IndexStore::new();
    let mut request = event_request();
    request.resource_inventoried_as = MaybeUndefined::Value(id(1));
    let result = Api::create_inventory_from_event(
        &mut rs,
        &mut ix,
        RESOURCE_ENTRY_TYPE,
        CreationPayload { event: request, resource: resource_request() },
        unreachable_remote,
    );
    assert_eq!(
        result,
        Err(DataIntegrityError::RemoteRequestError(
            "cannot create a new EconomicResource and specify an inventoried resource ID in the same event"
                .to_string()
        ))
    );
    assert_eq!(rs.record_count(), 0);
    assert_eq!(ix.edge_count(), 0);
}

#[test]
fn creation_of_an_unknown_entry_type_writes_nothing() {
    let mut rs = resources();
    let mut ix = IndexStore::new();
    let result = Api::create_inventory_from_event(
        &mut rs,
        &mut ix,
        "vf_unknown",
        CreationPayload { event: event_request(), resource: resource_request() },
        unreachable_remote,
    );
    assert_eq!(result, Err(DataIntegrityError::IntegrityError));
    assert_eq!(rs.record_count(), 0);
    assert_eq!(ix.edge_count(), 0);
}

#[test]
fn creation_stores_the_entry_and_links_specification_and_container() {
    let mut rs = resources();
    let mut ix = IndexStore::new();
    let mut specifications = IndexStore::new();
    rs.create_record(RESOURCE_ENTRY_TYPE, plain_entry("crate")).unwrap();
    let container = id(0);
    let specification = id(900);
    let mut request = event_request();
    request.resource_quantity = MaybeUndefined::Value(QuantityValue {
        has_numerical_value: 12.0f64.to_bits(),
        has_unit: None,
    });
    request.resource_classified_as = MaybeUndefined::Value(vec!["urn:grain".to_string()]);
    request.resource_conforms_to = MaybeUndefined::Value(id(901));
    let mut resource = resource_request();
    resource.conforms_to = MaybeUndefined::Value(specification);
    resource.contained_in = MaybeUndefined::Value(container);
    resource.note = MaybeUndefined::Value("wheat".to_string());
    resource.tracking_identifier = MaybeUndefined::Null;
    let (revision, base, stored) = Api::create_inventory_from_event(
        &mut rs,
        &mut ix,
        RESOURCE_ENTRY_TYPE,
        CreationPayload { event: request, resource },
        |request: RemoteIndexRequest| Ok(specifications.sync_index(&request)),
    )
    .unwrap();
    assert_eq!(base, id(1));
    assert_eq!(revision, RevisionPointer { record: 1, version: 0 });
    let quantity = Some(QuantityValue { has_numerical_value: 12.0f64.to_bits(), has_unit: None });
    assert_eq!(
        stored,
        EntryData {
            conforms_to: Some(specification),
            classified_as: Some(vec!["urn:grain".to_string()]),
            tracking_identifier: None,
            lot: None,
            image: None,
            accounting_quantity: quantity.clone(),
            onhand_quantity: quantity,
            unit_of_effort: None,
            current_location: None,
            note: Some("wheat".to_string()),
            contained_in: Some(container),
        }
    );
    assert_eq!(ix.read_index(base, RESOURCE_CONFORMS_TO_LINK_TYPE), vec![specification]);
    assert_eq!(ix.read_index(base, RESOURCE_CONTAINED_IN_LINK_TYPE), vec![container]);
    assert_eq!(ix.read_index(container, RESOURCE_CONTAINS_LINK_TYPE), vec![base]);
    assert_eq!(
        specifications.read_index(specification, RESOURCE_SPECIFICATION_CONFORMING_RESOURCE_LINK_TYPE),
        vec![base]
    );
}

#[test]
fn creation_falls_back_to_the_specification_of_the_event_and_tolerates_a_failed_remote() {
    let mut rs = resources();
    let mut ix = IndexStore::new();
    let mut request = event_request();
    request.resource_conforms_to = MaybeUndefined::Value(id(901));
    let payload = CreationPayload { event: request, resource: resource_request() };
    assert_eq!(payload.get_resource_specification_id(), Some(id(901)));
    let (_, base, stored) =
        Api::create_inventory_from_event(&mut rs, &mut ix, RESOURCE_ENTRY_TYPE, payload, unreachable_remote)
            .unwrap();
    assert_eq!(stored.conforms_to, Some(id(901)));
    assert_eq!(ix.read_index(base, RESOURCE_CONFORMS_TO_LINK_TYPE), vec![id(901)]);
    assert_eq!(ix.edge_count(), 1);
}

#[test]
fn payload_is_marked_for_the_side_it_is_applied_to() {
    let payload = CreationPayload { event: event_request(), resource: resource_request() };
    assert_eq!(payload.get_event_params().target_inventory_type, None);
    assert_eq!(payload.get_resource_params().get_contained_in(), None);
    let marked = payload.with_inventory_type(ResourceInventoryType::ProvidingInventory);
    assert_eq!(marked.event.target_inventory_type, Some(ResourceInventoryType::ProvidingInventory));
    let tagged = event_request().with_inventory_type(ResourceInventoryType::ReceivingInventory);
    assert_eq!(tagged.target_inventory_type, Some(ResourceInventoryType::ReceivingInventory));
    assert_eq!(tagged.action, action("produce"));
}

#[test]
fn inventory_update_runs_the_receiver_first_and_then_the_provider() {
    let mut rs = resources();
    let (_, provider, _) = rs.create_record(RESOURCE_ENTRY_TYPE, plain_entry("provider")).unwrap();
    let (_, receiver, _) = rs.create_record(RESOURCE_ENTRY_TYPE, plain_entry("receiver")).unwrap();
    let mut request = event_request();
    request.action = action("transfer");
    request.resource_inventoried_as = MaybeUndefined::Value(provider);
    request.to_resource_inventoried_as = MaybeUndefined::Value(receiver);
    request.at_location = MaybeUndefined::Value(id(70));
    let changes = Api::update_inventory_from_event(&mut rs, RESOURCE_ENTRY_TYPE, request).unwrap();
    assert_eq!(changes.len(), 2);
    let mut moved_receiver = plain_entry("receiver");
    moved_receiver.current_location = Some(id(70));
    let mut moved_provider = plain_entry("provider");
    moved_provider.current_location = Some(id(70));
    assert_eq!(
        changes[0],
        (RevisionPointer { record: 1, version: 1 }, receiver, moved_receiver, plain_entry("receiver"))
    );
    assert_eq!(
        changes[1],
        (RevisionPointer { record: 0, version: 1 }, provider, moved_provider, plain_entry("provider"))
    );
    assert_eq!(rs.get_latest_header_hash(provider), Ok(RevisionPointer { record: 0, version: 1 }));
}

#[test]
fn inventory_update_without_inventories_changes_nothing() {
    let mut rs = resources();
    rs.create_record(RESOURCE_ENTRY_TYPE, plain_entry("a")).unwrap();
    assert_eq!(Api::update_inventory_from_event(&mut rs, RESOURCE_ENTRY_TYPE, event_request()), Ok(vec![]));
    assert_eq!(rs.get_latest_header_hash(id(0)), Ok(RevisionPointer { record: 0, version: 0 }));
}

#[test]
fn inventory_update_stops_at_the_first_failure_and_keeps_what_was_written() {
    let mut rs = resources();
    let (_, receiver, _) = rs.create_record(RESOURCE_ENTRY_TYPE, plain_entry("receiver")).unwrap();
    let mut request = event_request();
    request.resource_inventoried_as = MaybeUndefined::Value(id(55));
    request.to_resource_inventoried_as = MaybeUndefined::Value(receiver);
    assert_eq!(
        Api::update_inventory_from_event(&mut rs, RESOURCE_ENTRY_TYPE, request),
        Err(DataIntegrityError::EntryNotFound)
    );
    assert_eq!(rs.get_latest_header_hash(receiver), Ok(RevisionPointer { record: 0, version: 1 }));
    let mut mistyped = event_request();
    mistyped.resource_inventoried_as = MaybeUndefined::Value(receiver);
    assert_eq!(
        Api::update_inventory_from_event(&mut rs, "vf_other", mistyped),
        Err(DataIntegrityError::DeserializationError)
    );
}

#[test]
fn update_moves_the_resource_between_containers() {
    let mut rs = resources();
    let ev = events();
    let pr = processes();
    let mut ix = IndexStore::new();
    let (_, old_box, _) = rs.create_record(RESOURCE_ENTRY_TYPE, plain_entry("old box")).unwrap();
    let (_, new_box, _) = rs.create_record(RESOURCE_ENTRY_TYPE, plain_entry("new box")).unwrap();
    let mut resource = resource_request();
    resource.contained_in = MaybeUndefined::Value(old_box);
    let (revision, base, _) = Api::create_inventory_from_event(
        &mut rs,
        &mut ix,
        RESOURCE_ENTRY_TYPE,
        CreationPayload { event: event_request(), resource },
        unreachable_remote,
    )
    .unwrap();
    let update = UpdateRequest {
        revision_id: revision,
        classified_as: MaybeUndefined::Value(vec!["urn:moved".to_string()]),
        image: MaybeUndefined::Undefined,
        contained_in: MaybeUndefined::Value(new_box),
        unit_of_effort: MaybeUndefined::Value("hour".to_string()),
        note: MaybeUndefined::Null,
    };
    assert_eq!(update.get_revision_id(), &revision);
    let data = Api::update_economic_resource(
        &mut rs,
        &ev,
        &pr,
        &mut ix,
        RESOURCE_ENTRY_TYPE,
        EVENT_ENTRY_TYPE,
        PROCESS_ENTRY_TYPE,
        update,
    )
    .unwrap();
    let record = data.economic_resource;
    assert_eq!(record.id, base);
    assert_eq!(record.revision_id, RevisionPointer { record: base.raw, version: 1 });
    assert_eq!(record.contained_in, Some(new_box));
    assert_eq!(record.classified_as, Some(vec!["urn:moved".to_string()]));
    assert_eq!(record.unit_of_effort, Some("hour".to_string()));
    assert_eq!(record.note, None);
    assert_eq!(ix.read_index(base, RESOURCE_CONTAINED_IN_LINK_TYPE), vec![new_box]);
    assert_eq!(ix.read_index(old_box, RESOURCE_CONTAINS_LINK_TYPE), vec![]);
    assert_eq!(ix.read_index(new_box, RESOURCE_CONTAINS_LINK_TYPE), vec![base]);
    let stale = UpdateRequest {
        revision_id: revision,
        classified_as: MaybeUndefined::Undefined,
        image: MaybeUndefined::Undefined,
        contained_in: MaybeUndefined::Undefined,
        unit_of_effort: MaybeUndefined::Undefined,
        note: MaybeUndefined::Undefined,
    };
    assert_eq!(
        Api::update_economic_resource(
            &mut rs,
            &ev,
            &pr,
            &mut ix,
            RESOURCE_ENTRY_TYPE,
            EVENT_ENTRY_TYPE,
            PROCESS_ENTRY_TYPE,
            stale,
        ),
        Err(DataIntegrityError::RevisionMismatch)
    );
    assert_eq!(ix.read_index(base, RESOURCE_CONTAINED_IN_LINK_TYPE), vec![new_box]);
}

#[test]
fn get_returns_the_record_with_its_link_fields() {
    let mut rs = resources();
    let mut ev = events();
    let pr = processes();
    let mut ix = IndexStore::new();
    let (revision, base, _) = rs.create_record(RESOURCE_ENTRY_TYPE, plain_entry("read me")).unwrap();
    let (_, e, _) = ev.create_record(EVENT_ENTRY_TYPE, event("fail", None)).unwrap();
    affect(&mut ix, base, e);
    let data =
        Api::get_economic_resource(&rs, &ev, &pr, &ix, RESOURCE_ENTRY_TYPE, EVENT_ENTRY_TYPE, PROCESS_ENTRY_TYPE, base)
            .unwrap();
    assert_eq!(data.economic_resource.id, base);
    assert_eq!(data.economic_resource.revision_id, revision);
    assert_eq!(data.economic_resource.note, Some("read me".to_string()));
    assert_eq!(data.economic_resource.state, Some(action("fail")));
    assert_eq!(
        Api::get_economic_resource(&rs, &ev, &pr, &ix, RESOURCE_ENTRY_TYPE, EVENT_ENTRY_TYPE, PROCESS_ENTRY_TYPE, id(9)),
        Err(DataIntegrityError::EntryNotFound)
    );
    assert_eq!(
        Api::get_economic_resource(&rs, &ev, &pr, &ix, "vf_other", EVENT_ENTRY_TYPE, PROCESS_ENTRY_TYPE, base),
        Err(DataIntegrityError::DeserializationError)
    );
}

#[test]
fn page_of_five_starts_at_the_first_cursor_and_ends_at_the_last() {
    let mut rs = resources();
    let ev = events();
    let pr = processes();
    let ix = IndexStore::new();
    let mut identities = vec![];
    for n in 0..5 {
        let (_, base, _) = rs.create_record(RESOURCE_ENTRY_TYPE, plain_entry(&format!("r{}", n))).unwrap();
        identities.push(base);
    }
    let page =
        Api::get_all_economic_resources(&rs, &ev, &pr, &ix, RESOURCE_ENTRY_TYPE, EVENT_ENTRY_TYPE, PROCESS_ENTRY_TYPE)
            .unwrap();
    assert_eq!(page.edges.len(), 5);
    for (edge, identity) in page.edges.iter().zip(identities.iter()) {
        assert_eq!(edge.node.id, *identity);
        assert_eq!(edge.cursor, cursor_of(identity));
    }
    assert_eq!(page.page_info.start_cursor, cursor_of(&identities[0]));
    assert_eq!(page.page_info.end_cursor, cursor_of(&identities[4]));
    assert_eq!(page.page_info.start_cursor, "\0\0\0\0\0\0\0\0");
    assert_eq!(page.page_info.end_cursor, "\0\0\0\0\0\0\0\u{4}");
    assert!(page.page_info.has_next_page);
    assert!(page.page_info.has_previous_page);
    assert_eq!(page.page_info.page_limit, None);
    assert_eq!(page.page_info.total_count, None);
}

#[test]
fn page_leaves_out_what_cannot_be_read_and_an_empty_page_has_cursor_zero() {
    let mut rs = resources();
    let ev = events();
    let pr = processes();
    let ix = IndexStore::new();
    let empty =
        Api::get_all_economic_resources(&rs, &ev, &pr, &ix, RESOURCE_ENTRY_TYPE, EVENT_ENTRY_TYPE, PROCESS_ENTRY_TYPE)
            .unwrap();
    assert_eq!(empty.edges.len(), 0);
    assert_eq!(empty.page_info.start_cursor, "0");
    assert_eq!(empty.page_info.end_cursor, "0");
    let (gone, _, _) = rs.create_record(RESOURCE_ENTRY_TYPE, plain_entry("gone")).unwrap();
    let (_, kept, _) = rs.create_record(RESOURCE_ENTRY_TYPE, plain_entry("kept")).unwrap();
    rs.delete_record(&gone).unwrap();
    let page =
        Api::get_all_economic_resources(&rs, &ev, &pr, &ix, RESOURCE_ENTRY_TYPE, EVENT_ENTRY_TYPE, PROCESS_ENTRY_TYPE)
            .unwrap();
    assert_eq!(page.edges.len(), 1);
    assert_eq!(page.edges[0].node.id, kept);
    assert_eq!(page.page_info.start_cursor, cursor_of(&kept));
    assert_eq!(page.page_info.end_cursor, cursor_of(&kept));
}

#[test]
fn index_module_name_is_read_from_the_configuration() {
    let conf = DnaConfigSlice {
        economic_resource: EconomicResourceZomeConfig { index_zome: "economic_resource_index".to_string() },
    };
    assert_eq!(read_economic_resource_index_zome(conf), Some("economic_resource_index".to_string()));
}

#[test]
fn listing_skips_entries_that_were_not_read() {
    let ev = events();
    let pr = processes();
    let ix = IndexStore::new();
    let entries = vec![
        Err(DataIntegrityError::EntryNotFound),
        Ok((RevisionPointer { record: 0x41, version: 0 }, id(0x4141414141414141), plain_entry("a"))),
        Err(DataIntegrityError::DeserializationError),
        Ok((RevisionPointer { record: 0x42, version: 3 }, id(0x4242424242424242), plain_entry("b"))),
    ];
    let page = holo_rea::economic_resource::handle_list_output(
        &ev,
        &pr,
        &ix,
        EVENT_ENTRY_TYPE,
        PROCESS_ENTRY_TYPE,
        entries,
    )
    .unwrap();
    assert_eq!(page.edges.len(), 2);
    assert_eq!(page.edges[0].cursor, "AAAAAAAA");
    assert_eq!(page.edges[0].node.note, Some("a".to_string()));
    assert_eq!(page.edges[1].cursor, "BBBBBBBB");
    assert_eq!(page.edges[1].node.revision_id, RevisionPointer { record: 0x42, version: 3 });
    assert_eq!(page.page_info.start_cursor, "AAAAAAAA");
    assert_eq!(page.page_info.end_cursor, "BBBBBBBB");
}

#[test]
fn one_inventory_is_updated_against_the_named_revision() {
    let mut rs = resources();
    let (revision, inventory, _) = rs.create_record(RESOURCE_ENTRY_TYPE, plain_entry("stock")).unwrap();
    let mut request = event_request();
    request.at_location = MaybeUndefined::Null;
    let change = holo_rea::economic_resource::handle_update_inventory_resource(
        &mut rs,
        RESOURCE_ENTRY_TYPE,
        &revision,
        request,
    )
    .unwrap();
    assert_eq!(
        change,
        (RevisionPointer { record: 0, version: 1 }, inventory, plain_entry("stock"), plain_entry("stock"))
    );
    assert_eq!(
        holo_rea::economic_resource::handle_update_inventory_resource(
            &mut rs,
            RESOURCE_ENTRY_TYPE,
            &revision,
            event_request(),
        ),
        Err(DataIntegrityError::RevisionMismatch)
    );
}

#[test]
fn affecting_events_are_read_oldest_first() {
    let mut ix = IndexStore::new();
    affect(&mut ix, id(1), id(30));
    affect(&mut ix, id(2), id(31));
    affect(&mut ix, id(1), id(29));
    assert_eq!(holo_rea::economic_resource::links::get_affecting_events(&ix, &id(1)), Ok(vec![id(30), id(29)]));
    assert_eq!(holo_rea::economic_resource::links::get_affecting_events(&ix, &id(3)), Ok(vec![]));
}

#[test]
fn process_identifiers_have_their_values() {
    assert_eq!(PROCESS_ENTRY_TYPE, "vf_process");
    assert_eq!(PROCESS_EVENT_INPUTS_LINK_TAG, "inputs");
    assert_eq!(PROCESS_EVENT_OUTPUTS_LINK_TAG, "outputs");
    assert_eq!(PROCESS_COMMITMENT_INPUTS_LINK_TAG, "committed_inputs");
    assert_eq!(PROCESS_COMMITMENT_OUTPUTS_LINK_TAG, "committed_outputs");
    assert_eq!(PROCESS_INTENT_INPUTS_LINK_TAG, "intended_inputs");
    assert_eq!(PROCESS_INTENT_OUTPUTS_LINK_TAG, "intended_outputs");
    assert_eq!(PROCESS_EVENT_INPUTS_READ_API_METHOD, "_internal_read_process_inputs");
    assert_eq!(PROCESS_EVENT_OUTPUTS_READ_API_METHOD, "_internal_read_process_outputs");
    assert_eq!(PROCESS_COMMITMENT_INPUTS_READ_API_METHOD, "_internal_read_process_committed_inputs");
    assert_eq!(PROCESS_COMMITMENT_OUTPUTS_READ_API_METHOD, "_internal_read_process_committed_outputs");
    assert_eq!(PROCESS_INTENT_INPUTS_READ_API_METHOD, "_internal_read_process_intended_inputs");
    assert_eq!(PROCESS_INTENT_OUTPUTS_READ_API_METHOD, "_internal_read_process_intended_outputs");
}
