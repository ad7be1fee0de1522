use holo_rea::attributes::{MaybeUndefined, Timestamp};
use holo_rea::errors::DataIntegrityError;
use holo_rea::identity::{IdentityAddress, RevisionPointer};
use holo_rea::indexes::IndexStore;
use holo_rea::proposal::{
    construct_response, get_link_fields, handle_create_proposal, handle_delete_proposal,
    handle_get_proposal, handle_update_proposal, read_proposal_index_zome, CreateParams,
    CreateRequest, DnaConfigSlice, EntryData, ProposalZomeConfig, QueryParams, Response,
    ResponseData, UpdateParams, UpdateRequest, PROPOSAL_ENTRY_TYPE, PROPOSAL_PUBLISHED_TO_LINK_TAG,
    PROPOSAL_PUBLISHED_TO_LINK_TYPE, PROPOSAL_PUBLISHES_LINK_TAG, PROPOSAL_PUBLISHES_LINK_TYPE,
};
use holo_rea::proposal_by_id::UpdateRequest as UpdateRequestById;
use holo_rea::proposed_intent::{
    CreateRequest as ProposedIntentRequest, EntryData as ProposedIntent,
};
use holo_rea::records::RecordStore;

fn id(raw: u64) -> IdentityAddress {
    IdentityAddress { raw }
}

fn store() -> RecordStore<EntryData> {
    RecordStore::new(vec![PROPOSAL_ENTRY_TYPE.to_string()])
}

fn request(name: &str) -> CreateRequest {
    CreateRequest {
        name: MaybeUndefined::Value(name.to_string()),
        has_beginning: MaybeUndefined::Value(Timestamp { micros: 10 }),
        has_end: MaybeUndefined::Null,
        unit_based: MaybeUndefined::Undefined,
        created: MaybeUndefined::Value(Timestamp { micros: 5 }),
        note: MaybeUndefined::Undefined,
        in_scope_of: MaybeUndefined::Value(vec!["bakery".to_string()]),
    }
}

#[test]
fn entry_takes_sent_values_and_nothing_for_null_or_left_out() {
    assert_eq!(
        EntryData::from(request("bread")),
        EntryData {
            name: Some("bread".to_string()),
            has_beginning: Some(Timestamp { micros: 10 }),
            has_end: None,
            unit_based: None,
            created: Some(Timestamp { micros: 5 }),
            note: None,
            in_scope_of: Some(vec!["bakery".to_string()]),
        }
    );
}

#[test]
fn create_then_get_returns_the_same_record() {
    let mut s = store();
    let mut ix = IndexStore::new();
    ix.create_index(id(0), PROPOSAL_PUBLISHES_LINK_TYPE, PROPOSAL_PUBLISHES_LINK_TAG, id(30));
    ix.create_index(id(0), PROPOSAL_PUBLISHED_TO_LINK_TYPE, PROPOSAL_PUBLISHED_TO_LINK_TAG, id(40));
    ix.create_index(id(0), PROPOSAL_PUBLISHES_LINK_TYPE, PROPOSAL_PUBLISHES_LINK_TAG, id(31));
    let created = handle_create_proposal(&mut s, &ix, PROPOSAL_ENTRY_TYPE, request("bread")).unwrap();
    let expected = ResponseData {
        proposal: Response {
            id: id(0),
            revision_id: RevisionPointer { record: 0, version: 0 },
            name: Some("bread".to_string()),
            has_beginning: Some(Timestamp { micros: 10 }),
            has_end: None,
            unit_based: None,
            created: Some(Timestamp { micros: 5 }),
            note: None,
            in_scope_of: Some(vec!["bakery".to_string()]),
            publishes: vec![id(30), id(31)],
            published_to: vec![id(40)],
        },
    };
    assert_eq!(created, expected);
    assert_eq!(handle_get_proposal(&s, &ix, PROPOSAL_ENTRY_TYPE, id(0)), Ok(expected));
    assert_eq!(get_link_fields(&ix, &id(0)), (vec![id(30), id(31)], vec![id(40)]));
    assert_eq!(get_link_fields(&ix, &id(1)), (vec![], vec![]));
}

#[test]
fn create_of_unknown_type_and_get_of_missing_record_fail() {
    let mut s = store();
    let ix = IndexStore::new();
    assert_eq!(
        handle_create_proposal(&mut s, &ix, "vf_unknown", request("x")),
        Err(DataIntegrityError::IntegrityError)
    );
    assert_eq!(handle_get_proposal(&s, &ix, PROPOSAL_ENTRY_TYPE, id(0)), Err(DataIntegrityError::EntryNotFound));
}

#[test]
fn update_applies_the_three_states_of_each_field() {
    let mut s = store();
    let ix = IndexStore::new();
    let created = handle_create_proposal(&mut s, &ix, PROPOSAL_ENTRY_TYPE, request("bread")).unwrap();
    let update = UpdateRequest {
        revision_id: created.proposal.revision_id,
        name: MaybeUndefined::Undefined,
        has_beginning: MaybeUndefined::Null,
        has_end: MaybeUndefined::Value(Timestamp { micros: 99 }),
        unit_based: MaybeUndefined::Value(true),
        note: MaybeUndefined::Value("fresh".to_string()),
        in_scope_of: MaybeUndefined::Undefined,
    };
    assert_eq!(update.get_revision_id(), &RevisionPointer { record: 0, version: 0 });
    let updated = handle_update_proposal(&mut s, &ix, PROPOSAL_ENTRY_TYPE, update).unwrap();
    assert_eq!(
        updated.proposal,
        Response {
            id: id(0),
            revision_id: RevisionPointer { record: 0, version: 1 },
            name: Some("bread".to_string()),
            has_beginning: None,
            has_end: Some(Timestamp { micros: 99 }),
            unit_based: Some(true),
            created: Some(Timestamp { micros: 5 }),
            note: Some("fresh".to_string()),
            in_scope_of: Some(vec!["bakery".to_string()]),
            publishes: vec![],
            published_to: vec![],
        }
    );
    assert_eq!(handle_get_proposal(&s, &ix, PROPOSAL_ENTRY_TYPE, id(0)), Ok(updated));
}

#[test]
fn update_against_an_old_revision_is_a_revision_mismatch() {
    let mut s = store();
    let ix = IndexStore::new();
    let created = handle_create_proposal(&mut s, &ix, PROPOSAL_ENTRY_TYPE, request("bread")).unwrap();
    let revision = created.proposal.revision_id;
    let rename = |name: &str| UpdateRequest {
        revision_id: revision,
        name: MaybeUndefined::Value(name.to_string()),
        has_beginning: MaybeUndefined::Undefined,
        has_end: MaybeUndefined::Undefined,
        unit_based: MaybeUndefined::Undefined,
        note: MaybeUndefined::Undefined,
        in_scope_of: MaybeUndefined::Undefined,
    };
    assert!(handle_update_proposal(&mut s, &ix, PROPOSAL_ENTRY_TYPE, rename("rye")).is_ok());
    assert_eq!(
        handle_update_proposal(&mut s, &ix, PROPOSAL_ENTRY_TYPE, rename("wheat")),
        Err(DataIntegrityError::RevisionMismatch)
    );
    assert_eq!(
        handle_get_proposal(&s, &ix, PROPOSAL_ENTRY_TYPE, id(0)).unwrap().proposal.name,
        Some("rye".to_string())
    );
}

#[test]
fn delete_works_once() {
    let mut s = store();
    let ix = IndexStore::new();
    let created = handle_create_proposal(&mut s, &ix, PROPOSAL_ENTRY_TYPE, request("bread")).unwrap();
    assert_eq!(handle_delete_proposal(&mut s, created.proposal.revision_id), Ok(true));
    assert_eq!(
        handle_delete_proposal(&mut s, created.proposal.revision_id),
        Err(DataIntegrityError::EntryNotFound)
    );
    assert_eq!(handle_get_proposal(&s, &ix, PROPOSAL_ENTRY_TYPE, id(0)), Err(DataIntegrityError::EntryNotFound));
}

#[test]
fn response_is_built_from_entry_addresses_and_links() {
    let entry = EntryData::from(request("bread"));
    let data = construct_response(
        &id(4),
        &RevisionPointer { record: 4, version: 2 },
        &entry,
        (vec![id(1)], vec![id(2), id(3)]),
    );
    assert_eq!(data.proposal.id, id(4));
    assert_eq!(data.proposal.revision_id, RevisionPointer { record: 4, version: 2 });
    assert_eq!(data.proposal.name, Some("bread".to_string()));
    assert_eq!(data.proposal.in_scope_of, Some(vec!["bakery".to_string()]));
    assert_eq!(data.proposal.publishes, vec![id(1)]);
    assert_eq!(data.proposal.published_to, vec![id(2), id(3)]);
}

#[test]
fn parameters_and_configuration_carry_their_fields() {
    let create = CreateParams { proposal: request("a") };
    assert_eq!(create.proposal.name, MaybeUndefined::Value("a".to_string()));
    let update = UpdateParams {
        proposal: UpdateRequest {
            revision_id: RevisionPointer { record: 1, version: 1 },
            name: MaybeUndefined::Undefined,
            has_beginning: MaybeUndefined::Undefined,
            has_end: MaybeUndefined::Undefined,
            unit_based: MaybeUndefined::Undefined,
            note: MaybeUndefined::Undefined,
            in_scope_of: MaybeUndefined::Undefined,
        },
    };
    assert_eq!(update.proposal.get_revision_id().version, 1);
    let query = QueryParams { publishes: Some(id(1)), published_to: None };
    assert_eq!(query.publishes, Some(id(1)));
    let conf = DnaConfigSlice { proposal: ProposalZomeConfig { index_zome: "proposal_index".to_string() } };
    assert_eq!(read_proposal_index_zome(conf), Some("proposal_index".to_string()));
}

#[test]
fn request_by_identity_names_its_proposal() {
    let update = UpdateRequestById {
        id: id(12),
        name: MaybeUndefined::Undefined,
        has_beginning: MaybeUndefined::Undefined,
        has_end: MaybeUndefined::Undefined,
        unit_based: MaybeUndefined::Undefined,
        created: MaybeUndefined::Undefined,
        note: MaybeUndefined::Undefined,
        in_scope_of: MaybeUndefined::Undefined,
    };
    assert_eq!(update.get_id(), &id(12));
}

#[test]
fn proposed_intent_entry_picks_the_fields_of_the_request() {
    let entry = ProposedIntent::from(ProposedIntentRequest {
        reciprocal: true,
        publishes: id(3),
        published_in: id(4),
    });
    assert_eq!(entry, ProposedIntent { reciprocal: true, publishes: id(3), published_in: id(4) });
}
