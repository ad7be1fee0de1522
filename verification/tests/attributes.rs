use holo_rea::attributes::{
    copy_maybe_text, copy_maybe_texts, copy_maybe_value, copy_text, copy_text_list, copy_texts,
    merge_text, merge_texts, merge_value, MaybeUndefined,
};
use holo_rea::errors::DataIntegrityError;
use holo_rea::identity::IdentityAddress;
use holo_rea::indexes::{IndexStore, RemoteIndexRequest, RemoteIndexResponse};
use holo_rea::rpc::{AgentPubKey, CrossCellError};
use holo_rea::satisfaction::{
    get_satisfactions, link_satisfactions, COMMITMENT_SATISFIES_LINK_TYPE,
    INTENT_SATISFIEDBY_LINK_TAG, INTENT_SATISFIEDBY_LINK_TYPE,
};
use holo_rea::zome_defs::{
    entry_def_ids, entry_defs, intent_indexes, resource_specification_base_entry_def,
    validate_agent, EntryDef, EntryVisibility, IndexDefinition, IndexScope, LinkDef,
};

fn id(raw: u64) -> IdentityAddress {
    IdentityAddress { raw }
}

#[test]
fn tri_state_field_says_what_it_holds() {
    let sent: MaybeUndefined<u8> = MaybeUndefined::Value(3);
    let null: MaybeUndefined<u8> = MaybeUndefined::Null;
    let left_out: MaybeUndefined<u8> = MaybeUndefined::default();
    assert_eq!(left_out, MaybeUndefined::Undefined);
    assert!(sent.is_some() && !sent.is_undefined());
    assert!(!null.is_some() && !null.is_undefined());
    assert!(!left_out.is_some() && left_out.is_undefined());
    assert_eq!(sent.to_option(), Some(3));
    assert_eq!(null.to_option(), None);
    assert_eq!(left_out.to_option(), None);
}

#[test]
fn merge_keeps_clears_or_sets() {
    assert_eq!(merge_value(&Some(1u8), &MaybeUndefined::Undefined), Some(1));
    assert_eq!(merge_value(&Some(1u8), &MaybeUndefined::Null), None);
    assert_eq!(merge_value(&Some(1u8), &MaybeUndefined::Value(2)), Some(2));
    assert_eq!(merge_value(&None, &MaybeUndefined::Value(2u8)), Some(2));
    assert_eq!(merge_value::<u8>(&None, &MaybeUndefined::Undefined), None);
    let prior = Some("old".to_string());
    assert_eq!(merge_text(&prior, &MaybeUndefined::Undefined), Some("old".to_string()));
    assert_eq!(merge_text(&prior, &MaybeUndefined::Null), None);
    assert_eq!(merge_text(&prior, &MaybeUndefined::Value("new".to_string())), Some("new".to_string()));
    let list = Some(vec!["a".to_string(), "b".to_string()]);
    assert_eq!(merge_texts(&list, &MaybeUndefined::Undefined), list);
    assert_eq!(merge_texts(&list, &MaybeUndefined::Null), None);
    assert_eq!(merge_texts(&list, &MaybeUndefined::Value(vec!["c".to_string()])), Some(vec!["c".to_string()]));
}

#[test]
fn copies_are_equal_to_what_was_copied() {
    assert_eq!(copy_text(&Some("t".to_string())), Some("t".to_string()));
    assert_eq!(copy_text(&None), None);
    assert_eq!(copy_text_list(&vec!["a".to_string(), "b".to_string()]), vec!["a".to_string(), "b".to_string()]);
    assert_eq!(copy_texts(&Some(vec!["a".to_string()])), Some(vec!["a".to_string()]));
    assert_eq!(copy_texts(&None), None);
    assert_eq!(copy_maybe_text(&MaybeUndefined::Value("v".to_string())), MaybeUndefined::Value("v".to_string()));
    assert_eq!(copy_maybe_text(&MaybeUndefined::Null), MaybeUndefined::Null);
    assert_eq!(copy_maybe_texts(&MaybeUndefined::Value(vec!["v".to_string()])), MaybeUndefined::Value(vec!["v".to_string()]));
    assert_eq!(copy_maybe_texts(&MaybeUndefined::Undefined), MaybeUndefined::Undefined);
    assert_eq!(copy_maybe_value(&MaybeUndefined::Value(7u8)), MaybeUndefined::Value(7u8));
}

#[test]
fn errors_copy_themselves() {
    let with_text = DataIntegrityError::RemoteRequestError("why".to_string());
    assert_eq!(with_text.clone(), with_text);
    assert_eq!(DataIntegrityError::EntryNotFound.clone(), DataIntegrityError::EntryNotFound);
    assert_eq!(DataIntegrityError::IntegrityError.clone(), DataIntegrityError::IntegrityError);
    assert_eq!(DataIntegrityError::RevisionMismatch.clone(), DataIntegrityError::RevisionMismatch);
    assert_eq!(
        DataIntegrityError::DeserializationError.clone(),
        DataIntegrityError::DeserializationError
    );
}

#[test]
fn satisfactions_are_linked_both_ways() {
    let mut commitments = IndexStore::new();
    let mut intents = IndexStore::new();
    let linked = link_satisfactions(&mut commitments, &id(1), &vec![id(20), id(21)], |request: RemoteIndexRequest| {
        assert_eq!(request.link_type, INTENT_SATISFIEDBY_LINK_TYPE);
        assert_eq!(request.link_tag, INTENT_SATISFIEDBY_LINK_TAG);
        assert_eq!(request.remote_entry, IdentityAddress { raw: 1 });
        Ok(intents.sync_index(&request))
    });
    assert_eq!(
        linked,
        Ok(RemoteIndexResponse { indexes_created: vec![true, true], indexes_removed: vec![] })
    );
    assert_eq!(get_satisfactions(&commitments, &id(1)), Ok(vec![id(20), id(21)]));
    assert_eq!(commitments.read_index(id(1), COMMITMENT_SATISFIES_LINK_TYPE), vec![id(20), id(21)]);
    assert_eq!(intents.read_index(id(20), INTENT_SATISFIEDBY_LINK_TYPE), vec![id(1)]);
    assert_eq!(intents.read_index(id(21), INTENT_SATISFIEDBY_LINK_TYPE), vec![id(1)]);
    assert_eq!(get_satisfactions(&commitments, &id(2)), Ok(vec![]));
}

#[test]
fn failed_satisfaction_request_is_reported_and_leaves_the_local_half() {
    let mut commitments = IndexStore::new();
    let linked = link_satisfactions(&mut commitments, &id(1), &vec![id(20)], |_request: RemoteIndexRequest| {
        Err(CrossCellError::NotConfigured("commitment".to_string(), "link_satisfactions".to_string()))
    });
    assert_eq!(
        linked,
        Err(DataIntegrityError::RemoteRequestError(
            "nothing is configured for link_satisfactions called from commitment".to_string()
        ))
    );
    assert_eq!(get_satisfactions(&commitments, &id(1)), Ok(vec![id(20)]));
}

#[test]
fn fulfillment_module_declares_paths_and_fulfillments() {
    let defs = entry_defs();
    assert_eq!(
        defs,
        vec![
            EntryDef { id: "hdk.path".to_string(), visibility: EntryVisibility::Public, required_validations: 5 },
            EntryDef {
                id: "vf_fulfillment".to_string(),
                visibility: EntryVisibility::Public,
                required_validations: 1
            },
        ]
    );
    assert_eq!(entry_def_ids(&defs), vec!["hdk.path".to_string(), "vf_fulfillment".to_string()]);
}

#[test]
fn specification_anchor_links_to_conforming_resources() {
    let def = resource_specification_base_entry_def();
    assert_eq!(def.name, "vf_resource_specification_baseurl");
    assert_eq!(
        def.description,
        "Base anchor for external ResourceSpecification records to provide lookup functionality"
    );
    assert_eq!(def.sharing, EntryVisibility::Public);
    assert_eq!(
        def.links_to,
        vec![LinkDef {
            target_type: "vf_economic_resource_baseurl".to_string(),
            link_type: "vf_resource_specification_conforming_resources".to_string(),
        }]
    );
    assert_eq!(validate_agent(&AgentPubKey { bytes: vec![1, 2, 3] }), Ok(()));
}

#[test]
fn intents_keep_four_indexes() {
    let index = |relationship: &str, scope, related: &str, reciprocal: &str| IndexDefinition {
        relationship: relationship.to_string(),
        scope,
        related_record_type: related.to_string(),
        reciprocal: reciprocal.to_string(),
    };
    assert_eq!(
        intent_indexes(),
        vec![
            index("satisfied_by", IndexScope::Local, "satisfaction", "satisfies"),
            index("input_of", IndexScope::Local, "process", "intended_inputs"),
            index("output_of", IndexScope::Local, "process", "intended_outputs"),
            index("proposed_in", IndexScope::Remote, "proposed_intent", "publishes"),
        ]
    );
}
