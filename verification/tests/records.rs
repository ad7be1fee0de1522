use holo_rea::attributes::{MaybeUndefined, Timestamp};
use holo_rea::errors::DataIntegrityError;
use holo_rea::identity::{IdentityAddress, RecordAddress, RevisionPointer};
use holo_rea::proposal::{EntryData, UpdateRequest, PROPOSAL_ENTRY_TYPE};
use holo_rea::records::RecordStore;

fn store() -> RecordStore<EntryData> {
    RecordStore::new(vec![PROPOSAL_ENTRY_TYPE.to_string(), "vf_other".to_string()])
}

fn entry(name: &str) -> EntryData {
    EntryData {
        name: Some(name.to_string()),
        has_beginning: None,
        has_end: None,
        unit_based: Some(true),
        created: Some(Timestamp { micros: 1_600_000_000_000_000 }),
        note: None,
        in_scope_of: Some(vec!["scope".to_string()]),
    }
}

fn rename(revision: RevisionPointer, name: &str) -> UpdateRequest {
    UpdateRequest {
        revision_id: revision,
        name: MaybeUndefined::Value(name.to_string()),
        has_beginning: MaybeUndefined::Undefined,
        has_end: MaybeUndefined::Undefined,
        unit_based: MaybeUndefined::Undefined,
        note: MaybeUndefined::Undefined,
        in_scope_of: MaybeUndefined::Undefined,
    }
}

#[test]
fn create_returns_first_pointer_identity_and_entry() {
    let mut s = store();
    let (revision, identity, stored) = s.create_record(PROPOSAL_ENTRY_TYPE, entry("a")).unwrap();
    assert_eq!(revision, RevisionPointer { record: 0, version: 0 });
    assert_eq!(identity, IdentityAddress { raw: 0 });
    assert_eq!(stored, entry("a"));
    let (revision, identity, _) = s.create_record(PROPOSAL_ENTRY_TYPE, entry("b")).unwrap();
    assert_eq!(revision, RevisionPointer { record: 1, version: 0 });
    assert_eq!(identity, IdentityAddress { raw: 1 });
    assert_eq!(s.record_count(), 2);
}

#[test]
fn create_of_unknown_entry_type_is_an_integrity_error() {
    let mut s = store();
    assert_eq!(s.create_record("vf_unknown", entry("a")), Err(DataIntegrityError::IntegrityError));
    assert_eq!(s.record_count(), 0);
    assert!(s.accepts(PROPOSAL_ENTRY_TYPE));
    assert!(!s.accepts("vf_unknown"));
}

#[test]
fn read_round_trips_what_create_wrote() {
    let mut s = store();
    let (revision, identity, _) = s.create_record(PROPOSAL_ENTRY_TYPE, entry("round")).unwrap();
    let found = s.read_record_entry(PROPOSAL_ENTRY_TYPE, &RecordAddress::Identity(identity)).unwrap();
    assert_eq!(found, (revision, identity, entry("round")));
    let by_revision = s.read_record_entry(PROPOSAL_ENTRY_TYPE, &RecordAddress::Revision(revision)).unwrap();
    assert_eq!(by_revision, (revision, identity, entry("round")));
}

#[test]
fn read_of_missing_address_is_entry_not_found() {
    let mut s = store();
    s.create_record(PROPOSAL_ENTRY_TYPE, entry("a")).unwrap();
    assert_eq!(
        s.read_record_entry(PROPOSAL_ENTRY_TYPE, &RecordAddress::Identity(IdentityAddress { raw: 7 })),
        Err(DataIntegrityError::EntryNotFound)
    );
    assert_eq!(
        s.read_record_entry(
            PROPOSAL_ENTRY_TYPE,
            &RecordAddress::Revision(RevisionPointer { record: 0, version: 3 })
        ),
        Err(DataIntegrityError::EntryNotFound)
    );
}

#[test]
fn read_as_another_entry_type_is_a_deserialization_error() {
    let mut s = store();
    let (_, identity, _) = s.create_record(PROPOSAL_ENTRY_TYPE, entry("a")).unwrap();
    assert_eq!(
        s.read_record_entry("vf_other", &RecordAddress::Identity(identity)),
        Err(DataIntegrityError::DeserializationError)
    );
}

#[test]
fn identity_is_stable_and_revision_moves_on_every_update() {
    let mut s = store();
    let (mut revision, identity, _) = s.create_record(PROPOSAL_ENTRY_TYPE, entry("v0")).unwrap();
    let first = revision;
    let mut seen = vec![revision];
    for n in 1..=20u64 {
        let name = format!("v{}", n);
        let (next, same_identity, new_entry, prior_entry) =
            s.update_record(PROPOSAL_ENTRY_TYPE, &revision, &rename(revision, &name)).unwrap();
        assert_eq!(same_identity, identity);
        assert!(!seen.contains(&next));
        assert_eq!(next, RevisionPointer { record: 0, version: n });
        assert_eq!(new_entry.name, Some(name));
        assert_eq!(prior_entry.name, Some(format!("v{}", n - 1)));
        seen.push(next);
        revision = next;
    }
    let (head, read_identity, latest) =
        s.read_record_entry(PROPOSAL_ENTRY_TYPE, &RecordAddress::Identity(identity)).unwrap();
    assert_eq!(head, revision);
    assert_eq!(read_identity, identity);
    assert_eq!(latest.name, Some("v20".to_string()));
    let (from_first, _, _) = s.read_record_entry(PROPOSAL_ENTRY_TYPE, &RecordAddress::Revision(first)).unwrap();
    assert_eq!(from_first, revision);
    assert_eq!(s.get_latest_header_hash(identity), Ok(revision));
}

#[test]
fn update_keeps_fields_that_were_left_out_and_clears_nulls() {
    let mut s = store();
    let (revision, _, _) = s.create_record(PROPOSAL_ENTRY_TYPE, entry("kept")).unwrap();
    let update = UpdateRequest {
        revision_id: revision,
        name: MaybeUndefined::Undefined,
        has_beginning: MaybeUndefined::Value(Timestamp { micros: 5 }),
        has_end: MaybeUndefined::Undefined,
        unit_based: MaybeUndefined::Null,
        note: MaybeUndefined::Value("noted".to_string()),
        in_scope_of: MaybeUndefined::Null,
    };
    let (_, _, new_entry, prior_entry) = s.update_record(PROPOSAL_ENTRY_TYPE, &revision, &update).unwrap();
    assert_eq!(prior_entry, entry("kept"));
    assert_eq!(
        new_entry,
        EntryData {
            name: Some("kept".to_string()),
            has_beginning: Some(Timestamp { micros: 5 }),
            has_end: None,
            unit_based: None,
            created: Some(Timestamp { micros: 1_600_000_000_000_000 }),
            note: Some("noted".to_string()),
            in_scope_of: None,
        }
    );
}

#[test]
fn of_two_updates_of_one_revision_exactly_one_succeeds() {
    let mut s = store();
    let (revision, identity, _) = s.create_record(PROPOSAL_ENTRY_TYPE, entry("base")).unwrap();
    let first = s.update_record(PROPOSAL_ENTRY_TYPE, &revision, &rename(revision, "first"));
    let second = s.update_record(PROPOSAL_ENTRY_TYPE, &revision, &rename(revision, "second"));
    assert!(first.is_ok());
    assert_eq!(second, Err(DataIntegrityError::RevisionMismatch));
    let (_, _, latest) = s.read_record_entry(PROPOSAL_ENTRY_TYPE, &RecordAddress::Identity(identity)).unwrap();
    assert_eq!(latest.name, Some("first".to_string()));
}

#[test]
fn update_of_missing_or_mistyped_revision_fails_with_its_own_error() {
    let mut s = store();
    let (revision, _, _) = s.create_record(PROPOSAL_ENTRY_TYPE, entry("base")).unwrap();
    let missing = RevisionPointer { record: 4, version: 0 };
    assert_eq!(
        s.update_record(PROPOSAL_ENTRY_TYPE, &missing, &rename(missing, "x")),
        Err(DataIntegrityError::EntryNotFound)
    );
    assert_eq!(
        s.update_record("vf_other", &revision, &rename(revision, "x")),
        Err(DataIntegrityError::DeserializationError)
    );
}

#[test]
fn delete_succeeds_once_and_then_fails_with_entry_not_found() {
    let mut s = store();
    let (revision, identity, _) = s.create_record(PROPOSAL_ENTRY_TYPE, entry("gone")).unwrap();
    assert_eq!(s.delete_record(&revision), Ok(true));
    assert_eq!(s.delete_record(&revision), Err(DataIntegrityError::EntryNotFound));
    assert_eq!(
        s.delete_record(&RevisionPointer { record: 9, version: 0 }),
        Err(DataIntegrityError::EntryNotFound)
    );
    assert_eq!(
        s.read_record_entry(PROPOSAL_ENTRY_TYPE, &RecordAddress::Identity(identity)),
        Err(DataIntegrityError::EntryNotFound)
    );
    assert_eq!(
        s.update_record(PROPOSAL_ENTRY_TYPE, &revision, &rename(revision, "x")),
        Err(DataIntegrityError::EntryNotFound)
    );
    assert_eq!(s.get_latest_header_hash(identity), Err(DataIntegrityError::EntryNotFound));
}

#[test]
fn deleting_an_old_revision_ends_the_chain_there() {
    let mut s = store();
    let (first, identity, _) = s.create_record(PROPOSAL_ENTRY_TYPE, entry("v0")).unwrap();
    let (second, _, _, _) = s.update_record(PROPOSAL_ENTRY_TYPE, &first, &rename(first, "v1")).unwrap();
    assert_eq!(s.delete_record(&first), Ok(true));
    assert_eq!(
        s.read_record_entry(PROPOSAL_ENTRY_TYPE, &RecordAddress::Identity(identity)),
        Err(DataIntegrityError::EntryNotFound)
    );
    let (head, _, latest) = s.read_record_entry(PROPOSAL_ENTRY_TYPE, &RecordAddress::Revision(second)).unwrap();
    assert_eq!(head, second);
    assert_eq!(latest.name, Some("v1".to_string()));
}

#[test]
fn query_lists_every_record_of_the_type_and_yields_errors_in_place() {
    let mut s = store();
    let (_, a, _) = s.create_record(PROPOSAL_ENTRY_TYPE, entry("a")).unwrap();
    let (_, _, _) = s.create_record("vf_other", entry("other")).unwrap();
    let (b_revision, _, _) = s.create_record(PROPOSAL_ENTRY_TYPE, entry("b")).unwrap();
    let (c_revision, c, _) = s.create_record(PROPOSAL_ENTRY_TYPE, entry("c")).unwrap();
    s.delete_record(&b_revision).unwrap();
    let listing = s.query_root_index(PROPOSAL_ENTRY_TYPE);
    assert_eq!(
        listing,
        vec![
            Ok((RevisionPointer { record: 0, version: 0 }, a, entry("a"))),
            Err(DataIntegrityError::EntryNotFound),
            Ok((c_revision, c, entry("c"))),
        ]
    );
    assert_eq!(s.query_root_index("vf_unknown"), vec![]);
}

#[test]
fn peek_gives_the_stored_entry_without_copying() {
    let mut s = store();
    let (revision, identity, _) = s.create_record(PROPOSAL_ENTRY_TYPE, entry("peek")).unwrap();
    let (head, id, stored) = s.peek_record_entry(PROPOSAL_ENTRY_TYPE, &RecordAddress::Identity(identity)).unwrap();
    assert_eq!((head, id), (revision, identity));
    assert_eq!(stored.name, Some("peek".to_string()));
    assert_eq!(s.resolve_head(&RecordAddress::Identity(identity)), Some(revision));
    assert_eq!(s.resolve_head(&RecordAddress::Identity(IdentityAddress { raw: 3 })), None);
}

#[test]
fn walk_yields_one_record_at_a_time_and_ends() {
    let mut s = store();
    let (_, a, _) = s.create_record(PROPOSAL_ENTRY_TYPE, entry("a")).unwrap();
    s.create_record("vf_other", entry("other")).unwrap();
    let (b_revision, _, _) = s.create_record(PROPOSAL_ENTRY_TYPE, entry("b")).unwrap();
    let (c_revision, c, _) = s.create_record(PROPOSAL_ENTRY_TYPE, entry("c")).unwrap();
    s.delete_record(&b_revision).unwrap();
    let mut walk = holo_rea::records::RootQuery::new(PROPOSAL_ENTRY_TYPE);
    assert_eq!(s.next_root(&mut walk), Some(Ok((RevisionPointer { record: 0, version: 0 }, a, entry("a")))));
    assert_eq!(s.next_root(&mut walk), Some(Err(DataIntegrityError::EntryNotFound)));
    assert_eq!(s.next_root(&mut walk), Some(Ok((c_revision, c, entry("c")))));
    assert_eq!(s.next_root(&mut walk), None);
    assert_eq!(s.next_root(&mut walk), None);
    let (_, d, _) = s.create_record(PROPOSAL_ENTRY_TYPE, entry("d")).unwrap();
    assert_eq!(s.next_root(&mut walk).unwrap().unwrap().1, d);
    let mut none = holo_rea::records::RootQuery::new("vf_unknown");
    assert_eq!(s.next_root(&mut none), None);
}
