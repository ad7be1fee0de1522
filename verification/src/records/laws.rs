//! What holds of the record store, whatever it holds.

use vstd::prelude::*;
use crate::errors::DataIntegrityError;
use crate::identity::{IdentityAddress, RecordAddress, RevisionPointer};
use crate::records::StoreState;

verus! {

/// Every listed identity is that of a record of the listed type.
pub proof fn listed_root_is_a_record<T>(store: StoreState<T>, entry_def: Seq<char>, n: int, k: int)
    requires
        0 <= n <= store.records.len(),
        store.addressable(),
        0 <= k < store.roots_among(entry_def, n).len(),
    ensures
        store.roots_among(entry_def, n)[k].raw < n,
        store.records[store.roots_among(entry_def, n)[k].raw as int].entry_def == entry_def,
    decreases n,
{
    if n > 0 {
        if k < store.roots_among(entry_def, n - 1).len() {
            listed_root_is_a_record(store, entry_def, n - 1, k);
        }
    }
}

/// The records of one type are listed in the order in which they were
/// created: identities further down a listing are greater.
pub proof fn roots_are_in_creation_order<T>(store: StoreState<T>, entry_def: Seq<char>, n: int, i: int, j: int)
    requires
        0 <= n <= store.records.len(),
        store.addressable(),
        0 <= i < j < store.roots_among(entry_def, n).len(),
    ensures
        store.roots_among(entry_def, n)[i].raw < store.roots_among(entry_def, n)[j].raw,
    decreases n,
{
    if n > 0 {
        if j < store.roots_among(entry_def, n - 1).len() {
            roots_are_in_creation_order(store, entry_def, n - 1, i, j);
        } else {
            listed_root_is_a_record(store, entry_def, n - 1, i);
        }
    }
}

/// A read never ends at a dangling pointer: what an address resolves to is
/// the newest version of a record, that version was written, and it is live.
pub proof fn resolved_head_is_live<T>(store: StoreState<T>, address: RecordAddress)
    requires
        store.addressable(),
        store.resolve(address) is Some,
    ensures
        ({
            let head = store.resolve(address)->Some_0;
            &&& store.has_revision(head)
            &&& store.can_delete(head)
            &&& head == store.head(head.record as int)
            &&& store.resolve(RecordAddress::Revision(head)) == Some(head)
            &&& address matches RecordAddress::Identity(identity) ==> head.record == identity.raw
            &&& address matches RecordAddress::Revision(revision) ==> head.record == revision.record
                && head.version >= revision.version
        }),
{
    let start = store.start_of(address)->Some_0;
    let head = store.resolve(address)->Some_0;
    assert(store.live_from(start.record as int, start.version as int));
    assert(!store.records[head.record as int].versions[head.version as int].deleted);
}

/// Writes to one record leave the others alone: creating a record, appending
/// to a record and deleting a version of a record change what no address of
/// another record resolves to, nor what is read there.
pub proof fn other_records_are_untouched<T>(
    store: StoreState<T>,
    entry_def: Seq<char>,
    payload: T,
    written: RevisionPointer,
    read_def: Seq<char>,
    address: RecordAddress,
)
    requires
        store.addressable(),
        store.records.len() < u64::MAX,
        store.has_revision(written),
        store.start_of(address) is Some,
        store.start_of(address)->Some_0.record != written.record,
    ensures
        store.created(entry_def, payload).read(read_def, address) == store.read(read_def, address),
        store.appended(written.record as int, payload).read(read_def, address) == store.read(read_def, address),
        store.deleted_at(written).read(read_def, address) == store.read(read_def, address),
{
    let start = store.start_of(address)->Some_0;
    let r = start.record as int;
    let created = store.created(entry_def, payload);
    let appended = store.appended(written.record as int, payload);
    let deleted = store.deleted_at(written);
    assert(created.records[r] == store.records[r]);
    assert(appended.records[r] == store.records[r]);
    assert(deleted.records[r] == store.records[r]);
    assert(created.start_of(address) == Some(start));
    assert(appended.start_of(address) == Some(start));
    assert(deleted.start_of(address) == Some(start));
    assert(created.live_from(r, start.version as int) == store.live_from(r, start.version as int));
    assert(appended.live_from(r, start.version as int) == store.live_from(r, start.version as int));
    assert(deleted.live_from(r, start.version as int) == store.live_from(r, start.version as int));
}

/// A listing only grows as more records are taken in: what the first `n`
/// records list stays at the front of what the first `m` list.
pub proof fn roots_grow_at_the_end<T>(store: StoreState<T>, entry_def: Seq<char>, n: int, m: int, k: int)
    requires
        0 <= n <= m <= store.records.len(),
        0 <= k < store.roots_among(entry_def, n).len(),
    ensures
        store.roots_among(entry_def, n).len() <= store.roots_among(entry_def, m).len(),
        store.roots_among(entry_def, m)[k] == store.roots_among(entry_def, n)[k],
    decreases m - n,
{
    if n < m {
        roots_grow_at_the_end(store, entry_def, n, m - 1, k);
    }
}

/// The walk and the listing agree: the record that a walk yields next from
/// position `from` is the one that the listing of all records holds right
/// behind those that lie before `from`.
pub proof fn walk_follows_the_listing<T>(store: StoreState<T>, entry_def: Seq<char>, from: int)
    requires
        0 <= from <= store.records.len(),
        store.addressable(),
    ensures
        ({
            let at = store.next_root_from(entry_def, from);
            let passed = store.roots_among(entry_def, from).len() as int;
            &&& from <= at <= store.records.len()
            &&& at < store.records.len() ==> passed < store.roots(entry_def).len() && store.roots(entry_def)[passed]
                == (IdentityAddress { raw: at as u64 })
            &&& at == store.records.len() ==> store.roots(entry_def).len() == passed
        }),
    decreases store.records.len() - from,
{
    if from < store.records.len() {
        if store.records[from].entry_def == entry_def {
            let listed = store.roots_among(entry_def, from + 1);
            assert(listed == store.roots_among(entry_def, from).push(IdentityAddress { raw: from as u64 }));
            roots_grow_at_the_end(
                store,
                entry_def,
                from + 1,
                store.records.len() as int,
                store.roots_among(entry_def, from).len() as int,
            );
        } else {
            assert(store.roots_among(entry_def, from + 1) == store.roots_among(entry_def, from));
            walk_follows_the_listing(store, entry_def, from + 1);
        }
    }
}

/// Round trip: a record that was just created is read back through its
/// identity address as the first version that was written.
pub proof fn created_record_reads_back<T>(store: StoreState<T>, entry_def: Seq<char>, payload: T)
    requires
        store.addressable(),
        store.records.len() < u64::MAX,
    ensures
        ({
            let identity = IdentityAddress { raw: store.records.len() as u64 };
            let first = RevisionPointer { record: identity.raw, version: 0 };
            store.created(entry_def, payload).read(entry_def, RecordAddress::Identity(identity)) == Ok::<
                (RevisionPointer, IdentityAddress, T),
                DataIntegrityError,
            >((first, identity, payload))
        }),
{
}

/// Optimistic concurrency: of two updates that name the same prior revision,
/// the one that comes second finds the head moved and is refused with
/// `RevisionMismatch`, whatever the first one wrote.
pub proof fn second_update_of_same_revision_is_refused<T>(
    store: StoreState<T>,
    entry_def: Seq<char>,
    prior: RevisionPointer,
    first_written: T,
)
    requires
        store.addressable(),
        store.check_update(entry_def, prior) is Ok,
        prior.version < u64::MAX - 1,
    ensures
        store.appended(prior.record as int, first_written).check_update(entry_def, prior) == Err::<
            (),
            DataIntegrityError,
        >(DataIntegrityError::RevisionMismatch),
{
}

/// What `RevisionMismatch` means: an update is refused with it exactly
/// where the revision that it names was written, is live and of the expected
/// type, and is no longer the newest of its record.
pub proof fn revision_mismatch_means_a_stale_revision<T>(store: StoreState<T>, entry_def: Seq<char>, prior: RevisionPointer)
    requires
        store.addressable(),
    ensures
        store.check_update(entry_def, prior) == Err::<(), DataIntegrityError>(
            DataIntegrityError::RevisionMismatch,
        ) <==> {
            &&& store.can_delete(prior)
            &&& store.records[prior.record as int].entry_def == entry_def
            &&& prior.version + 1 < store.records[prior.record as int].versions.len()
        },
{
}

/// Deleting twice: once a revision is deleted, deleting it again is refused.
pub proof fn deleted_revision_cannot_be_deleted_again<T>(store: StoreState<T>, revision: RevisionPointer)
    requires
        store.can_delete(revision),
    ensures
        !store.deleted_at(revision).can_delete(revision),
        store.deleted_at(revision).resolve(RecordAddress::Revision(revision)) is None,
{
    let after = store.deleted_at(revision);
    assert(after.records[revision.record as int].versions[revision.version as int].deleted);
}

/// Identity stability: however many updates follow one another on a record,
/// each one against the head of the moment, the record keeps its identity
/// address, every update is accepted, and every one moves the head to a
/// pointer that was not in use before. The pointer that the first update named
/// still resolves, to the newest head.
pub proof fn identity_survives_updates<T>(
    store: StoreState<T>,
    entry_def: Seq<char>,
    prior: RevisionPointer,
    payloads: Seq<T>,
)
    requires
        store.addressable(),
        store.check_update(entry_def, prior) is Ok,
        prior.version + payloads.len() < u64::MAX,
    ensures
        ({
            let end = store.after_updates(prior.record as int, payloads);
            let head = RevisionPointer {
                record: prior.record,
                version: (prior.version + payloads.len()) as u64,
            };
            &&& end.records.len() == store.records.len()
            &&& end.head(prior.record as int) == head
            &&& end.check_update(entry_def, head) is Ok
            &&& end.resolve(RecordAddress::Revision(prior)) == Some(head)
            &&& payloads.len() > 0 ==> head != prior && !store.has_revision(head) && end.payload_at(head)
                == payloads.last()
            &&& end.read(entry_def, RecordAddress::Revision(prior)) matches Ok((revision, identity, _))
            &&& revision == head
            &&& identity == (IdentityAddress { raw: prior.record })
        }),
    decreases payloads.len(),
{
    if payloads.len() > 0 {
        let next = store.appended(prior.record as int, payloads[0]);
        let moved = RevisionPointer { record: prior.record, version: (prior.version + 1) as u64 };
        let rest = payloads.drop_first();
        assert forall|r: int| 0 <= r < next.records.len() implies (#[trigger] next.records[r]).versions.len()
            <= u64::MAX by {
            if r != prior.record {
                assert(next.records[r] == store.records[r]);
            }
        }
        assert(next.check_update(entry_def, moved) is Ok);
        identity_survives_updates(next, entry_def, moved, rest);
        let end = next.after_updates(prior.record as int, rest);
        let head = RevisionPointer { record: prior.record, version: (prior.version + payloads.len()) as u64 };
        assert(end.live_from(prior.record as int, prior.version as int)) by {
            assert(end.resolve(RecordAddress::Revision(moved)) == Some(head));
            assert(end.live_from(moved.record as int, moved.version as int));
            appended_versions_are_kept(next, prior.record as int, rest, prior.version as int);
        }
        if rest.len() > 0 {
            assert(rest.last() == payloads.last());
        } else {
            assert(end == next);
        }
    } else {
        assert(store.live_from(prior.record as int, prior.version as int));
    }
}

/// Appending to a record changes none of the versions that it already had.
pub proof fn appended_versions_are_kept<T>(store: StoreState<T>, record: int, payloads: Seq<T>, k: int)
    requires
        0 <= record < store.records.len(),
        0 <= k < store.records[record].versions.len(),
    ensures
        ({
            let end = store.after_updates(record, payloads);
            &&& end.records.len() == store.records.len()
            &&& end.entry_defs == store.entry_defs
            &&& end.records[record].entry_def == store.records[record].entry_def
            &&& end.records[record].versions.len() == store.records[record].versions.len() + payloads.len()
            &&& end.records[record].versions[k] == store.records[record].versions[k]
        }),
    decreases payloads.len(),
{
    if payloads.len() > 0 {
        appended_versions_are_kept(store.appended(record, payloads[0]), record, payloads.drop_first(), k);
    }
}

} // verus!
