//! The record store: versioned entries, each chain anchored at one identity.

pub mod laws;

use vstd::prelude::*;
use crate::errors::DataIntegrityError;
use crate::identity::{IdentityAddress, RecordAddress, RevisionPointer};

verus! {

/// How an update payload turns the stored entry into its successor.
pub trait Updateable<U>: Sized {
    /// Whether `result` is what `self` becomes under `update`.
    spec fn updated_by(&self, update: &U, result: &Self) -> bool;

    /// The successor of `self` under `update`.
    fn update_with(&self, update: &U) -> (result: Self)
        ensures
            self.updated_by(update, &result),
    ;
}

/// One version of a record's content.
pub struct Version<T> {
    pub payload: T,
    pub deleted: bool,
}

/// The versions of one record, oldest first, with the record's entry type.
pub struct RecordState<T> {
    pub entry_def: Seq<char>,
    pub versions: Seq<Version<T>>,
}

/// What a store holds: the entry types it accepts, and its records in the
/// order of their creation. A record's position is its identity address.
pub struct StoreState<T> {
    pub entry_defs: Seq<Seq<char>>,
    pub records: Seq<RecordState<T>>,
}

impl<T> StoreState<T> {
    /// Whether the store accepts entries of this type.
    pub open spec fn is_registered(self, entry_def: Seq<char>) -> bool {
        self.entry_defs.contains(entry_def)
    }

    /// Whether a version was ever written under this pointer.
    pub open spec fn has_revision(self, revision: RevisionPointer) -> bool {
        &&& revision.record < self.records.len()
        &&& revision.version < self.records[revision.record as int].versions.len()
    }

    /// Whether no version of the record from position `from` on was deleted.
    pub open spec fn live_from(self, record: int, from: int) -> bool {
        forall|k: int|
            from <= k < self.records[record].versions.len()
                ==> !(#[trigger] self.records[record].versions[k]).deleted
    }

    /// The pointer of the newest version of a record.
    pub open spec fn head(self, record: int) -> RevisionPointer {
        RevisionPointer {
            record: record as u64,
            version: (self.records[record].versions.len() - 1) as u64,
        }
    }

    /// The version at which following the chain from `address` starts.
    pub open spec fn start_of(self, address: RecordAddress) -> Option<RevisionPointer> {
        match address {
            RecordAddress::Identity(identity) => {
                let first = RevisionPointer { record: identity.raw, version: 0 };
                if self.has_revision(first) {
                    Some(first)
                } else {
                    None
                }
            },
            RecordAddress::Revision(revision) => {
                if self.has_revision(revision) {
                    Some(revision)
                } else {
                    None
                }
            },
        }
    }

    /// The head that `address` resolves to: the newest version of its record,
    /// reached by following the chain forward over versions that are all
    /// live.
    pub open spec fn resolve(self, address: RecordAddress) -> Option<RevisionPointer> {
        match self.start_of(address) {
            None => None,
            Some(start) => {
                if self.live_from(start.record as int, start.version as int) {
                    Some(self.head(start.record as int))
                } else {
                    None
                }
            },
        }
    }

    /// The payload stored under a pointer.
    pub open spec fn payload_at(self, revision: RevisionPointer) -> T
        recommends
            self.has_revision(revision),
    {
        self.records[revision.record as int].versions[revision.version as int].payload
    }

    /// What a read of `address` as an entry of type `entry_def` gives.
    pub open spec fn read(self, entry_def: Seq<char>, address: RecordAddress) -> Result<
        (RevisionPointer, IdentityAddress, T),
        DataIntegrityError,
    > {
        match self.resolve(address) {
            None => Err(DataIntegrityError::EntryNotFound),
            Some(head) => {
                if self.records[head.record as int].entry_def != entry_def {
                    Err(DataIntegrityError::DeserializationError)
                } else {
                    Ok((head, IdentityAddress { raw: head.record }, self.payload_at(head)))
                }
            },
        }
    }

    /// The store after a record of type `entry_def` was created from `payload`.
    pub open spec fn created(self, entry_def: Seq<char>, payload: T) -> Self {
        StoreState {
            entry_defs: self.entry_defs,
            records: self.records.push(
                RecordState { entry_def, versions: seq![Version { payload, deleted: false }] },
            ),
        }
    }

    /// Whether an update that names `prior` as the current revision is
    /// accepted, and if not, why.
    pub open spec fn check_update(self, entry_def: Seq<char>, prior: RevisionPointer) -> Result<
        (),
        DataIntegrityError,
    > {
        if !self.has_revision(prior) || self.records[prior.record as int].versions[prior.version as int].deleted {
            Err(DataIntegrityError::EntryNotFound)
        } else if self.records[prior.record as int].entry_def != entry_def {
            Err(DataIntegrityError::DeserializationError)
        } else if prior != self.head(prior.record as int) {
            Err(DataIntegrityError::RevisionMismatch)
        } else {
            Ok(())
        }
    }

    /// The store after `payload` was appended to a record as its new head.
    pub open spec fn appended(self, record: int, payload: T) -> Self
        recommends
            0 <= record < self.records.len(),
    {
        let old_record = self.records[record];
        StoreState {
            entry_defs: self.entry_defs,
            records: self.records.update(
                record,
                RecordState {
                    entry_def: old_record.entry_def,
                    versions: old_record.versions.push(Version { payload, deleted: false }),
                },
            ),
        }
    }

    /// Whether the version under `revision` can be deleted.
    pub open spec fn can_delete(self, revision: RevisionPointer) -> bool {
        &&& self.has_revision(revision)
        &&& !self.records[revision.record as int].versions[revision.version as int].deleted
    }

    /// The store after the version under `revision` was marked deleted.
    pub open spec fn deleted_at(self, revision: RevisionPointer) -> Self
        recommends
            self.has_revision(revision),
    {
        let old_record = self.records[revision.record as int];
        let old_version = old_record.versions[revision.version as int];
        StoreState {
            entry_defs: self.entry_defs,
            records: self.records.update(
                revision.record as int,
                RecordState {
                    entry_def: old_record.entry_def,
                    versions: old_record.versions.update(
                        revision.version as int,
                        Version { payload: old_version.payload, deleted: true },
                    ),
                },
            ),
        }
    }

    /// Whether every record and every version has a position that fits an
    /// address. This holds of what any store holds.
    pub open spec fn addressable(self) -> bool {
        &&& self.records.len() <= u64::MAX
        &&& forall|r: int|
            0 <= r < self.records.len() ==> (#[trigger] self.records[r]).versions.len() <= u64::MAX
    }

    /// The store after each of `payloads` in turn was appended to a record.
    pub open spec fn after_updates(self, record: int, payloads: Seq<T>) -> Self
        decreases payloads.len(),
    {
        if payloads.len() == 0 {
            self
        } else {
            self.appended(record, payloads[0]).after_updates(record, payloads.drop_first())
        }
    }

    /// The position of the first record of type `entry_def` at or after
    /// `from`, or the number of records where there is none.
    pub open spec fn next_root_from(self, entry_def: Seq<char>, from: int) -> int
        decreases self.records.len() - from,
    {
        if from < 0 || from >= self.records.len() {
            self.records.len() as int
        } else if self.records[from].entry_def == entry_def {
            from
        } else {
            self.next_root_from(entry_def, from + 1)
        }
    }

    /// The identities of the first `n` records that are of type `entry_def`,
    /// in the order of their creation.
    pub open spec fn roots_among(self, entry_def: Seq<char>, n: int) -> Seq<IdentityAddress>
        recommends
            0 <= n <= self.records.len(),
        decreases n,
    {
        if n <= 0 {
            Seq::empty()
        } else if self.records[n - 1].entry_def == entry_def {
            self.roots_among(entry_def, n - 1).push(IdentityAddress { raw: (n - 1) as u64 })
        } else {
            self.roots_among(entry_def, n - 1)
        }
    }

    /// The identities of all records of type `entry_def`.
    pub open spec fn roots(self, entry_def: Seq<char>) -> Seq<IdentityAddress> {
        self.roots_among(entry_def, self.records.len() as int)
    }
}

/// One record as stored.
struct Record<T> {
    entry_def: String,
    versions: Vec<Version<T>>,
}

impl<T> View for Record<T> {
    type V = RecordState<T>;

    closed spec fn view(&self) -> RecordState<T> {
        RecordState { entry_def: self.entry_def@, versions: self.versions@ }
    }
}

/// A store of versioned records with payloads of type `T`.
pub struct RecordStore<T> {
    entry_defs: Vec<String>,
    records: Vec<Record<T>>,
}

impl<T> View for RecordStore<T> {
    type V = StoreState<T>;

    closed spec fn view(&self) -> StoreState<T> {
        StoreState {
            entry_defs: self.entry_defs@.map_values(|d: String| d@),
            records: self.records@.map_values(|r: Record<T>| r@),
        }
    }
}

/// A walk over the records of one type, oldest first. It yields one record
/// at a time, only moves forward, and ends.
pub struct RootQuery {
    entry_def: String,
    position: usize,
}

impl RootQuery {
    /// The entry type that the walk is over.
    pub closed spec fn entry_def(&self) -> Seq<char> {
        self.entry_def@
    }

    /// The position that the walk has reached: every record before it has
    /// been passed.
    pub closed spec fn position(&self) -> nat {
        self.position as nat
    }

    /// Starts a walk over the records of one type.
    pub fn new(entry_def: &str) -> (query: Self)
        ensures
            query.entry_def() == entry_def@,
            query.position() == 0,
    {
        RootQuery { entry_def: entry_def.to_owned(), position: 0 }
    }
}

impl<T> RecordStore<T> {
    /// An empty store that accepts entries of the given types.
    pub fn new(entry_defs: Vec<String>) -> (store: Self)
        ensures
            store@.entry_defs == entry_defs@.map_values(|d: String| d@),
            store@.records.len() == 0,
    {
        RecordStore { entry_defs, records: Vec::new() }
    }

    /// Whether the store accepts entries of this type.
    pub fn accepts(&self, entry_def: &str) -> (known: bool)
        ensures
            known == self@.is_registered(entry_def@),
    {
        let wanted = entry_def.to_owned();
        let mut i: usize = 0;
        while i < self.entry_defs.len()
            invariant
                i <= self.entry_defs.len(),
                wanted@ == entry_def@,
                forall|k: int| 0 <= k < i ==> self.entry_defs@[k]@ != entry_def@,
            decreases self.entry_defs.len() - i,
        {
            if self.entry_defs[i] == wanted {
                assert(self@.entry_defs[i as int] == entry_def@);
                return true;
            }
            i = i + 1;
        }
        false
    }

    /// The view, record by record.
    proof fn view_facts(&self)
        ensures
            self@.records.len() == self.records@.len(),
            self@.entry_defs.len() == self.entry_defs@.len(),
            forall|i: int|
                0 <= i < self.records@.len() ==> {
                    &&& (#[trigger] self@.records[i]).entry_def == self.records@[i].entry_def@
                    &&& self@.records[i].versions == self.records@[i].versions@
                },
            forall|i: int|
                0 <= i < self.entry_defs@.len() ==> #[trigger] self@.entry_defs[i] == self.entry_defs@[i]@,
    {
    }

    /// The number of records ever created.
    pub fn record_count(&self) -> (n: usize)
        ensures
            n == self@.records.len(),
    {
        self.records.len()
    }

    /// The version at which following the chain from `address` starts.
    fn locate(&self, address: &RecordAddress) -> (start: Option<RevisionPointer>)
        ensures
            start == self@.start_of(*address),
            start matches Some(found) ==> found.record < self.records.len() && found.version
                < self.records[found.record as int].versions.len(),
    {
        let wanted = match address {
            RecordAddress::Identity(identity) => RevisionPointer { record: identity.raw, version: 0 },
            RecordAddress::Revision(revision) => *revision,
        };
        proof {
            self.view_facts();
        }
        if wanted.record >= self.records.len() as u64 {
            return None;
        }
        let record = &self.records[wanted.record as usize];
        if wanted.version >= record.versions.len() as u64 {
            return None;
        }
        Some(wanted)
    }

    /// Resolves an identity address or a revision pointer to the head of its
    /// record, or to nothing where the chain from it is broken by a deletion.
    pub fn resolve_head(&self, address: &RecordAddress) -> (head: Option<RevisionPointer>)
        ensures
            head == self@.resolve(*address),
    {
        self.find_head(address)
    }

    #[verifier::loop_isolation(false)]
    fn find_head(&self, address: &RecordAddress) -> (head: Option<RevisionPointer>)
        ensures
            head == self@.resolve(*address),
            head matches Some(found) ==> found.record < self.records.len() && found.version
                < self.records[found.record as int].versions.len(),
    {
        proof {
            self.view_facts();
        }
        match self.locate(address) {
            None => None,
            Some(start) => {
                let record = &self.records[start.record as usize];
                let count = record.versions.len();
                let mut k: usize = start.version as usize;
                while k < count
                    invariant
                        start.version <= k <= count,
                        count == record.versions@.len(),
                        record.versions@ == self@.records[start.record as int].versions,
                        forall|j: int| start.version <= j < k ==> !(#[trigger] record.versions@[j]).deleted,
                    decreases count - k,
                {
                    if record.versions[k].deleted {
                        assert(self@.records[start.record as int].versions[k as int].deleted);
                        return None;
                    }
                    k = k + 1;
                }
                Some(RevisionPointer { record: start.record, version: (count - 1) as u64 })
            },
        }
    }

    /// The pointer of the newest version of the record with this identity.
    pub fn get_latest_header_hash(&self, identity: IdentityAddress) -> (head: Result<
        RevisionPointer,
        DataIntegrityError,
    >)
        ensures
            head == match self@.resolve(RecordAddress::Identity(identity)) {
                Some(pointer) => Ok::<RevisionPointer, DataIntegrityError>(pointer),
                None => Err(DataIntegrityError::EntryNotFound),
            },
    {
        match self.resolve_head(&RecordAddress::Identity(identity)) {
            Some(pointer) => Ok(pointer),
            None => Err(DataIntegrityError::EntryNotFound),
        }
    }

    /// Reads the newest version of a record without copying it.
    pub fn peek_record_entry(&self, entry_def: &str, address: &RecordAddress) -> (found: Result<
        (RevisionPointer, IdentityAddress, &T),
        DataIntegrityError,
    >)
        ensures
            match self@.read(entry_def@, *address) {
                Ok((revision, identity, payload)) => found == Ok::<
                    (RevisionPointer, IdentityAddress, &T),
                    DataIntegrityError,
                >((revision, identity, &payload)),
                Err(e) => found == Err::<(RevisionPointer, IdentityAddress, &T), DataIntegrityError>(e),
            },
    {
        proof {
            self.view_facts();
        }
        match self.find_head(address) {
            None => Err(DataIntegrityError::EntryNotFound),
            Some(head) => {
                let record = &self.records[head.record as usize];
                let wanted = entry_def.to_owned();
                if record.entry_def != wanted {
                    Err(DataIntegrityError::DeserializationError)
                } else {
                    Ok((head, IdentityAddress { raw: head.record }, &record.versions[head.version as usize].payload))
                }
            },
        }
    }

    /// Marks the version under `revision` deleted, which ends its record's
    /// chain there. Nothing else is removed.
    pub fn delete_record(&mut self, revision: &RevisionPointer) -> (deleted: Result<
        bool,
        DataIntegrityError,
    >)
        ensures
            old(self)@.can_delete(*revision) ==> {
                &&& final(self)@ == old(self)@.deleted_at(*revision)
                &&& deleted == Ok::<bool, DataIntegrityError>(true)
            },
            !old(self)@.can_delete(*revision) ==> {
                &&& final(self)@ == old(self)@
                &&& deleted == Err::<bool, DataIntegrityError>(DataIntegrityError::EntryNotFound)
            },
    {
        proof {
            self.view_facts();
        }
        match self.locate(&RecordAddress::Revision(*revision)) {
            None => Err(DataIntegrityError::EntryNotFound),
            Some(at) => {
                let r: usize = at.record as usize;
                let k: usize = at.version as usize;
                if self.records[r].versions[k].deleted {
                    return Err(DataIntegrityError::EntryNotFound);
                }
                self.records[r].versions[k].deleted = true;
                proof {
                    self.view_facts();
                    assert(self@.records[r as int].versions =~= old(self)@.deleted_at(*revision).records[r as int].versions);
                    assert(self@.records =~= old(self)@.deleted_at(*revision).records);
                }
                Ok(true)
            },
        }
    }

    /// Every position in a store fits an address.
    pub proof fn view_is_addressable(&self)
        ensures
            self@.addressable(),
    {
        self.view_facts();
        assert forall|r: int| 0 <= r < self@.records.len() implies (#[trigger] self@.records[r]).versions.len()
            <= u64::MAX by {
            assert(self@.records[r].versions == self.records@[r].versions@);
            assert(self.records@[r].versions.len() <= usize::MAX);
        }
        assert(self.records.len() <= usize::MAX);
    }
}

/// Whether `got` is the outcome `expected` of a read, with the payload copied.
pub open spec fn is_copy_of<T: Clone>(
    expected: Result<(RevisionPointer, IdentityAddress, T), DataIntegrityError>,
    got: Result<(RevisionPointer, IdentityAddress, T), DataIntegrityError>,
) -> bool {
    match expected {
        Ok((revision, identity, payload)) => {
            &&& got matches Ok((got_revision, got_identity, got_payload))
            &&& got_revision == revision
            &&& got_identity == identity
            &&& cloned::<T>(payload, got_payload)
        },
        Err(e) => got == Err::<(RevisionPointer, IdentityAddress, T), DataIntegrityError>(e),
    }
}

impl<T: Clone> RecordStore<T> {
    /// Writes a new record and returns the pointer of its first version, its
    /// identity address and the stored entry. The store refuses an entry of a
    /// type that it was not set up for.
    pub fn create_record(&mut self, entry_def: &str, payload: T) -> (created: Result<
        (RevisionPointer, IdentityAddress, T),
        DataIntegrityError,
    >)
        ensures
            old(self)@.is_registered(entry_def@) ==> {
                &&& final(self)@ == old(self)@.created(entry_def@, payload)
                &&& created matches Ok((revision, identity, entry))
                &&& revision == (RevisionPointer { record: old(self)@.records.len() as u64, version: 0 })
                &&& identity == (IdentityAddress { raw: old(self)@.records.len() as u64 })
                &&& cloned::<T>(payload, entry)
            },
            !old(self)@.is_registered(entry_def@) ==> {
                &&& final(self)@ == old(self)@
                &&& created == Err::<(RevisionPointer, IdentityAddress, T), DataIntegrityError>(
                    DataIntegrityError::IntegrityError,
                )
            },
    {
        if !self.accepts(entry_def) {
            return Err(DataIntegrityError::IntegrityError);
        }
        proof {
            self.view_facts();
        }
        let entry = payload.clone();
        let position: u64 = self.records.len() as u64;
        let mut versions: Vec<Version<T>> = Vec::new();
        versions.push(Version { payload, deleted: false });
        self.records.push(Record { entry_def: entry_def.to_owned(), versions });
        proof {
            self.view_facts();
            assert(versions@ =~= seq![Version { payload, deleted: false }]);
            assert(self@.records =~= old(self)@.created(entry_def@, payload).records);
        }
        Ok((RevisionPointer { record: position, version: 0 }, IdentityAddress { raw: position }, entry))
    }

    /// Reads the newest version of the record that `address` belongs to.
    pub fn read_record_entry(&self, entry_def: &str, address: &RecordAddress) -> (found: Result<
        (RevisionPointer, IdentityAddress, T),
        DataIntegrityError,
    >)
        ensures
            is_copy_of(self@.read(entry_def@, *address), found),
    {
        match self.peek_record_entry(entry_def, address) {
            Ok((revision, identity, payload)) => Ok((revision, identity, payload.clone())),
            Err(e) => Err(e),
        }
    }

    /// Appends a new version to a record. The caller names the revision that
    /// it believes to be current; where that is no longer the head, nothing is
    /// written. Returns the new pointer, the unchanged identity, the new entry
    /// and the entry that it replaces.
    pub fn update_record<U>(
        &mut self,
        entry_def: &str,
        prior: &RevisionPointer,
        update: &U,
    ) -> (updated: Result<(RevisionPointer, IdentityAddress, T, T), DataIntegrityError>) where
        T: Updateable<U>,

        ensures
            match old(self)@.check_update(entry_def@, *prior) {
                Err(e) => {
                    &&& final(self)@ == old(self)@
                    &&& updated == Err::<(RevisionPointer, IdentityAddress, T, T), DataIntegrityError>(e)
                },
                Ok(()) => {
                    &&& updated matches Ok((revision, identity, new_entry, prior_entry))
                    &&& revision.record == prior.record
                    &&& revision.version == prior.version + 1
                    &&& identity == (IdentityAddress { raw: prior.record })
                    &&& final(self)@ == old(self)@.appended(prior.record as int, final(self)@.payload_at(revision))
                    &&& old(self)@.payload_at(*prior).updated_by(update, &final(self)@.payload_at(revision))
                    &&& cloned::<T>(final(self)@.payload_at(revision), new_entry)
                    &&& cloned::<T>(old(self)@.payload_at(*prior), prior_entry)
                },
            },
    {
        proof {
            self.view_facts();
        }
        match self.locate(&RecordAddress::Revision(*prior)) {
            None => Err(DataIntegrityError::EntryNotFound),
            Some(at) => {
                let r: usize = at.record as usize;
                let k: usize = at.version as usize;
                let wanted = entry_def.to_owned();
                if self.records[r].versions[k].deleted {
                    return Err(DataIntegrityError::EntryNotFound);
                }
                if self.records[r].entry_def != wanted {
                    return Err(DataIntegrityError::DeserializationError);
                }
                if k + 1 != self.records[r].versions.len() {
                    return Err(DataIntegrityError::RevisionMismatch);
                }
                let prior_entry = self.records[r].versions[k].payload.clone();
                let successor = self.records[r].versions[k].payload.update_with(update);
                let new_entry = successor.clone();
                self.records[r].versions.push(Version { payload: successor, deleted: false });
                let revision = RevisionPointer { record: at.record, version: (k + 1) as u64 };
                proof {
                    self.view_facts();
                    let after = old(self)@.appended(prior.record as int, successor);
                    assert(self@.records[r as int].versions =~= after.records[r as int].versions);
                    assert(self@.records =~= after.records);
                }
                Ok((revision, IdentityAddress { raw: at.record }, new_entry, prior_entry))
            },
        }
    }

    /// Every record of type `entry_def`, oldest first, each read through its
    /// identity. A record that cannot be read yields its error in place and
    /// does not stop the listing.
    pub fn query_root_index(&self, entry_def: &str) -> (listing: Vec<
        Result<(RevisionPointer, IdentityAddress, T), DataIntegrityError>,
    >)
        ensures
            listing@.len() == self@.roots(entry_def@).len(),
            forall|k: int|
                0 <= k < listing@.len() ==> is_copy_of(
                    self@.read(entry_def@, RecordAddress::Identity(self@.roots(entry_def@)[k])),
                    #[trigger] listing@[k],
                ),
    {
        proof {
            self.view_facts();
        }
        let wanted = entry_def.to_owned();
        let mut listing: Vec<Result<(RevisionPointer, IdentityAddress, T), DataIntegrityError>> = Vec::new();
        let mut i: usize = 0;
        while i < self.records.len()
            invariant
                i <= self.records.len(),
                wanted@ == entry_def@,
                self@.records.len() == self.records@.len(),
                forall|j: int|
                    0 <= j < self.records@.len() ==> (#[trigger] self@.records[j]).entry_def
                        == self.records@[j].entry_def@,
                listing@.len() == self@.roots_among(entry_def@, i as int).len(),
                forall|k: int|
                    0 <= k < listing@.len() ==> is_copy_of(
                        self@.read(
                            entry_def@,
                            RecordAddress::Identity(self@.roots_among(entry_def@, i as int)[k]),
                        ),
                        #[trigger] listing@[k],
                    ),
            decreases self.records.len() - i,
        {
            if self.records[i].entry_def == wanted {
                let root = RecordAddress::Identity(IdentityAddress { raw: i as u64 });
                let item = self.read_record_entry(entry_def, &root);
                listing.push(item);
            }
            i = i + 1;
        }
        listing
    }

    /// The next record of the walk, read through its identity, or nothing
    /// where the walk is over. A record that cannot be read yields its error
    /// and the walk goes on behind it.
    pub fn next_root(&self, query: &mut RootQuery) -> (item: Option<
        Result<(RevisionPointer, IdentityAddress, T), DataIntegrityError>,
    >)
        ensures
            final(query).entry_def() == old(query).entry_def(),
            ({
                let at = self@.next_root_from(old(query).entry_def(), old(query).position() as int);
                if at < self@.records.len() {
                    &&& final(query).position() == at + 1
                    &&& item matches Some(found)
                    &&& is_copy_of(
                        self@.read(
                            old(query).entry_def(),
                            RecordAddress::Identity(IdentityAddress { raw: at as u64 }),
                        ),
                        found,
                    )
                } else {
                    &&& item is None
                    &&& final(query).position() >= old(query).position()
                    &&& final(query).position() >= self@.records.len()
                }
            }),
    {
        proof {
            self.view_facts();
        }
        let mut i: usize = query.position;
        while i < self.records.len()
            invariant
                query.position <= i,
                *query == *old(query),
                self@.records.len() == self.records@.len(),
                forall|j: int|
                    0 <= j < self.records@.len() ==> (#[trigger] self@.records[j]).entry_def
                        == self.records@[j].entry_def@,
                self@.next_root_from(query.entry_def@, query.position as int) == self@.next_root_from(
                    query.entry_def@,
                    i as int,
                ),
            decreases self.records.len() - i,
        {
            if self.records[i].entry_def == query.entry_def {
                let root = RecordAddress::Identity(IdentityAddress { raw: i as u64 });
                let found = self.read_record_entry(query.entry_def.as_str(), &root);
                query.position = i + 1;
                return Some(found);
            }
            i = i + 1;
        }
        query.position = i;
        None
    }
}

} // verus!
