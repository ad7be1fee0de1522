//! Index pairs: an edge and the edge back, within one partition or across
//! two. Across two the pair is written in two steps that are not one
//! transaction, and the state in between is a result of its own.

use vstd::prelude::*;
use crate::errors::DataIntegrityError;
use crate::identity::IdentityAddress;
use crate::indexes::{
    copy_addresses, difference, forward_edges, reciprocal_edges, EdgeState, IndexDiff, IndexStore,
};
use crate::rpc::{description, CrossCellError};

verus! {

/// What one side of an index pair asks of the other: to link each of
/// `target_entries` to `remote_entry`, and to unlink each of
/// `removed_entries` from it, by edges of the given type and tag.
#[derive(Debug, PartialEq, Eq)]
pub struct RemoteIndexRequest {
    pub link_type: String,
    pub link_tag: String,
    pub remote_entry: IdentityAddress,
    pub target_entries: Vec<IdentityAddress>,
    pub removed_entries: Vec<IdentityAddress>,
}

/// What the other side did: for each entry of the request, in order, whether
/// an edge was written, and whether one was taken away.
#[derive(Debug, PartialEq, Eq)]
pub struct RemoteIndexResponse {
    pub indexes_created: Vec<bool>,
    pub indexes_removed: Vec<bool>,
}

/// Whether `request` asks to link `targets` back to `source` by edges of the
/// reciprocal type and tag, and to unlink nothing.
pub open spec fn is_link_request(
    request: RemoteIndexRequest,
    source: IdentityAddress,
    reciprocal_type: Seq<char>,
    reciprocal_tag: Seq<char>,
    targets: Seq<IdentityAddress>,
) -> bool {
    &&& request.link_type@ == reciprocal_type
    &&& request.link_tag@ == reciprocal_tag
    &&& request.remote_entry == source
    &&& request.target_entries@ == targets
    &&& request.removed_entries@.len() == 0
}

/// Whether `result` reports the outcome of the remote half: its response
/// where it succeeded, and otherwise `RemoteRequestError` with the text of the
/// failure.
pub open spec fn is_reported(
    outcome: Result<RemoteIndexResponse, CrossCellError>,
    result: Result<RemoteIndexResponse, DataIntegrityError>,
) -> bool {
    match outcome {
        Ok(response) => result == Ok::<RemoteIndexResponse, DataIntegrityError>(response),
        Err(error) => {
            &&& result matches Err(DataIntegrityError::RemoteRequestError(text))
            &&& text@ == description(error)
        },
    }
}

impl IndexStore {
    /// The remote half of an index pair: links each target entry of the
    /// request back to the requesting record, and unlinks each removed entry
    /// from it.
    pub fn sync_index(&mut self, request: &RemoteIndexRequest) -> (response: RemoteIndexResponse)
        ensures
            final(self)@ == old(self)@.with_all(
                reciprocal_edges(
                    request.remote_entry,
                    request.link_type@,
                    request.link_tag@,
                    request.target_entries@,
                ),
            ).without_all(
                reciprocal_edges(
                    request.remote_entry,
                    request.link_type@,
                    request.link_tag@,
                    request.removed_entries@,
                ),
            ),
            response.indexes_created@.len() == request.target_entries@.len(),
            response.indexes_removed@.len() == request.removed_entries@.len(),
            forall|i: int|
                #![trigger response.indexes_created@[i]]
                0 <= i < request.target_entries@.len() ==> {
                    let linking = reciprocal_edges(
                        request.remote_entry,
                        request.link_type@,
                        request.link_tag@,
                        request.target_entries@,
                    );
                    response.indexes_created@[i] == !old(self)@.with_all(linking.take(i)).has_edge(linking[i])
                },
            forall|j: int|
                #![trigger response.indexes_removed@[j]]
                0 <= j < request.removed_entries@.len() ==> {
                    let linking = reciprocal_edges(
                        request.remote_entry,
                        request.link_type@,
                        request.link_tag@,
                        request.target_entries@,
                    );
                    let unlinking = reciprocal_edges(
                        request.remote_entry,
                        request.link_type@,
                        request.link_tag@,
                        request.removed_entries@,
                    );
                    response.indexes_removed@[j] == old(self)@.with_all(linking).without_all(
                        unlinking.take(j),
                    ).has_edge(unlinking[j])
                },
    {
        let ghost linking = reciprocal_edges(
            request.remote_entry,
            request.link_type@,
            request.link_tag@,
            request.target_entries@,
        );
        let ghost unlinking = reciprocal_edges(
            request.remote_entry,
            request.link_type@,
            request.link_tag@,
            request.removed_entries@,
        );
        let mut indexes_created: Vec<bool> = Vec::new();
        let mut i: usize = 0;
        while i < request.target_entries.len()
            invariant
                i <= request.target_entries.len(),
                linking == reciprocal_edges(
                    request.remote_entry,
                    request.link_type@,
                    request.link_tag@,
                    request.target_entries@,
                ),
                self@ == old(self)@.with_all(linking.take(i as int)),
                indexes_created@.len() == i,
                forall|k: int|
                    0 <= k < i ==> #[trigger] indexes_created@[k] == !old(self)@.with_all(
                        linking.take(k),
                    ).has_edge(linking[k]),
            decreases request.target_entries.len() - i,
        {
            proof {
                assert(linking.take(i + 1).drop_last() == linking.take(i as int));
                assert(linking.take(i + 1).last() == linking[i as int]);
            }
            let is_new = self.create_index(
                request.target_entries[i],
                request.link_type.as_str(),
                request.link_tag.as_str(),
                request.remote_entry,
            );
            indexes_created.push(is_new);
            i = i + 1;
        }
        assert(linking.take(linking.len() as int) == linking);
        let ghost linked = self@;
        let mut indexes_removed: Vec<bool> = Vec::new();
        let mut j: usize = 0;
        while j < request.removed_entries.len()
            invariant
                j <= request.removed_entries.len(),
                unlinking == reciprocal_edges(
                    request.remote_entry,
                    request.link_type@,
                    request.link_tag@,
                    request.removed_entries@,
                ),
                self@ == linked.without_all(unlinking.take(j as int)),
                indexes_removed@.len() == j,
                forall|k: int|
                    0 <= k < j ==> #[trigger] indexes_removed@[k] == linked.without_all(
                        unlinking.take(k),
                    ).has_edge(unlinking[k]),
            decreases request.removed_entries.len() - j,
        {
            proof {
                assert(unlinking.take(j + 1).drop_last() == unlinking.take(j as int));
                assert(unlinking.take(j + 1).last() == unlinking[j as int]);
            }
            let was_there = self.remove_index(
                request.removed_entries[j],
                request.link_type.as_str(),
                request.link_tag.as_str(),
                request.remote_entry,
            );
            indexes_removed.push(was_there);
            j = j + 1;
        }
        assert(unlinking.take(unlinking.len() as int) == unlinking);
        RemoteIndexResponse { indexes_created, indexes_removed }
    }

    /// Creates an index pair across two partitions, in two steps that are not
    /// one transaction. First the edges from `source` to `targets` are written
    /// here. Then `remote` is asked to write the edges back in the other
    /// partition. Where that fails the edges written here stay, and the failure
    /// is reported as `RemoteRequestError`, for the caller to make up for.
    pub fn create_remote_index_pair<F>(
        &mut self,
        source: IdentityAddress,
        link_type: &str,
        link_tag: &str,
        reciprocal_type: &str,
        reciprocal_tag: &str,
        targets: &Vec<IdentityAddress>,
        remote: F,
    ) -> (result: Result<RemoteIndexResponse, DataIntegrityError>) where
        F: FnOnce(RemoteIndexRequest) -> Result<RemoteIndexResponse, CrossCellError>,

        requires
            forall|request: RemoteIndexRequest| call_requires(remote, (request,)),
        ensures
            final(self)@ == old(self)@.with_all(forward_edges(source, link_type@, link_tag@, targets@)),
            exists|request: RemoteIndexRequest, outcome: Result<RemoteIndexResponse, CrossCellError>|
                {
                    &&& is_link_request(request, source, reciprocal_type@, reciprocal_tag@, targets@)
                    &&& call_ensures(remote, (request,), outcome)
                    &&& is_reported(outcome, result)
                },
    {
        self.create_indexes(source, link_type, link_tag, targets);
        let request = RemoteIndexRequest {
            link_type: reciprocal_type.to_owned(),
            link_tag: reciprocal_tag.to_owned(),
            remote_entry: source,
            target_entries: copy_addresses(targets),
            removed_entries: Vec::new(),
        };
        let ghost sent = request;
        let outcome = remote(request);
        let ghost got = outcome;
        let result = match outcome {
            Ok(response) => Ok(response),
            Err(error) => Err(DataIntegrityError::RemoteRequestError(error.describe())),
        };
        assert(is_link_request(sent, source, reciprocal_type@, reciprocal_tag@, targets@) && call_ensures(
            remote,
            (sent,),
            got,
        ) && is_reported(got, result));
        result
    }
}

impl IndexStore {
    /// Creates an index pair within this partition: the edge from `source` to
    /// `target`, and the edge back under the reciprocal type and tag.
    pub fn create_index_pair(
        &mut self,
        source: IdentityAddress,
        link_type: &str,
        link_tag: &str,
        reciprocal_type: &str,
        reciprocal_tag: &str,
        target: IdentityAddress,
    )
        ensures
            final(self)@ == old(self)@.with_edge(
                EdgeState { source, target, link_type: link_type@, link_tag: link_tag@ },
            ).with_edge(
                EdgeState {
                    source: target,
                    target: source,
                    link_type: reciprocal_type@,
                    link_tag: reciprocal_tag@,
                },
            ),
    {
        self.create_index(source, link_type, link_tag, target);
        self.create_index(target, reciprocal_type, reciprocal_tag, source);
    }

    /// Brings an index pair within this partition from the targets `previous`
    /// to the targets `now`: the edges from `source` first, then the edges
    /// back, and of both only the difference.
    pub fn update_index_pair(
        &mut self,
        source: IdentityAddress,
        link_type: &str,
        link_tag: &str,
        reciprocal_type: &str,
        reciprocal_tag: &str,
        now: &Vec<IdentityAddress>,
        previous: &Vec<IdentityAddress>,
    ) -> (diff: IndexDiff)
        ensures
            diff.created@ == difference(now@, previous@),
            diff.removed@ == difference(previous@, now@),
            final(self)@ == old(self)@.with_all(
                forward_edges(source, link_type@, link_tag@, diff.created@),
            ).without_all(forward_edges(source, link_type@, link_tag@, diff.removed@)).with_all(
                reciprocal_edges(source, reciprocal_type@, reciprocal_tag@, diff.created@),
            ).without_all(reciprocal_edges(source, reciprocal_type@, reciprocal_tag@, diff.removed@)),
    {
        let diff = self.update_index(source, link_type, link_tag, now, previous);
        let back = RemoteIndexRequest {
            link_type: reciprocal_type.to_owned(),
            link_tag: reciprocal_tag.to_owned(),
            remote_entry: source,
            target_entries: copy_addresses(&diff.created),
            removed_entries: copy_addresses(&diff.removed),
        };
        self.sync_index(&back);
        diff
    }
}

} // verus!
