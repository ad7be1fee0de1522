//! What holds of the index engine, whatever the store and whatever the
//! edges.

use vstd::prelude::*;
use crate::errors::DataIntegrityError;
use crate::identity::IdentityAddress;
use crate::indexes::remote::{is_reported, RemoteIndexResponse};
use crate::indexes::{
    absent_from, difference, forward_edges, is_not, leaves, reciprocal_edges, EdgeState, IndexState,
};
use crate::rpc::{description, CrossCellError};
use crate::sequences::{filter_keeps_distinct, filter_members, push_keeps_distinct};

verus! {

/// Diff-based update: a target is linked exactly if it is in the new set and
/// was not in the previous one, and unlinked exactly if it was in the previous
/// set and is not in the new one. So a target in both sets is neither linked
/// nor unlinked.
pub proof fn update_writes_only_the_difference(
    now: Seq<IdentityAddress>,
    previous: Seq<IdentityAddress>,
    target: IdentityAddress,
)
    ensures
        difference(now, previous).contains(target) <==> now.contains(target) && !previous.contains(target),
        difference(previous, now).contains(target) <==> previous.contains(target) && !now.contains(target),
        now.contains(target) && previous.contains(target) ==> !difference(now, previous).contains(target)
            && !difference(previous, now).contains(target),
{
    filter_members(now, absent_from(previous), target);
    filter_members(previous, absent_from(now), target);
}

/// Creating an edge makes that edge present and changes the presence of no
/// other.
pub proof fn with_edge_adds_one(state: IndexState, edge: EdgeState, other: EdgeState)
    ensures
        state.with_edge(edge).has_edge(other) <==> state.has_edge(other) || other == edge,
{
    if !state.has_edge(edge) {
        let after = state.edges.push(edge);
        if state.has_edge(other) {
            let k = choose|k: int| 0 <= k < state.edges.len() && state.edges[k] == other;
            assert(after[k] == other);
        }
        assert(after[state.edges.len() as int] == edge);
    }
}

/// Removing an edge makes that edge absent and changes the presence of no
/// other.
pub proof fn without_edge_removes_one(state: IndexState, edge: EdgeState, other: EdgeState)
    ensures
        state.without_edge(edge).has_edge(other) <==> state.has_edge(other) && other != edge,
{
    filter_members(state.edges, is_not(edge), other);
}

/// Which edges are present after several were created at once.
pub proof fn with_all_adds_those(state: IndexState, edges: Seq<EdgeState>, other: EdgeState)
    ensures
        state.with_all(edges).has_edge(other) <==> state.has_edge(other) || edges.contains(other),
    decreases edges.len(),
{
    if edges.len() > 0 {
        let before = state.with_all(edges.drop_last());
        with_all_adds_those(state, edges.drop_last(), other);
        with_edge_adds_one(before, edges.last(), other);
        member_of_last_or_rest(edges, other);
    }
}

/// Which edges are present after several were removed at once.
pub proof fn without_all_removes_those(state: IndexState, edges: Seq<EdgeState>, other: EdgeState)
    ensures
        state.without_all(edges).has_edge(other) <==> state.has_edge(other) && !edges.contains(other),
    decreases edges.len(),
{
    if edges.len() > 0 {
        let before = state.without_all(edges.drop_last());
        without_all_removes_those(state, edges.drop_last(), other);
        without_edge_removes_one(before, edges.last(), other);
        member_of_last_or_rest(edges, other);
    }
}

/// A member of a sequence is its last element or a member of the rest.
proof fn member_of_last_or_rest(edges: Seq<EdgeState>, other: EdgeState)
    requires
        edges.len() > 0,
    ensures
        edges.contains(other) <==> edges.drop_last().contains(other) || edges.last() == other,
{
    if edges.contains(other) {
        let k = choose|k: int| 0 <= k < edges.len() && edges[k] == other;
        if k < edges.len() - 1 {
            assert(edges.drop_last()[k] == other);
        }
    }
    if edges.drop_last().contains(other) {
        let k = choose|k: int| 0 <= k < edges.drop_last().len() && edges.drop_last()[k] == other;
        assert(edges[k] == other);
    }
    assert(edges[edges.len() - 1] == edges.last());
}

/// The edges from `source` to `targets` are those of that source, type and tag
/// whose target is among `targets`.
pub proof fn forward_edges_members(
    source: IdentityAddress,
    link_type: Seq<char>,
    link_tag: Seq<char>,
    targets: Seq<IdentityAddress>,
    other: EdgeState,
)
    ensures
        forward_edges(source, link_type, link_tag, targets).contains(other) <==> other.source == source
            && other.link_type == link_type && other.link_tag == link_tag && targets.contains(other.target),
{
    let edges = forward_edges(source, link_type, link_tag, targets);
    if edges.contains(other) {
        let k = choose|k: int| 0 <= k < edges.len() && edges[k] == other;
        assert(targets[k] == other.target);
    }
    if other.source == source && other.link_type == link_type && other.link_tag == link_tag && targets.contains(
        other.target,
    ) {
        let k = choose|k: int| 0 <= k < targets.len() && targets[k] == other.target;
        assert(edges[k] == other);
    }
}

/// The edges from `targets` back to `source` are those of that target, type
/// and tag whose source is among `targets`.
pub proof fn reciprocal_edges_members(
    source: IdentityAddress,
    link_type: Seq<char>,
    link_tag: Seq<char>,
    targets: Seq<IdentityAddress>,
    other: EdgeState,
)
    ensures
        reciprocal_edges(source, link_type, link_tag, targets).contains(other) <==> other.target == source
            && other.link_type == link_type && other.link_tag == link_tag && targets.contains(other.source),
{
    let edges = reciprocal_edges(source, link_type, link_tag, targets);
    if edges.contains(other) {
        let k = choose|k: int| 0 <= k < edges.len() && edges[k] == other;
        assert(targets[k] == other.source);
    }
    if other.target == source && other.link_type == link_type && other.link_tag == link_tag && targets.contains(
        other.source,
    ) {
        let k = choose|k: int| 0 <= k < targets.len() && targets[k] == other.source;
        assert(edges[k] == other);
    }
}

/// Reading an index gives the targets of the edges that are present: a target
/// is read from `source` under a type exactly if an edge of that type, under
/// some tag, leads from `source` to it.
pub proof fn read_gives_the_linked_targets(
    state: IndexState,
    source: IdentityAddress,
    link_type: Seq<char>,
    target: IdentityAddress,
)
    ensures
        state.targets(source, link_type).contains(target) <==> exists|link_tag: Seq<char>|
            state.has_edge(EdgeState { source, target, link_type, link_tag }),
{
    let passing = state.edges.filter(leaves(source, link_type));
    let read = state.targets(source, link_type);
    if read.contains(target) {
        let k = choose|k: int| 0 <= k < read.len() && read[k] == target;
        let edge = passing[k];
        assert(passing.contains(edge));
        filter_members(state.edges, leaves(source, link_type), edge);
        assert(state.has_edge(EdgeState { source, target, link_type, link_tag: edge.link_tag }));
    }
    if exists|link_tag: Seq<char>| state.has_edge(EdgeState { source, target, link_type, link_tag }) {
        let link_tag = choose|link_tag: Seq<char>| state.has_edge(EdgeState { source, target, link_type, link_tag });
        let edge = EdgeState { source, target, link_type, link_tag };
        filter_members(state.edges, leaves(source, link_type), edge);
        let k = choose|k: int| 0 <= k < passing.len() && passing[k] == edge;
        assert(read[k] == target);
    }
}

/// Making up for a failed remote half: once the edges that were written
/// locally are removed again, none of them is present, and every other edge
/// is as it was before the pair was begun.
pub proof fn removal_undoes_the_local_half(state: IndexState, edges: Seq<EdgeState>, other: EdgeState)
    ensures
        state.with_all(edges).without_all(edges).has_edge(other) <==> state.has_edge(other) && !edges.contains(
            other,
        ),
{
    with_all_adds_those(state, edges, other);
    without_all_removes_those(state.with_all(edges), edges, other);
}

/// No edge is ever stored twice: a store without edges holds none twice, and
/// neither creating nor removing an edge makes one occur twice.
pub proof fn edges_stay_distinct(state: IndexState, edge: EdgeState)
    requires
        state.is_distinct(),
    ensures
        state.with_edge(edge).is_distinct(),
        state.without_edge(edge).is_distinct(),
        (IndexState { edges: Seq::empty() }).is_distinct(),
{
    if !state.has_edge(edge) {
        push_keeps_distinct(state.edges, edge);
    }
    filter_keeps_distinct(state.edges, is_not(edge));
}

/// Creating or removing several edges at once keeps the edges distinct.
pub proof fn edges_stay_distinct_in_bulk(state: IndexState, edges: Seq<EdgeState>)
    requires
        state.is_distinct(),
    ensures
        state.with_all(edges).is_distinct(),
        state.without_all(edges).is_distinct(),
    decreases edges.len(),
{
    if edges.len() > 0 {
        edges_stay_distinct_in_bulk(state, edges.drop_last());
        edges_stay_distinct(state.with_all(edges.drop_last()), edges.last());
        edges_stay_distinct(state.without_all(edges.drop_last()), edges.last());
    }
}

/// What an update leaves behind, edge by edge: the edges to the new targets
/// are present, those to the targets that are gone are absent, and every other
/// edge is as it was before. In particular the edge to a target that is in
/// both sets is as it was.
pub proof fn update_result_edge_by_edge(
    state: IndexState,
    source: IdentityAddress,
    link_type: Seq<char>,
    link_tag: Seq<char>,
    now: Seq<IdentityAddress>,
    previous: Seq<IdentityAddress>,
    other: EdgeState,
)
    ensures
        ({
            let after = state.with_all(
                forward_edges(source, link_type, link_tag, difference(now, previous)),
            ).without_all(forward_edges(source, link_type, link_tag, difference(previous, now)));
            let ours = other.source == source && other.link_type == link_type && other.link_tag == link_tag;
            &&& ours && now.contains(other.target) && !previous.contains(other.target) ==> after.has_edge(other)
            &&& ours && previous.contains(other.target) && !now.contains(other.target) ==> !after.has_edge(other)
            &&& (!ours || now.contains(other.target) == previous.contains(other.target)) ==> (after.has_edge(other)
                == state.has_edge(other))
        }),
{
    let linking = forward_edges(source, link_type, link_tag, difference(now, previous));
    let unlinking = forward_edges(source, link_type, link_tag, difference(previous, now));
    let linked = state.with_all(linking);
    with_all_adds_those(state, linking, other);
    without_all_removes_those(linked, unlinking, other);
    forward_edges_members(source, link_type, link_tag, difference(now, previous), other);
    forward_edges_members(source, link_type, link_tag, difference(previous, now), other);
    update_writes_only_the_difference(now, previous, other.target);
}

/// Index symmetry: once the edges from `source` to `targets` are written in
/// one store and the edges back are written in another, each target is read
/// from `source` in the first, and `source` is read from each target in the
/// second.
pub proof fn index_pair_is_reciprocal(
    local: IndexState,
    remote: IndexState,
    source: IdentityAddress,
    link_type: Seq<char>,
    link_tag: Seq<char>,
    reciprocal_type: Seq<char>,
    reciprocal_tag: Seq<char>,
    targets: Seq<IdentityAddress>,
    target: IdentityAddress,
)
    requires
        targets.contains(target),
    ensures
        local.with_all(forward_edges(source, link_type, link_tag, targets)).targets(source, link_type).contains(
            target,
        ),
        remote.with_all(reciprocal_edges(source, reciprocal_type, reciprocal_tag, targets)).targets(
            target,
            reciprocal_type,
        ).contains(source),
{
    let there = EdgeState { source, target, link_type, link_tag };
    let back = EdgeState { source: target, target: source, link_type: reciprocal_type, link_tag: reciprocal_tag };
    let local_after = local.with_all(forward_edges(source, link_type, link_tag, targets));
    let remote_after = remote.with_all(reciprocal_edges(source, reciprocal_type, reciprocal_tag, targets));
    forward_edges_members(source, link_type, link_tag, targets, there);
    with_all_adds_those(local, forward_edges(source, link_type, link_tag, targets), there);
    read_gives_the_linked_targets(local_after, source, link_type, target);
    reciprocal_edges_members(source, reciprocal_type, reciprocal_tag, targets, back);
    with_all_adds_those(remote, reciprocal_edges(source, reciprocal_type, reciprocal_tag, targets), back);
    read_gives_the_linked_targets(remote_after, target, reciprocal_type, source);
}

/// The one-sided state: where the remote half of an index pair fails, each
/// target is still read from `source` in the local store, and what is
/// reported is `RemoteRequestError` with the text of the failure.
pub proof fn failed_remote_half_leaves_the_local_edge(
    local: IndexState,
    source: IdentityAddress,
    link_type: Seq<char>,
    link_tag: Seq<char>,
    targets: Seq<IdentityAddress>,
    target: IdentityAddress,
    failure: CrossCellError,
    result: Result<RemoteIndexResponse, DataIntegrityError>,
)
    requires
        targets.contains(target),
        is_reported(Err(failure), result),
    ensures
        local.with_all(forward_edges(source, link_type, link_tag, targets)).targets(source, link_type).contains(
            target,
        ),
        result matches Err(DataIntegrityError::RemoteRequestError(text)) && text@ == description(failure),
{
    let there = EdgeState { source, target, link_type, link_tag };
    let after = local.with_all(forward_edges(source, link_type, link_tag, targets));
    forward_edges_members(source, link_type, link_tag, targets, there);
    with_all_adds_those(local, forward_edges(source, link_type, link_tag, targets), there);
    read_gives_the_linked_targets(after, source, link_type, target);
}

} // verus!
