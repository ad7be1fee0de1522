//! The index engine: directed, typed and tagged edges between identities.

pub mod laws;
pub mod remote;

pub use self::remote::{RemoteIndexRequest, RemoteIndexResponse};

use vstd::prelude::*;
use crate::identity::IdentityAddress;
use crate::sequences::{filter_keeps_distinct, filter_next, filter_none, push_keeps_distinct};

verus! {

/// An edge as the contracts speak of it.
pub struct EdgeState {
    pub source: IdentityAddress,
    pub target: IdentityAddress,
    pub link_type: Seq<char>,
    pub link_tag: Seq<char>,
}

/// The test that every edge but `edge` passes.
pub open spec fn is_not(edge: EdgeState) -> spec_fn(EdgeState) -> bool {
    |e: EdgeState| e != edge
}

/// The test that the edges of one type that leave `source` pass.
pub open spec fn leaves(source: IdentityAddress, link_type: Seq<char>) -> spec_fn(EdgeState) -> bool {
    |e: EdgeState| e.source == source && e.link_type == link_type
}

/// The test that the addresses missing from `other` pass.
pub open spec fn absent_from(other: Seq<IdentityAddress>) -> spec_fn(IdentityAddress) -> bool {
    |t: IdentityAddress| !other.contains(t)
}

/// What an index store holds: its edges, oldest first.
pub struct IndexState {
    pub edges: Seq<EdgeState>,
}

impl IndexState {
    /// Whether the edge is present.
    pub open spec fn has_edge(self, edge: EdgeState) -> bool {
        self.edges.contains(edge)
    }

    /// The store with the edge present: added as the newest one where it was
    /// missing, unchanged where it was there.
    pub open spec fn with_edge(self, edge: EdgeState) -> Self {
        if self.has_edge(edge) {
            self
        } else {
            IndexState { edges: self.edges.push(edge) }
        }
    }

    /// The store with the edge absent. The other edges keep their order.
    pub open spec fn without_edge(self, edge: EdgeState) -> Self {
        IndexState { edges: self.edges.filter(is_not(edge)) }
    }

    /// The targets of the edges of one type that leave `source`, in the order
    /// in which the edges were created: the newest comes last.
    pub open spec fn targets(self, source: IdentityAddress, link_type: Seq<char>) -> Seq<IdentityAddress> {
        self.edges.filter(leaves(source, link_type)).map_values(|e: EdgeState| e.target)
    }

    /// Whether no edge is stored twice.
    pub open spec fn is_distinct(self) -> bool {
        self.edges.no_duplicates()
    }

    /// The store with each of `edges` present, the edges taken in order.
    pub open spec fn with_all(self, edges: Seq<EdgeState>) -> Self
        decreases edges.len(),
    {
        if edges.len() == 0 {
            self
        } else {
            self.with_all(edges.drop_last()).with_edge(edges.last())
        }
    }

    /// The store with each of `edges` absent.
    pub open spec fn without_all(self, edges: Seq<EdgeState>) -> Self
        decreases edges.len(),
    {
        if edges.len() == 0 {
            self
        } else {
            self.without_all(edges.drop_last()).without_edge(edges.last())
        }
    }
}

/// The edges of one type and tag from `source` to each of `targets`.
pub open spec fn forward_edges(
    source: IdentityAddress,
    link_type: Seq<char>,
    link_tag: Seq<char>,
    targets: Seq<IdentityAddress>,
) -> Seq<EdgeState> {
    targets.map_values(|t: IdentityAddress| EdgeState { source, target: t, link_type, link_tag })
}

/// The edges of one type and tag from each of `targets` back to `source`.
pub open spec fn reciprocal_edges(
    source: IdentityAddress,
    link_type: Seq<char>,
    link_tag: Seq<char>,
    targets: Seq<IdentityAddress>,
) -> Seq<EdgeState> {
    targets.map_values(|t: IdentityAddress| EdgeState { source: t, target: source, link_type, link_tag })
}

/// The members of `list` that do not occur in `other`, in their order in
/// `list`.
pub open spec fn difference(list: Seq<IdentityAddress>, other: Seq<IdentityAddress>) -> Seq<IdentityAddress> {
    list.filter(absent_from(other))
}

/// One stored edge.
struct Edge {
    source: IdentityAddress,
    target: IdentityAddress,
    link_type: String,
    link_tag: String,
}

impl View for Edge {
    type V = EdgeState;

    closed spec fn view(&self) -> EdgeState {
        EdgeState {
            source: self.source,
            target: self.target,
            link_type: self.link_type@,
            link_tag: self.link_tag@,
        }
    }
}

impl Edge {
    fn is(
        &self,
        source: IdentityAddress,
        link_type: &String,
        link_tag: &String,
        target: IdentityAddress,
    ) -> (same: bool)
        ensures
            same == (self@ == EdgeState { source, target, link_type: link_type@, link_tag: link_tag@ }),
    {
        self.source == source && self.target == target && self.link_type == *link_type && self.link_tag
            == *link_tag
    }

    fn duplicate(&self) -> (copy: Edge)
        ensures
            copy@ == self@,
    {
        Edge {
            source: self.source,
            target: self.target,
            link_type: self.link_type.clone(),
            link_tag: self.link_tag.clone(),
        }
    }
}

/// What an update of an index did: the targets that it linked, and those
/// that it unlinked.
pub struct IndexDiff {
    pub created: Vec<IdentityAddress>,
    pub removed: Vec<IdentityAddress>,
}

/// Whether `wanted` occurs in `list`.
pub fn contains_address(list: &Vec<IdentityAddress>, wanted: IdentityAddress) -> (found: bool)
    ensures
        found == list@.contains(wanted),
{
    let mut i: usize = 0;
    while i < list.len()
        invariant
            i <= list.len(),
            forall|k: int| 0 <= k < i ==> list@[k] != wanted,
        decreases list.len() - i,
    {
        if list[i] == wanted {
            return true;
        }
        i = i + 1;
    }
    false
}

/// The members of `list` that do not occur in `other`, in their order.
pub fn address_difference(list: &Vec<IdentityAddress>, other: &Vec<IdentityAddress>) -> (rest: Vec<
    IdentityAddress,
>)
    ensures
        rest@ == difference(list@, other@),
{
    let mut rest: Vec<IdentityAddress> = Vec::new();
    let mut i: usize = 0;
    proof {
        filter_none(list@, absent_from(other@));
    }
    while i < list.len()
        invariant
            i <= list.len(),
            rest@ == difference(list@.take(i as int), other@),
        decreases list.len() - i,
    {
        let item = list[i];
        proof {
            filter_next(list@, absent_from(other@), i as int);
        }
        if !contains_address(other, item) {
            rest.push(item);
        }
        i = i + 1;
    }
    assert(list@.take(list@.len() as int) == list@);
    rest
}

/// The work that turns the set of targets `previous` into the set `now`:
/// link what is new, unlink what is gone, and leave alone what is in both.
pub fn index_diff(now: &Vec<IdentityAddress>, previous: &Vec<IdentityAddress>) -> (diff: IndexDiff)
    ensures
        diff.created@ == difference(now@, previous@),
        diff.removed@ == difference(previous@, now@),
{
    IndexDiff { created: address_difference(now, previous), removed: address_difference(previous, now) }
}

/// The edges of one storage partition.
pub struct IndexStore {
    edges: Vec<Edge>,
}

impl View for IndexStore {
    type V = IndexState;

    closed spec fn view(&self) -> IndexState {
        IndexState { edges: self.edges@.map_values(|e: Edge| e@) }
    }
}

impl IndexStore {
    /// No edge is stored twice.
    #[verifier::type_invariant]
    spec fn edges_are_distinct(&self) -> bool {
        self.edges@.map_values(|e: Edge| e@).no_duplicates()
    }

    /// A store without edges.
    pub fn new() -> (store: Self)
        ensures
            store@.edges.len() == 0,
            store@.is_distinct(),
    {
        IndexStore { edges: Vec::new() }
    }

    /// The number of edges. No edge is counted twice, since none is stored
    /// twice.
    pub fn edge_count(&self) -> (n: usize)
        ensures
            n == self@.edges.len(),
            self@.is_distinct(),
    {
        proof {
            use_type_invariant(&*self);
            self.view_facts();
        }
        self.edges.len()
    }

    proof fn view_facts(&self)
        ensures
            self@.edges.len() == self.edges@.len(),
            forall|i: int| 0 <= i < self.edges@.len() ==> #[trigger] self@.edges[i] == self.edges@[i]@,
    {
    }

    /// Whether the edge is present.
    pub fn has_index(
        &self,
        source: IdentityAddress,
        link_type: &str,
        link_tag: &str,
        target: IdentityAddress,
    ) -> (present: bool)
        ensures
            present == self@.has_edge(
                EdgeState { source, target, link_type: link_type@, link_tag: link_tag@ },
            ),
    {
        proof {
            self.view_facts();
        }
        let wanted_type = link_type.to_owned();
        let wanted_tag = link_tag.to_owned();
        let ghost wanted = EdgeState { source, target, link_type: link_type@, link_tag: link_tag@ };
        let mut i: usize = 0;
        while i < self.edges.len()
            invariant
                i <= self.edges.len(),
                wanted_type@ == link_type@,
                wanted_tag@ == link_tag@,
                wanted == (EdgeState { source, target, link_type: link_type@, link_tag: link_tag@ }),
                self@.edges.len() == self.edges@.len(),
                forall|k: int| 0 <= k < self.edges@.len() ==> #[trigger] self@.edges[k] == self.edges@[k]@,
                forall|k: int| 0 <= k < i ==> self@.edges[k] != wanted,
            decreases self.edges.len() - i,
        {
            if self.edges[i].is(source, &wanted_type, &wanted_tag, target) {
                assert(self@.edges[i as int] == wanted);
                return true;
            }
            i = i + 1;
        }
        false
    }

    /// Creates the edge from `source` to `target`. Says whether the edge is
    /// new; one that was there already is left as it is.
    pub fn create_index(
        &mut self,
        source: IdentityAddress,
        link_type: &str,
        link_tag: &str,
        target: IdentityAddress,
    ) -> (created: bool)
        ensures
            final(self)@ == old(self)@.with_edge(
                EdgeState { source, target, link_type: link_type@, link_tag: link_tag@ },
            ),
            created == !old(self)@.has_edge(
                EdgeState { source, target, link_type: link_type@, link_tag: link_tag@ },
            ),
    {
        if self.has_index(source, link_type, link_tag, target) {
            return false;
        }
        proof {
            use_type_invariant(&*self);
            self.view_facts();
        }
        let mut edges: Vec<Edge> = Vec::new();
        std::mem::swap(&mut edges, &mut self.edges);
        edges.push(Edge { source, target, link_type: link_type.to_owned(), link_tag: link_tag.to_owned() });
        proof {
            let edge = EdgeState { source, target, link_type: link_type@, link_tag: link_tag@ };
            assert(edges@.map_values(|e: Edge| e@) =~= old(self)@.edges.push(edge));
            push_keeps_distinct(old(self)@.edges, edge);
        }
        self.edges = edges;
        proof {
            self.view_facts();
            let edge = EdgeState { source, target, link_type: link_type@, link_tag: link_tag@ };
            assert(self@.edges =~= old(self)@.edges.push(edge));
        }
        true
    }

    /// Removes the edge from `source` to `target`. Says whether there was one.
    pub fn remove_index(
        &mut self,
        source: IdentityAddress,
        link_type: &str,
        link_tag: &str,
        target: IdentityAddress,
    ) -> (removed: bool)
        ensures
            final(self)@ == old(self)@.without_edge(
                EdgeState { source, target, link_type: link_type@, link_tag: link_tag@ },
            ),
            removed == old(self)@.has_edge(
                EdgeState { source, target, link_type: link_type@, link_tag: link_tag@ },
            ),
    {
        proof {
            self.view_facts();
        }
        let wanted_type = link_type.to_owned();
        let wanted_tag = link_tag.to_owned();
        let ghost gone = EdgeState { source, target, link_type: link_type@, link_tag: link_tag@ };
        let ghost keep = is_not(gone);
        let mut kept: Vec<Edge> = Vec::new();
        let mut removed = false;
        let mut i: usize = 0;
        proof {
            filter_none(self@.edges, keep);
            assert(kept@.map_values(|e: Edge| e@) =~= Seq::<EdgeState>::empty());
        }
        while i < self.edges.len()
            invariant
                i <= self.edges.len(),
                wanted_type@ == link_type@,
                wanted_tag@ == link_tag@,
                gone == (EdgeState { source, target, link_type: link_type@, link_tag: link_tag@ }),
                keep == is_not(gone),
                self@.edges.len() == self.edges@.len(),
                forall|k: int| 0 <= k < self.edges@.len() ==> #[trigger] self@.edges[k] == self.edges@[k]@,
                kept@.map_values(|e: Edge| e@) == self@.edges.take(i as int).filter(keep),
                removed <==> exists|k: int| 0 <= k < i && #[trigger] self@.edges[k] == gone,
            decreases self.edges.len() - i,
        {
            proof {
                filter_next(self@.edges, keep, i as int);
            }
            if self.edges[i].is(source, &wanted_type, &wanted_tag, target) {
                removed = true;
                assert(self@.edges[i as int] == gone);
            } else {
                let copy = self.edges[i].duplicate();
                kept.push(copy);
                assert(kept@.map_values(|e: Edge| e@) =~= self@.edges.take(i as int).filter(keep).push(copy@));
            }
            i = i + 1;
        }
        assert(self@.edges.take(self@.edges.len() as int) == self@.edges);
        let ghost kept_edges = kept@.map_values(|e: Edge| e@);
        proof {
            use_type_invariant(&*self);
            filter_keeps_distinct(self@.edges, keep);
        }
        self.edges = kept;
        proof {
            self.view_facts();
            assert(self@.edges =~= kept_edges);
        }
        removed
    }

    /// The targets that `source` is linked to by edges of one type, in the
    /// order in which the edges were created: the newest comes last.
    pub fn read_index(&self, source: IdentityAddress, link_type: &str) -> (targets: Vec<IdentityAddress>)
        ensures
            targets@ == self@.targets(source, link_type@),
            self@.is_distinct(),
    {
        proof {
            use_type_invariant(&*self);
            self.view_facts();
        }
        let wanted_type = link_type.to_owned();
        let ghost wanted = leaves(source, link_type@);
        let ghost pick = |e: EdgeState| e.target;
        let mut targets: Vec<IdentityAddress> = Vec::new();
        let mut i: usize = 0;
        proof {
            filter_none(self@.edges, wanted);
            assert(targets@ =~= self@.edges.take(0).filter(wanted).map_values(pick));
        }
        while i < self.edges.len()
            invariant
                i <= self.edges.len(),
                wanted_type@ == link_type@,
                wanted == leaves(source, link_type@),
                pick == (|e: EdgeState| e.target),
                self@.edges.len() == self.edges@.len(),
                forall|k: int| 0 <= k < self.edges@.len() ==> #[trigger] self@.edges[k] == self.edges@[k]@,
                targets@ == self@.edges.take(i as int).filter(wanted).map_values(pick),
            decreases self.edges.len() - i,
        {
            proof {
                filter_next(self@.edges, wanted, i as int);
            }
            let edge = &self.edges[i];
            if edge.source == source && edge.link_type == wanted_type {
                targets.push(edge.target);
                assert(targets@ =~= self@.edges.take(i + 1).filter(wanted).map_values(pick));
            }
            i = i + 1;
        }
        assert(self@.edges.take(self@.edges.len() as int) == self@.edges);
        targets
    }
}

impl IndexStore {
    /// Brings the edges of one type and tag that leave `source` from the
    /// targets `previous` to the targets `now`. Only the difference is written:
    /// an edge is created for each target that is new, one is removed for each
    /// target that is gone, and the edge to a target in both is not touched.
    pub fn update_index(
        &mut self,
        source: IdentityAddress,
        link_type: &str,
        link_tag: &str,
        now: &Vec<IdentityAddress>,
        previous: &Vec<IdentityAddress>,
    ) -> (diff: IndexDiff)
        ensures
            diff.created@ == difference(now@, previous@),
            diff.removed@ == difference(previous@, now@),
            final(self)@ == old(self)@.with_all(
                forward_edges(source, link_type@, link_tag@, diff.created@),
            ).without_all(forward_edges(source, link_type@, link_tag@, diff.removed@)),
    {
        let diff = index_diff(now, previous);
        let ghost linking = forward_edges(source, link_type@, link_tag@, diff.created@);
        let ghost unlinking = forward_edges(source, link_type@, link_tag@, diff.removed@);
        let mut i: usize = 0;
        while i < diff.created.len()
            invariant
                i <= diff.created.len(),
                linking == forward_edges(source, link_type@, link_tag@, diff.created@),
                self@ == old(self)@.with_all(linking.take(i as int)),
            decreases diff.created.len() - i,
        {
            proof {
                assert(linking.take(i + 1).drop_last() == linking.take(i as int));
                assert(linking.take(i + 1).last() == linking[i as int]);
            }
            self.create_index(source, link_type, link_tag, diff.created[i]);
            i = i + 1;
        }
        assert(linking.take(linking.len() as int) == linking);
        let ghost linked = self@;
        let mut j: usize = 0;
        while j < diff.removed.len()
            invariant
                j <= diff.removed.len(),
                unlinking == forward_edges(source, link_type@, link_tag@, diff.removed@),
                self@ == linked.without_all(unlinking.take(j as int)),
            decreases diff.removed.len() - j,
        {
            proof {
                assert(unlinking.take(j + 1).drop_last() == unlinking.take(j as int));
                assert(unlinking.take(j + 1).last() == unlinking[j as int]);
            }
            self.remove_index(source, link_type, link_tag, diff.removed[j]);
            j = j + 1;
        }
        assert(unlinking.take(unlinking.len() as int) == unlinking);
        diff
    }
}

/// A copy of a list of addresses.
pub fn copy_addresses(list: &Vec<IdentityAddress>) -> (copy: Vec<IdentityAddress>)
    ensures
        copy@ == list@,
{
    let mut copy: Vec<IdentityAddress> = Vec::new();
    let mut i: usize = 0;
    while i < list.len()
        invariant
            i <= list.len(),
            copy@ == list@.take(i as int),
        decreases list.len() - i,
    {
        copy.push(list[i]);
        assert(list@.take(i + 1) == list@.take(i as int).push(list@[i as int]));
        i = i + 1;
    }
    assert(list@.take(list@.len() as int) == list@);
    copy
}

impl IndexStore {
    /// Creates the edges from `source` to each of `targets`, in order.
    pub fn create_indexes(
        &mut self,
        source: IdentityAddress,
        link_type: &str,
        link_tag: &str,
        targets: &Vec<IdentityAddress>,
    ) -> (created: Vec<bool>)
        ensures
            final(self)@ == old(self)@.with_all(forward_edges(source, link_type@, link_tag@, targets@)),
            created@.len() == targets@.len(),
            forall|i: int|
                0 <= i < targets@.len() ==> #[trigger] created@[i] == !old(self)@.with_all(
                    forward_edges(source, link_type@, link_tag@, targets@).take(i),
                ).has_edge(forward_edges(source, link_type@, link_tag@, targets@)[i]),
    {
        let ghost edges = forward_edges(source, link_type@, link_tag@, targets@);
        let mut created: Vec<bool> = Vec::new();
        let mut i: usize = 0;
        while i < targets.len()
            invariant
                i <= targets.len(),
                edges == forward_edges(source, link_type@, link_tag@, targets@),
                self@ == old(self)@.with_all(edges.take(i as int)),
                created@.len() == i,
                forall|k: int|
                    0 <= k < i ==> #[trigger] created@[k] == !old(self)@.with_all(edges.take(k)).has_edge(
                        edges[k],
                    ),
            decreases targets.len() - i,
        {
            proof {
                assert(edges.take(i + 1).drop_last() == edges.take(i as int));
                assert(edges.take(i + 1).last() == edges[i as int]);
            }
            let is_new = self.create_index(source, link_type, link_tag, targets[i]);
            created.push(is_new);
            i = i + 1;
        }
        assert(edges.take(edges.len() as int) == edges);
        created
    }

    /// Removes the edges from `source` to each of `targets`, in order. This
    /// undoes the local half of an index pair whose remote half failed.
    pub fn remove_indexes(
        &mut self,
        source: IdentityAddress,
        link_type: &str,
        link_tag: &str,
        targets: &Vec<IdentityAddress>,
    ) -> (removed: Vec<bool>)
        ensures
            final(self)@ == old(self)@.without_all(forward_edges(source, link_type@, link_tag@, targets@)),
            removed@.len() == targets@.len(),
            forall|i: int|
                0 <= i < targets@.len() ==> #[trigger] removed@[i] == old(self)@.without_all(
                    forward_edges(source, link_type@, link_tag@, targets@).take(i),
                ).has_edge(forward_edges(source, link_type@, link_tag@, targets@)[i]),
    {
        let ghost edges = forward_edges(source, link_type@, link_tag@, targets@);
        let mut removed: Vec<bool> = Vec::new();
        let mut i: usize = 0;
        while i < targets.len()
            invariant
                i <= targets.len(),
                edges == forward_edges(source, link_type@, link_tag@, targets@),
                self@ == old(self)@.without_all(edges.take(i as int)),
                removed@.len() == i,
                forall|k: int|
                    0 <= k < i ==> #[trigger] removed@[k] == old(self)@.without_all(edges.take(k)).has_edge(
                        edges[k],
                    ),
            decreases targets.len() - i,
        {
            proof {
                assert(edges.take(i + 1).drop_last() == edges.take(i as int));
                assert(edges.take(i + 1).last() == edges[i as int]);
            }
            let was_there = self.remove_index(source, link_type, link_tag, targets[i]);
            removed.push(was_there);
            i = i + 1;
        }
        assert(edges.take(edges.len() as int) == edges);
        removed
    }
}

} // verus!
