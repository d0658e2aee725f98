//! The edge store: one entry per caller and callee, the shallowest seen.
//!
//! An edge set is a list of edges in order of first discovery in which no
//! caller and callee occur twice. Read as a map from caller and callee to
//! edge, merging is an idempotent minimum.

use vstd::prelude::*;
use crate::assoc::{
    assoc, distinct_keys, lemma_assoc_lookup, lemma_assoc_push, lemma_assoc_update, lemma_position,
    lemma_position_unique, position,
};
use crate::edge::{CallEdge, DispatchKind, EdgeKey, EdgeView};
use crate::ids::CallableId;

verus! {

/// The edges of a list, each under its key.
pub open spec fn keyed(s: Seq<EdgeView>) -> Seq<(EdgeKey, EdgeView)> {
    s.map_values(|e: EdgeView| (e.key(), e))
}

/// No caller and callee occur twice in the list.
pub open spec fn distinct_edges(s: Seq<EdgeView>) -> bool {
    distinct_keys(keyed(s))
}

/// Every edge of the list is of dispatch kind `kind`.
pub open spec fn all_of_kind(s: Seq<EdgeView>, kind: DispatchKind) -> bool {
    forall|i: int| 0 <= i < s.len() ==> (#[trigger] s[i]).kind == kind
}

/// The list read as a map from caller and callee to edge.
pub open spec fn edge_map(s: Seq<EdgeView>) -> Map<EdgeKey, EdgeView> {
    assoc(keyed(s))
}

/// What merging one observed edge does to a list of edges: an edge with a
/// new caller and callee goes to the end; one whose caller and callee the
/// list holds takes the place of the entry if it is strictly shallower,
/// and is dropped otherwise.
pub open spec fn merge_into(s: Seq<EdgeView>, e: EdgeView) -> Seq<EdgeView> {
    match position(keyed(s), e.key()) {
        Some(i) => if e.depth < s[i].depth {
            s.update(i, e)
        } else {
            s
        },
        None => s.push(e),
    }
}

/// What merging one observed edge does to the map: a key that is new is
/// inserted; a key that is present keeps its entry unless the new edge is
/// strictly shallower.
pub open spec fn merge_edge(m: Map<EdgeKey, EdgeView>, e: EdgeView) -> Map<EdgeKey, EdgeView> {
    if m.dom().contains(e.key()) && m[e.key()].depth <= e.depth {
        m
    } else {
        m.insert(e.key(), e)
    }
}

/// Merging into the list is merging into the map, and keeps callers and
/// callees distinct.
pub proof fn lemma_merge_into(s: Seq<EdgeView>, e: EdgeView)
    requires
        distinct_edges(s),
    ensures
        distinct_edges(merge_into(s, e)),
        edge_map(merge_into(s, e)) == merge_edge(edge_map(s), e),
        all_of_kind(s, e.kind) ==> all_of_kind(merge_into(s, e), e.kind),
{
    let ks = keyed(s);
    lemma_position(ks, e.key());
    match position(ks, e.key()) {
        Some(i) => {
            lemma_assoc_lookup(ks, i);
            if e.depth < s[i].depth {
                lemma_assoc_update(ks, i, e);
                assert(keyed(s.update(i, e)) =~= ks.update(i, (ks[i].0, e)));
            }
        },
        None => {
            lemma_assoc_push(ks, e.key(), e);
            assert(keyed(s.push(e)) =~= ks.push((e.key(), e)));
        },
    }
}

/// A set of call edges in which no caller and callee occur twice.
pub struct EdgeSet {
    edges: Vec<CallEdge>,
}

impl View for EdgeSet {
    type V = Seq<EdgeView>;

    /// The edges in order of first discovery.
    closed spec fn view(&self) -> Seq<EdgeView> {
        self.edges@.map_values(|e: CallEdge| e@)
    }
}

impl EdgeSet {
    /// No caller and callee occur twice. Every set this module hands out
    /// is well formed, and every operation keeps it so.
    pub open spec fn wf(&self) -> bool {
        distinct_edges(self@)
    }

    /// The set read as a map from caller and callee to edge.
    pub open spec fn map(&self) -> Map<EdgeKey, EdgeView> {
        edge_map(self@)
    }

    pub fn new() -> (s: EdgeSet)
        ensures
            s.wf(),
            s@ == Seq::<EdgeView>::empty(),
    {
        let s = EdgeSet { edges: Vec::new() };
        assert(s@ =~= Seq::empty());
        s
    }

    /// The number of edges held.
    pub fn len(&self) -> (n: usize)
        ensures
            n == self@.len(),
    {
        self.edges.len()
    }

    /// The `i`-th edge in order of first discovery.
    pub fn get(&self, i: usize) -> (e: &CallEdge)
        requires
            i < self@.len(),
        ensures
            e@ == self@[i as int],
    {
        &self.edges[i]
    }

    /// Where the edge from `caller` to `callee` sits, if the set holds one.
    pub fn position(&self, caller: Option<CallableId>, callee: CallableId) -> (r: Option<usize>)
        requires
            self.wf(),
        ensures
            match r {
                Some(i) => position(keyed(self@), (caller, callee)) == Some(i as int),
                None => position(keyed(self@), (caller, callee)) is None,
            },
            r is Some <==> self.map().dom().contains((caller, callee)),
            r matches Some(i) ==> i < self@.len() && self@[i as int] == self.map()[(caller, callee)],
    {
        let ghost k: EdgeKey = (caller, callee);
        let ghost s = keyed(self@);
        proof {
            lemma_position(s, k);
        }
        let mut i: usize = 0;
        while i < self.edges.len()
            invariant
                i <= self.edges@.len(),
                self.edges@.len() == s.len(),
                s == keyed(self@),
                k == (caller, callee),
                distinct_keys(s),
                forall|j: int| 0 <= j < i ==> s[j].0 != k,
            decreases self.edges@.len() - i,
        {
            if self.edges[i].has_key(caller, callee) {
                proof {
                    lemma_assoc_lookup(s, i as int);
                    lemma_position_unique(s, k, i as int);
                    lemma_position(s, k);
                }
                return Some(i);
            }
            i = i + 1;
        }
        proof {
            lemma_position(s, k);
        }
        None
    }

    /// The depth recorded for the edge from `caller` to `callee`.
    pub fn depth_of(&self, caller: Option<CallableId>, callee: CallableId) -> (r: Option<usize>)
        requires
            self.wf(),
        ensures
            r is Some <==> self.map().dom().contains((caller, callee)),
            r matches Some(d) ==> d == self.map()[(caller, callee)].depth,
    {
        match self.position(caller, callee) {
            Some(i) => Some(self.edges[i].constraint_depth),
            None => None,
        }
    }

    /// Merges an observed edge into the set.
    pub fn merge(&mut self, edge: CallEdge)
        requires
            old(self).wf(),
        ensures
            final(self).wf(),
            final(self)@ == merge_into(old(self)@, edge@),
            final(self).map() == merge_edge(old(self).map(), edge@),
    {
        proof {
            lemma_merge_into(self@, edge@);
        }
        match self.position(edge.caller, edge.callee) {
            Some(i) => {
                if self.edges[i].should_insert(edge.constraint_depth) {
                    self.edges.set(i, edge);
                    assert(self@ =~= old(self)@.update(i as int, edge@));
                }
            },
            None => {
                self.edges.push(edge);
                assert(self@ =~= old(self)@.push(edge@));
            },
        }
    }
}

} // verus!
