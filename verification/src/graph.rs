//! The call graph as a mathematical value, and what a traversal does to it.

use vstd::prelude::*;
use crate::assoc::{assoc, distinct_keys, lemma_put, position, put};
use crate::depth::walk;
use crate::edge::{DispatchKind, EdgeKey, EdgeView};
use crate::ids::{CallableId, SourceLocation};
use crate::program::{Expr, ImplItem, Item, ItemLike, TraitItem, TraitItemKind};
use crate::store::{all_of_kind, distinct_edges, edge_map, lemma_merge_into, merge_into};

verus! {

/// The list with `a` at the end, unless it holds `a` already.
pub open spec fn insert_once<A>(s: Seq<A>, a: A) -> Seq<A> {
    if s.contains(a) {
        s
    } else {
        s.push(a)
    }
}

/// A call graph: the functions found, the interface methods declared, the
/// implementations of each, and one edge set per dispatch kind. Every
/// table is a list in order of first discovery.
pub struct GraphView {
    pub functions: Seq<(CallableId, SourceLocation)>,
    pub declarations: Seq<CallableId>,
    pub implementations: Seq<(CallableId, Seq<CallableId>)>,
    pub static_calls: Seq<EdgeView>,
    pub dynamic_calls: Seq<EdgeView>,
    pub non_local_calls: Seq<EdgeView>,
}

impl GraphView {
    pub open spec fn empty() -> GraphView {
        GraphView {
            functions: Seq::empty(),
            declarations: Seq::empty(),
            implementations: Seq::empty(),
            static_calls: Seq::empty(),
            dynamic_calls: Seq::empty(),
            non_local_calls: Seq::empty(),
        }
    }

    /// No table holds a key twice, and every edge stands in the set of
    /// its own dispatch kind.
    pub open spec fn wf(self) -> bool {
        &&& self.functions.no_duplicates()
        &&& self.declarations.no_duplicates()
        &&& distinct_keys(self.implementations)
        &&& distinct_edges(self.static_calls)
        &&& distinct_edges(self.dynamic_calls)
        &&& distinct_edges(self.non_local_calls)
        &&& all_of_kind(self.static_calls, DispatchKind::Static)
        &&& all_of_kind(self.dynamic_calls, DispatchKind::Dynamic)
        &&& all_of_kind(self.non_local_calls, DispatchKind::NonLocal)
    }

    /// The edges of one dispatch kind, in order of first discovery.
    pub open spec fn edges(self, kind: DispatchKind) -> Seq<EdgeView> {
        match kind {
            DispatchKind::Static => self.static_calls,
            DispatchKind::Dynamic => self.dynamic_calls,
            DispatchKind::NonLocal => self.non_local_calls,
        }
    }

    /// The edges of one dispatch kind, by caller and callee.
    pub open spec fn edge_map(self, kind: DispatchKind) -> Map<EdgeKey, EdgeView> {
        edge_map(self.edges(kind))
    }

    /// The functions found, as a set.
    pub open spec fn function_set(self) -> Set<(CallableId, SourceLocation)> {
        self.functions.to_set()
    }

    /// The interface methods declared, as a set.
    pub open spec fn declaration_set(self) -> Set<CallableId> {
        self.declarations.to_set()
    }

    /// The implementations of each interface method that has a list.
    pub open spec fn implementation_map(self) -> Map<CallableId, Seq<CallableId>> {
        assoc(self.implementations)
    }

    /// The implementations listed for `declaration`: none where it has no
    /// list.
    pub open spec fn implementations_of(self, declaration: CallableId) -> Seq<CallableId> {
        match position(self.implementations, declaration) {
            Some(i) => self.implementations[i].1,
            None => Seq::empty(),
        }
    }

    /// Merges a candidate edge into the set of its own dispatch kind, and
    /// into no other.
    pub open spec fn record(self, e: EdgeView) -> GraphView {
        match e.kind {
            DispatchKind::Static => GraphView { static_calls: merge_into(self.static_calls, e), ..self },
            DispatchKind::Dynamic => GraphView { dynamic_calls: merge_into(self.dynamic_calls, e), ..self },
            DispatchKind::NonLocal => GraphView {
                non_local_calls: merge_into(self.non_local_calls, e),
                ..self
            },
        }
    }

    /// Merges candidate edges one after the other.
    pub open spec fn record_all(self, es: Seq<EdgeView>) -> GraphView
        decreases es.len(),
    {
        if es.len() == 0 {
            self
        } else {
            self.record_all(es.drop_last()).record(es.last())
        }
    }

    pub open spec fn with_function(self, id: CallableId, location: SourceLocation) -> GraphView {
        GraphView { functions: insert_once(self.functions, (id, location)), ..self }
    }

    /// Notes that `id` is an interface method.
    pub open spec fn with_declared(self, id: CallableId) -> GraphView {
        GraphView { declarations: insert_once(self.declarations, id), ..self }
    }

    /// Registers an interface method with an empty list of implementations.
    pub open spec fn with_declaration(self, id: CallableId) -> GraphView {
        GraphView {
            implementations: put(self.implementations, id, Seq::empty()),
            ..self.with_declared(id)
        }
    }

    /// Appends `implementation` to the list of `declaration`, starting the
    /// list where there is none.
    pub open spec fn with_implementation(self, declaration: CallableId, implementation: CallableId) -> GraphView {
        GraphView {
            implementations: put(
                self.implementations,
                declaration,
                self.implementations_of(declaration).push(implementation),
            ),
            ..self
        }
    }

    /// Registers an interface method that comes with a default body: it is
    /// a declaration, a function, and an implementation of itself.
    pub open spec fn with_provided(self, id: CallableId, location: SourceLocation) -> GraphView {
        self.with_declared(id).with_function(id, location).with_implementation(id, id)
    }

    /// What visiting a body on behalf of `caller` adds.
    pub open spec fn with_body(self, body: Option<Expr>, caller: Option<CallableId>) -> GraphView {
        match body {
            Some(e) => self.record_all(walk(e, caller, 0, false).calls),
            None => self,
        }
    }

    /// What visiting a top-level item adds. A function is recorded and
    /// becomes the caller of the call sites in its body; the body of any
    /// other item has no caller.
    pub open spec fn visit_item(self, item: Item) -> GraphView {
        if item.generated {
            self
        } else if item.is_fn {
            self.with_function(item.id, item.location).with_body(item.body, Some(item.id))
        } else {
            self.with_body(item.body, None)
        }
    }

    /// What visiting a member of an interface adds.
    pub open spec fn visit_trait_item(self, item: TraitItem) -> GraphView {
        if item.generated {
            self
        } else {
            match item.kind {
                TraitItemKind::Required => self.with_declaration(item.id).with_body(item.body, None),
                TraitItemKind::Provided => self.with_provided(item.id, item.location).with_body(
                    item.body,
                    Some(item.id),
                ),
                TraitItemKind::Other => self.with_body(item.body, None),
            }
        }
    }

    /// What visiting a member of an implementation block adds. A method is
    /// recorded as a function, and as an implementation of the interface
    /// method it satisfies, if it satisfies one.
    pub open spec fn visit_impl_item(self, item: ImplItem) -> GraphView {
        if item.generated {
            self
        } else if item.is_fn {
            let recorded = self.with_function(item.id, item.location);
            let linked = match item.declaration {
                Some(d) => recorded.with_implementation(d, item.id),
                None => recorded,
            };
            linked.with_body(item.body, Some(item.id))
        } else {
            self.with_body(item.body, None)
        }
    }

    pub open spec fn visit(self, item: ItemLike) -> GraphView {
        match item {
            ItemLike::Item(i) => self.visit_item(i),
            ItemLike::TraitItem(i) => self.visit_trait_item(i),
            ItemLike::ImplItem(i) => self.visit_impl_item(i),
        }
    }

    /// What visiting `items` in order adds.
    pub open spec fn visit_all(self, items: Seq<ItemLike>) -> GraphView
        decreases items.len(),
    {
        if items.len() == 0 {
            self
        } else {
            self.visit_all(items.drop_last()).visit(items.last())
        }
    }
}

/// Merging two runs of candidates one after the other is merging their
/// concatenation.
pub proof fn lemma_record_all_concat(g: GraphView, a: Seq<EdgeView>, b: Seq<EdgeView>)
    ensures
        g.record_all(a + b) == g.record_all(a).record_all(b),
    decreases b.len(),
{
    if b.len() == 0 {
        assert(a + b =~= a);
    } else {
        lemma_record_all_concat(g, a, b.drop_last());
        assert((a + b).drop_last() =~= a + b.drop_last());
        assert((a + b).last() == b.last());
    }
}

/// Merging a single candidate.
pub proof fn lemma_record_all_one(g: GraphView, e: EdgeView)
    ensures
        g.record_all(seq![e]) == g.record(e),
{
    assert(seq![e].drop_last() =~= Seq::<EdgeView>::empty());
    assert(g.record_all(Seq::<EdgeView>::empty()) == g);
}

/// Recording a candidate keeps a graph well formed.
pub proof fn lemma_record_keeps_wf(g: GraphView, e: EdgeView)
    requires
        g.wf(),
    ensures
        g.record(e).wf(),
{
    lemma_merge_into(g.edges(e.kind), e);
}

/// Recording candidates keeps a graph well formed.
pub proof fn lemma_record_all_keeps_wf(g: GraphView, es: Seq<EdgeView>)
    requires
        g.wf(),
    ensures
        g.record_all(es).wf(),
    decreases es.len(),
{
    if es.len() > 0 {
        lemma_record_all_keeps_wf(g, es.drop_last());
        lemma_record_keeps_wf(g.record_all(es.drop_last()), es.last());
    }
}

/// Visiting an item keeps a graph well formed.
pub proof fn lemma_visit_keeps_wf(g: GraphView, item: ItemLike)
    requires
        g.wf(),
    ensures
        g.visit(item).wf(),
{
    match item {
        ItemLike::Item(i) => {
            if !i.generated && i.body is Some {
                let caller = if i.is_fn {
                    Some(i.id)
                } else {
                    None
                };
                let h = if i.is_fn {
                    g.with_function(i.id, i.location)
                } else {
                    g
                };
                lemma_record_all_keeps_wf(h, walk(i.body->0, caller, 0, false).calls);
            }
        },
        ItemLike::TraitItem(i) => {
            if !i.generated {
                let h = match i.kind {
                    TraitItemKind::Required => g.with_declaration(i.id),
                    TraitItemKind::Provided => g.with_provided(i.id, i.location),
                    TraitItemKind::Other => g,
                };
                let caller = match i.kind {
                    TraitItemKind::Provided => Some(i.id),
                    _ => None,
                };
                lemma_put(g.implementations, i.id, Seq::<CallableId>::empty());
                lemma_put(g.implementations, i.id, g.implementations_of(i.id).push(i.id));
                if i.body is Some {
                    lemma_record_all_keeps_wf(h, walk(i.body->0, caller, 0, false).calls);
                }
            }
        },
        ItemLike::ImplItem(i) => {
            if !i.generated {
                let recorded = g.with_function(i.id, i.location);
                let h = if i.is_fn {
                    match i.declaration {
                        Some(d) => recorded.with_implementation(d, i.id),
                        None => recorded,
                    }
                } else {
                    g
                };
                let caller = if i.is_fn {
                    Some(i.id)
                } else {
                    None
                };
                if i.declaration is Some {
                    lemma_put(
                        g.implementations,
                        i.declaration->0,
                        g.implementations_of(i.declaration->0).push(i.id),
                    );
                }
                if i.body is Some {
                    lemma_record_all_keeps_wf(h, walk(i.body->0, caller, 0, false).calls);
                }
            }
        },
    }
}

} // verus!
