//! The call graph under construction.
//!
//! The current callable, the current depth and whether the visit is inside
//! a condition are no part of the visitor: the traversal hands them down as
//! arguments and hands the resulting depth back, so no visit can leak
//! state into an unrelated one.

use vstd::prelude::*;
use crate::assoc::{distinct_keys, lemma_position, lemma_position_unique, lemma_put, position};
use crate::edge::{CallEdge, DispatchKind};
use crate::graph::GraphView;
use crate::ids::{CallableId, SourceLocation};
use crate::store::{keyed, lemma_merge_into, EdgeSet};

verus! {

/// The entries of the implementation table, each list by its view.
pub open spec fn listed(s: Seq<(CallableId, Vec<CallableId>)>) -> Seq<(CallableId, Seq<CallableId>)> {
    s.map_values(|p: (CallableId, Vec<CallableId>)| (p.0, p.1@))
}

/// A call graph under construction, and the traversal that fills it.
pub struct CallgraphVisitor {
    functions: Vec<(CallableId, SourceLocation)>,
    method_decls: Vec<CallableId>,
    method_impls: Vec<(CallableId, Vec<CallableId>)>,
    static_calls: EdgeSet,
    dynamic_calls: EdgeSet,
    non_local_calls: EdgeSet,
}

impl View for CallgraphVisitor {
    type V = GraphView;

    closed spec fn view(&self) -> GraphView {
        GraphView {
            functions: self.functions@,
            declarations: self.method_decls@,
            implementations: listed(self.method_impls@),
            static_calls: self.static_calls@,
            dynamic_calls: self.dynamic_calls@,
            non_local_calls: self.non_local_calls@,
        }
    }
}

impl CallgraphVisitor {
    /// No table holds a key twice. Every visitor this module hands out is
    /// well formed, and every operation keeps it so.
    pub open spec fn wf(&self) -> bool {
        self@.wf()
    }

    /// A visitor that has seen nothing.
    pub fn new() -> (v: CallgraphVisitor)
        ensures
            v.wf(),
            v@ == GraphView::empty(),
    {
        let v = CallgraphVisitor {
            functions: Vec::new(),
            method_decls: Vec::new(),
            method_impls: Vec::new(),
            static_calls: EdgeSet::new(),
            dynamic_calls: EdgeSet::new(),
            non_local_calls: EdgeSet::new(),
        };
        assert(listed(v.method_impls@) =~= Seq::empty());
        assert(keyed(Seq::empty()) =~= Seq::empty());
        v
    }

    /// How many functions were recorded.
    pub fn function_count(&self) -> (n: usize)
        ensures
            n == self@.functions.len(),
    {
        self.functions.len()
    }

    /// The `i`-th function in order of first discovery.
    pub fn function_at(&self, i: usize) -> (f: (CallableId, SourceLocation))
        requires
            i < self@.functions.len(),
        ensures
            f == self@.functions[i as int],
    {
        self.functions[i]
    }

    /// How many interface methods were registered.
    pub fn declaration_count(&self) -> (n: usize)
        ensures
            n == self@.declarations.len(),
    {
        self.method_decls.len()
    }

    /// The `i`-th interface method in order of first discovery.
    pub fn declaration_at(&self, i: usize) -> (d: CallableId)
        requires
            i < self@.declarations.len(),
        ensures
            d == self@.declarations[i as int],
    {
        self.method_decls[i]
    }

    /// How many interface methods have a list of implementations.
    pub fn implementation_count(&self) -> (n: usize)
        ensures
            n == self@.implementations.len(),
    {
        self.method_impls.len()
    }

    /// The `i`-th interface method that has a list of implementations,
    /// and its list.
    pub fn implementation_at(&self, i: usize) -> (entry: (CallableId, &Vec<CallableId>))
        requires
            i < self@.implementations.len(),
        ensures
            (entry.0, entry.1@) == self@.implementations[i as int],
    {
        (self.method_impls[i].0, &self.method_impls[i].1)
    }

    /// The edge set of one dispatch kind.
    pub fn edges(&self, kind: DispatchKind) -> (s: &EdgeSet)
        requires
            self.wf(),
        ensures
            s.wf(),
            s@ == self@.edges(kind),
    {
        match kind {
            DispatchKind::Static => &self.static_calls,
            DispatchKind::Dynamic => &self.dynamic_calls,
            DispatchKind::NonLocal => &self.non_local_calls,
        }
    }

    /// Hands a candidate edge to the store of its dispatch kind.
    pub fn handle_call(&mut self, new_call: CallEdge)
        requires
            old(self).wf(),
        ensures
            final(self).wf(),
            final(self)@ == old(self)@.record(new_call@),
    {
        proof {
            lemma_merge_into(self@.edges(new_call.kind), new_call@);
        }
        match new_call.kind {
            DispatchKind::Static => self.static_calls.merge(new_call),
            DispatchKind::Dynamic => self.dynamic_calls.merge(new_call),
            DispatchKind::NonLocal => self.non_local_calls.merge(new_call),
        }
    }

    /// Whether `id` at `location` was recorded as a function.
    pub fn is_function(&self, id: CallableId, location: SourceLocation) -> (r: bool)
        ensures
            r == self@.functions.contains((id, location)),
    {
        let mut i: usize = 0;
        while i < self.functions.len()
            invariant
                i <= self.functions@.len(),
                forall|j: int| 0 <= j < i ==> self.functions@[j] != (id, location),
            decreases self.functions@.len() - i,
        {
            if self.functions[i].0 == id && self.functions[i].1 == location {
                assert(self.functions@[i as int] == (id, location));
                return true;
            }
            i = i + 1;
        }
        false
    }

    /// Whether `id` was registered as an interface method.
    pub fn is_declaration(&self, id: CallableId) -> (r: bool)
        ensures
            r == self@.declarations.contains(id),
    {
        let mut i: usize = 0;
        while i < self.method_decls.len()
            invariant
                i <= self.method_decls@.len(),
                forall|j: int| 0 <= j < i ==> self.method_decls@[j] != id,
            decreases self.method_decls@.len() - i,
        {
            if self.method_decls[i] == id {
                return true;
            }
            i = i + 1;
        }
        false
    }

    /// Where the list of `declaration` sits in the implementation table.
    fn impls_position(&self, declaration: CallableId) -> (r: Option<usize>)
        requires
            self.wf(),
        ensures
            match r {
                Some(i) => position(self@.implementations, declaration) == Some(i as int) && i
                    < self.method_impls@.len() && self.method_impls@[i as int].0 == declaration,
                None => position(self@.implementations, declaration) is None,
            },
    {
        let ghost s = listed(self.method_impls@);
        let mut i: usize = 0;
        while i < self.method_impls.len()
            invariant
                i <= self.method_impls@.len(),
                s == listed(self.method_impls@),
                distinct_keys(s),
                forall|j: int| 0 <= j < i ==> s[j].0 != declaration,
            decreases self.method_impls@.len() - i,
        {
            if self.method_impls[i].0 == declaration {
                proof {
                    lemma_position_unique(s, declaration, i as int);
                }
                return Some(i);
            }
            i = i + 1;
        }
        proof {
            lemma_position(s, declaration);
        }
        None
    }

    /// The implementations recorded for `declaration`, in order of
    /// discovery; `None` where it has no list.
    pub fn implementations_of(&self, declaration: CallableId) -> (r: Option<&Vec<CallableId>>)
        requires
            self.wf(),
        ensures
            r is Some <==> position(self@.implementations, declaration) is Some,
            r matches Some(list) ==> list@ == self@.implementations_of(declaration),
    {
        match self.impls_position(declaration) {
            Some(i) => Some(&self.method_impls[i].1),
            None => None,
        }
    }

    /// Records a function.
    pub fn record_function(&mut self, id: CallableId, location: SourceLocation)
        requires
            old(self).wf(),
        ensures
            final(self).wf(),
            final(self)@ == old(self)@.with_function(id, location),
    {
        if !self.is_function(id, location) {
            self.functions.push((id, location));
        }
    }

    /// Notes that `id` is an interface method, and leaves its list of
    /// implementations alone.
    pub fn note_declaration(&mut self, id: CallableId)
        requires
            old(self).wf(),
        ensures
            final(self).wf(),
            final(self)@ == old(self)@.with_declared(id),
    {
        if !self.is_declaration(id) {
            self.method_decls.push(id);
        }
    }

    /// Registers an interface method with an empty list of
    /// implementations. A list recorded for it earlier is dropped.
    pub fn declare(&mut self, id: CallableId)
        requires
            old(self).wf(),
        ensures
            final(self).wf(),
            final(self)@ == old(self)@.with_declaration(id),
    {
        self.note_declaration(id);
        let ghost s = listed(self.method_impls@);
        proof {
            lemma_put(s, id, Seq::<CallableId>::empty());
        }
        let entry: (CallableId, Vec<CallableId>) = (id, Vec::new());
        match self.impls_position(id) {
            Some(i) => {
                self.method_impls.set(i, entry);
                assert(listed(self.method_impls@) =~= s.update(i as int, (id, Seq::<CallableId>::empty())));
            },
            None => {
                self.method_impls.push(entry);
                assert(listed(self.method_impls@) =~= s.push((id, Seq::<CallableId>::empty())));
            },
        }
    }

    /// Appends `implementation` to the implementations of `declaration`,
    /// starting the list where there is none.
    pub fn link_implementation(&mut self, declaration: CallableId, implementation: CallableId)
        requires
            old(self).wf(),
        ensures
            final(self).wf(),
            final(self)@ == old(self)@.with_implementation(declaration, implementation),
    {
        let ghost s = listed(self.method_impls@);
        let ghost grown = self@.implementations_of(declaration).push(implementation);
        proof {
            lemma_put(s, declaration, grown);
        }
        match self.impls_position(declaration) {
            Some(i) => {
                self.method_impls[i].1.push(implementation);
                assert(listed(self.method_impls@) =~= s.update(i as int, (declaration, grown)));
            },
            None => {
                let mut list: Vec<CallableId> = Vec::new();
                list.push(implementation);
                assert(list@ =~= grown);
                self.method_impls.push((declaration, list));
                assert(listed(self.method_impls@) =~= s.push((declaration, grown)));
            },
        }
    }
}

} // verus!
