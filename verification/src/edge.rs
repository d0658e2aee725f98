//! Call edges and how their targets were resolved.

use vstd::prelude::*;
use crate::ids::{same_caller, CallableId, SourceLocation};

verus! {

/// How the target of a call was resolved.
#[derive(Clone, Copy, Debug, PartialEq, Eq, Structural, Hash)]
pub enum DispatchKind {
    /// The concrete target is known.
    Static,
    /// Only an interface method is known.
    Dynamic,
    /// The target lies outside the analysed program.
    NonLocal,
}

/// What distinguishes one edge from another inside an edge set:
/// the caller, if any, and the callee.
pub type EdgeKey = (Option<CallableId>, CallableId);

/// A call edge of the graph.
#[derive(Debug)]
pub struct CallEdge {
    /// The enclosing callable, if the call site has one.
    pub caller: Option<CallableId>,
    pub callee: CallableId,
    /// The callee's qualified path, for display.
    pub callee_path: String,
    pub kind: DispatchKind,
    /// How many independent conditions guard the call site.
    pub constraint_depth: usize,
    /// Where the call is written.
    pub site: SourceLocation,
}

/// The mathematical value of a [`CallEdge`].
pub struct EdgeView {
    pub caller: Option<CallableId>,
    pub callee: CallableId,
    pub callee_path: Seq<char>,
    pub kind: DispatchKind,
    pub depth: nat,
    pub site: SourceLocation,
}

impl EdgeView {
    pub open spec fn key(self) -> EdgeKey {
        (self.caller, self.callee)
    }

    /// The same edge observed at another depth.
    pub open spec fn at_depth(self, depth: nat) -> EdgeView {
        EdgeView { depth, ..self }
    }
}

impl View for CallEdge {
    type V = EdgeView;

    open spec fn view(&self) -> EdgeView {
        EdgeView {
            caller: self.caller,
            callee: self.callee,
            callee_path: self.callee_path@,
            kind: self.kind,
            depth: self.constraint_depth as nat,
            site: self.site,
        }
    }
}

impl Clone for CallEdge {
    fn clone(&self) -> (r: Self)
        ensures
            r == *self,
    {
        CallEdge {
            caller: self.caller,
            callee: self.callee,
            callee_path: self.callee_path.clone(),
            kind: self.kind,
            constraint_depth: self.constraint_depth,
            site: self.site,
        }
    }
}

impl CallEdge {
    /// Whether this edge has the given caller and callee.
    pub fn has_key(&self, caller: Option<CallableId>, callee: CallableId) -> (r: bool)
        ensures
            r == (self@.key() == (caller, callee)),
    {
        same_caller(self.caller, caller) && self.callee == callee
    }

    /// Whether an observation of this same call at `new_depth` should take
    /// this edge's place: only a strictly shallower one does.
    pub fn should_insert(&self, new_depth: usize) -> (r: bool)
        ensures
            r == (new_depth < self@.depth),
    {
        new_depth < self.constraint_depth
    }
}

} // verus!
