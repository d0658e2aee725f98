//! The call classifier: from a call node to a candidate edge.
//!
//! Classification reads nothing but the call node itself: what the call
//! resolved to, and whether the concrete type of the receiver is known at
//! the call site. In particular it never consults which implementations
//! the program holds: a call on a receiver of unknown type is dynamic
//! however many implementations exist.

use vstd::prelude::*;
use vstd::string::StringExecFns;
use crate::edge::{CallEdge, DispatchKind, EdgeView};
use crate::ids::{CallableId, SourceLocation};
use crate::program::{Definition, DirectCallee, MethodTarget, Resolution};

verus! {

/// What separates an owner from its member in a qualified path.
pub open spec fn path_separator() -> Seq<char> {
    "::"@
}

/// The callee identity and display path that a direct call names, if it
/// names a definition at all.
pub open spec fn direct_target(callee: DirectCallee) -> Option<(CallableId, Seq<char>)> {
    match callee {
        DirectCallee::Resolved { target: Some(c) } => Some((c.id, c.path@)),
        DirectCallee::TypeRelative { owner_path: Some(owner), member, member_id: Some(id) } => Some(
            (id, owner@ + path_separator() + member@),
        ),
        _ => None,
    }
}

/// How a method call is classified that resolves to a definition of
/// kind `definition`, on a receiver whose concrete type is known or not
/// as `receiver_known` says. A method of an interface is dynamic where
/// the receiver's type is not known; where it is known, the method's
/// default body is the concrete target and the call is static. `None`
/// for a kind of node that no method can resolve to.
pub open spec fn dispatch_of(definition: Definition, receiver_known: bool) -> Option<DispatchKind> {
    match definition {
        Definition::InterfaceMethod => if receiver_known {
            Some(DispatchKind::Static)
        } else {
            Some(DispatchKind::Dynamic)
        },
        Definition::ImplMethod => Some(DispatchKind::Static),
        Definition::FreeItem => Some(DispatchKind::Static),
        Definition::ForeignItem => Some(DispatchKind::Static),
        Definition::External => Some(DispatchKind::NonLocal),
        Definition::Unrecognized => None,
    }
}

/// The dispatch kind, callee identity and display path of a method call.
///
/// A call that resolves to an instance is classified by where that instance
/// is defined and by whether the receiver's concrete type is known. A call
/// that does not resolve is dynamic and keeps the
/// identity of the method that type checking named, or failing that the
/// one its name resolves to. `None` where no recognised path leads to a
/// callee.
pub open spec fn method_target(target: MethodTarget) -> Option<(DispatchKind, CallableId, Seq<char>)> {
    match target {
        MethodTarget::Named { method, resolution: Resolution::Unresolved } => Some(
            (DispatchKind::Dynamic, method.id, method.path@),
        ),
        MethodTarget::Named {
            method,
            resolution: Resolution::Instance { target, definition, receiver_known },
        } => {
            match dispatch_of(definition, receiver_known) {
                Some(kind) => Some((kind, target.id, target.path@)),
                None => None,
            }
        },
        MethodTarget::Unnamed { segment: Some(c) } => Some((DispatchKind::Dynamic, c.id, c.path@)),
        MethodTarget::Unnamed { segment: None } => None,
    }
}

/// The edge that a direct call contributes when visited at `depth`.
/// A call without a receiver never needs one to pick an implementation,
/// so the edge is static.
pub open spec fn direct_edge(
    callee: DirectCallee,
    caller: Option<CallableId>,
    depth: nat,
    site: SourceLocation,
) -> Option<EdgeView> {
    match direct_target(callee) {
        Some((id, path)) => Some(
            EdgeView { caller, callee: id, callee_path: path, kind: DispatchKind::Static, depth, site },
        ),
        None => None,
    }
}

/// The edge that a method call contributes when visited at `depth`.
pub open spec fn method_edge(
    target: MethodTarget,
    caller: Option<CallableId>,
    depth: nat,
    site: SourceLocation,
) -> Option<EdgeView> {
    match method_target(target) {
        Some((kind, id, path)) => Some(EdgeView { caller, callee: id, callee_path: path, kind, depth, site }),
        None => None,
    }
}

/// Classifies a call by where its instance is defined and by whether the
/// receiver's concrete type is known.
pub fn classify_definition(definition: Definition, receiver_known: bool) -> (r: Option<DispatchKind>)
    ensures
        r == dispatch_of(definition, receiver_known),
{
    match definition {
        Definition::InterfaceMethod => if receiver_known {
            Some(DispatchKind::Static)
        } else {
            Some(DispatchKind::Dynamic)
        },
        Definition::ImplMethod => Some(DispatchKind::Static),
        Definition::FreeItem => Some(DispatchKind::Static),
        Definition::ForeignItem => Some(DispatchKind::Static),
        Definition::External => Some(DispatchKind::NonLocal),
        Definition::Unrecognized => None,
    }
}

/// Builds the candidate edge of a direct call.
pub fn classify_direct(
    callee: &DirectCallee,
    caller: Option<CallableId>,
    depth: usize,
    site: SourceLocation,
) -> (r: Option<CallEdge>)
    ensures
        r is Some <==> direct_edge(*callee, caller, depth as nat, site) is Some,
        r matches Some(e) ==> Some(e@) == direct_edge(*callee, caller, depth as nat, site),
{
    match callee {
        DirectCallee::Resolved { target: Some(c) } => Some(
            CallEdge {
                caller,
                callee: c.id,
                callee_path: c.path.clone(),
                kind: DispatchKind::Static,
                constraint_depth: depth,
                site,
            },
        ),
        DirectCallee::TypeRelative { owner_path: Some(owner), member, member_id: Some(id) } => {
            let path = owner.clone().concat("::").concat(member.as_str());
            Some(
                CallEdge {
                    caller,
                    callee: *id,
                    callee_path: path,
                    kind: DispatchKind::Static,
                    constraint_depth: depth,
                    site,
                },
            )
        },
        _ => None,
    }
}

/// Builds the candidate edge of a method call.
pub fn classify_method(
    target: &MethodTarget,
    caller: Option<CallableId>,
    depth: usize,
    site: SourceLocation,
) -> (r: Option<CallEdge>)
    ensures
        r is Some <==> method_edge(*target, caller, depth as nat, site) is Some,
        r matches Some(e) ==> Some(e@) == method_edge(*target, caller, depth as nat, site),
{
    match target {
        MethodTarget::Named { method, resolution: Resolution::Unresolved } => Some(
            CallEdge {
                caller,
                callee: method.id,
                callee_path: method.path.clone(),
                kind: DispatchKind::Dynamic,
                constraint_depth: depth,
                site,
            },
        ),
        MethodTarget::Named {
            method,
            resolution: Resolution::Instance { target, definition, receiver_known },
        } => {
            match classify_definition(*definition, *receiver_known) {
                Some(kind) => Some(
                    CallEdge {
                        caller,
                        callee: target.id,
                        callee_path: target.path.clone(),
                        kind,
                        constraint_depth: depth,
                        site,
                    },
                ),
                None => None,
            }
        },
        MethodTarget::Unnamed { segment: Some(c) } => Some(
            CallEdge {
                caller,
                callee: c.id,
                callee_path: c.path.clone(),
                kind: DispatchKind::Dynamic,
                constraint_depth: depth,
                site,
            },
        ),
        MethodTarget::Unnamed { segment: None } => None,
    }
}

} // verus!
