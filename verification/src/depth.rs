//! The constraint-depth rules, stated over the program model.
//!
//! A visit of an expression starts at a depth and ends at a depth. Most
//! expressions end where they started. The two short-circuit operators,
//! inside the condition of a conditional, are the exception: the depth
//! they end at carries over to what is visited next, and so reaches the
//! branch that the condition guards.
//!
//! The policy on scoping, chosen deliberately: a conditional, a match and
//! a loop raise the depth for their own subtree only, and code that
//! follows them is visited at the depth at which they were entered. The
//! branch that a conditional does not guard is visited at the depth at
//! which the condition ended, without the conditional's own increment.
//! The branches of a conditional are no part of a condition, even where
//! the conditional itself stands inside one.

use vstd::prelude::*;
use crate::classify::{direct_edge, method_edge};
use crate::edge::EdgeView;
use crate::ids::CallableId;
use crate::program::{BinaryOp, DirectCallee, Expr, ExprKind, LangItem, MatchOrigin};
use crate::text::is_debug_text;

verus! {

/// The outcome of visiting an expression: the depth at which the visit
/// ends, and the candidate edges of the call sites met, in visiting order.
pub struct Walk {
    pub exit: nat,
    pub calls: Seq<EdgeView>,
}

/// The depth of the guarded branch of a conditional whose condition ended
/// at `cond_exit`: one more, unless the conditional's source text marks it
/// as a debug-only assertion.
pub open spec fn branch_depth(cond_exit: nat, text: Option<String>) -> nat {
    match text {
        Some(t) => if is_debug_text(t@) {
            cond_exit
        } else {
            cond_exit + 1
        },
        None => cond_exit + 1,
    }
}

/// Whether an expression is the call of the iterator protocol that a `for`
/// loop is lowered to.
pub open spec fn drives_for_loop(scrutinee: Expr) -> bool {
    scrutinee.kind matches ExprKind::Call { callee: DirectCallee::Lang { item: LangItem::IteratorNext }, .. }
}

/// Whether a match is a branch of the source rather than an artefact of
/// lowering. The matches that a `for` loop is lowered to are none,
/// whether they are marked as such or known by the call they match on.
pub open spec fn is_source_branch(origin: MatchOrigin, scrutinee: Expr) -> bool {
    origin == MatchOrigin::Source && !drives_for_loop(scrutinee)
}

/// The depth inside a match entered at `depth`.
pub open spec fn match_depth(depth: nat, origin: MatchOrigin, scrutinee: Expr) -> nat {
    if is_source_branch(origin, scrutinee) {
        depth + 1
    } else {
        depth
    }
}

/// The depth inside a loop entered at `depth`: entering a loop counts as
/// one constraint, and only where none is counted yet.
pub open spec fn loop_depth(depth: nat) -> nat {
    if depth == 0 {
        1
    } else {
        depth
    }
}

/// A candidate edge, or none, as a sequence.
pub open spec fn candidate(edge: Option<EdgeView>) -> Seq<EdgeView> {
    match edge {
        Some(e) => seq![e],
        None => Seq::empty(),
    }
}

/// Visits `e` at `depth` on behalf of `caller`. `in_cond` says whether `e`
/// lies inside the condition of a conditional.
pub open spec fn walk(e: Expr, caller: Option<CallableId>, depth: nat, in_cond: bool) -> Walk
    decreases e, 0nat,
{
    if e.generated {
        Walk { exit: depth, calls: Seq::empty() }
    } else {
        match e.kind {
            ExprKind::If { cond, then_branch, else_branch, text } => {
                let c = walk(*cond, caller, depth, true);
                let t = walk(*then_branch, caller, branch_depth(c.exit, text), false);
                let calls = match else_branch {
                    Some(b) => c.calls + t.calls + walk(*b, caller, c.exit, false).calls,
                    None => c.calls + t.calls,
                };
                Walk { exit: depth, calls }
            },
            ExprKind::Binary { op, lhs, rhs } => {
                let l = walk(*lhs, caller, depth, in_cond);
                if in_cond && op == BinaryOp::And {
                    let r = walk(*rhs, caller, l.exit + 1, in_cond);
                    Walk { exit: r.exit, calls: l.calls + r.calls }
                } else if in_cond && op == BinaryOp::Or {
                    let r = walk(*rhs, caller, depth, in_cond);
                    Walk { exit: if l.exit <= r.exit { l.exit } else { r.exit }, calls: l.calls + r.calls }
                } else {
                    let r = walk(*rhs, caller, l.exit, in_cond);
                    Walk { exit: depth, calls: l.calls + r.calls }
                }
            },
            ExprKind::Match { scrutinee, arms, origin } => {
                let s = walk(*scrutinee, caller, match_depth(depth, origin, *scrutinee), in_cond);
                let a = walk_all(arms, arms@.len(), caller, s.exit, in_cond);
                Walk { exit: depth, calls: s.calls + a.calls }
            },
            ExprKind::Loop { body } => {
                let b = walk(*body, caller, loop_depth(depth), in_cond);
                Walk { exit: depth, calls: b.calls }
            },
            ExprKind::Call { callee, args } => {
                let a = walk_all(args, args@.len(), caller, depth, in_cond);
                Walk { exit: depth, calls: candidate(direct_edge(callee, caller, depth, e.location)) + a.calls }
            },
            ExprKind::MethodCall { target, receiver, args } => {
                let r = walk(*receiver, caller, depth, in_cond);
                let a = walk_all(args, args@.len(), caller, r.exit, in_cond);
                Walk {
                    exit: depth,
                    calls: candidate(method_edge(target, caller, depth, e.location)) + r.calls + a.calls,
                }
            },
            ExprKind::Other { children } => {
                let c = walk_all(children, children@.len(), caller, depth, in_cond);
                Walk { exit: depth, calls: c.calls }
            },
        }
    }
}

/// Visits the first `upto` of `children` one after the other, each at the
/// depth at which the one before it ended.
pub open spec fn walk_all(
    children: Vec<Expr>,
    upto: nat,
    caller: Option<CallableId>,
    depth: nat,
    in_cond: bool,
) -> Walk
    decreases children, upto,
{
    if upto == 0 || upto > children@.len() {
        Walk { exit: depth, calls: Seq::empty() }
    } else {
        let before = walk_all(children, (upto - 1) as nat, caller, depth, in_cond);
        let last = walk(children@[upto - 1], caller, before.exit, in_cond);
        Walk { exit: last.exit, calls: before.calls + last.calls }
    }
}

/// The number of nodes of an expression that a visit can reach.
pub open spec fn weight(e: Expr) -> nat
    decreases e, 0nat,
{
    if e.generated {
        1
    } else {
        match e.kind {
            ExprKind::If { cond, then_branch, else_branch, text } => 1 + weight(*cond) + weight(*then_branch)
                + match else_branch {
                Some(b) => weight(*b),
                None => 0,
            },
            ExprKind::Binary { op, lhs, rhs } => 1 + weight(*lhs) + weight(*rhs),
            ExprKind::Match { scrutinee, arms, origin } => 1 + weight(*scrutinee) + weight_all(
                arms,
                arms@.len(),
            ),
            ExprKind::Loop { body } => 1 + weight(*body),
            ExprKind::Call { callee, args } => 1 + weight_all(args, args@.len()),
            ExprKind::MethodCall { target, receiver, args } => 1 + weight(*receiver) + weight_all(
                args,
                args@.len(),
            ),
            ExprKind::Other { children } => 1 + weight_all(children, children@.len()),
        }
    }
}

/// The weight of the first `upto` of `children` together.
pub open spec fn weight_all(children: Vec<Expr>, upto: nat) -> nat
    decreases children, upto,
{
    if upto == 0 || upto > children@.len() {
        0
    } else {
        weight_all(children, (upto - 1) as nat) + weight(children@[upto - 1])
    }
}

/// Whether every method call that a visit of `e` reaches leads to a callee
/// by a recognised path.
pub open spec fn well_resolved(e: Expr) -> bool
    decreases e, 0nat,
{
    e.generated || match e.kind {
        ExprKind::If { cond, then_branch, else_branch, text } => well_resolved(*cond) && well_resolved(
            *then_branch,
        ) && match else_branch {
            Some(b) => well_resolved(*b),
            None => true,
        },
        ExprKind::Binary { op, lhs, rhs } => well_resolved(*lhs) && well_resolved(*rhs),
        ExprKind::Match { scrutinee, arms, origin } => well_resolved(*scrutinee) && well_resolved_all(
            arms,
            arms@.len(),
        ),
        ExprKind::Loop { body } => well_resolved(*body),
        ExprKind::Call { callee, args } => well_resolved_all(args, args@.len()),
        ExprKind::MethodCall { target, receiver, args } => crate::classify::method_target(target) is Some
            && well_resolved(*receiver) && well_resolved_all(args, args@.len()),
        ExprKind::Other { children } => well_resolved_all(children, children@.len()),
    }
}

/// Whether the first `upto` of `children` are all well resolved.
pub open spec fn well_resolved_all(children: Vec<Expr>, upto: nat) -> bool
    decreases children, upto,
{
    if upto == 0 || upto > children@.len() {
        true
    } else {
        well_resolved_all(children, (upto - 1) as nat) && well_resolved(children@[upto - 1])
    }
}

/// A visit ends no lower than it started, and no higher than the nodes it
/// can reach allow.
pub proof fn lemma_exit_bounds(e: Expr, caller: Option<CallableId>, depth: nat, in_cond: bool)
    ensures
        depth <= walk(e, caller, depth, in_cond).exit <= depth + weight(e),
        !in_cond ==> walk(e, caller, depth, in_cond).exit == depth,
    decreases e, 0nat,
{
    if !e.generated {
        match e.kind {
            ExprKind::Binary { op, lhs, rhs } => {
                let l = walk(*lhs, caller, depth, in_cond);
                lemma_exit_bounds(*lhs, caller, depth, in_cond);
                if in_cond && op == BinaryOp::And {
                    lemma_exit_bounds(*rhs, caller, l.exit + 1, in_cond);
                } else if in_cond && op == BinaryOp::Or {
                    lemma_exit_bounds(*rhs, caller, depth, in_cond);
                }
            },
            _ => {},
        }
    }
}

/// The same bounds for a run of siblings.
pub proof fn lemma_exit_bounds_all(
    children: Vec<Expr>,
    upto: nat,
    caller: Option<CallableId>,
    depth: nat,
    in_cond: bool,
)
    ensures
        depth <= walk_all(children, upto, caller, depth, in_cond).exit <= depth + weight_all(
            children,
            upto,
        ),
        !in_cond ==> walk_all(children, upto, caller, depth, in_cond).exit == depth,
    decreases upto,
{
    if !(upto == 0 || upto > children@.len()) {
        lemma_exit_bounds_all(children, (upto - 1) as nat, caller, depth, in_cond);
        let before = walk_all(children, (upto - 1) as nat, caller, depth, in_cond);
        lemma_exit_bounds(children@[upto - 1], caller, before.exit, in_cond);
    }
}

/// A longer run of siblings weighs no less.
pub proof fn lemma_weight_all_monotone(children: Vec<Expr>, shorter: nat, longer: nat)
    requires
        shorter <= longer <= children@.len(),
    ensures
        weight_all(children, shorter) <= weight_all(children, longer),
    decreases longer,
{
    if shorter < longer {
        lemma_weight_all_monotone(children, shorter, (longer - 1) as nat);
    }
}

/// Where a run of siblings is well resolved, so is every shorter run and
/// the sibling that ends it.
pub proof fn lemma_well_resolved_prefix(children: Vec<Expr>, shorter: nat, longer: nat)
    requires
        0 < shorter <= longer <= children@.len(),
        well_resolved_all(children, longer),
    ensures
        well_resolved_all(children, shorter),
        well_resolved(children@[shorter - 1]),
    decreases longer,
{
    if shorter < longer {
        lemma_well_resolved_prefix(children, shorter, (longer - 1) as nat);
    }
}

} // verus!
