//! What a program must satisfy before it is traversed, and how to tell.
//!
//! A traversal asks two things of every body it visits: each method call
//! in it leads to a callee by a recognised path, and the body is small
//! enough for the depth counter never to overflow.

use vstd::prelude::*;
use crate::classify::{classify_definition, method_target};
use crate::depth::{
    lemma_weight_all_monotone, lemma_well_resolved_prefix, weight, weight_all, well_resolved,
    well_resolved_all,
};
use crate::program::{Expr, ExprKind, ItemLike, MethodTarget, Program, Resolution};

verus! {

/// Whether a body can be visited.
pub open spec fn body_admissible(body: Option<Expr>) -> bool {
    match body {
        Some(e) => well_resolved(e) && weight(e) <= usize::MAX,
        None => true,
    }
}

/// Whether an item can be visited. A generated item is skipped whole, so
/// nothing is asked of it.
pub open spec fn item_admissible(item: ItemLike) -> bool {
    match item {
        ItemLike::Item(i) => i.generated || body_admissible(i.body),
        ItemLike::TraitItem(i) => i.generated || body_admissible(i.body),
        ItemLike::ImplItem(i) => i.generated || body_admissible(i.body),
    }
}

/// Whether the first `upto` of `items` can all be visited.
pub open spec fn items_admissible(items: Seq<ItemLike>, upto: nat) -> bool {
    forall|i: int| 0 <= i < upto && i < items.len() ==> item_admissible(#[trigger] items[i])
}

/// Whether a program can be traversed.
pub open spec fn program_admissible(program: Program) -> bool {
    items_admissible(program.items@, program.items@.len())
}

/// Whether a recognised path leads from a method call to a callee.
pub fn is_recognised(target: &MethodTarget) -> (r: bool)
    ensures
        r == (method_target(*target) is Some),
{
    match target {
        MethodTarget::Named { resolution: Resolution::Unresolved, .. } => true,
        MethodTarget::Named {
            resolution: Resolution::Instance { definition, receiver_known, .. },
            ..
        } => { classify_definition(*definition, *receiver_known).is_some() },
        MethodTarget::Unnamed { segment } => segment.is_some(),
    }
}

/// What is left of `budget` once the weights of `children` are taken off
/// it; `None` where one of them is not well resolved or they weigh more
/// than the budget.
pub fn spend_all(children: &Vec<Expr>, budget: usize) -> (r: Option<usize>)
    ensures
        r is Some <==> well_resolved_all(*children, children@.len()) && weight_all(
            *children,
            children@.len(),
        ) <= budget,
        r matches Some(left) ==> left == budget - weight_all(*children, children@.len()),
    decreases *children, 0nat,
{
    let mut left: usize = budget;
    let mut i: usize = 0;
    while i < children.len()
        invariant
            i <= children@.len(),
            well_resolved_all(*children, i as nat),
            weight_all(*children, i as nat) <= budget,
            left == budget - weight_all(*children, i as nat),
        decreases children@.len() - i,
    {
        proof {
            lemma_weight_all_monotone(*children, (i + 1) as nat, children@.len());
            if well_resolved_all(*children, children@.len()) {
                lemma_well_resolved_prefix(*children, (i + 1) as nat, children@.len());
            }
        }
        match spend(&children[i], left) {
            Some(rest) => {
                left = rest;
            },
            None => {
                return None;
            },
        }
        i = i + 1;
    }
    Some(left)
}

/// What is left of `budget` once the weight of `e` is taken off it; `None`
/// where `e` is not well resolved or weighs more than the budget.
pub fn spend(e: &Expr, budget: usize) -> (r: Option<usize>)
    ensures
        r is Some <==> well_resolved(*e) && weight(*e) <= budget,
        r matches Some(left) ==> left == budget - weight(*e),
    decreases *e, 1nat,
{
    if budget == 0 {
        return None;
    }
    let left: usize = budget - 1;
    if e.generated {
        return Some(left);
    }
    match &e.kind {
        ExprKind::If { cond, then_branch, else_branch, text } => {
            let left: usize = match spend(cond, left) {
                Some(rest) => rest,
                None => { return None; },
            };
            let left: usize = match spend(then_branch, left) {
                Some(rest) => rest,
                None => { return None; },
            };
            match else_branch {
                Some(b) => spend(b, left),
                None => Some(left),
            }
        },
        ExprKind::Binary { op, lhs, rhs } => {
            match spend(lhs, left) {
                Some(rest) => spend(rhs, rest),
                None => None,
            }
        },
        ExprKind::Match { scrutinee, arms, origin } => {
            match spend(scrutinee, left) {
                Some(rest) => spend_all(arms, rest),
                None => None,
            }
        },
        ExprKind::Loop { body } => spend(body, left),
        ExprKind::Call { callee, args } => spend_all(args, left),
        ExprKind::MethodCall { target, receiver, args } => {
            if !is_recognised(target) {
                return None;
            }
            match spend(receiver, left) {
                Some(rest) => spend_all(args, rest),
                None => None,
            }
        },
        ExprKind::Other { children } => spend_all(children, left),
    }
}

/// Whether a body can be visited.
pub fn is_body_admissible(body: &Option<Expr>) -> (r: bool)
    ensures
        r == body_admissible(*body),
{
    match body {
        Some(e) => spend(e, usize::MAX).is_some(),
        None => true,
    }
}

/// Whether an item can be visited.
pub fn is_item_admissible(item: &ItemLike) -> (r: bool)
    ensures
        r == item_admissible(*item),
{
    match item {
        ItemLike::Item(i) => i.generated || is_body_admissible(&i.body),
        ItemLike::TraitItem(i) => i.generated || is_body_admissible(&i.body),
        ItemLike::ImplItem(i) => i.generated || is_body_admissible(&i.body),
    }
}

/// Whether a program can be traversed.
pub fn is_program_admissible(program: &Program) -> (r: bool)
    ensures
        r == program_admissible(*program),
{
    let mut i: usize = 0;
    while i < program.items.len()
        invariant
            i <= program.items@.len(),
            items_admissible(program.items@, i as nat),
        decreases program.items@.len() - i,
    {
        if !is_item_admissible(&program.items[i]) {
            return false;
        }
        i = i + 1;
    }
    true
}

} // verus!
