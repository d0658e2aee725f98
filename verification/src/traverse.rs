//! Visiting expressions: the depth rules and the classifier at work.

use vstd::prelude::*;
use crate::classify::{classify_direct, classify_method, direct_edge, method_edge};
use crate::depth::{
    branch_depth, candidate, is_source_branch, lemma_exit_bounds, lemma_exit_bounds_all,
    lemma_weight_all_monotone, lemma_well_resolved_prefix, walk, walk_all, weight, weight_all,
    well_resolved, well_resolved_all,
};
use crate::graph::{lemma_record_all_concat, lemma_record_all_one};
use crate::ids::CallableId;
use crate::program::{BinaryOp, DirectCallee, Expr, ExprKind, LangItem, MatchOrigin};
use crate::text::mentions_debug;
use crate::visitor::CallgraphVisitor;

verus! {

/// Whether the guarded branch of a conditional with this source text
/// counts as one more constraint.
pub fn raises_depth(text: &Option<String>) -> (r: bool)
    ensures
        forall|d: nat| branch_depth(d, *text) == if r { d + 1 } else { d },
{
    match text {
        Some(t) => !mentions_debug(t.as_str()),
        None => true,
    }
}

/// Whether a match with this origin and scrutinee counts as a branch.
pub fn counts_as_branch(origin: MatchOrigin, scrutinee: &Expr) -> (r: bool)
    ensures
        r == is_source_branch(origin, *scrutinee),
{
    let lowered_for = match &scrutinee.kind {
        ExprKind::Call { callee: DirectCallee::Lang { item: LangItem::IteratorNext }, .. } => true,
        _ => false,
    };
    match origin {
        MatchOrigin::Source => !lowered_for,
        _ => false,
    }
}

impl CallgraphVisitor {
    /// Visits `children` one after the other, each at the depth at which
    /// the one before it ended, and returns the depth at which the last
    /// one ended.
    pub fn visit_children(
        &mut self,
        children: &Vec<Expr>,
        caller: Option<CallableId>,
        depth: usize,
        in_cond: bool,
    ) -> (exit: usize)
        requires
            old(self).wf(),
            well_resolved_all(*children, children@.len()),
            depth + weight_all(*children, children@.len()) <= usize::MAX,
        ensures
            final(self).wf(),
            exit == walk_all(*children, children@.len(), caller, depth as nat, in_cond).exit,
            final(self)@ == old(self)@.record_all(
                walk_all(*children, children@.len(), caller, depth as nat, in_cond).calls,
            ),
        decreases *children, 0nat,
    {
        let mut at: usize = depth;
        let mut i: usize = 0;
        assert(old(self)@.record_all(Seq::empty()) == old(self)@);
        while i < children.len()
            invariant
                i <= children@.len(),
                self.wf(),
                well_resolved_all(*children, children@.len()),
                depth + weight_all(*children, children@.len()) <= usize::MAX,
                at == walk_all(*children, i as nat, caller, depth as nat, in_cond).exit,
                self@ == old(self)@.record_all(
                    walk_all(*children, i as nat, caller, depth as nat, in_cond).calls,
                ),
            decreases children@.len() - i,
        {
            let ghost before = walk_all(*children, i as nat, caller, depth as nat, in_cond);
            let ghost step = walk(children@[i as int], caller, at as nat, in_cond);
            proof {
                lemma_exit_bounds_all(*children, i as nat, caller, depth as nat, in_cond);
                lemma_weight_all_monotone(*children, (i + 1) as nat, children@.len());
                lemma_well_resolved_prefix(*children, (i + 1) as nat, children@.len());
                lemma_record_all_concat(old(self)@, before.calls, step.calls);
            }
            at = self.visit_expr(&children[i], caller, at, in_cond);
            i = i + 1;
        }
        at
    }

    /// Visits `e` at `depth` on behalf of `caller` and returns the depth
    /// at which the visit ends. `in_cond` says whether `e` lies inside the
    /// condition of a conditional.
    pub fn visit_expr(&mut self, e: &Expr, caller: Option<CallableId>, depth: usize, in_cond: bool) -> (exit: usize)
        requires
            old(self).wf(),
            well_resolved(*e),
            depth + weight(*e) <= usize::MAX,
        ensures
            final(self).wf(),
            exit == walk(*e, caller, depth as nat, in_cond).exit,
            final(self)@ == old(self)@.record_all(walk(*e, caller, depth as nat, in_cond).calls),
        decreases *e, 1nat,
    {
        assert(old(self)@.record_all(Seq::empty()) == old(self)@);
        if e.generated {
            return depth;
        }
        match &e.kind {
            ExprKind::If { cond, then_branch, else_branch, text } => {
                let ghost c = walk(**cond, caller, depth as nat, true);
                let ghost t = walk(**then_branch, caller, branch_depth(c.exit, *text), false);
                proof {
                    lemma_exit_bounds(**cond, caller, depth as nat, true);
                }
                let cond_exit: usize = self.visit_expr(cond, caller, depth, true);
                let inner: usize = if raises_depth(text) {
                    cond_exit + 1
                } else {
                    cond_exit
                };
                self.visit_expr(then_branch, caller, inner, false);
                proof {
                    lemma_record_all_concat(old(self)@, c.calls, t.calls);
                }
                match else_branch {
                    Some(b) => {
                        proof {
                            lemma_record_all_concat(
                                old(self)@,
                                c.calls + t.calls,
                                walk(**b, caller, c.exit, false).calls,
                            );
                        }
                        self.visit_expr(b, caller, cond_exit, false);
                    },
                    None => {},
                }
                depth
            },
            ExprKind::Binary { op, lhs, rhs } => {
                let ghost l = walk(**lhs, caller, depth as nat, in_cond);
                proof {
                    lemma_exit_bounds(**lhs, caller, depth as nat, in_cond);
                }
                let left: usize = self.visit_expr(lhs, caller, depth, in_cond);
                if in_cond && *op == BinaryOp::And {
                    proof {
                        lemma_record_all_concat(
                            old(self)@,
                            l.calls,
                            walk(**rhs, caller, l.exit + 1, in_cond).calls,
                        );
                    }
                    self.visit_expr(rhs, caller, left + 1, in_cond)
                } else if in_cond && *op == BinaryOp::Or {
                    proof {
                        lemma_record_all_concat(
                            old(self)@,
                            l.calls,
                            walk(**rhs, caller, depth as nat, in_cond).calls,
                        );
                    }
                    let right: usize = self.visit_expr(rhs, caller, depth, in_cond);
                    if left <= right {
                        left
                    } else {
                        right
                    }
                } else {
                    proof {
                        lemma_record_all_concat(
                            old(self)@,
                            l.calls,
                            walk(**rhs, caller, l.exit, in_cond).calls,
                        );
                    }
                    self.visit_expr(rhs, caller, left, in_cond);
                    depth
                }
            },
            ExprKind::Match { scrutinee, arms, origin } => {
                let inner: usize = if counts_as_branch(*origin, scrutinee) {
                    depth + 1
                } else {
                    depth
                };
                let ghost s = walk(**scrutinee, caller, inner as nat, in_cond);
                proof {
                    lemma_exit_bounds(**scrutinee, caller, inner as nat, in_cond);
                    lemma_record_all_concat(
                        old(self)@,
                        s.calls,
                        walk_all(*arms, arms@.len(), caller, s.exit, in_cond).calls,
                    );
                }
                let after: usize = self.visit_expr(scrutinee, caller, inner, in_cond);
                self.visit_children(arms, caller, after, in_cond);
                depth
            },
            ExprKind::Loop { body } => {
                let inner: usize = if depth == 0 {
                    1
                } else {
                    depth
                };
                self.visit_expr(body, caller, inner, in_cond);
                depth
            },
            ExprKind::Call { .. } => self.process_call(e, caller, depth, in_cond),
            ExprKind::MethodCall { .. } => self.process_method_call(e, caller, depth, in_cond),
            ExprKind::Other { children } => {
                self.visit_children(children, caller, depth, in_cond);
                depth
            },
        }
    }

    /// Visits a call without a receiver: records its edge, if its callee
    /// names a definition, and visits its arguments.
    pub fn process_call(&mut self, e: &Expr, caller: Option<CallableId>, depth: usize, in_cond: bool) -> (exit: usize)
        requires
            old(self).wf(),
            e.kind is Call,
            !e.generated,
            well_resolved(*e),
            depth + weight(*e) <= usize::MAX,
        ensures
            final(self).wf(),
            exit == walk(*e, caller, depth as nat, in_cond).exit,
            final(self)@ == old(self)@.record_all(walk(*e, caller, depth as nat, in_cond).calls),
        decreases *e, 0nat,
    {
        match &e.kind {
            ExprKind::Call { callee, args } => {
                let ghost own = candidate(direct_edge(*callee, caller, depth as nat, e.location));
                proof {
                    lemma_record_all_concat(
                        old(self)@,
                        own,
                        walk_all(*args, args@.len(), caller, depth as nat, in_cond).calls,
                    );
                }
                match classify_direct(callee, caller, depth, e.location) {
                    Some(new_call) => {
                        proof {
                            lemma_record_all_one(old(self)@, new_call@);
                        }
                        self.handle_call(new_call);
                    },
                    None => {
                        assert(old(self)@.record_all(own) == old(self)@);
                    },
                }
                self.visit_children(args, caller, depth, in_cond);
                depth
            },
            _ => depth,
        }
    }

    /// Visits a method call: classifies it, records its edge, and visits
    /// the receiver and the arguments.
    pub fn process_method_call(
        &mut self,
        e: &Expr,
        caller: Option<CallableId>,
        depth: usize,
        in_cond: bool,
    ) -> (exit: usize)
        requires
            old(self).wf(),
            e.kind is MethodCall,
            !e.generated,
            well_resolved(*e),
            depth + weight(*e) <= usize::MAX,
        ensures
            final(self).wf(),
            exit == walk(*e, caller, depth as nat, in_cond).exit,
            final(self)@ == old(self)@.record_all(walk(*e, caller, depth as nat, in_cond).calls),
        decreases *e, 0nat,
    {
        match &e.kind {
            ExprKind::MethodCall { target, receiver, args } => {
                let ghost own = candidate(method_edge(*target, caller, depth as nat, e.location));
                let ghost r = walk(**receiver, caller, depth as nat, in_cond);
                proof {
                    lemma_exit_bounds(**receiver, caller, depth as nat, in_cond);
                    lemma_record_all_concat(old(self)@, own, r.calls);
                    lemma_record_all_concat(
                        old(self)@,
                        own + r.calls,
                        walk_all(*args, args@.len(), caller, r.exit, in_cond).calls,
                    );
                }
                match classify_method(target, caller, depth, e.location) {
                    Some(new_call) => {
                        proof {
                            lemma_record_all_one(old(self)@, new_call@);
                        }
                        self.handle_call(new_call);
                    },
                    None => {
                        assert(old(self)@.record_all(own) == old(self)@);
                    },
                }
                let after: usize = self.visit_expr(receiver, caller, depth, in_cond);
                self.visit_children(args, caller, after, in_cond);
                depth
            },
            _ => depth,
        }
    }
}

} // verus!
