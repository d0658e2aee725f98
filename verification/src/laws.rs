//! What holds of every graph, every program and every call.

use vstd::prelude::*;
use crate::assoc::{lemma_position, lemma_position_unique, position};
use crate::classify::{direct_edge, direct_target, method_edge, method_target};
use crate::depth::{
    candidate, drives_for_loop, lemma_exit_bounds, lemma_exit_bounds_all, match_depth, walk, walk_all,
    Walk,
};
use crate::edge::{DispatchKind, EdgeKey, EdgeView};
use crate::graph::{lemma_record_all_keeps_wf, lemma_visit_keeps_wf, GraphView};
use crate::ids::CallableId;
use crate::program::{
    BinaryOp, Definition, Expr, ExprKind, Item, ItemLike, MatchOrigin, MethodTarget, Resolution,
};
use crate::store::{distinct_edges, keyed, lemma_merge_into, merge_edge, merge_into};

verus! {

/// The smaller of two depths.
pub open spec fn shallower(a: nat, b: nat) -> nat {
    if a <= b {
        a
    } else {
        b
    }
}

/// Merging touches the key of the merged edge and no other, and leaves
/// under that key the shallower of what was there and what came.
pub proof fn lemma_merge_is_minimum(m: Map<EdgeKey, EdgeView>, e: EdgeView)
    ensures
        merge_edge(m, e).dom() == m.dom().insert(e.key()),
        merge_edge(m, e)[e.key()].depth == if m.dom().contains(e.key()) {
            shallower(m[e.key()].depth, e.depth)
        } else {
            e.depth
        },
        merge_edge(m, e)[e.key()] == e || (m.dom().contains(e.key()) && merge_edge(m, e)[e.key()]
            == m[e.key()]),
        forall|k: EdgeKey| k != e.key() && m.dom().contains(k) ==> merge_edge(m, e)[k] == m[k],
{
    assert(merge_edge(m, e).dom() =~= m.dom().insert(e.key()));
}

/// Merging is idempotent: an edge merged twice is an edge merged once.
pub proof fn lemma_merge_idempotent(m: Map<EdgeKey, EdgeView>, e: EdgeView)
    ensures
        merge_edge(merge_edge(m, e), e) == merge_edge(m, e),
{
}

/// The same of the list of edges: a second merge of one edge changes
/// nothing, not even the order.
pub proof fn lemma_merge_into_idempotent(s: Seq<EdgeView>, e: EdgeView)
    requires
        distinct_edges(s),
    ensures
        merge_into(merge_into(s, e), e) == merge_into(s, e),
{
    let once = merge_into(s, e);
    lemma_merge_into(s, e);
    lemma_position(keyed(s), e.key());
    lemma_position(keyed(once), e.key());
    match position(keyed(s), e.key()) {
        Some(i) => {
            if e.depth < s[i].depth {
                assert(keyed(once)[i].0 == e.key());
                lemma_position_unique(keyed(once), e.key(), i);
            }
        },
        None => {
            assert(keyed(once)[s.len() as int].0 == e.key());
            lemma_position_unique(keyed(once), e.key(), s.len() as int);
        },
    }
}

/// Merging keeps the minimum whatever the order: two observations of one
/// caller and callee leave the shallower depth, whichever came first.
pub proof fn lemma_merge_order_irrelevant(m: Map<EdgeKey, EdgeView>, a: EdgeView, b: EdgeView)
    requires
        a.key() == b.key(),
        !m.dom().contains(a.key()),
    ensures
        merge_edge(merge_edge(m, a), b)[a.key()].depth == shallower(a.depth, b.depth),
        merge_edge(merge_edge(m, b), a)[a.key()].depth == shallower(a.depth, b.depth),
        merge_edge(merge_edge(m, a), b).dom() == merge_edge(merge_edge(m, b), a).dom(),
{
    lemma_merge_is_minimum(m, a);
    lemma_merge_is_minimum(m, b);
    lemma_merge_is_minimum(merge_edge(m, a), b);
    lemma_merge_is_minimum(merge_edge(m, b), a);
}

/// Recording a candidate changes the edge set of its own dispatch kind
/// only, and none of the tables of the declaration collector.
pub proof fn lemma_record_stays_in_kind(g: GraphView, e: EdgeView)
    requires
        g.wf(),
    ensures
        g.record(e).wf(),
        forall|kind: DispatchKind| kind != e.kind ==> g.record(e).edges(kind) == g.edges(kind),
        g.record(e).edge_map(e.kind) == merge_edge(g.edge_map(e.kind), e),
        g.record(e).functions == g.functions,
        g.record(e).declarations == g.declarations,
        g.record(e).implementations == g.implementations,
{
    lemma_merge_into(g.edges(e.kind), e);
}

/// An edge that a graph holds stays in it while candidates are recorded,
/// and never gets deeper.
pub proof fn lemma_record_all_keeps(g: GraphView, es: Seq<EdgeView>, kind: DispatchKind, k: EdgeKey)
    requires
        g.wf(),
        g.edge_map(kind).dom().contains(k),
    ensures
        g.record_all(es).edge_map(kind).dom().contains(k),
        g.record_all(es).edge_map(kind)[k].depth <= g.edge_map(kind)[k].depth,
    decreases es.len(),
{
    if es.len() > 0 {
        lemma_record_all_keeps(g, es.drop_last(), kind, k);
        let h = g.record_all(es.drop_last());
        lemma_record_all_keeps_wf(g, es.drop_last());
        lemma_record_stays_in_kind(h, es.last());
        lemma_merge_is_minimum(h.edge_map(es.last().kind), es.last());
    }
}

/// Recording candidates never touches the tables of the declaration
/// collector.
pub proof fn lemma_record_all_keeps_tables(g: GraphView, es: Seq<EdgeView>)
    ensures
        g.record_all(es).functions == g.functions,
        g.record_all(es).declarations == g.declarations,
        g.record_all(es).implementations == g.implementations,
    decreases es.len(),
{
    if es.len() > 0 {
        lemma_record_all_keeps_tables(g, es.drop_last());
    }
}

/// Every recorded candidate is in the edge set of its dispatch kind, at a
/// depth no greater than its own.
pub proof fn lemma_recorded_is_present(g: GraphView, es: Seq<EdgeView>, i: int)
    requires
        g.wf(),
        0 <= i < es.len(),
    ensures
        g.record_all(es).edge_map(es[i].kind).dom().contains(es[i].key()),
        g.record_all(es).edge_map(es[i].kind)[es[i].key()].depth <= es[i].depth,
    decreases es.len(),
{
    let h = g.record_all(es.drop_last());
    lemma_record_all_keeps_wf(g, es.drop_last());
    lemma_record_stays_in_kind(h, es.last());
    lemma_merge_is_minimum(h.edge_map(es.last().kind), es.last());
    if i < es.len() - 1 {
        lemma_recorded_is_present(g, es.drop_last(), i);
    }
}

/// Every edge of a graph was there before the candidates were recorded,
/// or is one of them. With [`lemma_recorded_is_present`]: the store holds
/// for each caller and callee the shallowest observation.
pub proof fn lemma_recorded_is_witnessed(g: GraphView, es: Seq<EdgeView>, kind: DispatchKind, k: EdgeKey)
    requires
        g.wf(),
        g.record_all(es).edge_map(kind).dom().contains(k),
    ensures
        (g.edge_map(kind).dom().contains(k) && g.record_all(es).edge_map(kind)[k] == g.edge_map(kind)[k])
            || (exists|i: int|
            0 <= i < es.len() && es[i].kind == kind && es[i].key() == k && g.record_all(es).edge_map(
                kind,
            )[k] == es[i]),
    decreases es.len(),
{
    if es.len() > 0 {
        let h = g.record_all(es.drop_last());
        let e = es.last();
        lemma_record_all_keeps_wf(g, es.drop_last());
        lemma_record_stays_in_kind(h, e);
        lemma_merge_is_minimum(h.edge_map(e.kind), e);
        if e.kind == kind && e.key() == k && g.record_all(es).edge_map(kind)[k] == e {
            assert(es[es.len() - 1] == e);
        } else {
            lemma_recorded_is_witnessed(g, es.drop_last(), kind, k);
            if !(g.edge_map(kind).dom().contains(k) && h.edge_map(kind)[k] == g.edge_map(kind)[k]) {
                let i = choose|i: int|
                    0 <= i < es.drop_last().len() && es.drop_last()[i].kind == kind && es.drop_last()[i].key()
                        == k && h.edge_map(kind)[k] == es.drop_last()[i];
                assert(es[i] == es.drop_last()[i]);
            }
        }
    }
}

/// Visiting items keeps a graph well formed. In particular the graph of
/// a program holds no caller and callee twice in one edge set, and every
/// edge in the set of its own dispatch kind.
pub proof fn lemma_visit_all_keeps_wf(g: GraphView, items: Seq<ItemLike>)
    requires
        g.wf(),
    ensures
        g.visit_all(items).wf(),
    decreases items.len(),
{
    if items.len() > 0 {
        lemma_visit_all_keeps_wf(g, items.drop_last());
        lemma_visit_keeps_wf(g.visit_all(items.drop_last()), items.last());
    }
}

/// The dispatch kind and callee of the call that `e` itself is, if it is
/// one that contributes an edge.
pub open spec fn own_call(e: Expr) -> Option<(DispatchKind, CallableId)> {
    match e.kind {
        ExprKind::Call { callee, .. } => match direct_target(callee) {
            Some((id, _)) => Some((DispatchKind::Static, id)),
            None => None,
        },
        ExprKind::MethodCall { target, .. } => match method_target(target) {
            Some((kind, id, _)) => Some((kind, id)),
            None => None,
        },
        _ => None,
    }
}

/// Whether `e` holds a call of `callee`, classified as `kind`, with
/// nothing but plain structure around it: no conditional, no match and no
/// loop between `e` and the call.
pub open spec fn calls_plainly(e: Expr, kind: DispatchKind, callee: CallableId) -> bool
    decreases e, 0nat,
{
    !e.generated && (own_call(e) == Some((kind, callee)) || match e.kind {
        ExprKind::Call { callee: c, args } => calls_plainly_any(args, args@.len(), kind, callee),
        ExprKind::MethodCall { target, receiver, args } => calls_plainly(*receiver, kind, callee)
            || calls_plainly_any(args, args@.len(), kind, callee),
        ExprKind::Binary { op, lhs, rhs } => calls_plainly(*lhs, kind, callee) || calls_plainly(
            *rhs,
            kind,
            callee,
        ),
        ExprKind::Other { children } => calls_plainly_any(children, children@.len(), kind, callee),
        _ => false,
    })
}

/// Whether one of the first `upto` of `children` calls `callee` plainly.
pub open spec fn calls_plainly_any(children: Vec<Expr>, upto: nat, kind: DispatchKind, callee: CallableId) -> bool
    decreases children, upto,
{
    if upto == 0 || upto > children@.len() {
        false
    } else {
        calls_plainly_any(children, (upto - 1) as nat, kind, callee) || calls_plainly(
            children@[upto - 1],
            kind,
            callee,
        )
    }
}

/// Whether a run of candidates holds an edge of dispatch kind `kind` from
/// `caller` to `callee` at `depth`.
pub open spec fn holds(
    calls: Seq<EdgeView>,
    kind: DispatchKind,
    caller: Option<CallableId>,
    callee: CallableId,
    depth: nat,
) -> bool {
    exists|i: int|
        0 <= i < calls.len() && #[trigger] calls[i].key() == (caller, callee) && calls[i].kind == kind
            && calls[i].depth == depth
}

proof fn lemma_holds_concat(
    a: Seq<EdgeView>,
    b: Seq<EdgeView>,
    kind: DispatchKind,
    caller: Option<CallableId>,
    callee: CallableId,
    depth: nat,
)
    requires
        holds(a, kind, caller, callee, depth) || holds(b, kind, caller, callee, depth),
    ensures
        holds(a + b, kind, caller, callee, depth),
{
    if holds(a, kind, caller, callee, depth) {
        let i = choose|i: int|
            0 <= i < a.len() && #[trigger] a[i].key() == (caller, callee) && a[i].kind == kind && a[i].depth
                == depth;
        assert((a + b)[i] == a[i]);
    } else {
        let i = choose|i: int|
            0 <= i < b.len() && #[trigger] b[i].key() == (caller, callee) && b[i].kind == kind && b[i].depth
                == depth;
        assert((a + b)[a.len() + i] == b[i]);
    }
}

/// Outside a condition, a plain call is a candidate at the very depth at
/// which the visit started.
pub proof fn lemma_plain_call_keeps_depth(
    e: Expr,
    kind: DispatchKind,
    callee: CallableId,
    caller: Option<CallableId>,
    depth: nat,
)
    requires
        calls_plainly(e, kind, callee),
    ensures
        holds(walk(e, caller, depth, false).calls, kind, caller, callee, depth),
    decreases e, 0nat,
{
    match e.kind {
        ExprKind::Call { callee: c, args } => {
            let own = candidate(direct_edge(c, caller, depth, e.location));
            let rest = walk_all(args, args@.len(), caller, depth, false).calls;
            if own_call(e) == Some((kind, callee)) {
                assert(own[0].key() == (caller, callee));
                assert(holds(own, kind, caller, callee, depth));
            } else {
                lemma_plain_call_keeps_depth_any(args, args@.len(), kind, callee, caller, depth);
            }
            lemma_holds_concat(own, rest, kind, caller, callee, depth);
        },
        ExprKind::MethodCall { target, receiver, args } => {
            let own = candidate(method_edge(target, caller, depth, e.location));
            let r = walk(*receiver, caller, depth, false);
            let rest = walk_all(args, args@.len(), caller, r.exit, false).calls;
            lemma_exit_bounds(*receiver, caller, depth, false);
            if own_call(e) == Some((kind, callee)) {
                assert(own[0].key() == (caller, callee));
                assert(holds(own, kind, caller, callee, depth));
                lemma_holds_concat(own, r.calls, kind, caller, callee, depth);
            } else if calls_plainly(*receiver, kind, callee) {
                lemma_plain_call_keeps_depth(*receiver, kind, callee, caller, depth);
                lemma_holds_concat(own, r.calls, kind, caller, callee, depth);
            } else {
                lemma_plain_call_keeps_depth_any(args, args@.len(), kind, callee, caller, depth);
            }
            lemma_holds_concat(own + r.calls, rest, kind, caller, callee, depth);
        },
        ExprKind::Binary { op, lhs, rhs } => {
            let l = walk(*lhs, caller, depth, false);
            let r = walk(*rhs, caller, depth, false);
            lemma_exit_bounds(*lhs, caller, depth, false);
            if calls_plainly(*lhs, kind, callee) {
                lemma_plain_call_keeps_depth(*lhs, kind, callee, caller, depth);
            } else {
                lemma_plain_call_keeps_depth(*rhs, kind, callee, caller, depth);
            }
            lemma_holds_concat(l.calls, r.calls, kind, caller, callee, depth);
        },
        ExprKind::Other { children } => {
            lemma_plain_call_keeps_depth_any(children, children@.len(), kind, callee, caller, depth);
        },
        _ => {},
    }
}

/// The same for a run of siblings.
pub proof fn lemma_plain_call_keeps_depth_any(
    children: Vec<Expr>,
    upto: nat,
    kind: DispatchKind,
    callee: CallableId,
    caller: Option<CallableId>,
    depth: nat,
)
    requires
        calls_plainly_any(children, upto, kind, callee),
    ensures
        holds(walk_all(children, upto, caller, depth, false).calls, kind, caller, callee, depth),
    decreases children, upto,
{
    let before = walk_all(children, (upto - 1) as nat, caller, depth, false);
    let last = walk(children@[upto - 1], caller, before.exit, false);
    lemma_exit_bounds_all(children, (upto - 1) as nat, caller, depth, false);
    if calls_plainly_any(children, (upto - 1) as nat, kind, callee) {
        lemma_plain_call_keeps_depth_any(children, (upto - 1) as nat, kind, callee, caller, depth);
    } else {
        lemma_plain_call_keeps_depth(children@[upto - 1], kind, callee, caller, depth);
    }
    lemma_holds_concat(before.calls, last.calls, kind, caller, callee, depth);
}

/// A function that calls another unconditionally has an edge to it of
/// constraint depth zero, whatever the graph held before.
pub proof fn lemma_unconditional_call_has_depth_zero(
    g: GraphView,
    item: Item,
    kind: DispatchKind,
    callee: CallableId,
)
    requires
        g.wf(),
        !item.generated,
        item.is_fn,
        item.body matches Some(body) && calls_plainly(body, kind, callee),
    ensures
        g.visit_item(item).edge_map(kind).dom().contains((Some(item.id), callee)),
        g.visit_item(item).edge_map(kind)[(Some(item.id), callee)].depth == 0,
{
    let body = item.body->0;
    let caller = Some(item.id);
    let calls = walk(body, caller, 0, false).calls;
    lemma_plain_call_keeps_depth(body, kind, callee, caller, 0);
    let i = choose|i: int|
        0 <= i < calls.len() && #[trigger] calls[i].key() == (caller, callee) && calls[i].kind == kind
            && calls[i].depth == 0;
    lemma_recorded_is_present(g.with_function(item.id, item.location), calls, i);
}

/// Inside a condition a conjunction ends one deeper than its left operand
/// carried into its right operand: each further conjunct is one further
/// constraint.
pub proof fn lemma_conjunct_adds_one(e: Expr, caller: Option<CallableId>, depth: nat)
    requires
        !e.generated,
        e.kind matches ExprKind::Binary { op: BinaryOp::And, .. },
    ensures
        ({
            let lhs = *e.kind->Binary_lhs;
            let rhs = *e.kind->Binary_rhs;
            walk(e, caller, depth, true).exit == walk(
                rhs,
                caller,
                walk(lhs, caller, depth, true).exit + 1,
                true,
            ).exit
        }),
        walk(e, caller, depth, true).exit >= depth + 1,
{
    let lhs = *e.kind->Binary_lhs;
    let rhs = *e.kind->Binary_rhs;
    lemma_exit_bounds(lhs, caller, depth, true);
    lemma_exit_bounds(rhs, caller, walk(lhs, caller, depth, true).exit + 1, true);
}

/// A match that the compiler wrote while lowering another construct is
/// no branch: what it holds is visited at the depth at which the match
/// was entered.
pub proof fn lemma_lowered_match_keeps_depth(depth: nat, origin: MatchOrigin, scrutinee: Expr)
    requires
        origin != MatchOrigin::Source || drives_for_loop(scrutinee),
    ensures
        match_depth(depth, origin, scrutinee) == depth,
{
}

/// Inside a condition a disjunction ends at the shallower of the depths at
/// which its operands end, whichever of them is written first.
pub proof fn lemma_disjunction_takes_shallower(e: Expr, swapped: Expr, caller: Option<CallableId>, depth: nat)
    requires
        !e.generated,
        !swapped.generated,
        e.kind matches ExprKind::Binary { op: BinaryOp::Or, .. },
        swapped.kind matches ExprKind::Binary { op: BinaryOp::Or, .. },
        e.kind->Binary_lhs == swapped.kind->Binary_rhs,
        e.kind->Binary_rhs == swapped.kind->Binary_lhs,
    ensures
        walk(e, caller, depth, true).exit == shallower(
            walk(*e.kind->Binary_lhs, caller, depth, true).exit,
            walk(*e.kind->Binary_rhs, caller, depth, true).exit,
        ),
        walk(e, caller, depth, true).exit == walk(swapped, caller, depth, true).exit,
{
}

/// Whether all that is known of the target of a method call is a method
/// of an interface: the call resolves to a declaration on a receiver
/// whose concrete type is not known, or to nothing.
pub open spec fn only_interface_known(target: MethodTarget) -> bool {
    match target {
        MethodTarget::Named { resolution: Resolution::Unresolved, .. } => true,
        MethodTarget::Named {
            resolution: Resolution::Instance {
                definition: Definition::InterfaceMethod,
                receiver_known: false,
                ..
            },
            ..
        } => true,
        MethodTarget::Unnamed { segment: Some(_) } => true,
        _ => false,
    }
}

/// Whether a method call resolves to a concrete definition of the
/// analysed program: a method of an implementation block, a free or
/// foreign item, or the default body of an interface method reached
/// through a receiver whose concrete type is known.
pub open spec fn concrete_known(target: MethodTarget) -> bool {
    target matches MethodTarget::Named {
        resolution: Resolution::Instance { definition, receiver_known, .. },
        ..
    } && (definition == Definition::ImplMethod || definition == Definition::FreeItem || definition
        == Definition::ForeignItem || (definition == Definition::InterfaceMethod && receiver_known))
}

/// A method call of which only an interface method is known is recorded
/// as dynamic, whatever implementations the graph knows of: be it one, be
/// it many.
pub proof fn lemma_interface_call_is_dynamic(
    g: GraphView,
    e: Expr,
    caller: Option<CallableId>,
    depth: nat,
    in_cond: bool,
)
    requires
        g.wf(),
        !e.generated,
        e.kind matches ExprKind::MethodCall { target, .. } && only_interface_known(target),
    ensures
        ({
            let calls = walk(e, caller, depth, in_cond).calls;
            &&& own_call(e) matches Some((kind, callee))
            &&& kind == DispatchKind::Dynamic
            &&& calls.len() > 0
            &&& calls[0].kind == DispatchKind::Dynamic
            &&& calls[0].key() == (caller, callee)
            &&& calls[0].depth == depth
            &&& g.record_all(calls).edge_map(DispatchKind::Dynamic).dom().contains((caller, callee))
            &&& g.record_all(calls).implementations == g.implementations
        }),
{
    let calls = walk(e, caller, depth, in_cond).calls;
    let target = e.kind->MethodCall_target;
    let own = candidate(method_edge(target, caller, depth, e.location));
    assert(own.len() == 1);
    assert(calls[0] == own[0]);
    lemma_recorded_is_present(g, calls, 0);
    lemma_record_all_keeps_tables(g, calls);
}

/// A method call that resolves to a concrete definition of the analysed
/// program is recorded as static, whether or not that definition
/// satisfies a declaration of an interface, and also where it is the
/// interface's own default body.
pub proof fn lemma_concrete_call_is_static(
    g: GraphView,
    e: Expr,
    caller: Option<CallableId>,
    depth: nat,
    in_cond: bool,
)
    requires
        g.wf(),
        !e.generated,
        e.kind matches ExprKind::MethodCall { target, .. } && concrete_known(target),
    ensures
        ({
            let concrete = e.kind->MethodCall_target->Named_resolution->Instance_target;
            let calls = walk(e, caller, depth, in_cond).calls;
            &&& calls.len() > 0
            &&& calls[0].kind == DispatchKind::Static
            &&& calls[0].key() == (caller, concrete.id)
            &&& calls[0].depth == depth
            &&& g.record_all(calls).edge_map(DispatchKind::Static).dom().contains((caller, concrete.id))
        }),
{
    let calls = walk(e, caller, depth, in_cond).calls;
    let target = e.kind->MethodCall_target;
    let own = candidate(method_edge(target, caller, depth, e.location));
    assert(own.len() == 1);
    assert(calls[0] == own[0]);
    lemma_recorded_is_present(g, calls, 0);
}

/// A call by name is recorded as static: it needs no receiver to pick an
/// implementation.
pub proof fn lemma_direct_call_is_static(
    g: GraphView,
    e: Expr,
    caller: Option<CallableId>,
    depth: nat,
    in_cond: bool,
)
    requires
        g.wf(),
        !e.generated,
        e.kind matches ExprKind::Call { callee, .. } && direct_target(callee) is Some,
    ensures
        ({
            let named = direct_target(e.kind->Call_callee)->0;
            let calls = walk(e, caller, depth, in_cond).calls;
            &&& calls.len() > 0
            &&& calls[0].kind == DispatchKind::Static
            &&& calls[0].key() == (caller, named.0)
            &&& calls[0].depth == depth
            &&& g.record_all(calls).edge_map(DispatchKind::Static).dom().contains((caller, named.0))
        }),
{
    let calls = walk(e, caller, depth, in_cond).calls;
    let own = candidate(direct_edge(e.kind->Call_callee, caller, depth, e.location));
    assert(own.len() == 1);
    assert(calls[0] == own[0]);
    lemma_recorded_is_present(g, calls, 0);
}

/// A generated expression contributes no call and leaves the depth alone,
/// whatever it is and whatever it holds.
pub proof fn lemma_generated_expr_is_skipped(e: Expr, caller: Option<CallableId>, depth: nat, in_cond: bool)
    requires
        e.generated,
    ensures
        walk(e, caller, depth, in_cond) == (Walk { exit: depth, calls: Seq::empty() }),
{
}

/// Whether an item was written by a macro or other code generation.
pub open spec fn item_generated(item: ItemLike) -> bool {
    match item {
        ItemLike::Item(i) => i.generated,
        ItemLike::TraitItem(i) => i.generated,
        ItemLike::ImplItem(i) => i.generated,
    }
}

/// A generated item contributes no function, no declaration and no edge.
pub proof fn lemma_generated_item_is_skipped(g: GraphView, item: ItemLike)
    requires
        item_generated(item),
    ensures
        g.visit(item) == g,
{
}

/// The graph of a run of items is the graph of the run without its
/// generated items.
pub proof fn lemma_generated_items_are_invisible(g: GraphView, items: Seq<ItemLike>)
    ensures
        g.visit_all(items) == g.visit_all(items.filter(|i: ItemLike| !item_generated(i))),
    decreases items.len(),
{
    let keep = |i: ItemLike| !item_generated(i);
    reveal(Seq::filter);
    if items.len() > 0 {
        lemma_generated_items_are_invisible(g, items.drop_last());
        let kept = items.drop_last().filter(keep);
        if keep(items.last()) {
            assert(items.filter(keep) == kept.push(items.last()));
            assert(kept.push(items.last()).drop_last() =~= kept);
        } else {
            assert(items.filter(keep) == kept);
        }
    }
}

} // verus!
