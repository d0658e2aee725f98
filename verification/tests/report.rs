use callgraph::edge::{CallEdge, DispatchKind};
use callgraph::ids::{CallableId, SourceLocation};
use callgraph::program::{Expr, ImplItem, TraitItem};
use callgraph::report::{
    edge_line_of, find_path, function_line_of, implementation_line_of, label_of, to_decimal,
};
use callgraph::visitor::CallgraphVisitor;

fn names() -> Vec<(CallableId, String)> {
    vec![
        (CallableId(1), String::from("S::met")),
        (CallableId(2), String::from("S::bla")),
        (CallableId(1), String::from("shadowed")),
        (CallableId(3), String::from("T::bla")),
    ]
}

fn edge(caller: Option<u64>, callee: u64, path: &str, kind: DispatchKind, depth: usize) -> CallEdge {
    CallEdge {
        caller: caller.map(CallableId),
        callee: CallableId(callee),
        callee_path: String::from(path),
        kind,
        constraint_depth: depth,
        site: SourceLocation::unknown(),
    }
}

#[test]
fn decimal_notation() {
    assert_eq!(to_decimal(0), "0");
    assert_eq!(to_decimal(7), "7");
    assert_eq!(to_decimal(9), "9");
    assert_eq!(to_decimal(10), "10");
    assert_eq!(to_decimal(12345), "12345");
    assert_eq!(to_decimal(1000000), "1000000");
    assert_eq!(to_decimal(u64::MAX), "18446744073709551615");
}

#[test]
fn first_entry_of_the_name_table_counts() {
    let names = names();
    assert_eq!(find_path(&names, CallableId(1)), Some(&String::from("S::met")));
    assert_eq!(find_path(&names, CallableId(3)), Some(&String::from("T::bla")));
    assert_eq!(find_path(&names, CallableId(4)), None);
    assert_eq!(find_path(&vec![], CallableId(1)), None);
}

#[test]
fn unnamed_callable_is_written_by_number() {
    assert_eq!(label_of(&names(), CallableId(2)), "S::bla");
    assert_eq!(label_of(&names(), CallableId(42)), "#42");
}

#[test]
fn edge_line_has_caller_callee_and_depth() {
    let line = edge_line_of(&names(), &edge(Some(1), 2, "S::bla", DispatchKind::Static, 3));
    assert_eq!(line, "S::met --- S::bla (constraint depth: 3)");
    let line = edge_line_of(&names(), &edge(Some(1), 2, "S::bla", DispatchKind::Static, 12));
    assert_eq!(line, "S::met --- S::bla (constraint depth: 12)");
}

#[test]
fn edge_without_caller_says_so() {
    let line = edge_line_of(&names(), &edge(None, 3, "T::bla", DispatchKind::Dynamic, 0));
    assert_eq!(line, "Unknown Caller --- T::bla (constraint depth: 0)");
}

#[test]
fn edge_with_unnamed_caller_is_written_by_number() {
    let line = edge_line_of(&names(), &edge(Some(9), 3, "T::bla", DispatchKind::Dynamic, 1));
    assert_eq!(line, "#9 --- T::bla (constraint depth: 1)");
}

#[test]
fn function_line_has_name_and_span() {
    let line = function_line_of(&names(), CallableId(1), SourceLocation { file: 2, lo: 30, hi: 45 });
    assert_eq!(line, "  Function: S::met, Span: 2:30..45");
}

#[test]
fn implementation_line_lists_names() {
    let names = names();
    assert_eq!(
        implementation_line_of(&names, CallableId(3), &vec![]),
        "  Method Implementation for T::bla: []"
    );
    assert_eq!(
        implementation_line_of(&names, CallableId(3), &vec![CallableId(2)]),
        "  Method Implementation for T::bla: [S::bla]"
    );
    assert_eq!(
        implementation_line_of(&names, CallableId(3), &vec![CallableId(2), CallableId(7), CallableId(1)]),
        "  Method Implementation for T::bla: [S::bla, #7, S::met]"
    );
}

#[test]
fn dump_of_an_empty_graph_is_its_headings() {
    let lines = CallgraphVisitor::new().dump(&vec![]);
    assert_eq!(
        lines,
        vec![
            "Functions:",
            "",
            "Method Declarations:",
            "",
            "Method Implementations:",
            "",
            "Static Calls:",
            "",
            "Dynamic Calls:",
            "",
            "Non Local Calls:",
        ]
    );
}

#[test]
fn dump_writes_every_table_in_order_of_discovery() {
    let mut graph = CallgraphVisitor::new();
    graph.visit_trait_item(&TraitItem::provided(CallableId(3), Expr::block(vec![])));
    graph.visit_impl_item(&ImplItem::method(CallableId(2), Some(CallableId(3)), Expr::block(vec![])));
    graph.visit_impl_item(&ImplItem::method(CallableId(1), None, Expr::block(vec![])));
    graph.handle_call(edge(Some(1), 2, "S::bla", DispatchKind::Static, 3));
    graph.handle_call(edge(Some(1), 6, "S1::should_call_bla", DispatchKind::Static, 0));
    graph.handle_call(edge(Some(1), 2, "S::bla", DispatchKind::Static, 1));
    graph.handle_call(edge(None, 3, "T::bla", DispatchKind::Dynamic, 0));
    graph.handle_call(edge(Some(2), 50, "std::mem::drop", DispatchKind::NonLocal, 2));
    let lines = graph.dump(&names());
    assert_eq!(
        lines,
        vec![
            "Functions:",
            "  Function: T::bla, Span: 0:0..0",
            "  Function: S::bla, Span: 0:0..0",
            "  Function: S::met, Span: 0:0..0",
            "",
            "Method Declarations:",
            "  Method Declaration: T::bla",
            "",
            "Method Implementations:",
            "  Method Implementation for T::bla: [T::bla, S::bla]",
            "",
            "Static Calls:",
            "S::met --- S::bla (constraint depth: 1)",
            "S::met --- S1::should_call_bla (constraint depth: 0)",
            "",
            "Dynamic Calls:",
            "Unknown Caller --- T::bla (constraint depth: 0)",
            "",
            "Non Local Calls:",
            "S::bla --- std::mem::drop (constraint depth: 2)",
        ]
    );
}

#[test]
fn handle_call_merges_within_one_dispatch_kind_only() {
    let mut graph = CallgraphVisitor::new();
    graph.handle_call(edge(Some(1), 2, "S::bla", DispatchKind::Static, 3));
    graph.handle_call(edge(Some(1), 2, "S::bla", DispatchKind::Dynamic, 1));
    graph.handle_call(edge(Some(1), 2, "S::bla", DispatchKind::NonLocal, 5));
    let pair = (Some(CallableId(1)), CallableId(2));
    assert_eq!(graph.edges(DispatchKind::Static).depth_of(pair.0, pair.1), Some(3));
    assert_eq!(graph.edges(DispatchKind::Dynamic).depth_of(pair.0, pair.1), Some(1));
    assert_eq!(graph.edges(DispatchKind::NonLocal).depth_of(pair.0, pair.1), Some(5));
}
