use callgraph::edge::DispatchKind;
use callgraph::ids::{CallableId, SourceLocation};
use callgraph::items::{extract, try_extract};
use callgraph::program::{
    DirectCallee, Expr, ImplItem, Item, ItemLike, Program, TraitItem, TraitItemKind,
};
use callgraph::validate::is_program_admissible;
use callgraph::visitor::CallgraphVisitor;

fn nowhere() -> SourceLocation {
    SourceLocation::unknown()
}

fn call(id: u64) -> Expr {
    Expr::call(DirectCallee::resolved(CallableId(id), &format!("f{}", id)), vec![])
}

#[test]
fn new_visitor_is_empty() {
    let graph = CallgraphVisitor::new();
    assert_eq!(graph.edges(DispatchKind::Static).len(), 0);
    assert_eq!(graph.edges(DispatchKind::Dynamic).len(), 0);
    assert_eq!(graph.edges(DispatchKind::NonLocal).len(), 0);
    assert!(!graph.is_function(CallableId(1), nowhere()));
    assert!(!graph.is_declaration(CallableId(1)));
    assert!(graph.implementations_of(CallableId(1)).is_none());
}

#[test]
fn free_function_is_recorded_and_calls_on_its_own_behalf() {
    let mut graph = CallgraphVisitor::new();
    graph.visit_item(&Item::function(CallableId(1), Expr::block(vec![call(2)])));
    assert!(graph.is_function(CallableId(1), nowhere()));
    assert!(!graph.is_declaration(CallableId(1)));
    assert_eq!(graph.edges(DispatchKind::Static).depth_of(Some(CallableId(1)), CallableId(2)), Some(0));
}

#[test]
fn function_is_recorded_with_its_location() {
    let mut graph = CallgraphVisitor::new();
    let here = SourceLocation { file: 2, lo: 5, hi: 9 };
    let item = Item { id: CallableId(1), location: here, generated: false, is_fn: true, body: None };
    graph.visit_item(&item);
    assert!(graph.is_function(CallableId(1), here));
    assert!(!graph.is_function(CallableId(1), nowhere()));
}

#[test]
fn other_item_is_not_recorded_and_its_calls_have_no_caller() {
    let mut graph = CallgraphVisitor::new();
    let item = Item {
        id: CallableId(1),
        location: nowhere(),
        generated: false,
        is_fn: false,
        body: Some(call(2)),
    };
    graph.visit_item(&item);
    assert!(!graph.is_function(CallableId(1), nowhere()));
    assert_eq!(graph.edges(DispatchKind::Static).depth_of(None, CallableId(2)), Some(0));
    assert_eq!(graph.edges(DispatchKind::Static).depth_of(Some(CallableId(1)), CallableId(2)), None);
}

#[test]
fn required_method_is_a_declaration_without_implementations() {
    let mut graph = CallgraphVisitor::new();
    graph.visit_trait_item(&TraitItem::required(CallableId(1)));
    assert!(graph.is_declaration(CallableId(1)));
    assert!(!graph.is_function(CallableId(1), nowhere()));
    assert_eq!(graph.implementations_of(CallableId(1)), Some(&vec![]));
}

#[test]
fn provided_method_is_declaration_function_and_its_own_implementation() {
    let mut graph = CallgraphVisitor::new();
    graph.visit_trait_item(&TraitItem::provided(CallableId(1), Expr::block(vec![call(2)])));
    assert!(graph.is_declaration(CallableId(1)));
    assert!(graph.is_function(CallableId(1), nowhere()));
    assert_eq!(graph.implementations_of(CallableId(1)), Some(&vec![CallableId(1)]));
    assert_eq!(graph.edges(DispatchKind::Static).depth_of(Some(CallableId(1)), CallableId(2)), Some(0));
}

#[test]
fn other_trait_member_is_only_walked() {
    let mut graph = CallgraphVisitor::new();
    let item = TraitItem {
        id: CallableId(1),
        location: nowhere(),
        generated: false,
        kind: TraitItemKind::Other,
        body: Some(call(2)),
    };
    graph.visit_trait_item(&item);
    assert!(!graph.is_declaration(CallableId(1)));
    assert!(!graph.is_function(CallableId(1), nowhere()));
    assert!(graph.implementations_of(CallableId(1)).is_none());
    assert_eq!(graph.edges(DispatchKind::Static).depth_of(None, CallableId(2)), Some(0));
}

#[test]
fn implementations_are_listed_in_order_of_discovery() {
    let mut graph = CallgraphVisitor::new();
    graph.visit_trait_item(&TraitItem::provided(CallableId(1), Expr::block(vec![])));
    graph.visit_impl_item(&ImplItem::method(CallableId(5), Some(CallableId(1)), Expr::block(vec![])));
    graph.visit_impl_item(&ImplItem::method(CallableId(4), Some(CallableId(1)), Expr::block(vec![])));
    assert_eq!(
        graph.implementations_of(CallableId(1)),
        Some(&vec![CallableId(1), CallableId(5), CallableId(4)])
    );
    assert!(graph.is_function(CallableId(5), nowhere()));
    assert!(graph.is_function(CallableId(4), nowhere()));
}

#[test]
fn implementation_seen_before_its_declaration_starts_the_list() {
    let mut graph = CallgraphVisitor::new();
    graph.visit_impl_item(&ImplItem::method(CallableId(5), Some(CallableId(1)), Expr::block(vec![])));
    assert_eq!(graph.implementations_of(CallableId(1)), Some(&vec![CallableId(5)]));
    assert!(!graph.is_declaration(CallableId(1)));
}

#[test]
fn declaring_a_required_method_resets_its_list() {
    let mut graph = CallgraphVisitor::new();
    graph.visit_impl_item(&ImplItem::method(CallableId(5), Some(CallableId(1)), Expr::block(vec![])));
    graph.visit_trait_item(&TraitItem::required(CallableId(1)));
    assert_eq!(graph.implementations_of(CallableId(1)), Some(&vec![]));
}

#[test]
fn inherent_method_is_a_function_only() {
    let mut graph = CallgraphVisitor::new();
    graph.visit_impl_item(&ImplItem::method(CallableId(5), None, Expr::block(vec![call(2)])));
    assert!(graph.is_function(CallableId(5), nowhere()));
    assert!(graph.implementations_of(CallableId(5)).is_none());
    assert_eq!(graph.edges(DispatchKind::Static).depth_of(Some(CallableId(5)), CallableId(2)), Some(0));
}

#[test]
fn other_impl_member_is_only_walked() {
    let mut graph = CallgraphVisitor::new();
    let item = ImplItem {
        id: CallableId(5),
        location: nowhere(),
        generated: false,
        is_fn: false,
        declaration: Some(CallableId(1)),
        body: Some(call(2)),
    };
    graph.visit_impl_item(&item);
    assert!(!graph.is_function(CallableId(5), nowhere()));
    assert!(graph.implementations_of(CallableId(1)).is_none());
    assert_eq!(graph.edges(DispatchKind::Static).depth_of(None, CallableId(2)), Some(0));
}

#[test]
fn generated_items_contribute_nothing() {
    let mut function = Item::function(CallableId(1), Expr::block(vec![call(2)]));
    function.generated = true;
    let mut provided = TraitItem::provided(CallableId(3), Expr::block(vec![call(2)]));
    provided.generated = true;
    let mut required = TraitItem::required(CallableId(6));
    required.generated = true;
    let mut method = ImplItem::method(CallableId(4), Some(CallableId(3)), Expr::block(vec![call(2)]));
    method.generated = true;
    let program = Program {
        items: vec![
            ItemLike::Item(function),
            ItemLike::TraitItem(provided),
            ItemLike::TraitItem(required),
            ItemLike::ImplItem(method),
        ],
    };
    let graph = try_extract(&program).unwrap();
    assert!(!graph.is_function(CallableId(1), nowhere()));
    assert!(!graph.is_function(CallableId(3), nowhere()));
    assert!(!graph.is_function(CallableId(4), nowhere()));
    assert!(!graph.is_declaration(CallableId(3)));
    assert!(!graph.is_declaration(CallableId(6)));
    assert!(graph.implementations_of(CallableId(3)).is_none());
    assert_eq!(graph.edges(DispatchKind::Static).len(), 0);
    assert_eq!(graph.edges(DispatchKind::Dynamic).len(), 0);
    assert_eq!(graph.edges(DispatchKind::NonLocal).len(), 0);
}

#[test]
fn call_sites_in_different_functions_are_different_edges() {
    let program = Program {
        items: vec![
            ItemLike::Item(Item::function(CallableId(1), Expr::block(vec![call(3)]))),
            ItemLike::Item(Item::function(CallableId(2), Expr::block(vec![call(3)]))),
        ],
    };
    assert!(is_program_admissible(&program));
    let graph = extract(&program);
    let statics = graph.edges(DispatchKind::Static);
    assert_eq!(statics.len(), 2);
    assert_eq!(statics.get(0).caller, Some(CallableId(1)));
    assert_eq!(statics.get(1).caller, Some(CallableId(2)));
}

#[test]
fn empty_program_has_an_empty_graph() {
    let graph = try_extract(&Program { items: vec![] }).unwrap();
    assert_eq!(graph.edges(DispatchKind::Static).len(), 0);
}
