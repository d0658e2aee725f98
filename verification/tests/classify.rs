use callgraph::classify::{classify_definition, classify_direct, classify_method};
use callgraph::edge::DispatchKind;
use callgraph::ids::{CallableId, SourceLocation};
use callgraph::items::try_extract;
use callgraph::program::{
    Callee, Definition, DirectCallee, Expr, ImplItem, Item, ItemLike, LangItem, MethodTarget, Program,
    TraitItem,
};

const CALLER: u64 = 1;
const DECLARED: u64 = 2;
const CONCRETE: u64 = 3;

fn site() -> SourceLocation {
    SourceLocation { file: 1, lo: 10, hi: 20 }
}

/// A call that resolves to a definition of the given kind. The receiver's
/// concrete type is known unless the call resolves to a method of an
/// interface.
fn through(definition: Definition) -> MethodTarget {
    let target = if definition == Definition::InterfaceMethod { DECLARED } else { CONCRETE };
    MethodTarget::instance(
        Callee::new(CallableId(DECLARED), "T::bla"),
        Callee::new(CallableId(target), "<S as T>::bla"),
        definition,
        definition != Definition::InterfaceMethod,
    )
}

/// `r.m()` on a receiver of known type that did not override `T::m`: the
/// call resolves to the default body in the interface.
fn to_default_body() -> MethodTarget {
    MethodTarget::instance(
        Callee::new(CallableId(DECLARED), "T::m"),
        Callee::new(CallableId(DECLARED), "T::m"),
        Definition::InterfaceMethod,
        true,
    )
}

#[test]
fn definitions_classify_as_documented() {
    assert_eq!(classify_definition(Definition::InterfaceMethod, false), Some(DispatchKind::Dynamic));
    assert_eq!(classify_definition(Definition::InterfaceMethod, true), Some(DispatchKind::Static));
    for receiver_known in [false, true] {
        assert_eq!(classify_definition(Definition::ImplMethod, receiver_known), Some(DispatchKind::Static));
        assert_eq!(classify_definition(Definition::FreeItem, receiver_known), Some(DispatchKind::Static));
        assert_eq!(classify_definition(Definition::ForeignItem, receiver_known), Some(DispatchKind::Static));
        assert_eq!(classify_definition(Definition::External, receiver_known), Some(DispatchKind::NonLocal));
        assert_eq!(classify_definition(Definition::Unrecognized, receiver_known), None);
    }
}

#[test]
fn default_body_on_known_receiver_classifies_as_static() {
    let edge = classify_method(&to_default_body(), Some(CallableId(CALLER)), 0, site()).unwrap();
    assert_eq!(edge.kind, DispatchKind::Static);
    assert_eq!(edge.callee, CallableId(DECLARED));
    assert_eq!(edge.callee_path, "T::m");
    assert_eq!(edge.constraint_depth, 0);
}

#[test]
fn call_of_default_body_through_known_receiver_is_a_static_edge() {
    // trait T { fn m(&self) {} }  struct R;  impl T for R {}  fn f(r: R) { r.m(); }
    let call = Expr::method_call(to_default_body(), Expr::leaf(), vec![]);
    let program = Program {
        items: vec![
            ItemLike::TraitItem(TraitItem::provided(CallableId(DECLARED), Expr::block(vec![]))),
            ItemLike::Item(Item::function(CallableId(CALLER), Expr::block(vec![call]))),
        ],
    };
    let graph = try_extract(&program).unwrap();
    let statics = graph.edges(DispatchKind::Static);
    assert_eq!(statics.len(), 1);
    assert_eq!(statics.depth_of(Some(CallableId(CALLER)), CallableId(DECLARED)), Some(0));
    assert_eq!(graph.edges(DispatchKind::Dynamic).len(), 0);
    assert_eq!(graph.edges(DispatchKind::NonLocal).len(), 0);
    assert_eq!(graph.implementations_of(CallableId(DECLARED)), Some(&vec![CallableId(DECLARED)]));
}

#[test]
fn same_method_through_unknown_receiver_is_a_dynamic_edge() {
    let target = MethodTarget::instance(
        Callee::new(CallableId(DECLARED), "T::m"),
        Callee::new(CallableId(DECLARED), "T::m"),
        Definition::InterfaceMethod,
        false,
    );
    let call = Expr::method_call(target, Expr::leaf(), vec![]);
    let program = Program {
        items: vec![
            ItemLike::TraitItem(TraitItem::provided(CallableId(DECLARED), Expr::block(vec![]))),
            ItemLike::Item(Item::function(CallableId(CALLER), Expr::block(vec![call]))),
        ],
    };
    let graph = try_extract(&program).unwrap();
    assert_eq!(graph.edges(DispatchKind::Static).len(), 0);
    let dynamic = graph.edges(DispatchKind::Dynamic);
    assert_eq!(dynamic.depth_of(Some(CallableId(CALLER)), CallableId(DECLARED)), Some(0));
}

#[test]
fn direct_call_is_static() {
    let callee = DirectCallee::resolved(CallableId(7), "crate::helper");
    let edge = classify_direct(&callee, Some(CallableId(CALLER)), 4, site()).unwrap();
    assert_eq!(edge.kind, DispatchKind::Static);
    assert_eq!(edge.caller, Some(CallableId(CALLER)));
    assert_eq!(edge.callee, CallableId(7));
    assert_eq!(edge.callee_path, "crate::helper");
    assert_eq!(edge.constraint_depth, 4);
    assert_eq!(edge.site, site());
}

#[test]
fn type_relative_call_joins_owner_and_member() {
    let callee = DirectCallee::type_relative("S1", "should_call_bla", CallableId(8));
    let edge = classify_direct(&callee, None, 0, site()).unwrap();
    assert_eq!(edge.kind, DispatchKind::Static);
    assert_eq!(edge.caller, None);
    assert_eq!(edge.callee, CallableId(8));
    assert_eq!(edge.callee_path, "S1::should_call_bla");
}

#[test]
fn paths_that_name_no_definition_give_no_edge() {
    let local = DirectCallee::Resolved { target: None };
    assert!(classify_direct(&local, None, 0, site()).is_none());
    let lang = DirectCallee::Lang { item: LangItem::IteratorNext };
    assert!(classify_direct(&lang, None, 0, site()).is_none());
    let unowned = DirectCallee::TypeRelative {
        owner_path: None,
        member: String::from("len"),
        member_id: Some(CallableId(9)),
    };
    assert!(classify_direct(&unowned, None, 0, site()).is_none());
    let unfound = DirectCallee::TypeRelative {
        owner_path: Some(String::from("S")),
        member: String::from("len"),
        member_id: None,
    };
    assert!(classify_direct(&unfound, None, 0, site()).is_none());
}

#[test]
fn call_through_interface_reference_is_dynamic() {
    let edge = classify_method(&through(Definition::InterfaceMethod), Some(CallableId(CALLER)), 0, site())
        .unwrap();
    assert_eq!(edge.kind, DispatchKind::Dynamic);
    assert_eq!(edge.callee, CallableId(DECLARED));
    assert_eq!(edge.callee_path, "<S as T>::bla");
}

#[test]
fn call_on_known_concrete_type_is_static() {
    let edge =
        classify_method(&through(Definition::ImplMethod), Some(CallableId(CALLER)), 2, site()).unwrap();
    assert_eq!(edge.kind, DispatchKind::Static);
    assert_eq!(edge.callee, CallableId(CONCRETE));
    assert_eq!(edge.constraint_depth, 2);
}

#[test]
fn call_to_free_or_foreign_item_is_static() {
    for definition in [Definition::FreeItem, Definition::ForeignItem] {
        let edge = classify_method(&through(definition), None, 0, site()).unwrap();
        assert_eq!(edge.kind, DispatchKind::Static);
        assert_eq!(edge.callee, CallableId(CONCRETE));
    }
}

#[test]
fn call_to_external_definition_is_non_local() {
    let edge = classify_method(&through(Definition::External), None, 0, site()).unwrap();
    assert_eq!(edge.kind, DispatchKind::NonLocal);
    assert_eq!(edge.callee, CallableId(CONCRETE));
}

#[test]
fn unresolved_call_is_dynamic_with_the_method_named() {
    let target = MethodTarget::unresolved(Callee::new(CallableId(DECLARED), "T::bla"));
    let edge = classify_method(&target, Some(CallableId(CALLER)), 1, site()).unwrap();
    assert_eq!(edge.kind, DispatchKind::Dynamic);
    assert_eq!(edge.callee, CallableId(DECLARED));
    assert_eq!(edge.callee_path, "T::bla");
}

#[test]
fn unnamed_call_is_dynamic_with_what_the_name_resolves_to() {
    let target = MethodTarget::Unnamed { segment: Some(Callee::new(CallableId(5), "bla")) };
    let edge = classify_method(&target, None, 0, site()).unwrap();
    assert_eq!(edge.kind, DispatchKind::Dynamic);
    assert_eq!(edge.callee, CallableId(5));
}

#[test]
fn unrecognised_targets_give_no_edge() {
    assert!(classify_method(&through(Definition::Unrecognized), None, 0, site()).is_none());
    assert!(classify_method(&MethodTarget::Unnamed { segment: None }, None, 0, site()).is_none());
}

fn virt(definition: Definition) -> ItemLike {
    let call = Expr::method_call(through(definition), Expr::leaf(), vec![]);
    ItemLike::Item(Item::function(CallableId(CALLER), Expr::block(vec![call])))
}

#[test]
fn dynamic_even_with_exactly_one_implementation() {
    let program = Program {
        items: vec![
            ItemLike::TraitItem(TraitItem::required(CallableId(DECLARED))),
            ItemLike::ImplItem(ImplItem::method(
                CallableId(CONCRETE),
                Some(CallableId(DECLARED)),
                Expr::block(vec![]),
            )),
            virt(Definition::InterfaceMethod),
        ],
    };
    let graph = try_extract(&program).unwrap();
    assert_eq!(graph.implementations_of(CallableId(DECLARED)), Some(&vec![CallableId(CONCRETE)]));
    let dynamic = graph.edges(DispatchKind::Dynamic);
    assert_eq!(dynamic.depth_of(Some(CallableId(CALLER)), CallableId(DECLARED)), Some(0));
    assert_eq!(graph.edges(DispatchKind::Static).len(), 0);
    assert_eq!(graph.edges(DispatchKind::NonLocal).len(), 0);
}

#[test]
fn static_even_though_the_method_satisfies_a_declaration() {
    let program = Program {
        items: vec![
            ItemLike::TraitItem(TraitItem::required(CallableId(DECLARED))),
            ItemLike::ImplItem(ImplItem::method(
                CallableId(CONCRETE),
                Some(CallableId(DECLARED)),
                Expr::block(vec![]),
            )),
            virt(Definition::ImplMethod),
        ],
    };
    let graph = try_extract(&program).unwrap();
    let statics = graph.edges(DispatchKind::Static);
    assert_eq!(statics.depth_of(Some(CallableId(CALLER)), CallableId(CONCRETE)), Some(0));
    assert_eq!(graph.edges(DispatchKind::Dynamic).len(), 0);
}

#[test]
fn same_pair_may_stand_in_two_edge_sets() {
    let as_dynamic = Expr::method_call(
        MethodTarget::unresolved(Callee::new(CallableId(DECLARED), "T::bla")),
        Expr::leaf(),
        vec![],
    );
    let as_static = Expr::call(DirectCallee::resolved(CallableId(DECLARED), "T::bla"), vec![]);
    let body = Expr::block(vec![as_dynamic, as_static]);
    let program = Program { items: vec![ItemLike::Item(Item::function(CallableId(CALLER), body))] };
    let graph = try_extract(&program).unwrap();
    assert_eq!(graph.edges(DispatchKind::Static).len(), 1);
    assert_eq!(graph.edges(DispatchKind::Dynamic).len(), 1);
}

#[test]
fn program_with_an_unrecognised_target_is_not_traversed() {
    let program = Program { items: vec![virt(Definition::Unrecognized)] };
    assert!(try_extract(&program).is_none());
    let call = Expr::method_call(MethodTarget::Unnamed { segment: None }, Expr::leaf(), vec![]);
    let program = Program {
        items: vec![ItemLike::Item(Item::function(CallableId(CALLER), Expr::block(vec![call])))],
    };
    assert!(try_extract(&program).is_none());
}

#[test]
fn unrecognised_target_in_generated_code_does_not_matter() {
    let call = Expr::method_call(through(Definition::Unrecognized), Expr::leaf(), vec![]).into_generated();
    let program = Program {
        items: vec![ItemLike::Item(Item::function(CallableId(CALLER), Expr::block(vec![call])))],
    };
    let graph = try_extract(&program).unwrap();
    assert_eq!(graph.edges(DispatchKind::Dynamic).len(), 0);
    assert_eq!(graph.edges(DispatchKind::Static).len(), 0);
}
