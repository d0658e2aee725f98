use callgraph::edge::{CallEdge, DispatchKind};
use callgraph::ids::{CallableId, SourceLocation};
use callgraph::store::EdgeSet;

fn edge(caller: u64, callee: u64, depth: usize) -> CallEdge {
    CallEdge {
        caller: Some(CallableId(caller)),
        callee: CallableId(callee),
        callee_path: format!("f{}", callee),
        kind: DispatchKind::Static,
        constraint_depth: depth,
        site: SourceLocation { file: 0, lo: 0, hi: 0 },
    }
}

#[test]
fn merge_keeps_the_shallower_depth_deep_first() {
    let mut set = EdgeSet::new();
    set.merge(edge(1, 2, 3));
    set.merge(edge(1, 2, 1));
    assert_eq!(set.len(), 1);
    assert_eq!(set.depth_of(Some(CallableId(1)), CallableId(2)), Some(1));
}

#[test]
fn merge_keeps_the_shallower_depth_shallow_first() {
    let mut set = EdgeSet::new();
    set.merge(edge(1, 2, 1));
    set.merge(edge(1, 2, 3));
    assert_eq!(set.len(), 1);
    assert_eq!(set.depth_of(Some(CallableId(1)), CallableId(2)), Some(1));
}

#[test]
fn merging_the_same_edge_twice_is_merging_it_once() {
    let mut set = EdgeSet::new();
    set.merge(edge(1, 2, 4));
    set.merge(edge(1, 3, 0));
    set.merge(edge(1, 2, 4));
    assert_eq!(set.len(), 2);
    assert_eq!(set.depth_of(Some(CallableId(1)), CallableId(2)), Some(4));
    assert_eq!(set.position(Some(CallableId(1)), CallableId(2)), Some(0));
    assert_eq!(set.position(Some(CallableId(1)), CallableId(3)), Some(1));
}

#[test]
fn shallower_edge_takes_the_place_and_the_data_of_the_deeper() {
    let mut set = EdgeSet::new();
    set.merge(edge(1, 2, 4));
    set.merge(edge(1, 3, 0));
    let mut shallower = edge(1, 2, 1);
    shallower.site = SourceLocation { file: 1, lo: 7, hi: 9 };
    shallower.callee_path = String::from("renamed");
    set.merge(shallower);
    assert_eq!(set.len(), 2);
    assert_eq!(set.position(Some(CallableId(1)), CallableId(2)), Some(0));
    assert_eq!(set.get(0).constraint_depth, 1);
    assert_eq!(set.get(0).site, SourceLocation { file: 1, lo: 7, hi: 9 });
    assert_eq!(set.get(0).callee_path, "renamed");
}

#[test]
fn edge_of_equal_depth_does_not_replace() {
    let mut set = EdgeSet::new();
    set.merge(edge(1, 2, 2));
    let mut same_depth = edge(1, 2, 2);
    same_depth.site = SourceLocation { file: 1, lo: 7, hi: 9 };
    set.merge(same_depth);
    assert_eq!(set.len(), 1);
    assert_eq!(set.get(0).site, SourceLocation { file: 0, lo: 0, hi: 0 });
}

#[test]
fn caller_is_part_of_the_key() {
    let mut set = EdgeSet::new();
    set.merge(edge(1, 2, 3));
    set.merge(edge(4, 2, 1));
    let mut unowned = edge(1, 2, 0);
    unowned.caller = None;
    set.merge(unowned);
    assert_eq!(set.len(), 3);
    assert_eq!(set.depth_of(Some(CallableId(1)), CallableId(2)), Some(3));
    assert_eq!(set.depth_of(Some(CallableId(4)), CallableId(2)), Some(1));
    assert_eq!(set.depth_of(None, CallableId(2)), Some(0));
    assert_eq!(set.depth_of(Some(CallableId(2)), CallableId(1)), None);
    assert_eq!(set.position(Some(CallableId(9)), CallableId(2)), None);
}

#[test]
fn should_insert_only_when_strictly_shallower() {
    let held = edge(1, 2, 3);
    assert!(held.should_insert(2));
    assert!(held.should_insert(0));
    assert!(!held.should_insert(3));
    assert!(!held.should_insert(4));
    assert!(held.has_key(Some(CallableId(1)), CallableId(2)));
    assert!(!held.has_key(None, CallableId(2)));
    assert!(!held.has_key(Some(CallableId(1)), CallableId(3)));
    let copy = held.clone();
    assert_eq!(copy.callee_path, held.callee_path);
    assert_eq!(copy.constraint_depth, 3);
}
