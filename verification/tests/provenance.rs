use callgraph::program::is_generated;

#[test]
fn node_without_a_place_in_the_source_is_generated() {
    for from_expansion in [false, true] {
        for desugared in [false, true] {
            assert!(is_generated(from_expansion, true, desugared));
        }
    }
}

#[test]
fn node_from_a_macro_is_generated() {
    assert!(is_generated(true, false, false));
}

#[test]
fn node_from_the_lowering_of_a_source_construct_is_not_generated() {
    assert!(!is_generated(true, false, true));
}

#[test]
fn node_written_in_the_source_is_not_generated() {
    assert!(!is_generated(false, false, false));
    assert!(!is_generated(false, false, true));
}
