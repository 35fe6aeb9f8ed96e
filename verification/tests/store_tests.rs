use graphs::AdjacencyList;
use graphs::AdjacencyMatrix;
use graphs::GraphRepr;

#[test]
fn adjacency_list_insert_connect_lookup() {
    let mut store = AdjacencyList::new();
    store.insert(1u64);
    store.insert(2u64);
    store.connect(&1, 2, "w");
    assert_eq!(store.get_edge(&1, &2), Some(&"w"));
    assert_eq!(store.get_edge(&2, &1), None);
    // unknown source: silent no-op
    store.connect(&3, 1, "x");
    assert_eq!(store.get_edge(&3, &1), None);
    // re-insert wipes outgoing edges
    store.insert(1);
    assert_eq!(store.get_edge(&1, &2), None);
}

#[test]
fn adjacency_matrix_insert_connect_lookup() {
    let mut store = AdjacencyMatrix::new();
    store.insert(10u64);
    store.insert(20u64);
    store.insert(30u64);
    store.connect(&10, 20, 7);
    store.connect(&30, 30, 8);
    assert_eq!(store.get_edge(&10, &20), Some(&7));
    assert_eq!(store.get_edge(&20, &10), None);
    assert_eq!(store.get_edge(&30, &30), Some(&8));
    // either endpoint unknown: silent no-op
    store.connect(&10, 40, 9);
    store.connect(&40, 10, 9);
    assert_eq!(store.get_edge(&10, &40), None);
    assert_eq!(store.get_edge(&40, &10), None);
    // a later insert keeps existing cells
    store.insert(40u64);
    assert_eq!(store.get_edge(&10, &20), Some(&7));
    assert_eq!(store.get_edge(&10, &40), None);
}

#[test]
fn repr_defaults_to_list_store() {
    let mut store: GraphRepr<u64, u64> = GraphRepr::default();
    store.insert(1);
    // the list store accepts an edge dangling towards an unknown target
    store.connect(&1, 2, 100);
    assert_eq!(store.get_edge(&1, &2), Some(&100));
}

#[test]
fn repr_dispatches_to_active_store() {
    let mut sparse: GraphRepr<u64, u64> = GraphRepr::new_list();
    sparse.insert(1);
    sparse.insert(2);
    sparse.connect(&1, 2, 100);
    assert_eq!(sparse.get_edge(&1, &2), Some(&100));
    assert_eq!(sparse.get_edge(&2, &1), None);

    let mut dense: GraphRepr<u64, u64> = GraphRepr::new_matrix();
    dense.insert(1);
    dense.insert(2);
    dense.connect(&1, 2, 100);
    assert_eq!(dense.get_edge(&1, &2), Some(&100));
    assert_eq!(dense.get_edge(&2, &1), None);
}
