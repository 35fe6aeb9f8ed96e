use graphs::Digraph;
use graphs::Graph;
use graphs::WeightedDigraph;
use graphs::WeightedGraph;

#[test]
fn read_write_vertex() {
    let mut graph = WeightedDigraph::<_, _, ()>::new();
    graph.insert(1, "hi");
    graph.insert(2, "bye");
    assert_eq!(graph.get(&1), Some(&"hi"));
    assert_eq!(graph.get(&2), Some(&"bye"));
    assert_eq!(graph.get(&3), None);
}

#[test]
fn connect_vertices() {
    let mut graph = WeightedDigraph::new();
    graph.insert(1, "hi");
    graph.insert(2, "bye");
    graph.connect(&1, 2, 10_000);
    assert_eq!(graph.get_edge(&1, &2), Some(&10_000));
    assert_eq!(graph.get_edge(&2, &1), None);
}

#[test]
fn weighted_digraph_matrix_scenario() {
    let mut graph = WeightedDigraph::new_matrix();
    graph.insert(1, "hi");
    graph.insert(2, "bye");
    graph.connect(&1, 2, 10_000);
    assert_eq!(graph.get(&1), Some(&"hi"));
    assert_eq!(graph.get(&2), Some(&"bye"));
    assert_eq!(graph.get_edge(&1, &2), Some(&10_000));
    assert_eq!(graph.get_edge(&2, &1), None);
}

#[test]
fn reinsert_overwrites_payload_and_resets_outgoing_edges() {
    let mut graph = WeightedDigraph::new();
    graph.insert(1, "first");
    graph.insert(2, "second");
    graph.connect(&1, 2, 5);
    graph.connect(&2, 1, 6);
    assert_eq!(graph.get_edge(&1, &2), Some(&5));
    graph.insert(1, "replaced");
    assert_eq!(graph.get(&1), Some(&"replaced"));
    // outgoing edges of the re-inserted key are wiped ...
    assert_eq!(graph.get_edge(&1, &2), None);
    // ... while the list store keeps edges pointing at it
    assert_eq!(graph.get_edge(&2, &1), Some(&6));
}

#[test]
fn matrix_reinsert_wipes_incoming_edges_too() {
    let mut graph = WeightedDigraph::<u64, &str, u64>::new_matrix();
    graph.insert(1, "first");
    graph.insert(2, "second");
    graph.connect(&1, 2, 5);
    graph.connect(&2, 1, 6);
    graph.insert(1, "replaced");
    assert_eq!(graph.get(&1), Some(&"replaced"));
    assert_eq!(graph.get_edge(&1, &2), None);
    assert_eq!(graph.get_edge(&2, &1), None);
}

#[test]
fn reconnect_overwrites_edge_payload() {
    let mut graph = WeightedDigraph::new();
    graph.insert(1, ());
    graph.insert(2, ());
    graph.connect(&1, 2, 5);
    graph.connect(&1, 2, 7);
    assert_eq!(graph.get_edge(&1, &2), Some(&7));

    let mut dense = WeightedDigraph::new_matrix();
    dense.insert(1, ());
    dense.insert(2, ());
    dense.connect(&1, 2, 5);
    dense.connect(&1, 2, 7);
    assert_eq!(dense.get_edge(&1, &2), Some(&7));
}

#[test]
fn connect_from_unknown_vertex_is_noop() {
    let mut graph = WeightedDigraph::new();
    graph.insert(2, "known");
    graph.connect(&1, 2, 5);
    assert_eq!(graph.get_edge(&1, &2), None);
    assert_eq!(graph.get(&2), Some(&"known"));

    let mut dense = WeightedDigraph::new_matrix();
    dense.insert(2, "known");
    dense.connect(&1, 2, 5);
    assert_eq!(dense.get_edge(&1, &2), None);
}

#[test]
fn list_store_accepts_dangling_edge_target() {
    let mut graph = WeightedDigraph::new();
    graph.insert(1, "known");
    graph.connect(&1, 2, 5);
    assert_eq!(graph.get_edge(&1, &2), Some(&5));
    assert_eq!(graph.get(&2), None);
}

#[test]
fn matrix_store_rejects_dangling_edge_target() {
    let mut graph = WeightedDigraph::new_matrix();
    graph.insert(1, "known");
    graph.connect(&1, 2, 5);
    assert_eq!(graph.get_edge(&1, &2), None);
}

#[test]
fn matrix_connect_every_pair() {
    let n: u64 = 6;
    let mut graph = WeightedDigraph::new_matrix();
    for k in 0..n {
        graph.insert(k, k * 10);
    }
    for u in 0..n {
        for v in 0..n {
            graph.connect(&u, v, u * 100 + v);
        }
    }
    for u in 0..n {
        assert_eq!(graph.get(&u), Some(&(u * 10)));
        for v in 0..n {
            assert_eq!(graph.get_edge(&u, &v), Some(&(u * 100 + v)));
        }
    }
    // keys never inserted hold no cells at all
    assert_eq!(graph.get_edge(&n, &0), None);
    assert_eq!(graph.get_edge(&0, &n), None);
}

#[test]
fn matrix_unconnected_cells_stay_empty() {
    let n: u64 = 5;
    let mut graph = WeightedDigraph::<u64, (), u64>::new_matrix();
    for k in 0..n {
        graph.insert(k, ());
    }
    for u in 0..n {
        graph.connect(&u, u, u);
    }
    for u in 0..n {
        for v in 0..n {
            if u == v {
                assert_eq!(graph.get_edge(&u, &v), Some(&u));
            } else {
                assert_eq!(graph.get_edge(&u, &v), None);
            }
        }
    }
}

#[test]
fn self_loop_behaves_like_any_pair() {
    let mut sparse = WeightedDigraph::new();
    sparse.insert(1, "v");
    sparse.connect(&1, 1, 9);
    assert_eq!(sparse.get_edge(&1, &1), Some(&9));

    let mut dense = WeightedDigraph::new_matrix();
    dense.insert(1, "v");
    dense.connect(&1, 1, 9);
    assert_eq!(dense.get_edge(&1, &1), Some(&9));
}

#[test]
fn unweighted_digraph_connects_one_direction() {
    let mut graph = Digraph::new();
    graph.insert(1, "a");
    graph.insert(2, "b");
    graph.connect(&1, 2, ());
    assert_eq!(graph.get_edge(&1, &2), Some(&()));
    assert_eq!(graph.get_edge(&2, &1), None);
    assert_eq!(graph.get(&1), Some(&"a"));
}

#[test]
fn unweighted_undirected_connects_both_directions() {
    let mut graph = Graph::new();
    graph.insert(1, "a");
    graph.insert(2, "b");
    graph.connect(&1, 2, ());
    assert_eq!(graph.get_edge(&1, &2), Some(&()));
    assert_eq!(graph.get_edge(&2, &1), Some(&()));
    assert_eq!(graph.get_edge(&1, &3), None);
}

#[test]
fn weighted_undirected_mirrors_payload() {
    let mut graph = WeightedGraph::new();
    graph.insert(1, "a");
    graph.insert(2, "b");
    graph.connect(&1, 2, 42);
    assert_eq!(graph.get_edge(&1, &2), Some(&42));
    assert_eq!(graph.get_edge(&2, &1), Some(&42));

    let mut dense = WeightedGraph::new_matrix();
    dense.insert(1, "a");
    dense.insert(2, "b");
    dense.connect(&2, 1, 7);
    assert_eq!(dense.get_edge(&1, &2), Some(&7));
    assert_eq!(dense.get_edge(&2, &1), Some(&7));
}

#[test]
fn undirected_connect_with_unknown_endpoint() {
    // with the list store only the direction leaving the inserted key is kept
    let mut sparse = WeightedGraph::new();
    sparse.insert(1, "a");
    sparse.connect(&1, 2, 42);
    assert_eq!(sparse.get_edge(&1, &2), Some(&42));
    assert_eq!(sparse.get_edge(&2, &1), None);

    // the matrix store validates both endpoints and stores nothing
    let mut dense = WeightedGraph::new_matrix();
    dense.insert(1, "a");
    dense.connect(&1, 2, 42);
    assert_eq!(dense.get_edge(&1, &2), None);
    assert_eq!(dense.get_edge(&2, &1), None);
}

#[test]
fn default_graphs_start_empty() {
    let weighted_directed: WeightedDigraph<u64, &str, u64> = WeightedDigraph::default();
    assert_eq!(weighted_directed.get(&1), None);
    assert_eq!(weighted_directed.get_edge(&1, &2), None);

    let directed: Digraph<u64, &str> = Digraph::default();
    assert_eq!(directed.get(&1), None);

    let weighted: WeightedGraph<u64, &str, u64> = WeightedGraph::default();
    assert_eq!(weighted.get_edge(&1, &2), None);

    let plain: Graph<u64, &str> = Graph::default();
    assert_eq!(plain.get(&1), None);
    assert_eq!(plain.get_edge(&1, &2), None);
}

#[test]
fn string_keys_and_payloads() {
    let mut graph = WeightedDigraph::new();
    graph.insert(String::from("from"), 1u32);
    graph.insert(String::from("to"), 2u32);
    graph.connect(&String::from("from"), String::from("to"), String::from("label"));
    assert_eq!(graph.get(&String::from("from")), Some(&1u32));
    assert_eq!(
        graph.get_edge(&String::from("from"), &String::from("to")),
        Some(&String::from("label"))
    );
    assert_eq!(graph.get_edge(&String::from("to"), &String::from("from")), None);
}
