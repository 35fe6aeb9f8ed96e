//! Generic graph containers built over two interchangeable edge
//! representations: a sparse adjacency list and a dense adjacency matrix.
//!
//! Four public graph types share one vertex/edge interface: directed or
//! undirected, with or without an edge payload. Each composes a vertex
//! table (key to payload) with a representation selector that dispatches
//! edge operations to whichever store is active.
//!
//! Vertex keys must support equality and a stable hash: the contracts state
//! this through vstd's model of std's `HashMap`
//! (`vstd::std_specs::hash::obeys_key_model`) and, where a key or an edge
//! payload is cloned, through [`clone_is_identity`].

use vstd::prelude::*;

pub mod adjacency_list;
pub mod adjacency_matrix;
pub mod digraph;
pub mod graph;
pub mod laws;
pub mod repr;
pub mod weighted_digraph;
pub mod weighted_graph;

pub use adjacency_list::AdjacencyList;
pub use adjacency_matrix::AdjacencyMatrix;
pub use digraph::Digraph;
pub use graph::Graph;
pub use repr::GraphRepr;
pub use weighted_digraph::WeightedDigraph;
pub use weighted_graph::WeightedGraph;

verus! {

/// Holds when every value `T::clone` may return is equal to its input.
///
/// Vertex keys are cloned when a graph inserts one key into both its vertex
/// table and its edge store, and edge payloads are cloned when an undirected
/// graph mirrors a connection; the two copies only stay interchangeable when
/// cloning preserves equality. Integer keys, and any type whose `clone`
/// promises to return its input, satisfy this.
pub open spec fn clone_is_identity<T: Clone>() -> bool {
    forall|a: T, b: T| #[trigger] vstd::pervasive::cloned::<T>(a, b) ==> b == a
}

} // verus!
