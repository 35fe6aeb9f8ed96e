use vstd::prelude::*;

use core::hash::Hash;

use crate::weighted_digraph::WeightedDigraph;
use crate::weighted_graph::WeightedGraph;

verus! {

/// After `insert(k, v)`, `get(k)` returns `Some(v)`; a key never inserted
/// (and distinct from `k`) still returns `None`.
pub proof fn law_insert_then_get<K: Eq + Hash, V, E>(
    pre: WeightedDigraph<K, V, E>,
    post: WeightedDigraph<K, V, E>,
    k: K,
    v: V,
    absent: K,
)
    requires
        pre.insert_effect(post, k, v),
    ensures
        post.spec_get(k) == Some(v),
        absent != k && !pre.vertices().contains_key(absent) ==> post.spec_get(absent)
            == None::<V>,
{
}

/// After `connect(u, v, w)` on a directed graph holding both `u` and `v`,
/// `get_edge(u, v)` returns `Some(w)`, while the opposite direction is
/// untouched: `get_edge(v, u)` still returns whatever it returned before.
pub proof fn law_connect_then_get_edge<K: Eq + Hash, V, E>(
    pre: WeightedDigraph<K, V, E>,
    post: WeightedDigraph<K, V, E>,
    u: K,
    v: K,
    w: E,
)
    requires
        pre.vertices().contains_key(u),
        pre.vertices().contains_key(v),
        pre.connect_effect(post, u, v, w),
    ensures
        post.spec_edge(u, v) == Some(w),
        u != v ==> post.spec_edge(v, u) == pre.spec_edge(v, u),
{
}

/// Re-inserting an existing key overwrites its vertex payload and
/// destructively resets the key's outgoing edges.
pub proof fn law_reinsert_overwrites_and_resets<K: Eq + Hash, V, E>(
    pre: WeightedDigraph<K, V, E>,
    post: WeightedDigraph<K, V, E>,
    k: K,
    value: V,
    b: K,
)
    requires
        pre.vertices().contains_key(k),
        pre.insert_effect(post, k, value),
    ensures
        post.spec_get(k) == Some(value),
        post.spec_edge(k, b) == None::<E>,
{
}

/// Re-connecting the same ordered pair overwrites the edge payload: after
/// a second `connect(u, v, w2)`, `get_edge(u, v)` returns `Some(w2)` and
/// every other ordered pair is untouched. Each pair maps to at most one
/// payload, so no duplicate entry can arise.
pub proof fn law_reconnect_overwrites<K: Eq + Hash, V, E>(
    pre: WeightedDigraph<K, V, E>,
    mid: WeightedDigraph<K, V, E>,
    post: WeightedDigraph<K, V, E>,
    u: K,
    v: K,
    w1: E,
    w2: E,
)
    requires
        pre.vertices().contains_key(u),
        pre.vertices().contains_key(v),
        pre.connect_effect(mid, u, v, w1),
        mid.connect_effect(post, u, v, w2),
    ensures
        mid.spec_edge(u, v) == Some(w1),
        post.spec_edge(u, v) == Some(w2),
        forall|a: K, b: K|
            !(a == u && b == v) ==> post.spec_edge(a, b) == pre.spec_edge(a, b),
{
}

/// `connect(u, v, w)` where `u` was never inserted is a no-op: no vertex
/// or edge changes, and `get_edge(u, v)` still returns `None`.
pub proof fn law_connect_unknown_source_noop<K: Eq + Hash, V, E>(
    pre: WeightedDigraph<K, V, E>,
    post: WeightedDigraph<K, V, E>,
    u: K,
    v: K,
    w: E,
)
    requires
        pre.wf(),
        !pre.vertices().contains_key(u),
        pre.connect_effect(post, u, v, w),
    ensures
        post.vertices() == pre.vertices(),
        forall|a: K, b: K| post.spec_edge(a, b) == pre.spec_edge(a, b),
        post.spec_edge(u, v) == None::<E>,
{
    pre.lemma_absent_no_outgoing(u, v);
}

/// On an undirected graph holding both `u` and `v`, `connect(u, v, w)`
/// stores the payload in both directions: `get_edge(u, v)` and
/// `get_edge(v, u)` both return `Some(w)` afterwards.
pub proof fn law_undirected_connect_mirrors<K: Eq + Hash, V, E>(
    pre: WeightedGraph<K, V, E>,
    post: WeightedGraph<K, V, E>,
    u: K,
    v: K,
    w: E,
)
    requires
        pre.vertices().contains_key(u),
        pre.vertices().contains_key(v),
        pre.connect_effect(post, u, v, w),
    ensures
        post.spec_edge(u, v) == Some(w),
        post.spec_edge(v, u) == Some(w),
{
}

} // verus!
