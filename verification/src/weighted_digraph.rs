use vstd::prelude::*;

use core::hash::Hash;
use std::collections::HashMap;
use vstd::std_specs::hash::obeys_key_model;

use crate::clone_is_identity;
use crate::repr::GraphRepr;

verus! {

/// A weighted directed graph: a vertex table mapping each key to its
/// payload, composed with a representation selector holding the edges.
/// `connect(u, v, w)` creates only the direction `u -> v`.
pub struct WeightedDigraph<K: Eq + Hash, V, E> {
    vertex_map: HashMap<K, V>,
    repr: GraphRepr<K, E>,
}

impl<K: Eq + Hash, V, E> WeightedDigraph<K, V, E> {
    /// The vertex table: every inserted key and its payload.
    pub closed spec fn vertices(self) -> Map<K, V> {
        self.vertex_map@
    }

    /// The payload on the directed edge `(u, v)`, or `None` when absent.
    pub closed spec fn spec_edge(self, u: K, v: K) -> Option<E> {
        self.repr.spec_edge(u, v)
    }

    /// Whether the dense matrix store holds the edges.
    pub closed spec fn uses_matrix(self) -> bool {
        self.repr.uses_matrix()
    }

    /// What `get(key)` returns: the stored payload, or `None` when absent.
    pub open spec fn spec_get(self, key: K) -> Option<V> {
        if self.vertices().contains_key(key) {
            Some(self.vertices()[key])
        } else {
            None
        }
    }

    /// Whether `connect(u, v, _)` would store an edge rather than no-op.
    /// A connect whose source was never inserted is ignored; the matrix
    /// store also validates the target, while the list store accepts an
    /// edge dangling towards a key never inserted.
    pub open spec fn can_connect(self, u: K, v: K) -> bool {
        self.vertices().contains_key(u) && (self.uses_matrix() ==> self.vertices().contains_key(
            v,
        ))
    }

    /// The vertex table and the edge store always hold the same keys, and
    /// the active store's internal invariant holds.
    pub closed spec fn wf(self) -> bool {
        &&& self.repr.wf()
        &&& forall|k: K|
            self.vertex_map@.contains_key(k) <==> #[trigger] self.repr.vertices().contains(k)
    }

    /// How `insert(key, value)` rewrites the graph: the vertex table gains
    /// (or overwrites) the binding, the representation is kept, `key` ends
    /// up with no outgoing edges, and every edge not touching `key` is
    /// preserved. The list store keeps edges pointing at `key`; the matrix
    /// store wipes them, since re-inserting assigns a fresh index.
    pub open spec fn insert_effect(self, post: Self, key: K, value: V) -> bool {
        &&& post.uses_matrix() == self.uses_matrix()
        &&& post.vertices() == self.vertices().insert(key, value)
        &&& forall|b: K| post.spec_edge(key, b) == None::<E>
        &&& forall|a: K, b: K|
            a != key && b != key ==> post.spec_edge(a, b) == self.spec_edge(a, b)
        &&& (!self.uses_matrix() ==> forall|a: K, b: K|
            a != key ==> post.spec_edge(a, b) == self.spec_edge(a, b))
        &&& (self.uses_matrix() ==> forall|a: K| post.spec_edge(a, key) == None::<E>)
    }

    /// How `connect(u, v, weight)` rewrites the graph: no vertex appears or
    /// disappears; when the pair is accepted exactly the edge `(u, v)` now
    /// carries `weight` and every other edge is preserved, and when it is
    /// not the edges are untouched.
    pub open spec fn connect_effect(self, post: Self, u: K, v: K, weight: E) -> bool {
        &&& post.uses_matrix() == self.uses_matrix()
        &&& post.vertices() == self.vertices()
        &&& (self.can_connect(u, v) ==> forall|a: K, b: K|
            post.spec_edge(a, b) == (if a == u && b == v {
                Some(weight)
            } else {
                self.spec_edge(a, b)
            }))
        &&& (!self.can_connect(u, v) ==> forall|a: K, b: K|
            post.spec_edge(a, b) == self.spec_edge(a, b))
    }

    /// A key that was never inserted has no outgoing edges.
    pub proof fn lemma_absent_no_outgoing(self, u: K, v: K)
        requires
            self.wf(),
            !self.vertices().contains_key(u),
        ensures
            self.spec_edge(u, v) == None::<E>,
    {
        self.repr.lemma_absent_no_outgoing(u, v);
    }

    /// An empty graph over the sparse list store, the default.
    pub fn new() -> (r: Self)
        ensures
            r.wf(),
            !r.uses_matrix(),
            r.vertices() == Map::<K, V>::empty(),
            forall|u: K, v: K| r.spec_edge(u, v) == None::<E>,
    {
        Self::default()
    }

    /// An empty graph whose edges live in the dense matrix store.
    pub fn new_matrix() -> (r: Self)
        ensures
            r.wf(),
            r.uses_matrix(),
            r.vertices() == Map::<K, V>::empty(),
            forall|u: K, v: K| r.spec_edge(u, v) == None::<E>,
    {
        WeightedDigraph { vertex_map: HashMap::new(), repr: GraphRepr::new_matrix() }
    }

    /// The payload stored for `key`, or `None` when it was never inserted.
    pub fn get(&self, key: &K) -> (r: Option<&V>)
        requires
            obeys_key_model::<K>(),
        ensures
            (match r {
                Some(value) => self.spec_get(*key) == Some(*value),
                None => self.spec_get(*key) == None::<V>,
            }),
    {
        self.vertex_map.get(key)
    }

    /// The payload stored for the edge `(u, v)`, or `None` when absent.
    pub fn get_edge(&self, u: &K, v: &K) -> (r: Option<&E>)
        requires
            self.wf(),
            obeys_key_model::<K>(),
        ensures
            (match r {
                Some(e) => self.spec_edge(*u, *v) == Some(*e),
                None => self.spec_edge(*u, *v) == None::<E>,
            }),
    {
        self.repr.get_edge(u, v)
    }
}

impl<K: Eq + Hash, V, E> Default for WeightedDigraph<K, V, E> {
    /// An empty graph over the sparse list store.
    fn default() -> (r: Self)
        ensures
            r.wf(),
            !r.uses_matrix(),
            r.vertices() == Map::<K, V>::empty(),
            forall|u: K, v: K| r.spec_edge(u, v) == None::<E>,
    {
        WeightedDigraph { vertex_map: HashMap::new(), repr: GraphRepr::new_list() }
    }
}

impl<K: Eq + Hash + Clone, V, E> WeightedDigraph<K, V, E> {
    /// Connects `u -> v` with `weight`, overwriting any earlier payload for
    /// that ordered pair; see [`Self::connect_effect`]. Connecting from a
    /// key never inserted is a silent no-op.
    pub fn connect(&mut self, u: &K, v: K, weight: E)
        requires
            old(self).wf(),
            obeys_key_model::<K>(),
            clone_is_identity::<K>(),
        ensures
            final(self).wf(),
            old(self).connect_effect(*final(self), *u, v, weight),
    {
        self.repr.connect(u, v, weight);
    }

    /// Stores `value` for `key`, overwriting an earlier payload, and makes
    /// `key` known to the edge store; see [`Self::insert_effect`].
    pub fn insert(&mut self, key: K, value: V)
        requires
            old(self).wf(),
            obeys_key_model::<K>(),
            clone_is_identity::<K>(),
        ensures
            final(self).wf(),
            old(self).insert_effect(*final(self), key, value),
    {
        let table_key = key.clone();
        proof {
            assert(vstd::pervasive::cloned::<K>(key, table_key));
        }
        self.vertex_map.insert(table_key, value);
        self.repr.insert(key);
        proof {
            assert(self.vertices() =~= old(self).vertices().insert(key, value));
        }
    }
}

} // verus!
