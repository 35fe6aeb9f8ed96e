use vstd::prelude::*;

use core::hash::Hash;
use std::collections::HashMap;
use vstd::std_specs::hash::obeys_key_model;

use crate::clone_is_identity;
use crate::repr::GraphRepr;

verus! {

/// An unweighted directed graph: a vertex table mapping each key to its
/// payload, composed with a representation selector holding the edges.
/// Edges carry no data, so the payload type is the unit type, and
/// `connect(u, v, ())` creates only the direction `u -> v`.
pub struct Digraph<K: Eq + Hash, V> {
    vertex_map: HashMap<K, V>,
    repr: GraphRepr<K, ()>,
}

impl<K: Eq + Hash, V> Digraph<K, V> {
    /// The vertex table: every inserted key and its payload.
    pub closed spec fn vertices(self) -> Map<K, V> {
        self.vertex_map@
    }

    /// `Some(())` when the directed edge `(u, v)` exists, `None` otherwise.
    pub closed spec fn spec_edge(self, u: K, v: K) -> Option<()> {
        self.repr.spec_edge(u, v)
    }

    /// Whether the dense matrix store holds the edges.
    pub closed spec fn uses_matrix(self) -> bool {
        self.repr.uses_matrix()
    }

    /// What `get(key)` returns: the stored payload, or `None` when absent.
    pub open spec fn spec_get(self, key: K) -> Option<V> {
        if self.vertices().contains_key(key) {
            Some(self.vertices()[key])
        } else {
            None
        }
    }

    /// Whether `connect(u, v, ())` would store an edge rather than no-op;
    /// see [`crate::WeightedDigraph::can_connect`].
    pub open spec fn can_connect(self, u: K, v: K) -> bool {
        self.vertices().contains_key(u) && (self.uses_matrix() ==> self.vertices().contains_key(
            v,
        ))
    }

    /// The vertex table and the edge store always hold the same keys, and
    /// the active store's internal invariant holds.
    pub closed spec fn wf(self) -> bool {
        &&& self.repr.wf()
        &&& forall|k: K|
            self.vertex_map@.contains_key(k) <==> #[trigger] self.repr.vertices().contains(k)
    }

    /// How `insert(key, value)` rewrites the graph; see
    /// [`crate::WeightedDigraph::insert_effect`].
    pub open spec fn insert_effect(self, post: Self, key: K, value: V) -> bool {
        &&& post.uses_matrix() == self.uses_matrix()
        &&& post.vertices() == self.vertices().insert(key, value)
        &&& forall|b: K| post.spec_edge(key, b) == None::<()>
        &&& forall|a: K, b: K|
            a != key && b != key ==> post.spec_edge(a, b) == self.spec_edge(a, b)
        &&& (!self.uses_matrix() ==> forall|a: K, b: K|
            a != key ==> post.spec_edge(a, b) == self.spec_edge(a, b))
        &&& (self.uses_matrix() ==> forall|a: K| post.spec_edge(a, key) == None::<()>)
    }

    /// How `connect(u, v, ())` rewrites the graph; see
    /// [`crate::WeightedDigraph::connect_effect`].
    pub open spec fn connect_effect(self, post: Self, u: K, v: K) -> bool {
        &&& post.uses_matrix() == self.uses_matrix()
        &&& post.vertices() == self.vertices()
        &&& (self.can_connect(u, v) ==> forall|a: K, b: K|
            post.spec_edge(a, b) == (if a == u && b == v {
                Some(())
            } else {
                self.spec_edge(a, b)
            }))
        &&& (!self.can_connect(u, v) ==> forall|a: K, b: K|
            post.spec_edge(a, b) == self.spec_edge(a, b))
    }

    /// A key that was never inserted has no outgoing edges.
    pub proof fn lemma_absent_no_outgoing(self, u: K, v: K)
        requires
            self.wf(),
            !self.vertices().contains_key(u),
        ensures
            self.spec_edge(u, v) == None::<()>,
    {
        self.repr.lemma_absent_no_outgoing(u, v);
    }

    /// An empty graph over the sparse list store, the default.
    pub fn new() -> (r: Self)
        ensures
            r.wf(),
            !r.uses_matrix(),
            r.vertices() == Map::<K, V>::empty(),
            forall|u: K, v: K| r.spec_edge(u, v) == None::<()>,
    {
        Self::default()
    }

    /// An empty graph whose edges live in the dense matrix store.
    pub fn new_matrix() -> (r: Self)
        ensures
            r.wf(),
            r.uses_matrix(),
            r.vertices() == Map::<K, V>::empty(),
            forall|u: K, v: K| r.spec_edge(u, v) == None::<()>,
    {
        Digraph { vertex_map: HashMap::new(), repr: GraphRepr::new_matrix() }
    }

    /// The payload stored for `key`, or `None` when it was never inserted.
    pub fn get(&self, key: &K) -> (r: Option<&V>)
        requires
            obeys_key_model::<K>(),
        ensures
            (match r {
                Some(value) => self.spec_get(*key) == Some(*value),
                None => self.spec_get(*key) == None::<V>,
            }),
    {
        self.vertex_map.get(key)
    }

    /// `Some(&())` when the edge `(u, v)` exists, `None` otherwise.
    pub fn get_edge(&self, u: &K, v: &K) -> (r: Option<&()>)
        requires
            self.wf(),
            obeys_key_model::<K>(),
        ensures
            (match r {
                Some(e) => self.spec_edge(*u, *v) == Some(*e),
                None => self.spec_edge(*u, *v) == None::<()>,
            }),
    {
        self.repr.get_edge(u, v)
    }
}

impl<K: Eq + Hash, V> Default for Digraph<K, V> {
    /// An empty graph over the sparse list store.
    fn default() -> (r: Self)
        ensures
            r.wf(),
            !r.uses_matrix(),
            r.vertices() == Map::<K, V>::empty(),
            forall|u: K, v: K| r.spec_edge(u, v) == None::<()>,
    {
        Digraph { vertex_map: HashMap::new(), repr: GraphRepr::new_list() }
    }
}

impl<K: Eq + Hash + Clone, V> Digraph<K, V> {
    /// Connects `u -> v`, a no-op when the source was never inserted; see
    /// [`Self::connect_effect`].
    pub fn connect(&mut self, u: &K, v: K, weight: ())
        requires
            old(self).wf(),
            obeys_key_model::<K>(),
            clone_is_identity::<K>(),
        ensures
            final(self).wf(),
            old(self).connect_effect(*final(self), *u, v),
    {
        self.repr.connect(u, v, weight);
    }

    /// Stores `value` for `key`, overwriting an earlier payload, and makes
    /// `key` known to the edge store; see [`Self::insert_effect`].
    pub fn insert(&mut self, key: K, value: V)
        requires
            old(self).wf(),
            obeys_key_model::<K>(),
            clone_is_identity::<K>(),
        ensures
            final(self).wf(),
            old(self).insert_effect(*final(self), key, value),
    {
        let table_key = key.clone();
        proof {
            assert(vstd::pervasive::cloned::<K>(key, table_key));
        }
        self.vertex_map.insert(table_key, value);
        self.repr.insert(key);
        proof {
            assert(self.vertices() =~= old(self).vertices().insert(key, value));
        }
    }
}

} // verus!
