use vstd::prelude::*;

use core::hash::Hash;
use std::collections::HashMap;
use vstd::std_specs::hash::obeys_key_model;

use crate::clone_is_identity;

verus! {

/// Sparse successor storage: every inserted key owns a map from neighbour
/// key to edge payload. An edge `(u, v)` exists exactly when `u` owns a
/// neighbour entry for `v`; the target `v` itself need not be inserted.
pub struct AdjacencyList<K: Eq + Hash, E> {
    list: HashMap<K, HashMap<K, E>>,
}

impl<K: Eq + Hash, E> AdjacencyList<K, E> {
    /// The keys that have been inserted, i.e. own a neighbour map.
    pub closed spec fn vertices(self) -> Set<K> {
        self.list@.dom()
    }

    /// The payload on the directed edge `(u, v)`, or `None` when absent.
    pub closed spec fn spec_edge(self, u: K, v: K) -> Option<E> {
        if self.list@.contains_key(u) && self.list@[u]@.contains_key(v) {
            Some(self.list@[u]@[v])
        } else {
            None
        }
    }

    /// A key that was never inserted has no outgoing edges.
    pub proof fn lemma_absent_no_outgoing(self, u: K, v: K)
        requires
            !self.vertices().contains(u),
        ensures
            self.spec_edge(u, v) == None::<E>,
    {
    }

    pub fn new() -> (r: Self)
        ensures
            r.vertices() == Set::<K>::empty(),
            forall|u: K, v: K| r.spec_edge(u, v) == None::<E>,
    {
        let r = AdjacencyList { list: HashMap::new() };
        proof {
            assert(r.vertices() =~= Set::<K>::empty());
        }
        r
    }

    /// Gives `key` a fresh, empty neighbour map. A key inserted before is
    /// silently re-inserted: its outgoing edges are wiped, while edges that
    /// point at it are kept.
    pub fn insert(&mut self, key: K)
        requires
            obeys_key_model::<K>(),
        ensures
            final(self).vertices() == old(self).vertices().insert(key),
            forall|b: K| final(self).spec_edge(key, b) == None::<E>,
            forall|a: K, b: K|
                a != key ==> final(self).spec_edge(a, b) == old(self).spec_edge(a, b),
    {
        self.list.insert(key, HashMap::new());
        proof {
            assert(self.vertices() =~= old(self).vertices().insert(key));
        }
    }

    /// The payload stored for the edge `(u, v)`, or `None` when `u` was never
    /// inserted or has no entry for `v`.
    pub fn get_edge(&self, u: &K, v: &K) -> (r: Option<&E>)
        requires
            obeys_key_model::<K>(),
        ensures
            (match r {
                Some(e) => self.spec_edge(*u, *v) == Some(*e),
                None => self.spec_edge(*u, *v) == None::<E>,
            }),
    {
        match self.list.get(u) {
            Some(inner) => inner.get(v),
            None => None,
        }
    }
}

impl<K: Eq + Hash + Clone, E> AdjacencyList<K, E> {
    /// Stores `weight` on the edge `(u, v)`, overwriting any earlier payload.
    /// When `u` was never inserted this is a silent no-op; `v` is accepted
    /// unchecked, so an edge may dangle towards a key not yet inserted.
    pub fn connect(&mut self, u: &K, v: K, weight: E)
        requires
            obeys_key_model::<K>(),
            clone_is_identity::<K>(),
        ensures
            final(self).vertices() == old(self).vertices(),
            old(self).vertices().contains(*u) ==> forall|a: K, b: K|
                final(self).spec_edge(a, b) == (if a == *u && b == v {
                    Some(weight)
                } else {
                    old(self).spec_edge(a, b)
                }),
            !old(self).vertices().contains(*u) ==> forall|a: K, b: K|
                final(self).spec_edge(a, b) == old(self).spec_edge(a, b),
    {
        match self.list.remove(u) {
            Some(mut inner) => {
                inner.insert(v, weight);
                let key = (*u).clone();
                proof {
                    assert(vstd::pervasive::cloned::<K>(*u, key));
                }
                self.list.insert(key, inner);
                proof {
                    assert(self.vertices() =~= old(self).vertices());
                    assert forall|a: K, b: K|
                        self.spec_edge(a, b) == (if a == *u && b == v {
                            Some(weight)
                        } else {
                            old(self).spec_edge(a, b)
                        }) by {
                        if a == *u {
                            assert(self.list@[a] == inner);
                        }
                    }
                }
            },
            None => {
                proof {
                    assert(self.list@ =~= old(self).list@);
                }
            },
        }
    }
}

} // verus!
