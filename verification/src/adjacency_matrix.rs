use vstd::prelude::*;

use core::hash::Hash;
use std::collections::HashMap;
use vstd::pervasive::VecAdditionalExecFns;
use vstd::std_specs::hash::obeys_key_model;

verus! {

/// Dense successor storage: every inserted key is assigned the next integer
/// index, in insertion order, and edge payloads live in a square table
/// addressed by those indices. An edge `(u, v)` exists exactly when both
/// keys hold an index and the cell at `(idx(u), idx(v))` is occupied.
///
/// Inserting a key costs one new row and one new column; lookups then cost
/// two index resolutions and one cell read.
pub struct AdjacencyMatrix<K: Eq + Hash, E> {
    idx_map: HashMap<K, usize>,
    matrix: Vec<Vec<Option<E>>>,
}

impl<K: Eq + Hash, E> AdjacencyMatrix<K, E> {
    /// Internal shape invariant: the table is square, every assigned index
    /// addresses a row, and no two keys share an index.
    pub closed spec fn wf(self) -> bool {
        &&& forall|i: int|
            0 <= i < self.matrix@.len() ==> (#[trigger] self.matrix@[i])@.len()
                == self.matrix@.len()
        &&& forall|k: K|
            self.idx_map@.contains_key(k) ==> (#[trigger] self.idx_map@[k]) < self.matrix@.len()
        &&& forall|k1: K, k2: K|
            self.idx_map@.contains_key(k1) && self.idx_map@.contains_key(k2) && k1 != k2
                ==> self.idx_map@[k1] != self.idx_map@[k2]
    }

    /// The keys that currently hold an index.
    pub closed spec fn vertices(self) -> Set<K> {
        self.idx_map@.dom()
    }

    /// The payload on the directed edge `(u, v)`, or `None` when absent.
    pub closed spec fn spec_edge(self, u: K, v: K) -> Option<E> {
        if self.idx_map@.contains_key(u) && self.idx_map@.contains_key(v) {
            self.matrix@[self.idx_map@[u] as int]@[self.idx_map@[v] as int]
        } else {
            None
        }
    }

    /// A key that was never inserted has no outgoing edges.
    pub proof fn lemma_absent_no_outgoing(self, u: K, v: K)
        requires
            !self.vertices().contains(u),
        ensures
            self.spec_edge(u, v) == None::<E>,
    {
    }

    pub fn new() -> (r: Self)
        ensures
            r.wf(),
            r.vertices() == Set::<K>::empty(),
            forall|u: K, v: K| r.spec_edge(u, v) == None::<E>,
    {
        let r = AdjacencyMatrix { idx_map: HashMap::new(), matrix: Vec::new() };
        proof {
            assert(r.vertices() =~= Set::<K>::empty());
        }
        r
    }

    /// Assigns `key` the next index (the current vertex count), grows every
    /// existing row by one empty cell, and appends a fresh, empty row. A key
    /// inserted before is re-inserted under a fresh index, so all its edges,
    /// outgoing and incoming, are wiped; its old index keeps its cells but
    /// can no longer be reached through any key.
    pub fn insert(&mut self, key: K)
        requires
            old(self).wf(),
            obeys_key_model::<K>(),
        ensures
            final(self).wf(),
            final(self).vertices() == old(self).vertices().insert(key),
            forall|b: K| final(self).spec_edge(key, b) == None::<E>,
            forall|a: K| final(self).spec_edge(a, key) == None::<E>,
            forall|a: K, b: K|
                a != key && b != key ==> final(self).spec_edge(a, b) == old(self).spec_edge(
                    a,
                    b,
                ),
    {
        let n = self.matrix.len();
        let mut i: usize = 0;
        while i < n
            invariant
                n == old(self).matrix@.len(),
                self.idx_map == old(self).idx_map,
                self.matrix@.len() == n,
                i <= n,
                forall|j: int|
                    0 <= j < i ==> (#[trigger] self.matrix@[j])@ == old(self).matrix@[j]@.push(
                        None::<E>,
                    ),
                forall|j: int| i <= j < n ==> self.matrix@[j] == old(self).matrix@[j],
            decreases n - i,
        {
            let mut row: Vec<Option<E>> = Vec::new();
            self.matrix.set_and_swap(i, &mut row);
            row.push(None);
            self.matrix.set_and_swap(i, &mut row);
            i += 1;
        }
        let mut fresh: Vec<Option<E>> = Vec::new();
        let mut j: usize = 0;
        while j < n
            invariant
                fresh@.len() == j,
                j <= n,
                forall|t: int| 0 <= t < j ==> fresh@[t] == None::<E>,
            decreases n - j,
        {
            fresh.push(None);
            j += 1;
        }
        fresh.push(None);
        self.matrix.push(fresh);
        self.idx_map.insert(key, n);
        proof {
            assert(self.vertices() =~= old(self).vertices().insert(key));
            assert forall|b: K| self.spec_edge(key, b) == None::<E> by {
                if self.idx_map@.contains_key(b) {
                    assert(self.matrix@[n as int]@[self.idx_map@[b] as int] == None::<E>);
                }
            }
            assert forall|a: K| self.spec_edge(a, key) == None::<E> by {
                if self.idx_map@.contains_key(a) && a != key {
                    let ia = self.idx_map@[a] as int;
                    assert(self.matrix@[ia]@ == old(self).matrix@[ia]@.push(None::<E>));
                    assert(self.matrix@[ia]@[n as int] == None::<E>);
                }
            }
            assert forall|a: K, b: K|
                a != key && b != key implies self.spec_edge(a, b) == old(self).spec_edge(
                a,
                b,
            ) by {
                if old(self).idx_map@.contains_key(a) && old(self).idx_map@.contains_key(b) {
                    let ia = self.idx_map@[a] as int;
                    let ib = self.idx_map@[b] as int;
                    assert(self.matrix@[ia]@ == old(self).matrix@[ia]@.push(None::<E>));
                    assert(self.matrix@[ia]@[ib] == old(self).matrix@[ia]@[ib]);
                }
            }
        }
    }

    /// Stores `weight` on the edge `(u, v)`, overwriting any earlier payload.
    /// When either key was never inserted this is a silent no-op.
    pub fn connect(&mut self, u: &K, v: K, weight: E)
        requires
            old(self).wf(),
            obeys_key_model::<K>(),
        ensures
            final(self).wf(),
            final(self).vertices() == old(self).vertices(),
            (old(self).vertices().contains(*u) && old(self).vertices().contains(v))
                ==> forall|a: K, b: K|
                final(self).spec_edge(a, b) == (if a == *u && b == v {
                    Some(weight)
                } else {
                    old(self).spec_edge(a, b)
                }),
            !(old(self).vertices().contains(*u) && old(self).vertices().contains(v))
                ==> forall|a: K, b: K|
                final(self).spec_edge(a, b) == old(self).spec_edge(a, b),
    {
        match self.idxs(u, &v) {
            Some((u_idx, v_idx)) => {
                let mut row: Vec<Option<E>> = Vec::new();
                self.matrix.set_and_swap(u_idx, &mut row);
                row.set(v_idx, Some(weight));
                self.matrix.set_and_swap(u_idx, &mut row);
                proof {
                    assert forall|a: K, b: K|
                        self.spec_edge(a, b) == (if a == *u && b == v {
                            Some(weight)
                        } else {
                            old(self).spec_edge(a, b)
                        }) by {
                        if self.idx_map@.contains_key(a) && self.idx_map@.contains_key(b) {
                            let ia = self.idx_map@[a] as int;
                            let ib = self.idx_map@[b] as int;
                            if a == *u {
                                assert(self.matrix@[ia]@ == old(self).matrix@[ia]@.update(
                                    v_idx as int,
                                    Some(weight),
                                ));
                            } else {
                                assert(ia != u_idx as int);
                                assert(self.matrix@[ia] == old(self).matrix@[ia]);
                            }
                        }
                    }
                }
            },
            None => {},
        }
    }

    /// The payload stored for the edge `(u, v)`, or `None` when either key
    /// was never inserted or the cell is empty.
    pub fn get_edge(&self, u: &K, v: &K) -> (r: Option<&E>)
        requires
            self.wf(),
            obeys_key_model::<K>(),
        ensures
            (match r {
                Some(e) => self.spec_edge(*u, *v) == Some(*e),
                None => self.spec_edge(*u, *v) == None::<E>,
            }),
    {
        match self.idxs(u, v) {
            Some((u_idx, v_idx)) => self.matrix[u_idx][v_idx].as_ref(),
            None => None,
        }
    }

    /// Resolves both keys to their indices, or `None` when either is unknown.
    fn idxs(&self, u: &K, v: &K) -> (r: Option<(usize, usize)>)
        requires
            obeys_key_model::<K>(),
        ensures
            (match r {
                Some(p) => self.idx_map@.contains_key(*u) && self.idx_map@.contains_key(*v)
                    && p.0 == self.idx_map@[*u] && p.1 == self.idx_map@[*v],
                None => !(self.idx_map@.contains_key(*u) && self.idx_map@.contains_key(*v)),
            }),
    {
        match (self.idx_map.get(u), self.idx_map.get(v)) {
            (Some(u_idx), Some(v_idx)) => Some((*u_idx, *v_idx)),
            _ => None,
        }
    }
}

} // verus!
