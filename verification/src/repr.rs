use vstd::prelude::*;

use core::hash::Hash;
use vstd::std_specs::hash::obeys_key_model;

use crate::adjacency_list::AdjacencyList;
use crate::adjacency_matrix::AdjacencyMatrix;
use crate::clone_is_identity;

verus! {

/// The representation selector: a closed union over the two edge stores,
/// chosen when a graph is built and fixed for its lifetime. Every call is
/// dispatched to whichever store is active, so all graph types see one
/// insert/connect/lookup contract.
pub enum GraphRepr<K: Eq + Hash, E> {
    AdjacencyList(AdjacencyList<K, E>),
    AdjacencyMatrix(AdjacencyMatrix<K, E>),
}

impl<K: Eq + Hash, E> GraphRepr<K, E> {
    /// Whether the dense matrix store is the active representation.
    pub closed spec fn uses_matrix(self) -> bool {
        self is AdjacencyMatrix
    }

    /// Internal invariant of the active store.
    pub closed spec fn wf(self) -> bool {
        match self {
            GraphRepr::AdjacencyList(_) => true,
            GraphRepr::AdjacencyMatrix(matrix) => matrix.wf(),
        }
    }

    /// The keys the active store knows.
    pub closed spec fn vertices(self) -> Set<K> {
        match self {
            GraphRepr::AdjacencyList(list) => list.vertices(),
            GraphRepr::AdjacencyMatrix(matrix) => matrix.vertices(),
        }
    }

    /// The payload on the directed edge `(u, v)`, or `None` when absent.
    pub closed spec fn spec_edge(self, u: K, v: K) -> Option<E> {
        match self {
            GraphRepr::AdjacencyList(list) => list.spec_edge(u, v),
            GraphRepr::AdjacencyMatrix(matrix) => matrix.spec_edge(u, v),
        }
    }

    /// Whether `connect(u, v, _)` would store an edge rather than no-op.
    /// Both stores ignore a connect whose source is unknown; the matrix
    /// store also validates the target, while the list store accepts an
    /// edge dangling towards a key never inserted.
    pub open spec fn can_connect(self, u: K, v: K) -> bool {
        self.vertices().contains(u) && (self.uses_matrix() ==> self.vertices().contains(v))
    }

    /// A key that was never inserted has no outgoing edges.
    pub proof fn lemma_absent_no_outgoing(self, u: K, v: K)
        requires
            !self.vertices().contains(u),
        ensures
            self.spec_edge(u, v) == None::<E>,
    {
        match self {
            GraphRepr::AdjacencyList(list) => list.lemma_absent_no_outgoing(u, v),
            GraphRepr::AdjacencyMatrix(matrix) => matrix.lemma_absent_no_outgoing(u, v),
        }
    }

    /// An empty selector over the sparse list store, the default choice.
    pub fn new_list() -> (r: Self)
        ensures
            r.wf(),
            !r.uses_matrix(),
            r.vertices() == Set::<K>::empty(),
            forall|u: K, v: K| r.spec_edge(u, v) == None::<E>,
    {
        GraphRepr::AdjacencyList(AdjacencyList::new())
    }

    /// An empty selector over the dense matrix store.
    pub fn new_matrix() -> (r: Self)
        ensures
            r.wf(),
            r.uses_matrix(),
            r.vertices() == Set::<K>::empty(),
            forall|u: K, v: K| r.spec_edge(u, v) == None::<E>,
    {
        GraphRepr::AdjacencyMatrix(AdjacencyMatrix::new())
    }

    /// Makes `key` known to the active store. Re-inserting a key wipes its
    /// outgoing edges in either store; the matrix store wipes its incoming
    /// edges as well, while the list store keeps them.
    pub fn insert(&mut self, key: K)
        requires
            old(self).wf(),
            obeys_key_model::<K>(),
        ensures
            final(self).wf(),
            final(self).uses_matrix() == old(self).uses_matrix(),
            final(self).vertices() == old(self).vertices().insert(key),
            forall|b: K| final(self).spec_edge(key, b) == None::<E>,
            forall|a: K, b: K|
                a != key && b != key ==> final(self).spec_edge(a, b) == old(self).spec_edge(
                    a,
                    b,
                ),
            !old(self).uses_matrix() ==> forall|a: K, b: K|
                a != key ==> final(self).spec_edge(a, b) == old(self).spec_edge(a, b),
            old(self).uses_matrix() ==> forall|a: K| final(self).spec_edge(a, key) == None::<E>,
    {
        match self {
            GraphRepr::AdjacencyList(list) => list.insert(key),
            GraphRepr::AdjacencyMatrix(matrix) => matrix.insert(key),
        }
    }

    /// Delegates the lookup of the edge `(u, v)` to the active store.
    pub fn get_edge(&self, u: &K, v: &K) -> (r: Option<&E>)
        requires
            self.wf(),
            obeys_key_model::<K>(),
        ensures
            (match r {
                Some(e) => self.spec_edge(*u, *v) == Some(*e),
                None => self.spec_edge(*u, *v) == None::<E>,
            }),
    {
        match self {
            GraphRepr::AdjacencyList(list) => list.get_edge(u, v),
            GraphRepr::AdjacencyMatrix(matrix) => matrix.get_edge(u, v),
        }
    }
}

impl<K: Eq + Hash, E> Default for GraphRepr<K, E> {
    /// The default representation: an empty selector over the sparse list
    /// store.
    fn default() -> (r: Self)
        ensures
            r.wf(),
            !r.uses_matrix(),
            r.vertices() == Set::<K>::empty(),
            forall|u: K, v: K| r.spec_edge(u, v) == None::<E>,
    {
        GraphRepr::new_list()
    }
}

impl<K: Eq + Hash + Clone, E> GraphRepr<K, E> {
    /// Stores `weight` on the edge `(u, v)` when the active store accepts
    /// the pair (see [`Self::can_connect`]); otherwise a silent no-op.
    pub fn connect(&mut self, u: &K, v: K, weight: E)
        requires
            old(self).wf(),
            obeys_key_model::<K>(),
            clone_is_identity::<K>(),
        ensures
            final(self).wf(),
            final(self).uses_matrix() == old(self).uses_matrix(),
            final(self).vertices() == old(self).vertices(),
            old(self).can_connect(*u, v) ==> forall|a: K, b: K|
                final(self).spec_edge(a, b) == (if a == *u && b == v {
                    Some(weight)
                } else {
                    old(self).spec_edge(a, b)
                }),
            !old(self).can_connect(*u, v) ==> forall|a: K, b: K|
                final(self).spec_edge(a, b) == old(self).spec_edge(a, b),
    {
        match self {
            GraphRepr::AdjacencyList(list) => list.connect(u, v, weight),
            GraphRepr::AdjacencyMatrix(matrix) => matrix.connect(u, v, weight),
        }
    }
}

} // verus!
