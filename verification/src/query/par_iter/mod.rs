//! Parallel iteration over the items of a query.
pub mod dense_par_iter;
pub mod sparse_par_iter;

use crate::entity::Entity;
use crate::query::par_iter::dense_par_iter::DenseParIter;
use crate::query::par_iter::sparse_par_iter::SparseParIter;
use crate::query::query::Query;
use vstd::prelude::*;

verus! {

/// Sparse or dense parallel iterator over all items that match a query.
pub enum ParIter<'q, 'a, G: Query<'a>, I: Query<'a>, E: Query<'a>> {
    /// Sparse iterator.
    Sparse(SparseParIter<'q, 'a, G, I, E>),
    /// Dense iterator.
    Dense(DenseParIter<'q, 'a, G>),
}

impl<'q, 'a, G: Query<'a>, I: Query<'a>, E: Query<'a>> ParIter<'q, 'a, G, I, E> {
    /// The entities and items the iterator yields.
    pub open spec fn spec_pairs(&self) -> Seq<(Entity, G::Item)> {
        match self {
            ParIter::Sparse(it) => it.spec_pairs(),
            ParIter::Dense(it) => it.spec_pairs(),
        }
    }

    /// Returns whether the iterator is sparse.
    pub fn is_sparse(&self) -> (b: bool)
        ensures
            b == self is Sparse,
    {
        match self {
            ParIter::Sparse(_) => true,
            ParIter::Dense(_) => false,
        }
    }

    /// Returns whether the iterator is dense.
    pub fn is_dense(&self) -> (b: bool)
        ensures
            b == self is Dense,
    {
        match self {
            ParIter::Sparse(_) => false,
            ParIter::Dense(_) => true,
        }
    }

    /// Returns the number of dense indexes walked, when the iterator is
    /// dense; every item comes from one of them.
    pub fn opt_len(&self) -> (r: Option<usize>)
        ensures
            match self {
                ParIter::Sparse(_) => r is None,
                ParIter::Dense(it) => r == Some(it.spec_len() as usize) && it.spec_pairs().len()
                    <= it.spec_len(),
            },
    {
        match self {
            ParIter::Sparse(_) => None,
            ParIter::Dense(it) => Some(it.len()),
        }
    }

    /// Fetches the items in parallel and returns them with their entities,
    /// in iteration order.
    pub fn collect_pairs(&self) -> (r: Vec<(Entity, G::Item)>)
        where
            G: Sync,
            I: Sync,
            E: Sync,
            G::Item: Send,
        ensures
            r@ == self.spec_pairs(),
    {
        match self {
            ParIter::Sparse(it) => it.collect_pairs(),
            ParIter::Dense(it) => it.collect_pairs(),
        }
    }
}

} // verus!
