//! Parallel iteration over the items of a grouped query.
use crate::entity::Entity;
use crate::query::iter::{lemma_dense_pairs_extend, lemma_dense_pairs_len, spec_dense_probe, spec_dense_pairs};
use crate::query::query::Query;
use rayon::iter::{IntoParallelIterator, ParallelIterator};
use vstd::prelude::*;

verus! {

/// Parallel iterator over the items of a grouped query: every dense index of
/// a range is fetched on its own.
pub struct DenseParIter<'q, 'a, G: Query<'a>> {
    start: usize,
    end: usize,
    entities: &'a [Entity],
    get: &'q G,
}

impl<'q, 'a, G: Query<'a>> DenseParIter<'q, 'a, G> {
    #[verifier::type_invariant]
    spec fn type_inv(self) -> bool {
        &&& self.start <= self.end
        &&& self.end <= self.entities@.len()
        &&& self.get.inv()
        &&& self.get.spec_dense_len() matches Some(n) ==> self.end <= n
    }

    /// The entities at the dense indexes of the range that match every
    /// fetched part, and their items.
    pub closed spec fn spec_pairs(&self) -> Seq<(Entity, G::Item)> {
        spec_dense_pairs(self.get, self.entities@, self.start as int, self.end as int)
    }

    /// The packed entities whose positions are iterated.
    pub closed spec fn spec_entities(&self) -> Seq<Entity> {
        self.entities@
    }

    /// The fetched parts.
    pub closed spec fn spec_get(&self) -> G {
        *self.get
    }

    /// The number of dense indexes in the range.
    pub closed spec fn spec_len(&self) -> nat {
        (self.end - self.start) as nat
    }

    /// Creates a parallel iterator over the dense indexes `start..end`, held
    /// by the entities of `entities` at those positions.
    pub fn new(start: usize, end: usize, entities: &'a [Entity], get: &'q G) -> (it: Self)
        requires
            start <= end <= entities@.len(),
            get.inv(),
            get.spec_dense_len() matches Some(n) ==> end <= n,
        ensures
            it.spec_pairs() == spec_dense_pairs(get, entities@, start as int, end as int),
            it.spec_len() == end - start,
    {
        DenseParIter { start, end, entities, get }
    }

    /// Returns the entity at dense index `index` and its items, if it
    /// matches every fetched part.
    fn get(&self, index: usize) -> (r: Option<(Entity, G::Item)>)
        requires
            self.start <= index < self.end,
        ensures
            ({
                let e = self.spec_entities()[index as int];
                if self.spec_get().spec_contains_all(e) {
                    r == Some((e, self.spec_get().spec_get_dense(index as int, e)))
                } else {
                    r is None
                }
            }),
    {
        proof {
            use_type_invariant(self);
        }
        let entity = self.entities[index];
        if self.get.contains_all(entity) {
            Some((entity, self.get.get_dense(index, entity)))
        } else {
            None
        }
    }

    /// Returns the number of dense indexes in the range.
    pub fn len(&self) -> (n: usize)
        ensures
            n == self.spec_len(),
            self.spec_pairs().len() <= n,
    {
        proof {
            use_type_invariant(self);
            lemma_dense_pairs_len(self.get, self.entities@, self.start as int, self.end as int);
        }
        self.end - self.start
    }

    /// Fetches the dense indexes in parallel and returns the entities and
    /// their items, in the order of the range.
    pub fn collect_pairs(&self) -> (r: Vec<(Entity, G::Item)>)
        where
            G: Sync,
            G::Item: Send,
        ensures
            r@ == self.spec_pairs(),
    {
        proof {
            use_type_invariant(self);
        }
        let mut fetched = par_dense_pairs(self);
        let mut out: Vec<(Entity, G::Item)> = Vec::new();
        let n = self.end - self.start;
        let mut j: usize = 0;
        while j < n
            invariant
                n == self.end - self.start,
                self.start <= self.end,
                fetched@.len() == n,
                forall|i: int| j <= i < n ==> fetched@[i] == #[trigger] self.spec_fetch(i),
                0 <= j <= n,
                out@ == spec_dense_pairs(self.get, self.entities@, self.start as int, self.start + j),
            decreases n - j,
        {
            let ghost k = self.start + j;
            let ghost before = out@;
            let ghost expected = self.spec_fetch(j as int);
            assert(fetched@[j as int] == expected);
            let mut one: Option<(Entity, G::Item)> = None;
            core::mem::swap(&mut one, &mut fetched[j]);
            assert(one == expected);
            match one {
                Some(p) => {
                    out.push(p);
                },
                None => {},
            }
            proof {
                lemma_dense_pairs_extend(self.get, self.entities@, self.start as int, k);
                assert(out@ =~= before + spec_dense_probe(self.get, self.entities@, k));
            }
            j = j + 1;
        }
        out
    }

    /// What fetching the dense index at offset `j` of the range gives: the
    /// entity there and its items, if it matches every fetched part.
    pub closed spec fn spec_fetch(&self, j: int) -> Option<(Entity, G::Item)> {
        let k = self.start + j;
        let e = self.entities@[k];
        if self.get.spec_contains_all(e) {
            Some((e, self.get.spec_get_dense(k, e)))
        } else {
            None
        }
    }
}

/// Calls rayon's `into_par_iter`, `map` and `collect` on the range of dense
/// indexes, fetching each with `DenseParIter::get`. Rayon's range iterator
/// is indexed and `map` keeps it so; collecting an indexed iterator into a
/// vector puts the result for each index at that index's offset in the range.
#[verifier::external_body]
fn par_dense_pairs<'q, 'a, G: Query<'a> + Sync>(it: &DenseParIter<'q, 'a, G>) -> (r: Vec<
    Option<(Entity, G::Item)>,
>)
    where
        G::Item: Send,
    ensures
        r@.len() == it.spec_len(),
        forall|j: int| 0 <= j < r@.len() ==> r@[j] == #[trigger] it.spec_fetch(j),
{
    (it.start..it.end).into_par_iter().map(|i| it.get(i)).collect()
}

} // verus!
