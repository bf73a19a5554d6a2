//! Parallel iteration over the items of an ungrouped query.
use crate::entity::Entity;
use crate::query::iter::{lemma_sparse_pairs_append, spec_item, spec_sparse_pairs};
use crate::query::query::Query;
use rayon::iter::{IntoParallelRefIterator, ParallelIterator};
use vstd::prelude::*;

verus! {

/// Parallel iterator over the items of an ungrouped query: every entity of a
/// list of packed entities is probed on its own.
pub struct SparseParIter<'q, 'a, G: Query<'a>, I: Query<'a>, E: Query<'a>> {
    entities: &'a [Entity],
    exclude: &'q E,
    incl: &'q I,
    get: &'q G,
}

impl<'q, 'a, G: Query<'a>, I: Query<'a>, E: Query<'a>> SparseParIter<'q, 'a, G, I, E> {
    #[verifier::type_invariant]
    spec fn type_inv(self) -> bool {
        self.get.inv() && self.incl.inv() && self.exclude.inv()
    }

    /// The matching entities and their items, in the order of the list.
    pub closed spec fn spec_pairs(&self) -> Seq<(Entity, G::Item)> {
        spec_sparse_pairs(self.get, self.incl, self.exclude, self.entities@)
    }

    /// Creates a parallel iterator over the entities of `entities` that
    /// match the query made of `get`, `incl` and `exclude`.
    pub fn new(entities: &'a [Entity], exclude: &'q E, incl: &'q I, get: &'q G) -> (it: Self)
        requires
            get.inv(),
            incl.inv(),
            exclude.inv(),
        ensures
            it.spec_pairs() == spec_sparse_pairs(get, incl, exclude, entities@),
    {
        SparseParIter { entities, exclude, incl, get }
    }

    /// Returns `entity` and its items, if it matches the query.
    fn get(&self, entity: Entity) -> (r: Option<(Entity, G::Item)>)
        ensures
            match spec_item(self.get, self.incl, self.exclude, entity) {
                Some(x) => r == Some((entity, x)),
                None => r is None,
            },
    {
        proof {
            use_type_invariant(self);
        }
        if !self.exclude.contains_none(entity) {
            return None;
        }
        if !self.incl.contains_all(entity) {
            return None;
        }
        match self.get.get(entity) {
            Some(x) => Some((entity, x)),
            None => None,
        }
    }

    /// The result of probing the entity at position `k` of the list: the
    /// entity and its items, if it matches the query.
    pub closed spec fn spec_probe(&self, k: int) -> Option<(Entity, G::Item)> {
        let e = self.entities@[k];
        match spec_item(self.get, self.incl, self.exclude, e) {
            Some(x) => Some((e, x)),
            None => None,
        }
    }

    /// Probes the entities in parallel and returns the matching ones with
    /// their items, in the order of the list.
    pub fn collect_pairs(&self) -> (r: Vec<(Entity, G::Item)>)
        where
            G: Sync,
            I: Sync,
            E: Sync,
            G::Item: Send,
        ensures
            r@ == self.spec_pairs(),
    {
        let mut probes = par_sparse_pairs(self);
        let mut out: Vec<(Entity, G::Item)> = Vec::new();
        let mut k: usize = 0;
        let n = self.entities.len();
        while k < n
            invariant
                n == self.entities@.len(),
                probes@.len() == n,
                forall|i: int| k <= i < n ==> probes@[i] == #[trigger] self.spec_probe(i),
                0 <= k <= n,
                out@ == spec_sparse_pairs(self.get, self.incl, self.exclude, self.entities@.take(k as int)),
            decreases n - k,
        {
            let ghost s = self.entities@;
            proof {
                let e = s[k as int];
                lemma_sparse_pairs_append(self.get, self.incl, self.exclude, s.take(k as int), seq![e]);
                assert(s.take(k + 1) =~= s.take(k as int) + seq![e]);
                assert(seq![e].skip(1) =~= Seq::<Entity>::empty());
                assert(seq![e][0] == e);
                assert(spec_sparse_pairs(self.get, self.incl, self.exclude, seq![e].skip(1))
                    =~= Seq::<(Entity, G::Item)>::empty());
            }
            let ghost before = out@;
            let ghost expected = self.spec_probe(k as int);
            assert(probes@[k as int] == expected);
            let mut probe: Option<(Entity, G::Item)> = None;
            core::mem::swap(&mut probe, &mut probes[k]);
            assert(probe == expected);
            match probe {
                Some(p) => {
                    out.push(p);
                },
                None => {},
            }
            proof {
                let e = s[k as int];
                match spec_item(self.get, self.incl, self.exclude, e) {
                    Some(x) => {
                        assert(spec_sparse_pairs(self.get, self.incl, self.exclude, seq![e])
                            =~= seq![(e, x)]);
                        assert(out@ =~= before + seq![(e, x)]);
                    },
                    None => {
                        assert(spec_sparse_pairs(self.get, self.incl, self.exclude, seq![e])
                            =~= Seq::<(Entity, G::Item)>::empty());
                        assert(out@ =~= before + Seq::<(Entity, G::Item)>::empty());
                    },
                }
            }
            k = k + 1;
        }
        proof {
            assert(self.entities@.take(n as int) =~= self.entities@);
        }
        out
    }
}

/// Calls rayon's `par_iter`, `map` and `collect` on the entities, probing
/// each with `SparseParIter::get`. The slice's parallel iterator is indexed
/// and `map` keeps it so; collecting an indexed iterator into a vector puts
/// the result for each entity at that entity's position.
#[verifier::external_body]
fn par_sparse_pairs<'q, 'a, G: Query<'a> + Sync, I: Query<'a> + Sync, E: Query<'a> + Sync>(
    it: &SparseParIter<'q, 'a, G, I, E>,
) -> (r: Vec<Option<(Entity, G::Item)>>)
    where
        G::Item: Send,
    ensures
        r@.len() == it.entities@.len(),
        forall|k: int| 0 <= k < r@.len() ==> r@[k] == #[trigger] it.spec_probe(k),
{
    it.entities.par_iter().map(|e| it.get(*e)).collect()
}

} // verus!
