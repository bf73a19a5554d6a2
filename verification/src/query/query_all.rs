//! Queries that iterate all the entities that match.
use crate::entity::Entity;
use crate::group::{group_range_impl, spec_group_range_impl, QueryGroupInfo};
use crate::query::iter::{
    lemma_sparse_pairs, lemma_sparse_pairs_all, lemma_sparse_pairs_append,
    lemma_sparse_pairs_none, lemma_dense_pairs_all, lemma_dense_pairs_distinct, spec_dense_pairs, spec_item, spec_matches, spec_pair_entities,
    spec_sparse_pairs, lemma_filter_pairs_all, DenseIter, Iter, SparseIter,
};
use crate::query::par_iter::dense_par_iter::DenseParIter;
use crate::query::par_iter::sparse_par_iter::SparseParIter;
use crate::query::par_iter::ParIter;
use crate::query::query::{first_some, Query};
use crate::query::query_filter::Passthrough;
use crate::query::query_one::QueryOne;
use crate::query::query_slice::UngroupedComponentStorages;
use crate::view::CompMut;
use core::marker::PhantomData;
use core::ops::Range;
use vstd::prelude::*;

verus! {

/// The list of packed entities walked by sparse iteration: the shorter of the
/// fetched and the included lists, preferring the fetched one on a tie.
pub open spec fn spec_sparse_base(g: Option<Seq<Entity>>, i: Option<Seq<Entity>>) -> Seq<Entity> {
    match (g, i) {
        (Some(g), Some(i)) => if g.len() <= i.len() {
            g
        } else {
            i
        },
        (Some(g), None) => g,
        (None, Some(i)) => i,
        (None, None) => Seq::empty(),
    }
}

/// The dense range of a query, when its grouping information yields one that
/// lies within its packed entities and within what every fetched part
/// accepts.
pub open spec fn spec_query_group_range<'a, G: Query<'a>, I: Query<'a>, E: Query<'a>>(
    get: &G,
    incl: &I,
    exclude: &E,
) -> Option<Range<usize>> {
    match (get.spec_group_info(), incl.spec_group_info(), exclude.spec_group_info()) {
        (Some(g), Some(i), Some(e)) => if g is Empty && i is Empty {
            None
        } else {
            match spec_group_range_impl(g, i, e) {
                Some(r) => match first_some(get.spec_dense_entities(), incl.spec_entities()) {
                    Some(s) => if r.start <= r.end && r.end <= s.len() && (get.spec_dense_len() matches Some(
                        n,
                    ) ==> r.end <= n) {
                        Some(r)
                    } else {
                        None
                    },
                    None => None,
                },
                None => None,
            }
        },
        _ => None,
    }
}

/// Query over all entities: iterates the components of `G` of the entities
/// that have all the components of `I` and none of those of `E`.
pub struct QueryAll<'a, G: Query<'a>, I: Query<'a>, E: Query<'a>> {
    get: G,
    incl: I,
    exclude: E,
    _lifetime: PhantomData<&'a ()>,
}

impl<'a, G: Query<'a>, I: Query<'a>, E: Query<'a>> QueryAll<'a, G, I, E> {
    #[verifier::type_invariant]
    spec fn type_inv(self) -> bool {
        self.get.inv() && self.incl.inv() && self.exclude.inv()
    }

    /// The views whose components are fetched.
    pub closed spec fn spec_get_views(&self) -> G {
        self.get
    }

    /// The views whose components an entity must have.
    pub closed spec fn spec_incl_views(&self) -> I {
        self.incl
    }

    /// The views whose components an entity must not have.
    pub closed spec fn spec_exclude_views(&self) -> E {
        self.exclude
    }

    /// The views are well formed.
    pub open spec fn wf(&self) -> bool {
        self.spec_get_views().inv() && self.spec_incl_views().inv()
            && self.spec_exclude_views().inv()
    }

    /// Whether `entity` matches the query.
    pub open spec fn spec_contains(&self, entity: Entity) -> bool {
        spec_matches(&self.spec_get_views(), &self.spec_incl_views(), &self.spec_exclude_views(), entity)
    }

    /// The items of `entity`, if it matches the query.
    pub open spec fn spec_get(&self, entity: Entity) -> Option<G::Item> {
        spec_item(&self.spec_get_views(), &self.spec_incl_views(), &self.spec_exclude_views(), entity)
    }

    /// The dense range over which the query is iterated, if it is grouped.
    pub open spec fn spec_group_range(&self) -> Option<Range<usize>> {
        spec_query_group_range(&self.spec_get_views(), &self.spec_incl_views(), &self.spec_exclude_views())
    }

    /// Whether the storages are laid out as the grouping information of the
    /// query says: the query has a dense range `r`; the fetched and included
    /// storages all start with the first `r.end` entities of the dense list;
    /// those are exactly the entities that have all the fetched and included
    /// components; and among them, the ones that have an excluded component
    /// are exactly the first `r.start`.
    pub open spec fn spec_grouped(&self) -> bool {
        &&& self.spec_group_range() is Some
        &&& {
            let r = self.spec_group_range()->0;
            let s = self.spec_dense_base();
            &&& self.spec_get_views().spec_prefix(s, r.end as nat)
            &&& self.spec_incl_views().spec_prefix(s, r.end as nat)
            &&& forall|e: Entity|
                #![trigger s.take(r.end as int).contains(e)]
                self.spec_get_views().spec_contains_all(e) && self.spec_incl_views().spec_contains_all(e)
                    <==> s.take(r.end as int).contains(e)
            &&& forall|e: Entity|
                #![trigger s.take(r.start as int).contains(e)]
                s.take(r.end as int).contains(e) ==> (s.take(r.start as int).contains(e)
                    <==> !self.spec_exclude_views().spec_contains_none(e))
        }
    }

    /// The packed entities walked by dense iteration.
    pub open spec fn spec_dense_base(&self) -> Seq<Entity> {
        first_some(self.spec_get_views().spec_dense_entities(), self.spec_incl_views().spec_entities())->0
    }

    /// The packed entities walked by sparse iteration.
    pub open spec fn spec_sparse_base(&self) -> Seq<Entity> {
        spec_sparse_base(self.spec_get_views().spec_entities(), self.spec_incl_views().spec_entities())
    }

    /// The entities yielded by sparse iteration, with their items.
    pub open spec fn spec_sparse_pairs(&self) -> Seq<(Entity, G::Item)> {
        spec_sparse_pairs(
            &self.spec_get_views(),
            &self.spec_incl_views(),
            &self.spec_exclude_views(),
            self.spec_sparse_base(),
        )
    }

    /// The entities yielded by iteration, with their items: a dense range
    /// when the query is grouped, a sparse walk otherwise.
    pub open spec fn spec_pairs(&self) -> Seq<(Entity, G::Item)> {
        match self.spec_group_range() {
            Some(r) => spec_dense_pairs(
                &self.spec_get_views(),
                self.spec_dense_base(),
                r.start as int,
                r.end as int,
            ),
            None => self.spec_sparse_pairs(),
        }
    }

    /// Whether iteration is known to visit exactly the matching entities:
    /// the storages are laid out as the grouping information says, or the
    /// query is ungrouped and its fetched or included views hold packed
    /// entities to walk.
    pub open spec fn spec_iterates_matches(&self) -> bool {
        ||| self.spec_grouped()
        ||| (self.spec_group_range() is None && (self.spec_get_views().spec_entities() is Some
            || self.spec_incl_views().spec_entities() is Some))
    }

    /// Returns the dense range over which the query is iterated, if it is
    /// grouped.
    fn get_group_range(&self) -> (r: Option<Range<usize>>)
        ensures
            r == self.spec_group_range(),
    {
        proof {
            use_type_invariant(self);
        }
        let g = match self.get.group_info() {
            Some(g) => g,
            None => return None,
        };
        let i = match self.incl.group_info() {
            Some(i) => i,
            None => return None,
        };
        let e = match self.exclude.group_info() {
            Some(e) => e,
            None => return None,
        };
        if matches!(g, QueryGroupInfo::Empty) && matches!(i, QueryGroupInfo::Empty) {
            return None;
        }
        let r = match group_range_impl(g, i, e) {
            Some(r) => r,
            None => return None,
        };
        let s = match self.get.split_dense() {
            Some(s) => s,
            None => match self.incl.split_sparse() {
                Some(s) => s,
                None => return None,
            },
        };
        let fits = match self.get.dense_len() {
            Some(n) => r.end <= n,
            None => true,
        };
        if r.start <= r.end && r.end <= s.len() && fits {
            Some(r)
        } else {
            None
        }
    }

    fn dense_base(&self) -> (s: &'a [Entity])
        requires
            self.spec_group_range() is Some,
        ensures
            s@ == self.spec_dense_base(),
    {
        proof {
            use_type_invariant(self);
        }
        match self.get.split_dense() {
            Some(s) => s,
            None => self.incl.split_sparse().unwrap(),
        }
    }

    /// Returns the dense data of the fetched views for all the matching
    /// entities, if the query is grouped.
    pub fn slice(&self) -> (r: Option<G::Slice>)
        ensures
            match self.spec_group_range() {
                Some(rg) => r matches Some(sl) && self.spec_get_views().spec_slice_matches(
                    sl,
                    self.spec_dense_base(),
                    rg.start as int,
                    rg.end as int,
                ),
                None => r is None,
            },
    {
        proof {
            use_type_invariant(self);
        }
        match self.get_group_range() {
            Some(rg) => {
                let s = self.dense_base();
                Some(self.get.slice(s, rg.start, rg.end))
            },
            None => None,
        }
    }

    /// Returns all the matching entities, if the query is grouped.
    pub fn entities(&self) -> (r: Result<&'a [Entity], UngroupedComponentStorages>)
        ensures
            match self.spec_group_range() {
                Some(rg) => r matches Ok(s) && s@ == self.spec_dense_base().subrange(
                    rg.start as int,
                    rg.end as int,
                ),
                None => r is Err,
            },
    {
        match self.get_group_range() {
            Some(rg) => {
                let s = self.dense_base();
                Ok(&s[rg.start..rg.end])
            },
            None => Err(UngroupedComponentStorages),
        }
    }

    /// Returns the dense data of the fetched views for all the matching
    /// entities, if the query is grouped.
    pub fn components(&self) -> (r: Result<G::Slice, UngroupedComponentStorages>)
        ensures
            match self.spec_group_range() {
                Some(rg) => r matches Ok(sl) && self.spec_get_views().spec_slice_matches(
                    sl,
                    self.spec_dense_base(),
                    rg.start as int,
                    rg.end as int,
                ),
                None => r is Err,
            },
    {
        match self.slice() {
            Some(sl) => Ok(sl),
            None => Err(UngroupedComponentStorages),
        }
    }

    /// Returns all the matching entities and the dense data of the fetched
    /// views for them, if the query is grouped.
    pub fn entities_components(&self) -> (r: Result<
        (&'a [Entity], G::Slice),
        UngroupedComponentStorages,
    >)
        ensures
            match self.spec_group_range() {
                Some(rg) => r matches Ok((s, sl)) && s@ == self.spec_dense_base().subrange(
                    rg.start as int,
                    rg.end as int,
                ) && self.spec_get_views().spec_slice_matches(
                    sl,
                    self.spec_dense_base(),
                    rg.start as int,
                    rg.end as int,
                ),
                None => r is Err,
            },
    {
        proof {
            use_type_invariant(self);
        }
        match self.get_group_range() {
            Some(rg) => {
                let s = self.dense_base();
                Ok((&s[rg.start..rg.end], self.get.slice(s, rg.start, rg.end)))
            },
            None => Err(UngroupedComponentStorages),
        }
    }

    /// Returns an iterator over the items of the matching entities.
    pub fn iter(&self) -> (it: Iter<'_, 'a, G, I, E, Passthrough>)
        ensures
            it.spec_remaining() == self.spec_pairs(),
            it is Dense <==> self.spec_group_range() is Some,
            match it {
                Iter::Sparse(s) => s.spec_entities() == self.spec_sparse_base() && s.spec_position()
                    == 0,
                Iter::Dense(d) => d.spec_entities() == self.spec_dense_base() && d.spec_position()
                    == self.spec_group_range()->0.start && d.spec_end() == self.spec_group_range()->0.end,
            },
    {
        proof {
            use_type_invariant(self);
        }
        match self.get_group_range() {
            Some(r) => {
                let entities = match self.get.split_dense() {
                    Some(s) => s,
                    None => self.incl.split_sparse().unwrap(),
                };
                let it = DenseIter::new(r.start, r.end, entities, &self.get, Passthrough);
                proof {
                    lemma_filter_pairs_all(
                        &Passthrough,
                        spec_dense_pairs(&self.get, entities@, r.start as int, r.end as int),
                    );
                }
                Iter::Dense(it)
            },
            None => {
                let entities: &'a [Entity] = match (self.get.split_sparse(), self.incl.split_sparse()) {
                    (Some(g), Some(i)) => if g.len() <= i.len() {
                        g
                    } else {
                        i
                    },
                    (Some(g), None) => g,
                    (None, Some(i)) => i,
                    (None, None) => &[],
                };
                proof {
                    assert(entities@ == self.spec_sparse_base());
                }
                let it = SparseIter::new(entities, &self.get, &self.incl, &self.exclude, Passthrough);
                proof {
                    lemma_filter_pairs_all(&Passthrough, self.spec_sparse_pairs());
                }
                Iter::Sparse(it)
            },
        }
    }

    /// Returns a parallel iterator over the items of the matching entities.
    pub fn par_iter(&self) -> (it: ParIter<'_, 'a, G, I, E>)
        ensures
            it.spec_pairs() == self.spec_pairs(),
            it is Dense <==> self.spec_group_range() is Some,
            match self.spec_group_range() {
                Some(r) => it matches ParIter::Dense(d) && d.spec_len() == r.end - r.start,
                None => true,
            },
    {
        proof {
            use_type_invariant(self);
        }
        match self.get_group_range() {
            Some(r) => {
                let entities = self.dense_base();
                ParIter::Dense(DenseParIter::new(r.start, r.end, entities, &self.get))
            },
            None => {
                let entities: &'a [Entity] = match (self.get.split_sparse(), self.incl.split_sparse()) {
                    (Some(g), Some(i)) => if g.len() <= i.len() {
                        g
                    } else {
                        i
                    },
                    (Some(g), None) => g,
                    (None, Some(i)) => i,
                    (None, None) => &[],
                };
                ParIter::Sparse(SparseParIter::new(entities, &self.exclude, &self.incl, &self.get))
            },
        }
    }

    /// Returns a mutable reference to `entity`'s component in `target`,
    /// along with the items the query fetches for it, if the entity matches
    /// the query and has a component in `target`. Whatever is written through
    /// the reference becomes the entity's component; no other component of
    /// `target` changes.
    pub fn get_mut_with<'t, T>(&self, target: &'t mut CompMut<'a, T>, entity: Entity) -> (r: Option<
        (&'t mut T, G::Item),
    >)
        requires
            old(target).spec_storage().wf(),
        ensures
            r is Some <==> self.spec_contains(entity) && old(target).spec_storage().spec_contains(
                entity,
            ),
            final(target).spec_storage().wf(),
            final(target).spec_storage().spec_entities() == old(target).spec_storage().spec_entities(),
            final(target).spec_storage().spec_ticks() == old(target).spec_storage().spec_ticks(),
            final(target).spec_group_info() == old(target).spec_group_info(),
            match r {
                Some((c, x)) => {
                    &&& *c == old(target).spec_storage().spec_map()[entity]
                    &&& self.spec_get(entity) == Some(x)
                    &&& final(target).spec_storage().spec_map() == old(target).spec_storage().spec_map().insert(entity, *final(c))
                },
                None => final(target).spec_storage().spec_map() == old(target).spec_storage().spec_map(),
            },
    {
        proof {
            use_type_invariant(self);
            self.get.lemma_query();
        }
        if !self.exclude.contains_none(entity) || !self.incl.contains_all(entity) {
            return None;
        }
        let item = match self.get.get(entity) {
            Some(x) => x,
            None => return None,
        };
        match target.get_mut(entity) {
            Some(c) => Some((c, item)),
            None => None,
        }
    }

    /// Replaces, in iteration order, the component in `target` of every
    /// entity the query yields by what `f` makes of it and the entity's
    /// items. Entities without a component in `target` are skipped; the other
    /// components of `target` stay as they are.
    pub fn update_with<T, F: Fn(&T, G::Item) -> T>(&self, target: &mut CompMut<'a, T>, f: F)
        requires
            old(target).spec_storage().wf(),
            forall|c: &T, x: G::Item| #[trigger] f.requires((c, x)),
        ensures
            final(target).spec_storage().wf(),
            final(target).spec_storage().spec_entities() == old(target).spec_storage().spec_entities(),
            final(target).spec_storage().spec_ticks() == old(target).spec_storage().spec_ticks(),
            final(target).spec_group_info() == old(target).spec_group_info(),
            final(target).spec_storage().spec_map().dom() == old(target).spec_storage().spec_map().dom(),
            forall|e: Entity|
                old(target).spec_storage().spec_contains(e) && !spec_pair_entities(
                    self.spec_pairs(),
                ).contains(e) ==> #[trigger] final(target).spec_storage().spec_map()[e] == old(target).spec_storage().spec_map()[e],
            forall|k: int|
                0 <= k < self.spec_pairs().len() && old(target).spec_storage().spec_contains(
                    #[trigger] self.spec_pairs()[k].0,
                ) ==> f.ensures(
                    (&old(target).spec_storage().spec_map()[self.spec_pairs()[k].0], self.spec_pairs()[k].1),
                    final(target).spec_storage().spec_map()[self.spec_pairs()[k].0],
                ),
    {
        proof {
            use_type_invariant(self);
            lemma_pairs_distinct(self);
        }
        let mut it = self.iter();
        let ghost pairs = self.spec_pairs();
        let ghost m0 = target.spec_storage().spec_map();
        let ghost s0 = target.spec_storage();
        let ghost g0 = target.spec_group_info();
        let ghost mut j: int = 0;
        loop
            invariant
                0 <= j <= pairs.len(),
                pairs == self.spec_pairs(),
                spec_pair_entities(pairs).no_duplicates(),
                it.spec_remaining() == pairs.skip(j),
                forall|c: &T, x: G::Item| #[trigger] f.requires((c, x)),
                target.spec_storage().wf(),
                target.spec_storage().spec_entities() == s0.spec_entities(),
                target.spec_storage().spec_ticks() == s0.spec_ticks(),
                target.spec_group_info() == g0,
                target.spec_storage().spec_map().dom() == m0.dom(),
                m0 == s0.spec_map(),
                forall|e: Entity|
                    m0.dom().contains(e) && !spec_pair_entities(pairs.take(j)).contains(e)
                        ==> #[trigger] target.spec_storage().spec_map()[e] == m0[e],
                forall|k: int|
                    0 <= k < j && m0.dom().contains(#[trigger] pairs[k].0) ==> f.ensures(
                        (&m0[pairs[k].0], pairs[k].1),
                        target.spec_storage().spec_map()[pairs[k].0],
                    ),
            ensures
                j == pairs.len(),
            decreases pairs.len() - j,
        {
            let ghost rem = it.spec_remaining();
            match it.next_with_entity() {
                Some((e, item)) => {
                    proof {
                        assert(rem == seq![(e, item)] + it.spec_remaining());
                        assert(pairs.skip(j).len() > 0);
                        assert(pairs.skip(j)[0] == pairs[j]);
                        assert(pairs[j] == (e, item));
                        assert(pairs.skip(j + 1) =~= pairs.skip(j).skip(1));
                        assert(spec_pair_entities(pairs.take(j + 1)) =~= spec_pair_entities(
                            pairs.take(j),
                        ).push(e));
                        assert(!spec_pair_entities(pairs.take(j)).contains(e)) by {
                            if spec_pair_entities(pairs.take(j)).contains(e) {
                                let i = choose|i: int|
                                    0 <= i < j && spec_pair_entities(pairs.take(j))[i] == e;
                                assert(spec_pair_entities(pairs)[i] == spec_pair_entities(
                                    pairs,
                                )[j]);
                            }
                        }
                    }
                    let ghost before = target.spec_storage().spec_map();
                    match target.get_mut(e) {
                        Some(c) => {
                            let v = f(&*c, item);
                            *c = v;
                        },
                        None => {},
                    }
                    proof {
                        assert forall|k: int|
                            0 <= k < j + 1 && m0.dom().contains(#[trigger] pairs[k].0) implies f.ensures(
                            (&m0[pairs[k].0], pairs[k].1),
                            target.spec_storage().spec_map()[pairs[k].0],
                        ) by {
                            if k < j {
                                assert(spec_pair_entities(pairs)[k] != spec_pair_entities(
                                    pairs,
                                )[j]);
                            }
                        }
                        assert forall|x: Entity|
                            m0.dom().contains(x) && !spec_pair_entities(pairs.take(j + 1)).contains(
                                x,
                            ) implies #[trigger] target.spec_storage().spec_map()[x] == m0[x] by {
                            assert(spec_pair_entities(pairs.take(j + 1)).last() == e);
                            if x == e {
                                assert(spec_pair_entities(pairs.take(j + 1)).contains(e));
                            } else {
                                if spec_pair_entities(pairs.take(j)).contains(x) {
                                    let i = choose|i: int|
                                        0 <= i < j && spec_pair_entities(pairs.take(j))[i] == x;
                                    assert(spec_pair_entities(pairs.take(j + 1))[i] == x);
                                }
                                assert(target.spec_storage().spec_map()[x] == before[x]);
                            }
                        }
                        j = j + 1;
                    }
                },
                None => {
                    proof {
                        assert(pairs.skip(j).len() == 0);
                    }
                    break;
                },
            }
        }
        proof {
            assert(pairs.take(j) =~= pairs);
        }
    }

    /// Calls `f` on the items of every matching entity, in iteration order.
    pub fn for_each<F: FnMut(G::Item)>(&self, f: F)
        requires
            forall|item: G::Item| f.requires((item,)),
        ensures
            forall|k: int|
                0 <= k < self.spec_pairs().len() ==> f.ensures((#[trigger] self.spec_pairs()[k].1,), ()),
    {
        let ghost f0 = f;
        let mut f = f;
        let mut it = self.iter();
        let ghost pairs = self.spec_pairs();
        let ghost mut j: int = 0;
        loop
            invariant
                f == f0,
                forall|item: G::Item| f.requires((item,)),
                pairs == self.spec_pairs(),
                0 <= j <= pairs.len(),
                it.spec_remaining() == pairs.skip(j),
                forall|k: int| 0 <= k < j ==> f0.ensures((#[trigger] pairs[k].1,), ()),
            ensures
                j == pairs.len(),
            decreases pairs.len() - j,
        {
            let ghost rem = it.spec_remaining();
            match it.next() {
                Some(item) => {
                    proof {
                        assert(pairs.skip(j).len() > 0);
                        assert(pairs.skip(j)[0] == pairs[j]);
                        assert(pairs.skip(j + 1) =~= pairs.skip(j).skip(1));
                    }
                    f(item);
                    proof {
                        j = j + 1;
                    }
                },
                None => {
                    proof {
                        assert(pairs.skip(j).len() == 0);
                    }
                    break;
                },
            }
        }
    }
}

/// Sparse iteration yields every entity that matches the query exactly once,
/// along with its items, and no other entity, provided the fetched or the
/// included views hold packed entities to walk.
pub proof fn lemma_sparse_iteration<'a, G: Query<'a>, I: Query<'a>, E: Query<'a>>(
    q: &QueryAll<'a, G, I, E>,
)
    requires
        q.wf(),
        q.spec_get_views().spec_entities() is Some || q.spec_incl_views().spec_entities() is Some,
    ensures
        forall|e: Entity|
            #[trigger] spec_pair_entities(q.spec_sparse_pairs()).contains(e) <==> q.spec_contains(e),
        spec_pair_entities(q.spec_sparse_pairs()).no_duplicates(),
        forall|k: int|
            0 <= k < q.spec_sparse_pairs().len() ==> q.spec_get(#[trigger] q.spec_sparse_pairs()[k].0)
                == Some(q.spec_sparse_pairs()[k].1),
{
    let g = q.spec_get_views();
    let i = q.spec_incl_views();
    let x = q.spec_exclude_views();
    g.lemma_query();
    i.lemma_query();
    x.lemma_query();
    lemma_sparse_pairs(&g, &i, &x, q.spec_sparse_base());
    assert forall|e: Entity| q.spec_contains(e) implies q.spec_sparse_base().contains(e) by {
    }
}

/// Dense iteration yields what sparse iteration yields, in the same order,
/// when the storages are laid out as the grouping information says.
pub proof fn lemma_dense_iteration<'a, G: Query<'a>, I: Query<'a>, E: Query<'a>>(
    q: &QueryAll<'a, G, I, E>,
)
    requires
        q.wf(),
        q.spec_grouped(),
    ensures
        q.spec_pairs() == q.spec_sparse_pairs(),
{
    let g = q.spec_get_views();
    let i = q.spec_incl_views();
    let x = q.spec_exclude_views();
    let r = q.spec_group_range()->0;
    let s = q.spec_dense_base();
    let n = r.end as int;
    let m = r.start as int;
    g.lemma_query();
    i.lemma_query();
    x.lemma_query();
    g.lemma_prefix(s, n as nat);
    i.lemma_prefix(s, n as nat);
    let b = q.spec_sparse_base();
    assert(n <= b.len() && b.take(n) == s.take(n));
    assert(b.no_duplicates());
    assert(s.no_duplicates());
    // past the group, nothing matches
    assert(b =~= b.take(n) + b.skip(n));
    lemma_sparse_pairs_append(&g, &i, &x, b.take(n), b.skip(n));
    assert forall|k: int| 0 <= k < b.skip(n).len() implies spec_item(
        &g,
        &i,
        &x,
        #[trigger] b.skip(n)[k],
    ) is None by {
        let e = b.skip(n)[k];
        assert(e == b[n + k]);
        if spec_item(&g, &i, &x, e) is Some {
            assert(g.spec_contains_all(e) && i.spec_contains_all(e));
            assert(s.take(n).contains(e));
            let j = choose|j: int| 0 <= j < n && s.take(n)[j] == e;
            assert(b.take(n)[j] == e);
            assert(b[j] == b[n + k]);
        }
    }
    lemma_sparse_pairs_none(&g, &i, &x, b.skip(n));
    // in front of the range, entities have an excluded component
    let front = s.take(m);
    let mid = s.subrange(m, n);
    assert(s.take(n) =~= front + mid);
    lemma_sparse_pairs_append(&g, &i, &x, front, mid);
    assert forall|k: int| 0 <= k < front.len() implies spec_item(&g, &i, &x, #[trigger] front[k])
        is None by {
        let e = front[k];
        assert(s.take(m).contains(e));
        assert(s.take(n)[k] == e);
        assert(s.take(n).contains(e));
    }
    lemma_sparse_pairs_none(&g, &i, &x, front);
    // within the range, every entity matches and is held at its position
    assert forall|k: int| 0 <= k < mid.len() implies spec_item(&g, &i, &x, #[trigger] mid[k])
        == Some(g.spec_get_dense(m + k, mid[k])) by {
        let e = mid[k];
        assert(e == s[m + k]);
        assert(s.take(n)[m + k] == e);
        assert(s.take(n).contains(e));
        if s.take(m).contains(e) {
            let j = choose|j: int| 0 <= j < m && s.take(m)[j] == e;
            assert(s[j] == s[m + k]);
        }
    }
    lemma_sparse_pairs_all(&g, &i, &x, mid, m);
    assert forall|k: int| m <= k < n implies g.spec_contains_all(#[trigger] s[k]) by {
        assert(s.take(n)[k] == s[k]);
        assert(s.take(n).contains(s[k]));
    }
    lemma_dense_pairs_all(&g, s, m, n);
    assert(q.spec_sparse_pairs() =~= spec_dense_pairs(&g, s, m, n));
}

/// Slices of a grouped query line up with its entities: the dense data at
/// each position of the range is the items of the entity sliced at that
/// position, when the storages are laid out as the grouping information
/// says.
pub proof fn lemma_slice_aligned<'a, G: Query<'a>, I: Query<'a>, E: Query<'a>>(
    q: &QueryAll<'a, G, I, E>,
)
    requires
        q.wf(),
        q.spec_grouped(),
    ensures
        ({
            let r = q.spec_group_range()->0;
            let s = q.spec_dense_base();
            forall|k: int|
                r.start <= k < r.end ==> q.spec_get(#[trigger] s[k]) == Some(
                    q.spec_get_views().spec_get_dense(k, s[k]),
                )
        }),
{
    let r = q.spec_group_range()->0;
    let s = q.spec_dense_base();
    let g = q.spec_get_views();
    lemma_dense_iteration(q);
    lemma_iteration(q);
    assert forall|k: int| r.start <= k < r.end implies g.spec_contains_all(#[trigger] s[k]) by {
        assert(s.take(r.end as int)[k] == s[k]);
        assert(s.take(r.end as int).contains(s[k]));
    }
    lemma_dense_pairs_all(&g, s, r.start as int, r.end as int);
    assert forall|k: int| r.start <= k < r.end implies q.spec_get(#[trigger] s[k]) == Some(
        g.spec_get_dense(k, s[k]),
    ) by {
        let j = k - r.start;
        assert(q.spec_pairs()[j] == (s[k], g.spec_get_dense(k, s[k])));
    }
}

/// The entities sliced from a grouped query are exactly the entities that
/// match it, each once, when the storages are laid out as the grouping
/// information says.
pub proof fn lemma_slice_entities<'a, G: Query<'a>, I: Query<'a>, E: Query<'a>>(
    q: &QueryAll<'a, G, I, E>,
)
    requires
        q.wf(),
        q.spec_grouped(),
    ensures
        ({
            let r = q.spec_group_range()->0;
            let sliced = q.spec_dense_base().subrange(r.start as int, r.end as int);
            &&& forall|e: Entity| #[trigger] sliced.contains(e) <==> q.spec_contains(e)
            &&& sliced.no_duplicates()
        }),
{
    let r = q.spec_group_range()->0;
    let sliced = q.spec_dense_base().subrange(r.start as int, r.end as int);
    q.spec_get_views().lemma_query();
    q.spec_incl_views().lemma_query();
    lemma_dense_iteration(q);
    lemma_sparse_iteration(q);
    let s = q.spec_dense_base();
    assert forall|k: int| r.start <= k < r.end implies q.spec_get_views().spec_contains_all(
        #[trigger] s[k],
    ) by {
        assert(s.take(r.end as int)[k] == s[k]);
        assert(s.take(r.end as int).contains(s[k]));
    }
    lemma_dense_pairs_all(&q.spec_get_views(), s, r.start as int, r.end as int);
    assert(spec_pair_entities(q.spec_pairs()) =~= sliced);
}

/// Iterating a query over all entities yields exactly the entities that a
/// query over single entities, made of the same views, contains, each once,
/// with the items it gets for them: for ungrouped queries whose fetched or
/// included views hold packed entities, and for grouped queries whose
/// storages are laid out as the grouping information says.
pub proof fn lemma_iteration_agrees_with_query_one<'a, G: Query<'a>, I: Query<'a>, E: Query<'a>>(
    all: &QueryAll<'a, G, I, E>,
    one: &QueryOne<'a, G, I, E>,
)
    requires
        all.wf(),
        one.spec_get_views() == all.spec_get_views(),
        one.spec_incl_views() == all.spec_incl_views(),
        one.spec_exclude_views() == all.spec_exclude_views(),
        all.spec_iterates_matches(),
    ensures
        forall|e: Entity|
            #[trigger] spec_pair_entities(all.spec_pairs()).contains(e) <==> one.spec_contains(e),
        spec_pair_entities(all.spec_pairs()).no_duplicates(),
        forall|k: int|
            0 <= k < all.spec_pairs().len() ==> one.spec_get(#[trigger] all.spec_pairs()[k].0)
                == Some(all.spec_pairs()[k].1),
{
    lemma_iteration(all);
}

/// Iteration visits exactly the entities that match the query, once each,
/// with their items, when the storages are laid out as the grouping
/// information says or the query is ungrouped with packed entities to walk.
pub proof fn lemma_iteration<'a, G: Query<'a>, I: Query<'a>, E: Query<'a>>(q: &QueryAll<'a, G, I, E>)
    requires
        q.wf(),
        q.spec_iterates_matches(),
    ensures
        forall|e: Entity| #[trigger] spec_pair_entities(q.spec_pairs()).contains(e) <==> q.spec_contains(e),
        spec_pair_entities(q.spec_pairs()).no_duplicates(),
        forall|k: int|
            0 <= k < q.spec_pairs().len() ==> q.spec_get(#[trigger] q.spec_pairs()[k].0) == Some(
                q.spec_pairs()[k].1,
            ),
{
    if q.spec_grouped() {
        lemma_dense_iteration(q);
        q.spec_get_views().lemma_query();
        q.spec_incl_views().lemma_query();
    }
    lemma_sparse_iteration(q);
}

/// Iteration yields every entity at most once.
pub proof fn lemma_pairs_distinct<'a, G: Query<'a>, I: Query<'a>, E: Query<'a>>(
    q: &QueryAll<'a, G, I, E>,
)
    requires
        q.wf(),
    ensures
        spec_pair_entities(q.spec_pairs()).no_duplicates(),
{
    let g = q.spec_get_views();
    let i = q.spec_incl_views();
    let x = q.spec_exclude_views();
    g.lemma_query();
    i.lemma_query();
    match q.spec_group_range() {
        Some(r) => {
            let s = q.spec_dense_base();
            lemma_dense_pairs_distinct(&g, s, r.start as int, r.end as int);
        },
        None => {
            let b = q.spec_sparse_base();
            assert(b.no_duplicates());
            lemma_sparse_pairs(&g, &i, &x, b);
        },
    }
}

/// Including the views `incl` in a query keeps exactly the iterated entities
/// that have all their components, with the same items.
pub proof fn lemma_including_iteration<'a, G: Query<'a>, I: Query<'a>, E: Query<'a>>(
    q: &QueryAll<'a, G, (), E>,
    r: &QueryAll<'a, G, I, E>,
)
    requires
        q.wf(),
        r.wf(),
        r.spec_get_views() == q.spec_get_views(),
        r.spec_exclude_views() == q.spec_exclude_views(),
        q.spec_iterates_matches(),
        r.spec_iterates_matches(),
    ensures
        forall|e: Entity| #[trigger]
            spec_pair_entities(r.spec_pairs()).contains(e) <==> (spec_pair_entities(
                q.spec_pairs(),
            ).contains(e) && r.spec_incl_views().spec_contains_all(e)),
        forall|k: int|
            0 <= k < r.spec_pairs().len() ==> q.spec_get(#[trigger] r.spec_pairs()[k].0) == Some(
                r.spec_pairs()[k].1,
            ),
{
    lemma_iteration(q);
    lemma_iteration(r);
    assert forall|e: Entity| #[trigger]
        spec_pair_entities(r.spec_pairs()).contains(e) <==> (spec_pair_entities(
            q.spec_pairs(),
        ).contains(e) && r.spec_incl_views().spec_contains_all(e)) by {
        assert(spec_pair_entities(q.spec_pairs()).contains(e) <==> q.spec_contains(e));
    }
}

/// Excluding the views `exclude` from a query keeps exactly the iterated
/// entities that have none of their components, with the same items: when
/// both queries iterate their matches, and when both are ungrouped.
pub proof fn lemma_exclude_iteration<'a, G: Query<'a>, I: Query<'a>, E: Query<'a>>(
    q: &QueryAll<'a, G, I, ()>,
    r: &QueryAll<'a, G, I, E>,
)
    requires
        q.wf(),
        r.wf(),
        r.spec_get_views() == q.spec_get_views(),
        r.spec_incl_views() == q.spec_incl_views(),
        (q.spec_iterates_matches() && r.spec_iterates_matches()) || (q.spec_group_range() is None
            && r.spec_group_range() is None),
    ensures
        forall|e: Entity| #[trigger]
            spec_pair_entities(r.spec_pairs()).contains(e) <==> (spec_pair_entities(
                q.spec_pairs(),
            ).contains(e) && r.spec_exclude_views().spec_contains_none(e)),
        forall|k: int|
            0 <= k < r.spec_pairs().len() ==> q.spec_get(#[trigger] r.spec_pairs()[k].0) == Some(
                r.spec_pairs()[k].1,
            ),
{
    if !(q.spec_iterates_matches() && r.spec_iterates_matches()) {
        // both walk the same packed entities
        let g = q.spec_get_views();
        let i = q.spec_incl_views();
        lemma_sparse_pairs(&g, &i, &(), q.spec_sparse_base());
        lemma_sparse_pairs(&g, &i, &r.spec_exclude_views(), r.spec_sparse_base());
        assert forall|e: Entity| #[trigger]
            spec_pair_entities(r.spec_pairs()).contains(e) <==> (spec_pair_entities(
                q.spec_pairs(),
            ).contains(e) && r.spec_exclude_views().spec_contains_none(e)) by {
        }
    } else {
        lemma_iteration(q);
        lemma_iteration(r);
        assert forall|e: Entity| #[trigger]
            spec_pair_entities(r.spec_pairs()).contains(e) <==> (spec_pair_entities(
                q.spec_pairs(),
            ).contains(e) && r.spec_exclude_views().spec_contains_none(e)) by {
            assert(spec_pair_entities(q.spec_pairs()).contains(e) <==> q.spec_contains(e));
        }
    }
}

/// Two queries made of the same views iterate the same entities with the
/// same items, in the same order, and have the same dense range: adding the
/// empty query as included or excluded views changes nothing.
pub proof fn lemma_same_views<'a, G: Query<'a>, I: Query<'a>, E: Query<'a>>(
    q: &QueryAll<'a, G, I, E>,
    r: &QueryAll<'a, G, I, E>,
)
    requires
        r.spec_get_views() == q.spec_get_views(),
        r.spec_incl_views() == q.spec_incl_views(),
        r.spec_exclude_views() == q.spec_exclude_views(),
    ensures
        r.spec_pairs() == q.spec_pairs(),
        r.spec_group_range() == q.spec_group_range(),
        r.spec_dense_base() == q.spec_dense_base(),
{
}

/// The entities and the dense data that slicing a grouped query gives back
/// are determined by the query: `slice`, `entities`, `components` and
/// `entities_components` agree with each other.
pub proof fn lemma_slices_agree<'a, G: Query<'a>, I: Query<'a>, E: Query<'a>>(
    q: &QueryAll<'a, G, I, E>,
    es1: &'a [Entity],
    es2: &'a [Entity],
    sl1: G::Slice,
    sl2: G::Slice,
)
    requires
        q.wf(),
        q.spec_group_range() is Some,
        es1@ == q.spec_dense_base().subrange(
            q.spec_group_range()->0.start as int,
            q.spec_group_range()->0.end as int,
        ),
        es2@ == es1@,
        q.spec_get_views().spec_slice_matches(
            sl1,
            q.spec_dense_base(),
            q.spec_group_range()->0.start as int,
            q.spec_group_range()->0.end as int,
        ),
        q.spec_get_views().spec_slice_matches(
            sl2,
            q.spec_dense_base(),
            q.spec_group_range()->0.start as int,
            q.spec_group_range()->0.end as int,
        ),
    ensures
        es1 == es2,
        sl1 == sl2,
{
    assert(es1 =~= es2);
    let rg = q.spec_group_range()->0;
    q.spec_get_views().lemma_slice_unique(
        sl1,
        sl2,
        q.spec_dense_base(),
        rg.start as int,
        rg.end as int,
    );
}

impl<'a, G: Query<'a>> QueryAll<'a, G, (), ()> {
    /// Creates a query that iterates the components of `get`.
    pub fn new(get: G) -> (q: Self)
        requires
            get.inv(),
        ensures
            q.wf(),
            q.spec_get_views() == get,
    {
        QueryAll { get, incl: (), exclude: (), _lifetime: PhantomData }
    }
}

impl<'a, G: Query<'a>, E: Query<'a>> QueryAll<'a, G, (), E> {
    /// Restricts the query to entities that have all the components of
    /// `incl`.
    pub fn including<I: Query<'a>>(self, incl: I) -> (q: QueryAll<'a, G, I, E>)
        requires
            incl.inv(),
        ensures
            q.wf(),
            q.spec_get_views() == self.spec_get_views(),
            q.spec_incl_views() == incl,
            q.spec_exclude_views() == self.spec_exclude_views(),
    {
        proof {
            use_type_invariant(&self);
        }
        QueryAll { get: self.get, incl, exclude: self.exclude, _lifetime: PhantomData }
    }
}

impl<'a, G: Query<'a>, I: Query<'a>> QueryAll<'a, G, I, ()> {
    /// Restricts the query to entities that have none of the components of
    /// `exclude`.
    pub fn exclude<E: Query<'a>>(self, exclude: E) -> (q: QueryAll<'a, G, I, E>)
        requires
            exclude.inv(),
        ensures
            q.wf(),
            q.spec_get_views() == self.spec_get_views(),
            q.spec_incl_views() == self.spec_incl_views(),
            q.spec_exclude_views() == exclude,
    {
        proof {
            use_type_invariant(&self);
        }
        QueryAll { get: self.get, incl: self.incl, exclude, _lifetime: PhantomData }
    }
}

} // verus!
