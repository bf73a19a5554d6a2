//! Queries that fetch the components of one entity at a time.
use crate::entity::Entity;
use crate::query::iter::{spec_item, spec_matches};
use crate::query::query::Query;
use core::marker::PhantomData;
use vstd::prelude::*;

verus! {

/// Query over single entities: fetches the components of `G` of entities
/// that have all the components of `I` and none of those of `E`.
pub struct QueryOne<'a, G: Query<'a>, I: Query<'a>, E: Query<'a>> {
    get: G,
    incl: I,
    exclude: E,
    _lifetime: PhantomData<&'a ()>,
}

impl<'a, G: Query<'a>, I: Query<'a>, E: Query<'a>> QueryOne<'a, G, I, E> {
    #[verifier::type_invariant]
    spec fn type_inv(self) -> bool {
        self.get.inv() && self.incl.inv() && self.exclude.inv()
    }

    /// The views whose components are fetched.
    pub closed spec fn spec_get_views(&self) -> G {
        self.get
    }

    /// The views whose components an entity must have.
    pub closed spec fn spec_incl_views(&self) -> I {
        self.incl
    }

    /// The views whose components an entity must not have.
    pub closed spec fn spec_exclude_views(&self) -> E {
        self.exclude
    }

    /// The views are well formed.
    pub open spec fn wf(&self) -> bool {
        self.spec_get_views().inv() && self.spec_incl_views().inv()
            && self.spec_exclude_views().inv()
    }

    /// Whether `entity` matches the query.
    pub open spec fn spec_contains(&self, entity: Entity) -> bool {
        spec_matches(&self.spec_get_views(), &self.spec_incl_views(), &self.spec_exclude_views(), entity)
    }

    /// The items of `entity`, if it matches the query.
    pub open spec fn spec_get(&self, entity: Entity) -> Option<G::Item> {
        spec_item(&self.spec_get_views(), &self.spec_incl_views(), &self.spec_exclude_views(), entity)
    }

    /// Returns whether `entity` matches the query.
    pub fn contains(&self, entity: Entity) -> (r: bool)
        ensures
            r == self.spec_contains(entity),
    {
        proof {
            use_type_invariant(self);
        }
        if !self.exclude.contains_none(entity) {
            return false;
        }
        if !self.incl.contains_all(entity) {
            return false;
        }
        self.get.contains_all(entity)
    }

    /// Returns the items of `entity`, if it matches the query. There are
    /// items exactly when `contains` holds.
    pub fn get(&self, entity: Entity) -> (r: Option<G::Item>)
        ensures
            r == self.spec_get(entity),
            r is Some <==> self.spec_contains(entity),
    {
        proof {
            use_type_invariant(self);
            self.get.lemma_query();
        }
        if !self.exclude.contains_none(entity) {
            return None;
        }
        if !self.incl.contains_all(entity) {
            return None;
        }
        self.get.get(entity)
    }

    /// Applies `f` to the items of `entity`, if it matches the query.
    pub fn map<T, F: FnOnce(G::Item) -> T>(&self, entity: Entity, f: F) -> (r: Option<T>)
        requires
            forall|item: G::Item| f.requires((item,)),
        ensures
            match self.spec_get(entity) {
                Some(item) => r matches Some(t) && f.ensures((item,), t),
                None => r is None,
            },
    {
        match self.get(entity) {
            Some(item) => Some(f(item)),
            None => None,
        }
    }
}

impl<'a, G: Query<'a>> QueryOne<'a, G, (), ()> {
    /// Creates a query that fetches the components of `get`.
    pub fn new(get: G) -> (q: Self)
        requires
            get.inv(),
        ensures
            q.wf(),
            q.spec_get_views() == get,
    {
        QueryOne { get, incl: (), exclude: (), _lifetime: PhantomData }
    }
}

impl<'a, G: Query<'a>, E: Query<'a>> QueryOne<'a, G, (), E> {
    /// Restricts the query to entities that have all the components of
    /// `incl`.
    pub fn including<I: Query<'a>>(self, incl: I) -> (q: QueryOne<'a, G, I, E>)
        requires
            incl.inv(),
        ensures
            q.wf(),
            q.spec_get_views() == self.spec_get_views(),
            q.spec_incl_views() == incl,
            q.spec_exclude_views() == self.spec_exclude_views(),
    {
        proof {
            use_type_invariant(&self);
        }
        QueryOne { get: self.get, incl, exclude: self.exclude, _lifetime: PhantomData }
    }
}

impl<'a, G: Query<'a>, I: Query<'a>> QueryOne<'a, G, I, ()> {
    /// Restricts the query to entities that have none of the components of
    /// `exclude`.
    pub fn exclude<E: Query<'a>>(self, exclude: E) -> (q: QueryOne<'a, G, I, E>)
        requires
            exclude.inv(),
        ensures
            q.wf(),
            q.spec_get_views() == self.spec_get_views(),
            q.spec_incl_views() == self.spec_incl_views(),
            q.spec_exclude_views() == exclude,
    {
        proof {
            use_type_invariant(&self);
        }
        QueryOne { get: self.get, incl: self.incl, exclude, _lifetime: PhantomData }
    }
}

/// A query over single entities matches an entity exactly when it has no
/// excluded component, all the included ones and all the fetched ones, and
/// it gets items for exactly the entities it matches.
pub proof fn lemma_contains_iff_get<'a, G: Query<'a>, I: Query<'a>, E: Query<'a>>(
    q: &QueryOne<'a, G, I, E>,
)
    requires
        q.wf(),
    ensures
        forall|e: Entity|
            #[trigger] q.spec_contains(e) <==> (q.spec_exclude_views().spec_contains_none(e)
                && q.spec_incl_views().spec_contains_all(e) && q.spec_get_views().spec_contains_all(e)),
        forall|e: Entity| #[trigger] q.spec_get(e) is Some <==> q.spec_contains(e),
{
    q.spec_get_views().lemma_query();
}

} // verus!
