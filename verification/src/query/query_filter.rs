//! Filters over entities, and their combinators.
use crate::entity::Entity;
use vstd::prelude::*;

verus! {

/// Filter that tells whether an entity matches.
pub trait QueryFilter {
    /// Whether `entity` matches the filter.
    spec fn spec_matches(&self, entity: Entity) -> bool;

    /// Returns whether `entity` matches the filter.
    fn matches(&self, entity: Entity) -> (r: bool)
        ensures
            r == self.spec_matches(entity),
    ;
}

/// Filter that matches all entities.
#[derive(Clone, Copy, Debug)]
pub struct Passthrough;

impl QueryFilter for Passthrough {
    open spec fn spec_matches(&self, entity: Entity) -> bool {
        true
    }

    fn matches(&self, entity: Entity) -> (r: bool) {
        true
    }
}

/// Filter that matches the entities its inner filter does not match.
pub struct Not<F>(F);

impl<F> Not<F> {
    /// The inner filter.
    pub closed spec fn spec_inner(&self) -> F {
        self.0
    }

    /// Creates a filter that negates `filter`.
    pub fn new(filter: F) -> (r: Self)
        ensures
            r.spec_inner() == filter,
    {
        Not(filter)
    }

    /// Returns the inner filter.
    pub fn inner(&self) -> (r: &F)
        ensures
            *r == self.spec_inner(),
    {
        &self.0
    }
}

impl<F: QueryFilter> QueryFilter for Not<F> {
    open spec fn spec_matches(&self, entity: Entity) -> bool {
        !self.spec_inner().spec_matches(entity)
    }

    fn matches(&self, entity: Entity) -> (r: bool) {
        !self.0.matches(entity)
    }
}

/// Filter that matches the entities both inner filters match.
pub struct And<F1, F2>(F1, F2);

impl<F1, F2> And<F1, F2> {
    /// The first inner filter.
    pub closed spec fn spec_first(&self) -> F1 {
        self.0
    }

    /// The second inner filter.
    pub closed spec fn spec_second(&self) -> F2 {
        self.1
    }

    /// Creates a filter that matches what both `filter1` and `filter2` match.
    pub fn new(filter1: F1, filter2: F2) -> (r: Self)
        ensures
            r.spec_first() == filter1,
            r.spec_second() == filter2,
    {
        And(filter1, filter2)
    }
}

impl<F1: QueryFilter, F2: QueryFilter> QueryFilter for And<F1, F2> {
    open spec fn spec_matches(&self, entity: Entity) -> bool {
        self.spec_first().spec_matches(entity) && self.spec_second().spec_matches(entity)
    }

    fn matches(&self, entity: Entity) -> (r: bool) {
        self.0.matches(entity) && self.1.matches(entity)
    }
}

/// Filter that matches the entities either inner filter matches.
pub struct Or<F1, F2>(F1, F2);

impl<F1, F2> Or<F1, F2> {
    /// The first inner filter.
    pub closed spec fn spec_first(&self) -> F1 {
        self.0
    }

    /// The second inner filter.
    pub closed spec fn spec_second(&self) -> F2 {
        self.1
    }

    /// Creates a filter that matches what `filter1` or `filter2` matches.
    pub fn new(filter1: F1, filter2: F2) -> (r: Self)
        ensures
            r.spec_first() == filter1,
            r.spec_second() == filter2,
    {
        Or(filter1, filter2)
    }
}

impl<F1: QueryFilter, F2: QueryFilter> QueryFilter for Or<F1, F2> {
    open spec fn spec_matches(&self, entity: Entity) -> bool {
        self.spec_first().spec_matches(entity) || self.spec_second().spec_matches(entity)
    }

    fn matches(&self, entity: Entity) -> (r: bool) {
        self.0.matches(entity) || self.1.matches(entity)
    }
}

/// Filter that matches the entities exactly one inner filter matches.
pub struct Xor<F1, F2>(F1, F2);

impl<F1, F2> Xor<F1, F2> {
    /// The first inner filter.
    pub closed spec fn spec_first(&self) -> F1 {
        self.0
    }

    /// The second inner filter.
    pub closed spec fn spec_second(&self) -> F2 {
        self.1
    }

    /// Creates a filter that matches what exactly one of `filter1` and
    /// `filter2` matches.
    pub fn new(filter1: F1, filter2: F2) -> (r: Self)
        ensures
            r.spec_first() == filter1,
            r.spec_second() == filter2,
    {
        Xor(filter1, filter2)
    }
}

impl<F1: QueryFilter, F2: QueryFilter> QueryFilter for Xor<F1, F2> {
    open spec fn spec_matches(&self, entity: Entity) -> bool {
        self.spec_first().spec_matches(entity) != self.spec_second().spec_matches(entity)
    }

    fn matches(&self, entity: Entity) -> (r: bool) {
        self.0.matches(entity) != self.1.matches(entity)
    }
}

/// A conjunction matches an entity exactly when both inner filters match it.
pub proof fn lemma_and<F1: QueryFilter, F2: QueryFilter>(f: And<F1, F2>, entity: Entity)
    ensures
        f.spec_matches(entity) <==> (f.spec_first().spec_matches(entity) && f.spec_second().spec_matches(
            entity,
        )),
{
}

/// A disjunction matches an entity exactly when at least one inner filter
/// matches it.
pub proof fn lemma_or<F1: QueryFilter, F2: QueryFilter>(f: Or<F1, F2>, entity: Entity)
    ensures
        f.spec_matches(entity) <==> (f.spec_first().spec_matches(entity) || f.spec_second().spec_matches(
            entity,
        )),
{
}

/// Negating twice gives back the filter.
pub proof fn lemma_not_not<F: QueryFilter>(f: Not<Not<F>>, entity: Entity)
    ensures
        f.spec_matches(entity) == f.spec_inner().spec_inner().spec_matches(entity),
{
}

/// The negation of a conjunction matches what the disjunction of the
/// negations matches.
pub proof fn lemma_not_and<F1: QueryFilter, F2: QueryFilter>(
    f: Not<And<F1, F2>>,
    g: Or<Not<F1>, Not<F2>>,
    entity: Entity,
)
    requires
        g.spec_first().spec_inner() == f.spec_inner().spec_first(),
        g.spec_second().spec_inner() == f.spec_inner().spec_second(),
    ensures
        f.spec_matches(entity) == g.spec_matches(entity),
{
}

/// The negation of a disjunction matches what the conjunction of the
/// negations matches.
pub proof fn lemma_not_or<F1: QueryFilter, F2: QueryFilter>(
    f: Not<Or<F1, F2>>,
    g: And<Not<F1>, Not<F2>>,
    entity: Entity,
)
    requires
        g.spec_first().spec_inner() == f.spec_inner().spec_first(),
        g.spec_second().spec_inner() == f.spec_inner().spec_second(),
    ensures
        f.spec_matches(entity) == g.spec_matches(entity),
{
}

/// An exclusive disjunction matches what the disjunction matches and the
/// conjunction does not.
pub proof fn lemma_xor<F1: QueryFilter, F2: QueryFilter>(
    x: Xor<F1, F2>,
    o: Or<F1, F2>,
    a: And<F1, F2>,
    entity: Entity,
)
    requires
        o.spec_first() == x.spec_first() && a.spec_first() == x.spec_first(),
        o.spec_second() == x.spec_second() && a.spec_second() == x.spec_second(),
    ensures
        x.spec_matches(entity) == (o.spec_matches(entity) && !a.spec_matches(entity)),
{
}

} // verus!
