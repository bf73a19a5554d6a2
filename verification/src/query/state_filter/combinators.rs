//! Conjunction and disjunction of state filters.
use crate::entity::Entity;
use crate::query::state_filter::StateFilter;
use vstd::prelude::*;

verus! {

/// State filter that matches the entities both inner filters match.
pub struct AndStateFilter<F1, F2>(F1, F2);

impl<F1, F2> AndStateFilter<F1, F2> {
    /// The first inner filter.
    pub closed spec fn spec_first(&self) -> F1 {
        self.0
    }

    /// The second inner filter.
    pub closed spec fn spec_second(&self) -> F2 {
        self.1
    }

    /// Creates a filter that matches what both `filter1` and `filter2` match.
    pub fn new(filter1: F1, filter2: F2) -> (r: Self)
        ensures
            r.spec_first() == filter1,
            r.spec_second() == filter2,
    {
        AndStateFilter(filter1, filter2)
    }
}

impl<F1: StateFilter, F2: StateFilter> StateFilter for AndStateFilter<F1, F2> {
    open spec fn inv(&self) -> bool {
        self.spec_first().inv() && self.spec_second().inv()
    }

    open spec fn spec_matches(&self, entity: Entity) -> bool {
        self.spec_first().spec_matches(entity) && self.spec_second().spec_matches(entity)
    }

    fn matches(&self, entity: Entity) -> (r: bool) {
        self.0.matches(entity) && self.1.matches(entity)
    }
}

/// State filter that matches the entities either inner filter matches.
pub struct OrStateFilter<F1, F2>(F1, F2);

impl<F1, F2> OrStateFilter<F1, F2> {
    /// The first inner filter.
    pub closed spec fn spec_first(&self) -> F1 {
        self.0
    }

    /// The second inner filter.
    pub closed spec fn spec_second(&self) -> F2 {
        self.1
    }

    /// Creates a filter that matches what `filter1` or `filter2` matches.
    pub fn new(filter1: F1, filter2: F2) -> (r: Self)
        ensures
            r.spec_first() == filter1,
            r.spec_second() == filter2,
    {
        OrStateFilter(filter1, filter2)
    }
}

impl<F1: StateFilter, F2: StateFilter> StateFilter for OrStateFilter<F1, F2> {
    open spec fn inv(&self) -> bool {
        self.spec_first().inv() && self.spec_second().inv()
    }

    open spec fn spec_matches(&self, entity: Entity) -> bool {
        self.spec_first().spec_matches(entity) || self.spec_second().spec_matches(entity)
    }

    fn matches(&self, entity: Entity) -> (r: bool) {
        self.0.matches(entity) || self.1.matches(entity)
    }
}

/// A conjunction of state filters matches an entity exactly when both inner
/// filters match it.
pub proof fn lemma_and_state_filter<F1: StateFilter, F2: StateFilter>(
    f: AndStateFilter<F1, F2>,
    entity: Entity,
)
    ensures
        f.spec_matches(entity) <==> (f.spec_first().spec_matches(entity) && f.spec_second().spec_matches(
            entity,
        )),
        !f.spec_first().spec_matches(entity) ==> !f.spec_matches(entity),
        !f.spec_second().spec_matches(entity) ==> !f.spec_matches(entity),
{
}

/// A disjunction of state filters matches an entity exactly when at least
/// one inner filter matches it; in particular it matches when both do.
pub proof fn lemma_or_state_filter<F1: StateFilter, F2: StateFilter>(
    f: OrStateFilter<F1, F2>,
    entity: Entity,
)
    ensures
        f.spec_matches(entity) <==> (f.spec_first().spec_matches(entity) || f.spec_second().spec_matches(
            entity,
        )),
        f.spec_first().spec_matches(entity) ==> f.spec_matches(entity),
        f.spec_second().spec_matches(entity) ==> f.spec_matches(entity),
{
}

} // verus!
