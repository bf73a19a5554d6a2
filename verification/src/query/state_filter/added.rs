//! State filters over whether a component was added at the world tick.
use crate::entity::Entity;
use crate::query::part::UnfilteredQueryElement;
use crate::query::state_filter::StateFilter;
use vstd::prelude::*;

verus! {

/// Matches the entities whose component in the wrapped view was added at
/// the view's world tick.
pub struct Added<Q> {
    query_elem: Q,
}

/// Matches the entities whose component in the wrapped view was not added
/// at the view's world tick.
pub struct NotAdded<Q> {
    query_elem: Q,
}

/// Wraps `query_elem` in a filter that matches the components added at the
/// world tick.
pub fn added<Q>(query_elem: Q) -> (r: Added<Q>)
    ensures
        r.spec_element() == query_elem,
{
    Added { query_elem }
}

impl<Q> Added<Q> {
    /// The wrapped view.
    pub closed spec fn spec_element(&self) -> Q {
        self.query_elem
    }

    /// Returns the filter that matches the components of the same view that
    /// were not added at the world tick.
    pub fn not(self) -> (r: NotAdded<Q>)
        ensures
            r.spec_element() == self.spec_element(),
    {
        NotAdded { query_elem: self.query_elem }
    }
}

impl<Q> NotAdded<Q> {
    /// The wrapped view.
    pub closed spec fn spec_element(&self) -> Q {
        self.query_elem
    }
}

impl<'a, Q: UnfilteredQueryElement<'a>> StateFilter for Added<Q> {
    open spec fn inv(&self) -> bool {
        self.spec_element().inv()
    }

    open spec fn spec_matches(&self, entity: Entity) -> bool {
        match self.spec_element().spec_ticks(entity) {
            Some(t) => t.tick_added == self.spec_element().spec_world_tick(),
            None => false,
        }
    }

    fn matches(&self, entity: Entity) -> (r: bool) {
        match self.query_elem.get_with_ticks(entity) {
            Some((_, t)) => t.tick_added == self.query_elem.world_tick(),
            None => false,
        }
    }
}

impl<'a, Q: UnfilteredQueryElement<'a>> StateFilter for NotAdded<Q> {
    open spec fn inv(&self) -> bool {
        self.spec_element().inv()
    }

    open spec fn spec_matches(&self, entity: Entity) -> bool {
        match self.spec_element().spec_ticks(entity) {
            Some(t) => t.tick_added != self.spec_element().spec_world_tick(),
            None => false,
        }
    }

    fn matches(&self, entity: Entity) -> (r: bool) {
        match self.query_elem.get_with_ticks(entity) {
            Some((_, t)) => t.tick_added != self.query_elem.world_tick(),
            None => false,
        }
    }
}

/// An entity that has a component in the view matches exactly one of
/// `Added` and its negation.
pub proof fn lemma_added_not_added<'a, Q: UnfilteredQueryElement<'a>>(
    a: Added<Q>,
    n: NotAdded<Q>,
    entity: Entity,
)
    requires
        a.inv(),
        n.spec_element() == a.spec_element(),
    ensures
        n.spec_matches(entity) == (a.spec_element().spec_contains(entity) && !a.spec_matches(entity)),
{
    a.spec_element().lemma_ticks();
}

} // verus!
