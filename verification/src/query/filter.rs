//! A view wrapped in an element filter: only the entities whose component
//! and change ticks match the filter match the view.
use crate::entity::Entity;
use crate::group::GroupInfo;
use crate::query::part::{QueryPart, UnfilteredQueryElement};
use crate::query::query_element_filter::QueryElementFilter;
use vstd::prelude::*;

verus! {

/// A view restricted to the components that match an element filter.
pub struct Filter<F, E> {
    filter: F,
    element: E,
}

impl<F, E> Filter<F, E> {
    /// The element filter.
    pub closed spec fn spec_filter(&self) -> F {
        self.filter
    }

    /// The filtered view.
    pub closed spec fn spec_element(&self) -> E {
        self.element
    }

    /// Restricts `element` to the components that match `filter`.
    pub fn new(filter: F, element: E) -> (r: Self)
        ensures
            r.spec_filter() == filter,
            r.spec_element() == element,
    {
        Filter { filter, element }
    }
}

impl<'a, F: QueryElementFilter<E::Component>, E: UnfilteredQueryElement<'a>> QueryPart<'a> for Filter<
    F,
    E,
> {
    type Item = E::Item;

    type Slice = ();

    open spec fn spec_slice_matches(
        &self,
        slice: (),
        entities: Seq<Entity>,
        start: int,
        end: int,
    ) -> bool {
        true
    }

    proof fn lemma_slice_unique(&self, a: (), b: (), entities: Seq<Entity>, start: int, end: int) {
    }

    fn slice(&self, entities: &'a [Entity], start: usize, end: usize) -> (r: ()) {
        ()
    }

    open spec fn inv(&self) -> bool {
        self.spec_element().inv()
    }

    open spec fn spec_contains(&self, entity: Entity) -> bool {
        match (self.spec_element().spec_component(entity), self.spec_element().spec_ticks(entity)) {
            (Some(c), Some(t)) => self.spec_filter().spec_matches_component(
                c,
                t,
                self.spec_element().spec_world_tick(),
                self.spec_element().spec_change_tick(),
            ),
            _ => false,
        }
    }

    open spec fn spec_get(&self, entity: Entity) -> Option<E::Item> {
        if self.spec_contains(entity) {
            self.spec_element().spec_get(entity)
        } else {
            None
        }
    }

    open spec fn spec_entities(&self) -> Option<Seq<Entity>> {
        self.spec_element().spec_entities()
    }

    open spec fn spec_get_dense(&self, index: int, entity: Entity) -> E::Item {
        self.spec_element().spec_get_dense(index, entity)
    }

    open spec fn spec_dense_len(&self) -> Option<nat> {
        self.spec_element().spec_dense_len()
    }

    open spec fn spec_group_info(&self) -> Option<(usize, Option<GroupInfo<'a>>)> {
        self.spec_element().spec_group_info()
    }

    proof fn lemma_part(&self) {
        self.spec_element().lemma_part();
        self.spec_element().lemma_ticks();
    }

    fn contains(&self, entity: Entity) -> (r: bool) {
        proof {
            self.spec_element().lemma_ticks();
        }
        match self.element.get_with_ticks(entity) {
            Some((c, t)) => self.filter.matches(
                c,
                &t,
                self.element.world_tick(),
                self.element.change_tick(),
            ),
            None => false,
        }
    }

    fn get(&self, entity: Entity) -> (r: Option<E::Item>) {
        if self.contains(entity) {
            self.element.get(entity)
        } else {
            None
        }
    }

    fn entities(&self) -> (r: Option<&'a [Entity]>) {
        self.element.entities()
    }

    fn get_dense(&self, index: usize, entity: Entity) -> (r: E::Item) {
        self.element.get_dense(index, entity)
    }

    fn dense_len(&self) -> (r: Option<usize>) {
        self.element.dense_len()
    }

    fn group_info(&self) -> (r: Option<(usize, Option<GroupInfo<'a>>)>) {
        self.element.group_info()
    }
}

} // verus!
