//! A view that fetches its items wrapped in `Option`s: it matches the
//! entities its wrapped view matches, with the same grouping information.
use crate::entity::Entity;
use crate::group::GroupInfo;
use crate::query::part::{QueryPart, UnfilteredQueryElement};
use crate::storage::{ChangeTicks, Ticks};
use vstd::prelude::*;

verus! {

/// Wrapper over a view which makes it fetch `Option`s instead of failing.
pub struct Maybe<E>(E);

impl<E> Maybe<E> {
    /// The wrapped view.
    pub closed spec fn spec_element(&self) -> E {
        self.0
    }
}

/// Wraps `element` in a `Maybe`.
pub fn maybe<'a, E: UnfilteredQueryElement<'a>>(element: E) -> (m: Maybe<E>)
    ensures
        m.spec_element() == element,
{
    Maybe(element)
}

impl<'a, E: QueryPart<'a>> QueryPart<'a> for Maybe<E> {
    type Item = Option<E::Item>;

    type Slice = ();

    open spec fn spec_slice_matches(
        &self,
        slice: (),
        entities: Seq<Entity>,
        start: int,
        end: int,
    ) -> bool {
        true
    }

    proof fn lemma_slice_unique(&self, a: (), b: (), entities: Seq<Entity>, start: int, end: int) {
    }

    fn slice(&self, entities: &'a [Entity], start: usize, end: usize) -> (r: ()) {
        ()
    }

    open spec fn inv(&self) -> bool {
        self.spec_element().inv()
    }

    open spec fn spec_contains(&self, entity: Entity) -> bool {
        self.spec_element().spec_contains(entity)
    }

    open spec fn spec_get(&self, entity: Entity) -> Option<Option<E::Item>> {
        if self.spec_element().spec_contains(entity) {
            Some(self.spec_element().spec_get(entity))
        } else {
            None
        }
    }

    open spec fn spec_entities(&self) -> Option<Seq<Entity>> {
        self.spec_element().spec_entities()
    }

    open spec fn spec_get_dense(&self, index: int, entity: Entity) -> Option<E::Item> {
        Some(self.spec_element().spec_get_dense(index, entity))
    }

    open spec fn spec_dense_len(&self) -> Option<nat> {
        self.spec_element().spec_dense_len()
    }

    open spec fn spec_group_info(&self) -> Option<(usize, Option<GroupInfo<'a>>)> {
        self.spec_element().spec_group_info()
    }

    proof fn lemma_part(&self) {
        self.spec_element().lemma_part();
    }

    fn contains(&self, entity: Entity) -> (r: bool) {
        self.0.contains(entity)
    }

    fn get(&self, entity: Entity) -> (r: Option<Option<E::Item>>) {
        if self.0.contains(entity) {
            Some(self.0.get(entity))
        } else {
            None
        }
    }

    fn entities(&self) -> (r: Option<&'a [Entity]>) {
        self.0.entities()
    }

    fn get_dense(&self, index: usize, entity: Entity) -> (r: Option<E::Item>) {
        Some(self.0.get_dense(index, entity))
    }

    fn dense_len(&self) -> (r: Option<usize>) {
        self.0.dense_len()
    }

    fn group_info(&self) -> (r: Option<(usize, Option<GroupInfo<'a>>)>) {
        self.0.group_info()
    }
}

impl<'a, E: UnfilteredQueryElement<'a>> UnfilteredQueryElement<'a> for Maybe<E> {
    type Component = E::Component;

    open spec fn spec_component(&self, entity: Entity) -> Option<E::Component> {
        self.spec_element().spec_component(entity)
    }

    open spec fn spec_ticks(&self, entity: Entity) -> Option<ChangeTicks> {
        self.spec_element().spec_ticks(entity)
    }

    open spec fn spec_world_tick(&self) -> Ticks {
        self.spec_element().spec_world_tick()
    }

    open spec fn spec_change_tick(&self) -> Ticks {
        self.spec_element().spec_change_tick()
    }

    proof fn lemma_ticks(&self) {
        self.spec_element().lemma_ticks();
    }

    fn get_with_ticks(&self, entity: Entity) -> (r: Option<(&'a E::Component, ChangeTicks)>) {
        self.0.get_with_ticks(entity)
    }

    fn world_tick(&self) -> (r: Ticks) {
        self.0.world_tick()
    }

    fn change_tick(&self) -> (r: Ticks) {
        self.0.change_tick()
    }
}

} // verus!
