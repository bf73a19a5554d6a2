//! A view that matches every entity and fetches the entity's item if it has
//! one.
use crate::entity::Entity;
use crate::group::GroupInfo;
use crate::query::part::QueryPart;
use vstd::prelude::*;

verus! {

/// Wrapper over a view that makes it match every entity and fetch `Some`
/// item for the entities the view matches, `None` for the others.
pub struct Optional<E>(E);

impl<E> Optional<E> {
    /// The wrapped view.
    pub closed spec fn spec_element(&self) -> E {
        self.0
    }
}

/// Wraps `element` in an `Optional`.
pub fn optional<E>(element: E) -> (o: Optional<E>)
    ensures
        o.spec_element() == element,
{
    Optional(element)
}

impl<'a, E: QueryPart<'a>> QueryPart<'a> for Optional<E> {
    type Item = Option<E::Item>;

    type Slice = ();

    open spec fn spec_slice_matches(
        &self,
        slice: (),
        entities: Seq<Entity>,
        start: int,
        end: int,
    ) -> bool {
        true
    }

    proof fn lemma_slice_unique(&self, a: (), b: (), entities: Seq<Entity>, start: int, end: int) {
    }

    fn slice(&self, entities: &'a [Entity], start: usize, end: usize) -> (r: ()) {
        ()
    }

    open spec fn inv(&self) -> bool {
        self.spec_element().inv()
    }

    open spec fn spec_contains(&self, entity: Entity) -> bool {
        true
    }

    open spec fn spec_get(&self, entity: Entity) -> Option<Option<E::Item>> {
        Some(self.spec_element().spec_get(entity))
    }

    open spec fn spec_entities(&self) -> Option<Seq<Entity>> {
        None
    }

    open spec fn spec_get_dense(&self, index: int, entity: Entity) -> Option<E::Item> {
        self.spec_element().spec_get(entity)
    }

    open spec fn spec_dense_len(&self) -> Option<nat> {
        None
    }

    open spec fn spec_group_info(&self) -> Option<(usize, Option<GroupInfo<'a>>)> {
        None
    }

    proof fn lemma_part(&self) {
    }

    fn contains(&self, entity: Entity) -> (r: bool) {
        true
    }

    fn get(&self, entity: Entity) -> (r: Option<Option<E::Item>>) {
        Some(self.0.get(entity))
    }

    fn entities(&self) -> (r: Option<&'a [Entity]>) {
        None
    }

    fn get_dense(&self, index: usize, entity: Entity) -> (r: Option<E::Item>) {
        self.0.get(entity)
    }

    fn dense_len(&self) -> (r: Option<usize>) {
        None
    }

    fn group_info(&self) -> (r: Option<(usize, Option<GroupInfo<'a>>)>) {
        None
    }
}

} // verus!
