//! The query, and the query part, that fetch each matching entity itself.
use crate::entity::Entity;
use crate::group::QueryGroupInfo;
use crate::group::GroupInfo;
use crate::query::part::QueryPart;
use crate::query::query::Query;
use vstd::prelude::*;

verus! {

/// Query, or query part, that fetches for every entity the entity itself. It
/// matches every entity, holds no packed entities of its own and places no
/// constraint on grouping, so the other parts of a query decide what is
/// iterated.
#[derive(Clone, Copy)]
pub struct Entities;

impl<'a> Query<'a> for Entities {
    type Item = Entity;

    type Slice = &'a [Entity];

    open spec fn spec_slice_matches(
        &self,
        slice: &'a [Entity],
        entities: Seq<Entity>,
        start: int,
        end: int,
    ) -> bool {
        slice@ == entities.subrange(start, end)
    }

    proof fn lemma_slice_unique(
        &self,
        a: &'a [Entity],
        b: &'a [Entity],
        entities: Seq<Entity>,
        start: int,
        end: int,
    ) {
        assert(a =~= b);
    }

    fn slice(&self, entities: &'a [Entity], start: usize, end: usize) -> (r: &'a [Entity]) {
        &entities[start..end]
    }

    open spec fn inv(&self) -> bool {
        true
    }

    open spec fn spec_contains_all(&self, entity: Entity) -> bool {
        true
    }

    open spec fn spec_contains_none(&self, entity: Entity) -> bool {
        false
    }

    open spec fn spec_get(&self, entity: Entity) -> Option<Entity> {
        Some(entity)
    }

    open spec fn spec_entities(&self) -> Option<Seq<Entity>> {
        None
    }

    open spec fn spec_dense_entities(&self) -> Option<Seq<Entity>> {
        None
    }

    open spec fn spec_get_dense(&self, index: int, entity: Entity) -> Entity {
        entity
    }

    open spec fn spec_dense_len(&self) -> Option<nat> {
        None
    }

    open spec fn spec_group_info(&self) -> Option<QueryGroupInfo<'a>> {
        Some(QueryGroupInfo::Empty)
    }

    proof fn lemma_query(&self) {
    }

    open spec fn spec_prefix(&self, s: Seq<Entity>, n: nat) -> bool {
        true
    }

    proof fn lemma_prefix(&self, s: Seq<Entity>, n: nat) {
    }

    fn contains_all(&self, entity: Entity) -> (r: bool) {
        true
    }

    fn contains_none(&self, entity: Entity) -> (r: bool) {
        false
    }

    fn get(&self, entity: Entity) -> (r: Option<Entity>) {
        Some(entity)
    }

    fn split_sparse(&self) -> (r: Option<&'a [Entity]>) {
        None
    }

    fn split_dense(&self) -> (r: Option<&'a [Entity]>) {
        None
    }

    fn get_dense(&self, index: usize, entity: Entity) -> (r: Entity) {
        entity
    }

    fn dense_len(&self) -> (r: Option<usize>) {
        None
    }

    fn group_info(&self) -> (r: Option<QueryGroupInfo<'a>>) {
        Some(QueryGroupInfo::Empty)
    }
}

impl<'a> QueryPart<'a> for Entities {
    type Item = Entity;

    type Slice = &'a [Entity];

    open spec fn spec_slice_matches(
        &self,
        slice: &'a [Entity],
        entities: Seq<Entity>,
        start: int,
        end: int,
    ) -> bool {
        slice@ == entities.subrange(start, end)
    }

    proof fn lemma_slice_unique(
        &self,
        a: &'a [Entity],
        b: &'a [Entity],
        entities: Seq<Entity>,
        start: int,
        end: int,
    ) {
        assert(a =~= b);
    }

    fn slice(&self, entities: &'a [Entity], start: usize, end: usize) -> (r: &'a [Entity]) {
        &entities[start..end]
    }

    open spec fn inv(&self) -> bool {
        true
    }

    open spec fn spec_contains(&self, entity: Entity) -> bool {
        true
    }

    open spec fn spec_get(&self, entity: Entity) -> Option<Entity> {
        Some(entity)
    }

    open spec fn spec_entities(&self) -> Option<Seq<Entity>> {
        None
    }

    open spec fn spec_get_dense(&self, index: int, entity: Entity) -> Entity {
        entity
    }

    open spec fn spec_dense_len(&self) -> Option<nat> {
        None
    }

    open spec fn spec_group_info(&self) -> Option<(usize, Option<GroupInfo<'a>>)> {
        None
    }

    proof fn lemma_part(&self) {
    }

    fn contains(&self, entity: Entity) -> (r: bool) {
        true
    }

    fn get(&self, entity: Entity) -> (r: Option<Entity>) {
        Some(entity)
    }

    fn entities(&self) -> (r: Option<&'a [Entity]>) {
        None
    }

    fn get_dense(&self, index: usize, entity: Entity) -> (r: Entity) {
        entity
    }

    fn dense_len(&self) -> (r: Option<usize>) {
        None
    }

    fn group_info(&self) -> (r: Option<(usize, Option<GroupInfo<'a>>)>) {
        None
    }
}

} // verus!
