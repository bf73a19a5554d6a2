//! A single part of a query: a view that can tell whether an entity matches
//! and fetch the entity's item, both through its sparse vector and by dense
//! index.
use crate::entity::Entity;
use crate::group::GroupInfo;
use crate::storage::ChangeTicks;
use crate::storage::Ticks;
use crate::view::Comp;
use vstd::prelude::*;

verus! {

/// Part of a query, such as a view over one component storage.
pub trait QueryPart<'a>: Sized {
    /// Item fetched for a matching entity.
    type Item;

    /// Slice of the dense data of the part.
    type Slice;

    /// The part is well formed.
    spec fn inv(&self) -> bool;

    /// Whether `entity` matches the part.
    spec fn spec_contains(&self, entity: Entity) -> bool;

    /// The item of `entity`, when it matches.
    spec fn spec_get(&self, entity: Entity) -> Option<Self::Item>;

    /// The packed entities of the part, when only they can match.
    spec fn spec_entities(&self) -> Option<Seq<Entity>>;

    /// The item at dense position `index`, held by `entity`.
    spec fn spec_get_dense(&self, index: int, entity: Entity) -> Self::Item;

    /// Number of dense positions that `get_dense` accepts, when bounded.
    spec fn spec_dense_len(&self) -> Option<nat>;

    /// Whether `slice` holds the dense data of the part at positions
    /// `start..end`.
    spec fn spec_slice_matches(
        &self,
        slice: Self::Slice,
        entities: Seq<Entity>,
        start: int,
        end: int,
    ) -> bool;

    /// A slice of the dense data at given positions is determined by them.
    proof fn lemma_slice_unique(
        &self,
        a: Self::Slice,
        b: Self::Slice,
        entities: Seq<Entity>,
        start: int,
        end: int,
    )
        requires
            self.spec_slice_matches(a, entities, start, end),
            self.spec_slice_matches(b, entities, start, end),
        ensures
            a == b,
    ;

    /// Grouping information of the part: the number of packed entities and
    /// the storage's group info. `None` when the part cannot be iterated
    /// densely.
    spec fn spec_group_info(&self) -> Option<(usize, Option<GroupInfo<'a>>)>;

    /// The facts that queries rely on: an item exists exactly for the
    /// matching entities, every matching entity is packed, the packed
    /// entities are distinct, and dense access agrees with sparse access; a
    /// part without grouping information holds no packed entities and
    /// fetches by entity at any dense position.
    proof fn lemma_part(&self)
        requires
            self.inv(),
        ensures
            forall|e: Entity| #[trigger] self.spec_get(e) is Some <==> self.spec_contains(e),
            self.spec_entities() matches Some(s) ==> {
                &&& forall|e: Entity| #[trigger] self.spec_contains(e) ==> s.contains(e)
                &&& s.no_duplicates()
                &&& forall|i: int|
                    0 <= i < s.len() && self.spec_contains(s[i]) ==> self.spec_get(#[trigger] s[i])
                        == Some(self.spec_get_dense(i, s[i]))
            },
            self.spec_group_info() matches Some((len, _)) ==> {
                &&& self.spec_entities() matches Some(s)
                &&& s.len() == len
                &&& self.spec_dense_len() == Some(len as nat)
            },
            self.spec_group_info() is None ==> {
                &&& self.spec_entities() is None
                &&& self.spec_dense_len() is None
                &&& forall|i: int, e: Entity|
                    self.spec_contains(e) ==> self.spec_get(e) == Some(
                        #[trigger] self.spec_get_dense(i, e),
                    )
            },
    ;

    /// Returns whether `entity` matches the part.
    fn contains(&self, entity: Entity) -> (r: bool)
        requires
            self.inv(),
        ensures
            r == self.spec_contains(entity),
    ;

    /// Returns the item of `entity`, if it matches.
    fn get(&self, entity: Entity) -> (r: Option<Self::Item>)
        requires
            self.inv(),
        ensures
            r == self.spec_get(entity),
    ;

    /// Returns the packed entities of the part, when only they can match.
    fn entities(&self) -> (r: Option<&'a [Entity]>)
        requires
            self.inv(),
        ensures
            match r {
                Some(s) => self.spec_entities() == Some(s@),
                None => self.spec_entities() is None,
            },
    ;

    /// Returns the item at dense position `index`, held by `entity`.
    fn get_dense(&self, index: usize, entity: Entity) -> (r: Self::Item)
        requires
            self.inv(),
            self.spec_dense_len() matches Some(n) ==> index < n,
        ensures
            r == self.spec_get_dense(index as int, entity),
    ;

    /// Returns the dense data of the part at positions `start..end`, where
    /// `entities` are the packed entities iterated.
    fn slice(&self, entities: &'a [Entity], start: usize, end: usize) -> (r: Self::Slice)
        requires
            self.inv(),
            start <= end,
            end <= entities@.len(),
            self.spec_dense_len() matches Some(n) ==> end <= n,
        ensures
            self.spec_slice_matches(r, entities@, start as int, end as int),
    ;

    /// Returns the number of dense positions that `get_dense` accepts, when
    /// bounded.
    fn dense_len(&self) -> (r: Option<usize>)
        requires
            self.inv(),
        ensures
            match r {
                Some(n) => self.spec_dense_len() == Some(n as nat),
                None => self.spec_dense_len() is None,
            },
    ;

    /// Returns the grouping information of the part.
    fn group_info(&self) -> (r: Option<(usize, Option<GroupInfo<'a>>)>)
        requires
            self.inv(),
        ensures
            r == self.spec_group_info(),
    ;
}

/// A view whose components carry change ticks, to which element filters
/// apply.
pub trait UnfilteredQueryElement<'a>: QueryPart<'a> {
    /// Type of the viewed components.
    type Component: 'a;

    /// The component of `entity`, if it has one.
    spec fn spec_component(&self, entity: Entity) -> Option<Self::Component>;

    /// The change ticks of `entity`'s component, if it has one.
    spec fn spec_ticks(&self, entity: Entity) -> Option<ChangeTicks>;

    /// The tick of the world when the view was borrowed.
    spec fn spec_world_tick(&self) -> Ticks;

    /// The tick against which mutations are detected.
    spec fn spec_change_tick(&self) -> Ticks;

    /// Components and ticks exist exactly for the entities that match.
    proof fn lemma_ticks(&self)
        requires
            self.inv(),
        ensures
            forall|e: Entity| #[trigger] self.spec_ticks(e) is Some <==> self.spec_contains(e),
            forall|e: Entity| #[trigger] self.spec_component(e) is Some <==> self.spec_contains(e),
    ;

    /// Returns the component of `entity` and its change ticks, if it has one.
    fn get_with_ticks(&self, entity: Entity) -> (r: Option<(&'a Self::Component, ChangeTicks)>)
        requires
            self.inv(),
        ensures
            match r {
                Some((c, t)) => self.spec_component(entity) == Some(*c) && self.spec_ticks(entity)
                    == Some(t),
                None => self.spec_component(entity) is None && self.spec_ticks(entity) is None,
            },
    ;

    /// Returns the tick of the world when the view was borrowed.
    fn world_tick(&self) -> (r: Ticks)
        ensures
            r == self.spec_world_tick(),
    ;

    /// Returns the tick against which mutations are detected.
    fn change_tick(&self) -> (r: Ticks)
        ensures
            r == self.spec_change_tick(),
    ;
}

impl<'a, T> QueryPart<'a> for Comp<'a, T> {
    type Item = &'a T;

    type Slice = &'a [T];

    open spec fn spec_slice_matches(
        &self,
        slice: &'a [T],
        entities: Seq<Entity>,
        start: int,
        end: int,
    ) -> bool {
        slice@ == self.spec_storage().spec_components().subrange(start, end)
    }

    proof fn lemma_slice_unique(
        &self,
        a: &'a [T],
        b: &'a [T],
        entities: Seq<Entity>,
        start: int,
        end: int,
    ) {
        assert(a =~= b);
    }

    fn slice(&self, entities: &'a [Entity], start: usize, end: usize) -> (r: &'a [T]) {
        proof {
            self.spec_storage().lemma_inv();
        }
        let s: &'a [T] = self.storage().components();
        &s[start..end]
    }

    open spec fn inv(&self) -> bool {
        self.wf()
    }

    open spec fn spec_contains(&self, entity: Entity) -> bool {
        self.spec_storage().spec_contains(entity)
    }

    open spec fn spec_get(&self, entity: Entity) -> Option<&'a T> {
        if self.spec_storage().spec_contains(entity) {
            Some(&self.spec_storage().spec_map()[entity])
        } else {
            None
        }
    }

    open spec fn spec_entities(&self) -> Option<Seq<Entity>> {
        Some(self.spec_storage().spec_entities())
    }

    open spec fn spec_get_dense(&self, index: int, entity: Entity) -> &'a T {
        &self.spec_storage().spec_components()[index]
    }

    open spec fn spec_dense_len(&self) -> Option<nat> {
        Some(self.spec_storage().spec_len())
    }

    open spec fn spec_group_info(&self) -> Option<(usize, Option<GroupInfo<'a>>)> {
        Some((self.spec_storage().spec_len() as usize, self.spec_group_info()))
    }

    proof fn lemma_part(&self) {
        let st = self.spec_storage();
        st.lemma_inv();
        let s = st.spec_entities();
        assert forall|i: int, j: int|
            0 <= i < s.len() && 0 <= j < s.len() && i != j implies s[i] != s[j] by {
            assert(s[i].index != s[j].index);
        }
        assert forall|i: int| 0 <= i < s.len() && self.spec_contains(s[i]) implies self.spec_get(
            #[trigger] s[i],
        ) == Some(self.spec_get_dense(i, s[i])) by {
            assert(st.spec_index(s[i]) == Some(i as usize));
        }
        assert forall|i: int| 0 <= i < s.len() implies self.spec_contains(#[trigger] s[i]) by {
            assert(st.spec_index(s[i]) == Some(i as usize));
        }
    }

    fn contains(&self, entity: Entity) -> (r: bool) {
        self.storage().contains(entity)
    }

    fn get(&self, entity: Entity) -> (r: Option<&'a T>) {
        let s: &'a _ = self.storage();
        s.get(entity)
    }

    fn entities(&self) -> (r: Option<&'a [Entity]>) {
        Some(self.storage().entities())
    }

    fn get_dense(&self, index: usize, entity: Entity) -> (r: &'a T) {
        proof {
            self.spec_storage().lemma_inv();
        }
        let s: &'a [T] = self.storage().components();
        &s[index]
    }

    fn dense_len(&self) -> (r: Option<usize>) {
        Some(self.storage().len())
    }

    fn group_info(&self) -> (r: Option<(usize, Option<GroupInfo<'a>>)>) {
        Some((self.storage().len(), Comp::group_info(self)))
    }
}

impl<'a, T> UnfilteredQueryElement<'a> for Comp<'a, T> {
    type Component = T;

    open spec fn spec_component(&self, entity: Entity) -> Option<T> {
        if self.spec_storage().spec_contains(entity) {
            Some(self.spec_storage().spec_map()[entity])
        } else {
            None
        }
    }

    open spec fn spec_ticks(&self, entity: Entity) -> Option<ChangeTicks> {
        if self.spec_storage().spec_contains(entity) {
            Some(self.spec_storage().spec_ticks_map()[entity])
        } else {
            None
        }
    }

    open spec fn spec_world_tick(&self) -> Ticks {
        Comp::spec_world_tick(self)
    }

    open spec fn spec_change_tick(&self) -> Ticks {
        Comp::spec_change_tick(self)
    }

    proof fn lemma_ticks(&self) {
    }

    fn get_with_ticks(&self, entity: Entity) -> (r: Option<(&'a T, ChangeTicks)>) {
        let s: &'a _ = self.storage();
        match s.get_with_ticks(entity) {
            Some((c, t)) => Some((c, *t)),
            None => None,
        }
    }

    fn world_tick(&self) -> (r: Ticks) {
        Comp::world_tick(self)
    }

    fn change_tick(&self) -> (r: Ticks) {
        Comp::change_tick(self)
    }
}

} // verus!
