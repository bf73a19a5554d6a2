//! Queries over tuples of parts: an entity matches when it matches every
//! part; the packed entities to iterate are those of the part with the
//! fewest.
use crate::entity::Entity;
use crate::group::{GroupInfo, QueryGroupInfo};
use crate::query::part::QueryPart;
use vstd::prelude::*;

verus! {

/// The shorter of two optional entity lists; on a tie, the first.
pub open spec fn shorter(a: Option<Seq<Entity>>, b: Option<Seq<Entity>>) -> Option<Seq<Entity>> {
    match (a, b) {
        (_, None) => a,
        (None, Some(_)) => b,
        (Some(x), Some(y)) => if y.len() < x.len() {
            b
        } else {
            a
        },
    }
}

/// The first of two optional entity lists that is present.
pub open spec fn first_some(a: Option<Seq<Entity>>, b: Option<Seq<Entity>>) -> Option<Seq<Entity>> {
    if a is Some {
        a
    } else {
        b
    }
}

/// The smaller of two optional bounds, `None` standing for no bound.
pub open spec fn min_len(a: Option<nat>, b: Option<nat>) -> Option<nat> {
    match (a, b) {
        (None, _) => b,
        (_, None) => a,
        (Some(x), Some(y)) => if y < x {
            b
        } else {
            a
        },
    }
}

/// Grouping information of a query after adding one more part to it. A part
/// without grouping information leaves it as it is; otherwise the part's
/// storage must belong to the same group family as those before it.
pub open spec fn add_part_info<'a>(
    acc: Option<QueryGroupInfo<'a>>,
    part: Option<(usize, Option<GroupInfo<'a>>)>,
) -> Option<QueryGroupInfo<'a>> {
    match (acc, part) {
        (None, _) => None,
        (Some(a), None) => Some(a),
        (Some(QueryGroupInfo::Empty), Some((len, group_info))) => Some(
            QueryGroupInfo::Single { len, group_info },
        ),
        (Some(QueryGroupInfo::Single { group_info: Some(x), .. }), Some((_, Some(y)))) => match x.spec_combine(y) {
            Some(info) => Some(QueryGroupInfo::Multiple(info)),
            None => None,
        },
        (Some(QueryGroupInfo::Multiple(x)), Some((_, Some(y)))) => match x.spec_combine(y) {
            Some(info) => Some(QueryGroupInfo::Multiple(info)),
            None => None,
        },
        _ => None,
    }
}

/// Adds the grouping information of one more part to that of a query.
fn add_part_group_info<'a>(
    acc: Option<QueryGroupInfo<'a>>,
    part: Option<(usize, Option<GroupInfo<'a>>)>,
) -> (r: Option<QueryGroupInfo<'a>>)
    ensures
        r == add_part_info(acc, part),
{
    match (acc, part) {
        (None, _) => None,
        (Some(a), None) => Some(a),
        (Some(QueryGroupInfo::Empty), Some((len, group_info))) => Some(
            QueryGroupInfo::Single { len, group_info },
        ),
        (Some(QueryGroupInfo::Single { group_info: Some(x), .. }), Some((_, Some(y)))) => match x.combine(y) {
            Some(info) => Some(QueryGroupInfo::Multiple(info)),
            None => None,
        },
        (Some(QueryGroupInfo::Multiple(x)), Some((_, Some(y)))) => match x.combine(y) {
            Some(info) => Some(QueryGroupInfo::Multiple(info)),
            None => None,
        },
        _ => None,
    }
}

/// Returns the shorter of two optional entity slices; on a tie, the first.
pub fn shorter_slice<'a>(a: Option<&'a [Entity]>, b: Option<&'a [Entity]>) -> (r: Option<
    &'a [Entity],
>)
    ensures
        match r {
            Some(s) => shorter(slice_view(a), slice_view(b)) == Some(s@),
            None => shorter(slice_view(a), slice_view(b)) is None,
        },
        r is Some ==> (r == a || r == b),
{
    match (a, b) {
        (_, None) => a,
        (None, Some(_)) => b,
        (Some(x), Some(y)) => if y.len() < x.len() {
            b
        } else {
            a
        },
    }
}

/// The view of an optional entity slice.
pub open spec fn slice_view(s: Option<&[Entity]>) -> Option<Seq<Entity>> {
    match s {
        Some(s) => Some(s@),
        None => None,
    }
}

fn min_dense_len(a: Option<usize>, b: Option<usize>) -> (r: Option<usize>)
    ensures
        opt_nat(r) == min_len(opt_nat(a), opt_nat(b)),
{
    match (a, b) {
        (None, _) => b,
        (_, None) => a,
        (Some(x), Some(y)) => if y < x {
            b
        } else {
            a
        },
    }
}

/// An optional `usize` as an optional `nat`.
pub open spec fn opt_nat(a: Option<usize>) -> Option<nat> {
    match a {
        Some(x) => Some(x as nat),
        None => None,
    }
}

/// Whether the packed entities of `part` start with the first `n` entities of
/// `s`.
pub open spec fn part_prefix<'a, A: QueryPart<'a>>(part: &A, s: Seq<Entity>, n: nat) -> bool {
    match part.spec_entities() {
        Some(l) => n <= l.len() && n <= s.len() && l.take(n as int) == s.take(n as int),
        None => true,
    }
}

/// A part that starts with the first `n` entities of `s`, or holds no packed
/// entities, fetches the ones it matches at those dense positions.
pub proof fn lemma_part_prefix<'a, A: QueryPart<'a>>(part: &A, s: Seq<Entity>, n: nat)
    requires
        part.inv(),
        part_prefix(part, s, n),
    ensures
        forall|i: int|
            0 <= i < n && part.spec_contains(#[trigger] s[i]) ==> part.spec_get(s[i]) == Some(
                part.spec_get_dense(i, s[i]),
            ),
{
    part.lemma_part();
    assert forall|i: int| 0 <= i < n && part.spec_contains(#[trigger] s[i]) implies part.spec_get(
        s[i],
    ) == Some(part.spec_get_dense(i, s[i])) by {
        match part.spec_entities() {
            Some(l) => {
                assert(l.take(n as int)[i] == s.take(n as int)[i]);
                assert(l[i] == s[i]);
            },
            None => {
                assert(part.spec_group_info() is None);
            },
        }
    }
}

/// A set of parts fetched together.
pub trait Query<'a>: Sized {
    /// Items fetched for a matching entity.
    type Item;

    /// Slices of the dense data of the parts.
    type Slice;

    /// Whether `slice` holds the dense data of every part at positions
    /// `start..end`, `entities` being the packed entities iterated.
    spec fn spec_slice_matches(
        &self,
        slice: Self::Slice,
        entities: Seq<Entity>,
        start: int,
        end: int,
    ) -> bool;

    /// The dense data of the parts at given positions is determined by them.
    proof fn lemma_slice_unique(
        &self,
        a: Self::Slice,
        b: Self::Slice,
        entities: Seq<Entity>,
        start: int,
        end: int,
    )
        requires
            self.inv(),
            self.spec_slice_matches(a, entities, start, end),
            self.spec_slice_matches(b, entities, start, end),
        ensures
            a == b,
    ;

    /// Returns the dense data of every part at positions `start..end`, where
    /// `entities` are the packed entities iterated.
    fn slice(&self, entities: &'a [Entity], start: usize, end: usize) -> (r: Self::Slice)
        requires
            self.inv(),
            start <= end,
            end <= entities@.len(),
            self.spec_dense_len() matches Some(n) ==> end <= n,
        ensures
            self.spec_slice_matches(r, entities@, start as int, end as int),
    ;

    /// All parts are well formed.
    spec fn inv(&self) -> bool;

    /// Whether `entity` matches every part.
    spec fn spec_contains_all(&self, entity: Entity) -> bool;

    /// Whether `entity` matches no part.
    spec fn spec_contains_none(&self, entity: Entity) -> bool;

    /// The items of `entity`, when it matches every part.
    spec fn spec_get(&self, entity: Entity) -> Option<Self::Item>;

    /// The shortest list of packed entities among the parts.
    spec fn spec_entities(&self) -> Option<Seq<Entity>>;

    /// The packed entities of the first part that has them.
    spec fn spec_dense_entities(&self) -> Option<Seq<Entity>>;

    /// The items at dense position `index`, held by `entity`.
    spec fn spec_get_dense(&self, index: int, entity: Entity) -> Self::Item;

    /// Number of dense positions accepted by every part, when bounded.
    spec fn spec_dense_len(&self) -> Option<nat>;

    /// Grouping information of the query.
    spec fn spec_group_info(&self) -> Option<QueryGroupInfo<'a>>;

    /// Whether the packed entities of every part start with the first `n`
    /// entities of `s`.
    spec fn spec_prefix(&self, s: Seq<Entity>, n: nat) -> bool;

    /// When every part starts with the first `n` entities of `s` and the
    /// query is grouped, the items of those entities that match can be
    /// fetched by dense index; the packed lists of the query start with them.
    proof fn lemma_prefix(&self, s: Seq<Entity>, n: nat)
        requires
            self.inv(),
            self.spec_prefix(s, n),
            self.spec_group_info() is Some,
        ensures
            forall|i: int|
                0 <= i < n && self.spec_contains_all(#[trigger] s[i]) ==> self.spec_get(s[i]) == Some(
                    self.spec_get_dense(i, s[i]),
                ),
            self.spec_entities() matches Some(b) ==> n <= b.len() && b.take(n as int) == s.take(
                n as int,
            ),
            self.spec_dense_entities() matches Some(b) ==> n <= b.len() && b.take(n as int)
                == s.take(n as int),
    ;

    /// Items exist exactly for the entities that match every part, and the
    /// shortest list of packed entities holds all of them, once each.
    proof fn lemma_query(&self)
        requires
            self.inv(),
        ensures
            forall|e: Entity| #[trigger] self.spec_get(e) is Some <==> self.spec_contains_all(e),
            self.spec_entities() matches Some(s) ==> {
                &&& forall|e: Entity| #[trigger] self.spec_contains_all(e) ==> s.contains(e)
                &&& s.no_duplicates()
            },
            self.spec_dense_entities() matches Some(s) ==> s.no_duplicates(),
            self.spec_entities() is Some <==> self.spec_dense_entities() is Some,
    ;

    /// Returns whether `entity` matches every part.
    fn contains_all(&self, entity: Entity) -> (r: bool)
        requires
            self.inv(),
        ensures
            r == self.spec_contains_all(entity),
    ;

    /// Returns whether `entity` matches no part.
    fn contains_none(&self, entity: Entity) -> (r: bool)
        requires
            self.inv(),
        ensures
            r == self.spec_contains_none(entity),
    ;

    /// Returns the items of `entity`, if it matches every part.
    fn get(&self, entity: Entity) -> (r: Option<Self::Item>)
        requires
            self.inv(),
        ensures
            r == self.spec_get(entity),
    ;

    /// Returns the shortest list of packed entities among the parts.
    fn split_sparse(&self) -> (r: Option<&'a [Entity]>)
        requires
            self.inv(),
        ensures
            slice_view(r) == self.spec_entities(),
    ;

    /// Returns the packed entities of the first part that has them.
    fn split_dense(&self) -> (r: Option<&'a [Entity]>)
        requires
            self.inv(),
        ensures
            slice_view(r) == self.spec_dense_entities(),
    ;

    /// Returns the items at dense position `index`, held by `entity`.
    fn get_dense(&self, index: usize, entity: Entity) -> (r: Self::Item)
        requires
            self.inv(),
            self.spec_dense_len() matches Some(n) ==> index < n,
        ensures
            r == self.spec_get_dense(index as int, entity),
    ;

    /// Returns the number of dense positions accepted by every part.
    fn dense_len(&self) -> (r: Option<usize>)
        requires
            self.inv(),
        ensures
            opt_nat(r) == self.spec_dense_len(),
    ;

    /// Returns the grouping information of the query.
    fn group_info(&self) -> (r: Option<QueryGroupInfo<'a>>)
        requires
            self.inv(),
        ensures
            r == self.spec_group_info(),
    ;
}

impl<'a> Query<'a> for () {
    type Item = ();

    type Slice = ();

    open spec fn spec_slice_matches(
        &self,
        slice: (),
        entities: Seq<Entity>,
        start: int,
        end: int,
    ) -> bool {
        true
    }

    proof fn lemma_slice_unique(&self, a: (), b: (), entities: Seq<Entity>, start: int, end: int) {
    }

    fn slice(&self, entities: &'a [Entity], start: usize, end: usize) -> (r: ()) {
        ()
    }

    open spec fn inv(&self) -> bool {
        true
    }

    open spec fn spec_contains_all(&self, entity: Entity) -> bool {
        true
    }

    open spec fn spec_contains_none(&self, entity: Entity) -> bool {
        true
    }

    open spec fn spec_get(&self, entity: Entity) -> Option<()> {
        Some(())
    }

    open spec fn spec_entities(&self) -> Option<Seq<Entity>> {
        None
    }

    open spec fn spec_dense_entities(&self) -> Option<Seq<Entity>> {
        None
    }

    open spec fn spec_get_dense(&self, index: int, entity: Entity) -> () {
        ()
    }

    open spec fn spec_dense_len(&self) -> Option<nat> {
        None
    }

    open spec fn spec_group_info(&self) -> Option<QueryGroupInfo<'a>> {
        Some(QueryGroupInfo::Empty)
    }

    proof fn lemma_query(&self) {
    }

    open spec fn spec_prefix(&self, s: Seq<Entity>, n: nat) -> bool {
        true
    }

    proof fn lemma_prefix(&self, s: Seq<Entity>, n: nat) {
    }

    fn contains_all(&self, entity: Entity) -> (r: bool) {
        true
    }

    fn contains_none(&self, entity: Entity) -> (r: bool) {
        true
    }

    fn get(&self, entity: Entity) -> (r: Option<()>) {
        Some(())
    }

    fn split_sparse(&self) -> (r: Option<&'a [Entity]>) {
        None
    }

    fn split_dense(&self) -> (r: Option<&'a [Entity]>) {
        None
    }

    fn get_dense(&self, index: usize, entity: Entity) -> (r: ()) {
        ()
    }

    fn dense_len(&self) -> (r: Option<usize>) {
        None
    }

    fn group_info(&self) -> (r: Option<QueryGroupInfo<'a>>) {
        Some(QueryGroupInfo::Empty)
    }
}

impl<'a, A: QueryPart<'a>> Query<'a> for (A,) {
    type Item = (A::Item,);

    type Slice = (A::Slice,);

    open spec fn spec_slice_matches(
        &self,
        slice: (A::Slice,),
        entities: Seq<Entity>,
        start: int,
        end: int,
    ) -> bool {
        self.0.spec_slice_matches(slice.0, entities, start, end)
    }

    proof fn lemma_slice_unique(
        &self,
        a: (A::Slice,),
        b: (A::Slice,),
        entities: Seq<Entity>,
        start: int,
        end: int,
    ) {
        self.0.lemma_slice_unique(a.0, b.0, entities, start, end);
    }

    fn slice(&self, entities: &'a [Entity], start: usize, end: usize) -> (r: (A::Slice,)) {
        (self.0.slice(entities, start, end),)
    }

    open spec fn inv(&self) -> bool {
        self.0.inv()
    }

    open spec fn spec_contains_all(&self, entity: Entity) -> bool {
        self.0.spec_contains(entity)
    }

    open spec fn spec_contains_none(&self, entity: Entity) -> bool {
        !self.0.spec_contains(entity)
    }

    open spec fn spec_get(&self, entity: Entity) -> Option<(A::Item,)> {
        match self.0.spec_get(entity) {
            Some(a) => Some((a,)),
            None => None,
        }
    }

    open spec fn spec_entities(&self) -> Option<Seq<Entity>> {
        self.0.spec_entities()
    }

    open spec fn spec_dense_entities(&self) -> Option<Seq<Entity>> {
        self.0.spec_entities()
    }

    open spec fn spec_get_dense(&self, index: int, entity: Entity) -> (A::Item,) {
        (self.0.spec_get_dense(index, entity),)
    }

    open spec fn spec_dense_len(&self) -> Option<nat> {
        self.0.spec_dense_len()
    }

    open spec fn spec_group_info(&self) -> Option<QueryGroupInfo<'a>> {
        add_part_info(Some(QueryGroupInfo::Empty), self.0.spec_group_info())
    }

    proof fn lemma_query(&self) {
        self.0.lemma_part();
    }

    open spec fn spec_prefix(&self, s: Seq<Entity>, n: nat) -> bool {
        part_prefix(&self.0, s, n)
    }

    proof fn lemma_prefix(&self, s: Seq<Entity>, n: nat) {
        self.0.lemma_part();
        lemma_part_prefix(&self.0, s, n);
    }

    fn contains_all(&self, entity: Entity) -> (r: bool) {
        self.0.contains(entity)
    }

    fn contains_none(&self, entity: Entity) -> (r: bool) {
        !self.0.contains(entity)
    }

    fn get(&self, entity: Entity) -> (r: Option<(A::Item,)>) {
        match self.0.get(entity) {
            Some(a) => Some((a,)),
            None => None,
        }
    }

    fn split_sparse(&self) -> (r: Option<&'a [Entity]>) {
        self.0.entities()
    }

    fn split_dense(&self) -> (r: Option<&'a [Entity]>) {
        self.0.entities()
    }

    fn get_dense(&self, index: usize, entity: Entity) -> (r: (A::Item,)) {
        (self.0.get_dense(index, entity),)
    }

    fn dense_len(&self) -> (r: Option<usize>) {
        self.0.dense_len()
    }

    fn group_info(&self) -> (r: Option<QueryGroupInfo<'a>>) {
        add_part_group_info(Some(QueryGroupInfo::Empty), self.0.group_info())
    }
}

impl<'a, A: QueryPart<'a>, B: QueryPart<'a>> Query<'a> for (A, B) {
    type Item = (A::Item, B::Item);

    type Slice = (A::Slice, B::Slice);

    open spec fn spec_slice_matches(
        &self,
        slice: (A::Slice, B::Slice),
        entities: Seq<Entity>,
        start: int,
        end: int,
    ) -> bool {
        self.0.spec_slice_matches(slice.0, entities, start, end) && self.1.spec_slice_matches(slice.1, entities, start, end)
    }

    proof fn lemma_slice_unique(
        &self,
        a: (A::Slice, B::Slice),
        b: (A::Slice, B::Slice),
        entities: Seq<Entity>,
        start: int,
        end: int,
    ) {
        self.0.lemma_slice_unique(a.0, b.0, entities, start, end);
        self.1.lemma_slice_unique(a.1, b.1, entities, start, end);
    }

    fn slice(&self, entities: &'a [Entity], start: usize, end: usize) -> (r: (
        A::Slice,
        B::Slice,
    )) {
        (self.0.slice(entities, start, end), self.1.slice(entities, start, end))
    }

    open spec fn inv(&self) -> bool {
        self.0.inv() && self.1.inv()
    }

    open spec fn spec_contains_all(&self, entity: Entity) -> bool {
        self.0.spec_contains(entity) && self.1.spec_contains(entity)
    }

    open spec fn spec_contains_none(&self, entity: Entity) -> bool {
        !self.0.spec_contains(entity) && !self.1.spec_contains(entity)
    }

    open spec fn spec_get(&self, entity: Entity) -> Option<(A::Item, B::Item)> {
        match (self.0.spec_get(entity), self.1.spec_get(entity)) {
            (Some(a), Some(b)) => Some((a, b)),
            _ => None,
        }
    }

    open spec fn spec_entities(&self) -> Option<Seq<Entity>> {
        shorter(self.0.spec_entities(), self.1.spec_entities())
    }

    open spec fn spec_dense_entities(&self) -> Option<Seq<Entity>> {
        first_some(self.0.spec_entities(), self.1.spec_entities())
    }

    open spec fn spec_get_dense(&self, index: int, entity: Entity) -> (A::Item, B::Item) {
        (self.0.spec_get_dense(index, entity), self.1.spec_get_dense(index, entity))
    }

    open spec fn spec_dense_len(&self) -> Option<nat> {
        min_len(self.0.spec_dense_len(), self.1.spec_dense_len())
    }

    open spec fn spec_group_info(&self) -> Option<QueryGroupInfo<'a>> {
        add_part_info(
            add_part_info(Some(QueryGroupInfo::Empty), self.0.spec_group_info()),
            self.1.spec_group_info(),
        )
    }

    proof fn lemma_query(&self) {
        self.0.lemma_part();
        self.1.lemma_part();
    }

    open spec fn spec_prefix(&self, s: Seq<Entity>, n: nat) -> bool {
        part_prefix(&self.0, s, n) && part_prefix(&self.1, s, n)
    }

    proof fn lemma_prefix(&self, s: Seq<Entity>, n: nat) {
        lemma_part_prefix(&self.0, s, n);
        lemma_part_prefix(&self.1, s, n);
    }

    fn contains_all(&self, entity: Entity) -> (r: bool) {
        self.0.contains(entity) && self.1.contains(entity)
    }

    fn contains_none(&self, entity: Entity) -> (r: bool) {
        !self.0.contains(entity) && !self.1.contains(entity)
    }

    fn get(&self, entity: Entity) -> (r: Option<(A::Item, B::Item)>) {
        let a = match self.0.get(entity) {
            Some(a) => a,
            None => return None,
        };
        let b = match self.1.get(entity) {
            Some(b) => b,
            None => return None,
        };
        Some((a, b))
    }

    fn split_sparse(&self) -> (r: Option<&'a [Entity]>) {
        shorter_slice(self.0.entities(), self.1.entities())
    }

    fn split_dense(&self) -> (r: Option<&'a [Entity]>) {
        match self.0.entities() {
            Some(s) => Some(s),
            None => self.1.entities(),
        }
    }

    fn get_dense(&self, index: usize, entity: Entity) -> (r: (A::Item, B::Item)) {
        (self.0.get_dense(index, entity), self.1.get_dense(index, entity))
    }

    fn dense_len(&self) -> (r: Option<usize>) {
        min_dense_len(self.0.dense_len(), self.1.dense_len())
    }

    fn group_info(&self) -> (r: Option<QueryGroupInfo<'a>>) {
        let a = add_part_group_info(Some(QueryGroupInfo::Empty), self.0.group_info());
        add_part_group_info(a, self.1.group_info())
    }
}

impl<'a, A: QueryPart<'a>, B: QueryPart<'a>, C: QueryPart<'a>> Query<'a> for (A, B, C) {
    type Item = (A::Item, B::Item, C::Item);

    type Slice = (A::Slice, B::Slice, C::Slice);

    open spec fn spec_slice_matches(
        &self,
        slice: (A::Slice, B::Slice, C::Slice),
        entities: Seq<Entity>,
        start: int,
        end: int,
    ) -> bool {
        self.0.spec_slice_matches(slice.0, entities, start, end) && self.1.spec_slice_matches(slice.1, entities, start, end)
            && self.2.spec_slice_matches(slice.2, entities, start, end)
    }

    proof fn lemma_slice_unique(
        &self,
        a: (A::Slice, B::Slice, C::Slice),
        b: (A::Slice, B::Slice, C::Slice),
        entities: Seq<Entity>,
        start: int,
        end: int,
    ) {
        self.0.lemma_slice_unique(a.0, b.0, entities, start, end);
        self.1.lemma_slice_unique(a.1, b.1, entities, start, end);
        self.2.lemma_slice_unique(a.2, b.2, entities, start, end);
    }

    fn slice(&self, entities: &'a [Entity], start: usize, end: usize) -> (r: (
        A::Slice,
        B::Slice,
        C::Slice,
    )) {
        (self.0.slice(entities, start, end), self.1.slice(entities, start, end), self.2.slice(entities, start, end))
    }

    open spec fn inv(&self) -> bool {
        self.0.inv() && self.1.inv() && self.2.inv()
    }

    open spec fn spec_contains_all(&self, entity: Entity) -> bool {
        self.0.spec_contains(entity) && self.1.spec_contains(entity) && self.2.spec_contains(entity)
    }

    open spec fn spec_contains_none(&self, entity: Entity) -> bool {
        !self.0.spec_contains(entity) && !self.1.spec_contains(entity) && !self.2.spec_contains(
            entity,
        )
    }

    open spec fn spec_get(&self, entity: Entity) -> Option<(A::Item, B::Item, C::Item)> {
        match (self.0.spec_get(entity), self.1.spec_get(entity), self.2.spec_get(entity)) {
            (Some(a), Some(b), Some(c)) => Some((a, b, c)),
            _ => None,
        }
    }

    open spec fn spec_entities(&self) -> Option<Seq<Entity>> {
        shorter(
            shorter(self.0.spec_entities(), self.1.spec_entities()),
            self.2.spec_entities(),
        )
    }

    open spec fn spec_dense_entities(&self) -> Option<Seq<Entity>> {
        first_some(
            first_some(self.0.spec_entities(), self.1.spec_entities()),
            self.2.spec_entities(),
        )
    }

    open spec fn spec_get_dense(&self, index: int, entity: Entity) -> (A::Item, B::Item, C::Item) {
        (
            self.0.spec_get_dense(index, entity),
            self.1.spec_get_dense(index, entity),
            self.2.spec_get_dense(index, entity),
        )
    }

    open spec fn spec_dense_len(&self) -> Option<nat> {
        min_len(min_len(self.0.spec_dense_len(), self.1.spec_dense_len()), self.2.spec_dense_len())
    }

    open spec fn spec_group_info(&self) -> Option<QueryGroupInfo<'a>> {
        add_part_info(
            add_part_info(
                add_part_info(Some(QueryGroupInfo::Empty), self.0.spec_group_info()),
                self.1.spec_group_info(),
            ),
            self.2.spec_group_info(),
        )
    }

    proof fn lemma_query(&self) {
        self.0.lemma_part();
        self.1.lemma_part();
        self.2.lemma_part();
    }

    open spec fn spec_prefix(&self, s: Seq<Entity>, n: nat) -> bool {
        part_prefix(&self.0, s, n) && part_prefix(&self.1, s, n) && part_prefix(&self.2, s, n)
    }

    proof fn lemma_prefix(&self, s: Seq<Entity>, n: nat) {
        lemma_part_prefix(&self.0, s, n);
        lemma_part_prefix(&self.1, s, n);
        lemma_part_prefix(&self.2, s, n);
    }

    fn contains_all(&self, entity: Entity) -> (r: bool) {
        self.0.contains(entity) && self.1.contains(entity) && self.2.contains(entity)
    }

    fn contains_none(&self, entity: Entity) -> (r: bool) {
        !self.0.contains(entity) && !self.1.contains(entity) && !self.2.contains(entity)
    }

    fn get(&self, entity: Entity) -> (r: Option<(A::Item, B::Item, C::Item)>) {
        let a = match self.0.get(entity) {
            Some(a) => a,
            None => return None,
        };
        let b = match self.1.get(entity) {
            Some(b) => b,
            None => return None,
        };
        let c = match self.2.get(entity) {
            Some(c) => c,
            None => return None,
        };
        Some((a, b, c))
    }

    fn split_sparse(&self) -> (r: Option<&'a [Entity]>) {
        shorter_slice(shorter_slice(self.0.entities(), self.1.entities()), self.2.entities())
    }

    fn split_dense(&self) -> (r: Option<&'a [Entity]>) {
        match self.0.entities() {
            Some(s) => Some(s),
            None => match self.1.entities() {
                Some(s) => Some(s),
                None => self.2.entities(),
            },
        }
    }

    fn get_dense(&self, index: usize, entity: Entity) -> (r: (A::Item, B::Item, C::Item)) {
        (
            self.0.get_dense(index, entity),
            self.1.get_dense(index, entity),
            self.2.get_dense(index, entity),
        )
    }

    fn dense_len(&self) -> (r: Option<usize>) {
        min_dense_len(min_dense_len(self.0.dense_len(), self.1.dense_len()), self.2.dense_len())
    }

    fn group_info(&self) -> (r: Option<QueryGroupInfo<'a>>) {
        let a = add_part_group_info(Some(QueryGroupInfo::Empty), self.0.group_info());
        let ab = add_part_group_info(a, self.1.group_info());
        add_part_group_info(ab, self.2.group_info())
    }
}

/// A query of one part matches every part of it exactly when the part
/// matches, and no part of it exactly when the part does not.
pub proof fn lemma_single_contains<'a, A: QueryPart<'a>>(q: (A,), entity: Entity)
    ensures
        q.spec_contains_all(entity) <==> q.0.spec_contains(entity),
        q.spec_contains_none(entity) <==> !q.0.spec_contains(entity),
{
}

/// A query of two parts matches all of them exactly when each part matches,
/// and none of them exactly when neither part matches: an entity that one
/// part matches is not matched by none of them.
pub proof fn lemma_pair_contains<'a, A: QueryPart<'a>, B: QueryPart<'a>>(q: (A, B), entity: Entity)
    ensures
        q.spec_contains_all(entity) <==> (q.0.spec_contains(entity) && q.1.spec_contains(entity)),
        q.spec_contains_none(entity) <==> (!q.0.spec_contains(entity) && !q.1.spec_contains(entity)),
        q.0.spec_contains(entity) ==> !q.spec_contains_none(entity),
        q.1.spec_contains(entity) ==> !q.spec_contains_none(entity),
{
}

/// A query of three parts matches all of them exactly when each part
/// matches, and none of them exactly when no part matches.
pub proof fn lemma_triple_contains<'a, A: QueryPart<'a>, B: QueryPart<'a>, C: QueryPart<'a>>(
    q: (A, B, C),
    entity: Entity,
)
    ensures
        q.spec_contains_all(entity) <==> (q.0.spec_contains(entity) && q.1.spec_contains(entity)
            && q.2.spec_contains(entity)),
        q.spec_contains_none(entity) <==> (!q.0.spec_contains(entity) && !q.1.spec_contains(entity)
            && !q.2.spec_contains(entity)),
{
}

/// The storage bits of a part's grouping information; none for a part
/// without a family.
pub open spec fn info_mask<'a>(info: Option<(usize, Option<GroupInfo<'a>>)>) -> u64 {
    match info {
        Some((_, Some(g))) => g.mask,
        _ => 0,
    }
}

/// Whether a part can take part in a grouping of the family of `x`: it places
/// no constraint on grouping, or its storage belongs to that family.
pub open spec fn info_in_family<'a>(info: Option<(usize, Option<GroupInfo<'a>>)>, x: GroupInfo<'a>) -> bool {
    match info {
        None => true,
        Some((_, Some(g))) => g.family.id == x.family.id,
        Some((_, None)) => false,
    }
}

/// A query of one part is grouped as its part: alone, as a single storage,
/// and not at all when the part places no constraint.
pub proof fn lemma_single_group_info<'a, A: QueryPart<'a>>(q: (A,))
    ensures
        match q.0.spec_group_info() {
            None => q.spec_group_info() == Some(QueryGroupInfo::<'a>::Empty),
            Some((len, group_info)) => q.spec_group_info() == Some(
                QueryGroupInfo::Single { len, group_info },
            ),
        },
{
}

/// A query of two parts is grouped only if every part that holds a storage
/// belongs to one family: a single storage when one part holds one, and the
/// union of their storage bits when both do.
pub proof fn lemma_pair_group_info<'a, A: QueryPart<'a>, B: QueryPart<'a>>(q: (A, B))
    ensures
        ({
            let a = q.0.spec_group_info();
            let b = q.1.spec_group_info();
            match q.spec_group_info() {
                Some(QueryGroupInfo::Multiple(x)) => {
                    &&& a is Some && b is Some
                    &&& info_in_family(a, x) && info_in_family(b, x)
                    &&& x.mask == info_mask(a) | info_mask(b)
                },
                Some(QueryGroupInfo::Single { len, group_info }) => (a == Some((len, group_info))
                    && b is None) || (a is None && b == Some((len, group_info))),
                Some(QueryGroupInfo::Empty) => a is None && b is None,
                None => true,
            }
        }),
{
}

/// A query of three parts is grouped only if every part that holds a storage
/// belongs to one family: a single storage when one part holds one, and the
/// union of their storage bits when more do.
pub proof fn lemma_triple_group_info<'a, A: QueryPart<'a>, B: QueryPart<'a>, C: QueryPart<'a>>(
    q: (A, B, C),
)
    ensures
        ({
            let a = q.0.spec_group_info();
            let b = q.1.spec_group_info();
            let c = q.2.spec_group_info();
            match q.spec_group_info() {
                Some(QueryGroupInfo::Multiple(x)) => {
                    &&& info_in_family(a, x) && info_in_family(b, x) && info_in_family(c, x)
                    &&& x.mask == info_mask(a) | info_mask(b) | info_mask(c)
                },
                Some(QueryGroupInfo::Single { len, group_info }) => {
                    ||| (a == Some((len, group_info)) && b is None && c is None)
                    ||| (a is None && b == Some((len, group_info)) && c is None)
                    ||| (a is None && b is None && c == Some((len, group_info)))
                },
                Some(QueryGroupInfo::Empty) => a is None && b is None && c is None,
                None => true,
            }
        }),
{
    assert(forall|m: u64| #![trigger m | 0u64] m | 0u64 == m && 0u64 | m == m) by (bit_vector);
    assert(forall|m: u64, n: u64| #![trigger m | n] (m | 0u64) | n == m | n && (0u64 | m) | n == m | n)
        by (bit_vector);
}

} // verus!
