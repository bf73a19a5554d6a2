//! Iterators over the items of a query: sparse iteration walks a list of
//! packed entities and probes every view; dense iteration walks a range of
//! dense indexes of grouped storages.
use crate::entity::Entity;
use crate::query::query::Query;
use crate::query::query_filter::QueryFilter;
use vstd::prelude::*;

verus! {

/// Whether `entity` matches a query: it has none of the excluded parts, all
/// of the included parts and all of the fetched parts.
pub open spec fn spec_matches<'a, G: Query<'a>, I: Query<'a>, E: Query<'a>>(
    get: &G,
    incl: &I,
    exclude: &E,
    entity: Entity,
) -> bool {
    exclude.spec_contains_none(entity) && incl.spec_contains_all(entity) && get.spec_contains_all(
        entity,
    )
}

/// The item fetched for `entity` by a query, if it matches.
pub open spec fn spec_item<'a, G: Query<'a>, I: Query<'a>, E: Query<'a>>(
    get: &G,
    incl: &I,
    exclude: &E,
    entity: Entity,
) -> Option<G::Item> {
    if exclude.spec_contains_none(entity) && incl.spec_contains_all(entity) {
        get.spec_get(entity)
    } else {
        None
    }
}

/// The matching entities of `s` and their items, in the order of `s`.
pub open spec fn spec_sparse_pairs<'a, G: Query<'a>, I: Query<'a>, E: Query<'a>>(
    get: &G,
    incl: &I,
    exclude: &E,
    s: Seq<Entity>,
) -> Seq<(Entity, G::Item)>
    decreases s.len(),
{
    if s.len() == 0 {
        Seq::empty()
    } else {
        let rest = spec_sparse_pairs(get, incl, exclude, s.skip(1));
        match spec_item(get, incl, exclude, s[0]) {
            Some(x) => seq![(s[0], x)] + rest,
            None => rest,
        }
    }
}

/// The entities of `s[start..end]` that match every fetched part, in order,
/// and their items fetched by dense index.
pub open spec fn spec_dense_pairs<'a, G: Query<'a>>(
    get: &G,
    s: Seq<Entity>,
    start: int,
    end: int,
) -> Seq<(Entity, G::Item)>
    decreases end - start,
{
    if end <= start {
        Seq::empty()
    } else {
        let rest = spec_dense_pairs(get, s, start + 1, end);
        if get.spec_contains_all(s[start]) {
            seq![(s[start], get.spec_get_dense(start, s[start]))] + rest
        } else {
            rest
        }
    }
}

/// Dense iteration over positions whose entities all match every fetched
/// part yields every position of the range.
pub proof fn lemma_dense_pairs_all<'a, G: Query<'a>>(get: &G, s: Seq<Entity>, start: int, end: int)
    requires
        start <= end,
        forall|k: int| start <= k < end ==> get.spec_contains_all(#[trigger] s[k]),
    ensures
        spec_dense_pairs(get, s, start, end) == Seq::new(
            (end - start) as nat,
            |k: int| (s[start + k], get.spec_get_dense(start + k, s[start + k])),
        ),
    decreases end - start,
{
    if start < end {
        lemma_dense_pairs_all(get, s, start + 1, end);
        assert(get.spec_contains_all(s[start]));
        assert(spec_dense_pairs(get, s, start, end) =~= Seq::new(
            (end - start) as nat,
            |k: int| (s[start + k], get.spec_get_dense(start + k, s[start + k])),
        ));
    } else {
        assert(spec_dense_pairs(get, s, start, end) =~= Seq::new(
            (end - start) as nat,
            |k: int| (s[start + k], get.spec_get_dense(start + k, s[start + k])),
        ));
    }
}

/// Dense iteration over distinct entities yields entities of the range,
/// each at most once.
pub proof fn lemma_dense_pairs_distinct<'a, G: Query<'a>>(
    get: &G,
    s: Seq<Entity>,
    start: int,
    end: int,
)
    requires
        0 <= start,
        end <= s.len(),
        s.no_duplicates(),
    ensures
        spec_pair_entities(spec_dense_pairs(get, s, start, end)).no_duplicates(),
        forall|x: Entity|
            #[trigger] spec_pair_entities(spec_dense_pairs(get, s, start, end)).contains(x) ==> exists|
                k: int,
            |
                start <= k < end && s[k] == x,
    decreases end - start,
{
    let pairs = spec_dense_pairs(get, s, start, end);
    if start >= end {
        assert(spec_pair_entities(pairs) =~= Seq::<Entity>::empty());
    } else {
        lemma_dense_pairs_distinct(get, s, start + 1, end);
        let rest = spec_dense_pairs(get, s, start + 1, end);
        if get.spec_contains_all(s[start]) {
            let p = (s[start], get.spec_get_dense(start, s[start]));
            assert(pairs == seq![p] + rest);
            assert(spec_pair_entities(pairs) =~= seq![s[start]] + spec_pair_entities(rest));
            assert(!spec_pair_entities(rest).contains(s[start])) by {
                if spec_pair_entities(rest).contains(s[start]) {
                    let k = choose|k: int| start + 1 <= k < end && s[k] == s[start];
                    assert(s[k] == s[start]);
                }
            }
            assert forall|x: Entity| #[trigger]
                spec_pair_entities(pairs).contains(x) implies exists|k: int|
                start <= k < end && s[k] == x by {
                if x != s[start] {
                    let i = choose|i: int|
                        0 <= i < spec_pair_entities(pairs).len() && spec_pair_entities(pairs)[i] == x;
                    assert(spec_pair_entities(rest)[i - 1] == x);
                    assert(spec_pair_entities(rest).contains(x));
                    let k = choose|k: int| start + 1 <= k < end && s[k] == x;
                    assert(start <= k < end && s[k] == x);
                } else {
                    assert(start <= start < end && s[start] == x);
                }
            }
        } else {
            assert(pairs == rest);
            assert forall|x: Entity| #[trigger]
                spec_pair_entities(pairs).contains(x) implies exists|k: int|
                start <= k < end && s[k] == x by {
                let k = choose|k: int| start + 1 <= k < end && s[k] == x;
                assert(start <= k < end && s[k] == x);
            }
        }
    }
}

/// The pair dense iteration yields at position `k`, if the entity there
/// matches every fetched part.
pub open spec fn spec_dense_probe<'a, G: Query<'a>>(get: &G, s: Seq<Entity>, k: int) -> Seq<
    (Entity, G::Item),
> {
    if get.spec_contains_all(s[k]) {
        seq![(s[k], get.spec_get_dense(k, s[k]))]
    } else {
        Seq::empty()
    }
}

/// Dense iteration up to one more position yields what it yielded before,
/// followed by what that position gives.
pub proof fn lemma_dense_pairs_extend<'a, G: Query<'a>>(get: &G, s: Seq<Entity>, start: int, m: int)
    requires
        start <= m,
    ensures
        spec_dense_pairs(get, s, start, m + 1) == spec_dense_pairs(get, s, start, m) + spec_dense_probe(
            get,
            s,
            m,
        ),
    decreases m - start,
{
    if start == m {
        assert(spec_dense_pairs(get, s, m + 1, m + 1) =~= Seq::<(Entity, G::Item)>::empty());
        assert(spec_dense_pairs(get, s, m, m) =~= Seq::<(Entity, G::Item)>::empty());
        assert(spec_dense_pairs(get, s, start, m + 1) =~= spec_dense_pairs(get, s, start, m)
            + spec_dense_probe(get, s, m));
    } else {
        lemma_dense_pairs_extend(get, s, start + 1, m);
        if get.spec_contains_all(s[start]) {
            let p = (s[start], get.spec_get_dense(start, s[start]));
            assert(seq![p] + (spec_dense_pairs(get, s, start + 1, m) + spec_dense_probe(get, s, m))
                =~= (seq![p] + spec_dense_pairs(get, s, start + 1, m)) + spec_dense_probe(get, s, m));
        }
    }
}

/// Dense iteration yields at most one pair per position.
pub proof fn lemma_dense_pairs_len<'a, G: Query<'a>>(get: &G, s: Seq<Entity>, start: int, end: int)
    ensures
        start <= end ==> spec_dense_pairs(get, s, start, end).len() <= end - start,
        end <= start ==> spec_dense_pairs(get, s, start, end).len() == 0,
    decreases end - start,
{
    if start < end {
        lemma_dense_pairs_len(get, s, start + 1, end);
    }
}

/// The items of a sequence of pairs.
pub open spec fn spec_items<T>(pairs: Seq<(Entity, T)>) -> Seq<T> {
    pairs.map_values(|p: (Entity, T)| p.1)
}

/// The entities of a sequence of pairs.
pub open spec fn spec_pair_entities<T>(pairs: Seq<(Entity, T)>) -> Seq<Entity> {
    pairs.map_values(|p: (Entity, T)| p.0)
}

/// Sparse iteration over `s` yields each entity of `s` that matches, once per
/// occurrence in `s`, with its items, and nothing else.
pub proof fn lemma_sparse_pairs<'a, G: Query<'a>, I: Query<'a>, E: Query<'a>>(
    get: &G,
    incl: &I,
    exclude: &E,
    s: Seq<Entity>,
)
    ensures
        forall|k: int|
            0 <= k < spec_sparse_pairs(get, incl, exclude, s).len() ==> spec_item(
                get,
                incl,
                exclude,
                #[trigger] spec_sparse_pairs(get, incl, exclude, s)[k].0,
            ) == Some(spec_sparse_pairs(get, incl, exclude, s)[k].1),
        forall|e: Entity|
            #[trigger] spec_pair_entities(spec_sparse_pairs(get, incl, exclude, s)).contains(e) <==> (
            s.contains(e) && spec_item(get, incl, exclude, e) is Some),
        s.no_duplicates() ==> spec_pair_entities(
            spec_sparse_pairs(get, incl, exclude, s),
        ).no_duplicates(),
    decreases s.len(),
{
    let pairs = spec_sparse_pairs(get, incl, exclude, s);
    if s.len() == 0 {
        assert(spec_pair_entities(pairs) =~= Seq::<Entity>::empty());
    } else {
        let rest = s.skip(1);
        lemma_sparse_pairs(get, incl, exclude, rest);
        let rp = spec_sparse_pairs(get, incl, exclude, rest);
        assert(forall|e: Entity| s.contains(e) <==> (e == s[0] || rest.contains(e))) by {
            assert forall|e: Entity| s.contains(e) implies (e == s[0] || rest.contains(e)) by {
                let k = choose|k: int| 0 <= k < s.len() && s[k] == e;
                if k > 0 {
                    assert(rest[k - 1] == e);
                }
            }
            assert forall|e: Entity| rest.contains(e) implies s.contains(e) by {
                let k = choose|k: int| 0 <= k < rest.len() && rest[k] == e;
                assert(s[k + 1] == e);
            }
        }
        match spec_item(get, incl, exclude, s[0]) {
            Some(x) => {
                assert(pairs == seq![(s[0], x)] + rp);
                assert(spec_pair_entities(pairs) =~= seq![s[0]] + spec_pair_entities(rp));
                assert forall|k: int|
                    0 <= k < pairs.len() implies spec_item(get, incl, exclude, #[trigger] pairs[k].0)
                        == Some(pairs[k].1) by {
                    if k > 0 {
                        assert(pairs[k] == rp[k - 1]);
                    }
                }
                assert forall|e: Entity|
                    #[trigger] spec_pair_entities(pairs).contains(e) <==> (s.contains(e)
                        && spec_item(get, incl, exclude, e) is Some) by {
                    if spec_pair_entities(pairs).contains(e) && e != s[0] {
                        let k = choose|k: int| 0 <= k < spec_pair_entities(pairs).len() && spec_pair_entities(pairs)[k] == e;
                        assert(spec_pair_entities(rp)[k - 1] == e);
                        assert(spec_pair_entities(rp).contains(e));
                        assert(rest.contains(e));
                    }
                    if e == s[0] {
                        assert(s[0] == e);
                        assert(s.contains(e));
                    }
                    if rest.contains(e) && spec_item(get, incl, exclude, e) is Some {
                        assert(spec_pair_entities(rp).contains(e));
                        let k = choose|k: int| 0 <= k < spec_pair_entities(rp).len() && spec_pair_entities(rp)[k] == e;
                        assert(spec_pair_entities(pairs)[k + 1] == e);
                    }
                    if e == s[0] && spec_item(get, incl, exclude, e) is Some {
                        assert(spec_pair_entities(pairs)[0] == e);
                    }
                }
                if s.no_duplicates() {
                    assert(rest.no_duplicates());
                    assert(!rest.contains(s[0]));
                    assert(!spec_pair_entities(rp).contains(s[0]));
                }
            },
            None => {
                assert(pairs == rp);
            },
        }
    }
}

/// Sparse iteration over two lists in a row yields the items of the first,
/// then those of the second.
pub proof fn lemma_sparse_pairs_append<'a, G: Query<'a>, I: Query<'a>, E: Query<'a>>(
    get: &G,
    incl: &I,
    exclude: &E,
    a: Seq<Entity>,
    c: Seq<Entity>,
)
    ensures
        spec_sparse_pairs(get, incl, exclude, a + c) == spec_sparse_pairs(get, incl, exclude, a)
            + spec_sparse_pairs(get, incl, exclude, c),
    decreases a.len(),
{
    if a.len() == 0 {
        assert(a + c =~= c);
        assert(spec_sparse_pairs(get, incl, exclude, a) =~= Seq::<(Entity, G::Item)>::empty());
        assert(Seq::<(Entity, G::Item)>::empty() + spec_sparse_pairs(get, incl, exclude, c)
            =~= spec_sparse_pairs(get, incl, exclude, c));
    } else {
        lemma_sparse_pairs_append(get, incl, exclude, a.skip(1), c);
        assert((a + c).skip(1) =~= a.skip(1) + c);
        assert((a + c)[0] == a[0]);
        match spec_item(get, incl, exclude, a[0]) {
            Some(x) => {
                assert(seq![(a[0], x)] + (spec_sparse_pairs(get, incl, exclude, a.skip(1))
                    + spec_sparse_pairs(get, incl, exclude, c)) =~= (seq![(a[0], x)]
                    + spec_sparse_pairs(get, incl, exclude, a.skip(1))) + spec_sparse_pairs(
                    get,
                    incl,
                    exclude,
                    c,
                ));
            },
            None => {},
        }
    }
}

/// Sparse iteration over entities that do not match yields nothing.
pub proof fn lemma_sparse_pairs_none<'a, G: Query<'a>, I: Query<'a>, E: Query<'a>>(
    get: &G,
    incl: &I,
    exclude: &E,
    s: Seq<Entity>,
)
    requires
        forall|k: int| 0 <= k < s.len() ==> spec_item(get, incl, exclude, #[trigger] s[k]) is None,
    ensures
        spec_sparse_pairs(get, incl, exclude, s) == Seq::<(Entity, G::Item)>::empty(),
    decreases s.len(),
{
    if s.len() > 0 {
        assert forall|k: int| 0 <= k < s.skip(1).len() implies spec_item(
            get,
            incl,
            exclude,
            #[trigger] s.skip(1)[k],
        ) is None by {
            assert(s.skip(1)[k] == s[k + 1]);
        }
        lemma_sparse_pairs_none(get, incl, exclude, s.skip(1));
    }
}

/// Sparse iteration over entities that all match, held at dense positions
/// `start..`, yields what dense iteration over those positions yields.
pub proof fn lemma_sparse_pairs_all<'a, G: Query<'a>, I: Query<'a>, E: Query<'a>>(
    get: &G,
    incl: &I,
    exclude: &E,
    s: Seq<Entity>,
    start: int,
)
    requires
        forall|k: int|
            0 <= k < s.len() ==> spec_item(get, incl, exclude, #[trigger] s[k]) == Some(
                get.spec_get_dense(start + k, s[k]),
            ),
    ensures
        spec_sparse_pairs(get, incl, exclude, s) == Seq::new(
            s.len(),
            |k: int| (s[k], get.spec_get_dense(start + k, s[k])),
        ),
    decreases s.len(),
{
    if s.len() == 0 {
        assert(spec_sparse_pairs(get, incl, exclude, s) =~= Seq::new(
            s.len(),
            |k: int| (s[k], get.spec_get_dense(start + k, s[k])),
        ));
    } else {
        let t = s.skip(1);
        assert forall|k: int| 0 <= k < t.len() implies spec_item(get, incl, exclude, #[trigger] t[k])
            == Some(get.spec_get_dense((start + 1) + k, t[k])) by {
            assert(t[k] == s[k + 1]);
        }
        lemma_sparse_pairs_all(get, incl, exclude, t, start + 1);
        assert(spec_item(get, incl, exclude, s[0]) == Some(get.spec_get_dense(start + 0, s[0])));
        assert(spec_sparse_pairs(get, incl, exclude, s) =~= Seq::new(
            s.len(),
            |k: int| (s[k], get.spec_get_dense(start + k, s[k])),
        ));
    }
}

proof fn lemma_sparse_pairs_step<'a, G: Query<'a>, I: Query<'a>, E: Query<'a>>(
    get: &G,
    incl: &I,
    exclude: &E,
    s: Seq<Entity>,
    k: int,
)
    requires
        0 <= k < s.len(),
    ensures
        spec_sparse_pairs(get, incl, exclude, s.skip(k)) == match spec_item(
            get,
            incl,
            exclude,
            s[k],
        ) {
            Some(x) => seq![(s[k], x)] + spec_sparse_pairs(get, incl, exclude, s.skip(k + 1)),
            None => spec_sparse_pairs(get, incl, exclude, s.skip(k + 1)),
        },
{
    assert(s.skip(k).skip(1) =~= s.skip(k + 1));
    assert(s.skip(k)[0] == s[k]);
}

/// The pairs of `pairs` whose entity matches `filter`, in order.
pub open spec fn spec_filter_pairs<T, F: QueryFilter>(filter: &F, pairs: Seq<(Entity, T)>) -> Seq<
    (Entity, T),
>
    decreases pairs.len(),
{
    if pairs.len() == 0 {
        Seq::empty()
    } else {
        let rest = spec_filter_pairs(filter, pairs.skip(1));
        if filter.spec_matches(pairs[0].0) {
            seq![pairs[0]] + rest
        } else {
            rest
        }
    }
}

/// Filtering a pair put in front of a sequence keeps it exactly when its
/// entity matches.
pub proof fn lemma_filter_pairs_prepend<T, F: QueryFilter>(
    filter: &F,
    p: (Entity, T),
    rest: Seq<(Entity, T)>,
)
    ensures
        spec_filter_pairs(filter, seq![p] + rest) == if filter.spec_matches(p.0) {
            seq![p] + spec_filter_pairs(filter, rest)
        } else {
            spec_filter_pairs(filter, rest)
        },
{
    assert((seq![p] + rest).skip(1) =~= rest);
    assert((seq![p] + rest)[0] == p);
}

/// A filter that matches every entity keeps every pair.
pub proof fn lemma_filter_pairs_all<T, F: QueryFilter>(filter: &F, pairs: Seq<(Entity, T)>)
    requires
        forall|e: Entity| #[trigger] filter.spec_matches(e),
    ensures
        spec_filter_pairs(filter, pairs) == pairs,
    decreases pairs.len(),
{
    if pairs.len() > 0 {
        lemma_filter_pairs_all(filter, pairs.skip(1));
        assert(filter.spec_matches(pairs[0].0));
        assert(seq![pairs[0]] + pairs.skip(1) =~= pairs);
    }
}

/// Iterator over the items of an ungrouped query: walks a list of packed
/// entities and yields the items of those that match the entity filter and
/// the query.
pub struct SparseIter<'q, 'a, G: Query<'a>, I: Query<'a>, E: Query<'a>, F: QueryFilter> {
    entities: &'a [Entity],
    get: &'q G,
    incl: &'q I,
    exclude: &'q E,
    filter: F,
    index: usize,
}

impl<'q, 'a, G: Query<'a>, I: Query<'a>, E: Query<'a>, F: QueryFilter> SparseIter<
    'q,
    'a,
    G,
    I,
    E,
    F,
> {
    #[verifier::type_invariant]
    spec fn type_inv(self) -> bool {
        &&& self.index <= self.entities@.len()
        &&& self.get.inv()
        &&& self.incl.inv()
        &&& self.exclude.inv()
    }

    /// The entities and items that remain to be yielded.
    pub closed spec fn spec_remaining(&self) -> Seq<(Entity, G::Item)> {
        spec_filter_pairs(
            &self.filter,
            spec_sparse_pairs(self.get, self.incl, self.exclude, self.entities@.skip(self.index as int)),
        )
    }

    /// The list of packed entities the iterator walks.
    pub closed spec fn spec_entities(&self) -> Seq<Entity> {
        self.entities@
    }

    /// The number of entities of the list already probed.
    pub closed spec fn spec_position(&self) -> nat {
        self.index as nat
    }

    /// Creates an iterator over the entities of `entities` that match
    /// `filter` and the query made of `get`, `incl` and `exclude`.
    pub fn new(entities: &'a [Entity], get: &'q G, incl: &'q I, exclude: &'q E, filter: F) -> (it:
        Self)
        requires
            get.inv(),
            incl.inv(),
            exclude.inv(),
        ensures
            it.spec_remaining() == spec_filter_pairs(
                &filter,
                spec_sparse_pairs(get, incl, exclude, entities@),
            ),
            it.spec_entities() == entities@,
            it.spec_position() == 0,
    {
        let it = SparseIter { entities, get, incl, exclude, filter, index: 0 };
        assert(entities@.skip(0) =~= entities@);
        it
    }

    /// Yields the next entity that matches the filter and the query, and its
    /// items.
    pub fn next_with_entity(&mut self) -> (r: Option<(Entity, G::Item)>)
        ensures
            match r {
                Some(p) => old(self).spec_remaining() == seq![p] + final(self).spec_remaining(),
                None => old(self).spec_remaining() == Seq::<(Entity, G::Item)>::empty()
                    && final(self).spec_remaining() == Seq::<(Entity, G::Item)>::empty(),
            },
            final(self).spec_entities() == old(self).spec_entities(),
            old(self).spec_position() <= final(self).spec_position() <= final(self).spec_entities().len(),
    {
        proof {
            use_type_invariant(&*self);
        }
        let ghost start = self.spec_remaining();
        loop
            invariant
                self.spec_remaining() == start,
                self.index <= self.entities@.len(),
                self.get.inv(),
                self.incl.inv(),
                self.exclude.inv(),
                start == old(self).spec_remaining(),
                self.entities@ == old(self).spec_entities(),
                old(self).spec_position() <= self.index,
            decreases self.entities@.len() - self.index,
        {
            if self.index >= self.entities.len() {
                assert(self.entities@.skip(self.index as int) =~= Seq::<Entity>::empty());
                return None;
            }
            let entity = self.entities[self.index];
            proof {
                lemma_sparse_pairs_step(
                    self.get,
                    self.incl,
                    self.exclude,
                    self.entities@,
                    self.index as int,
                );
                let rest = spec_sparse_pairs(
                    self.get,
                    self.incl,
                    self.exclude,
                    self.entities@.skip(self.index + 1),
                );
                match spec_item(self.get, self.incl, self.exclude, entity) {
                    Some(x) => lemma_filter_pairs_prepend(&self.filter, (entity, x), rest),
                    None => {},
                }
            }
            self.index = self.index + 1;
            if self.filter.matches(entity) && self.exclude.contains_none(entity)
                && self.incl.contains_all(entity) {
                match self.get.get(entity) {
                    Some(item) => {
                        return Some((entity, item));
                    },
                    None => {},
                }
            }
        }
    }

    /// Yields the items of the next entity that matches the filter and the
    /// query.
    pub fn next(&mut self) -> (r: Option<G::Item>)
        ensures
            match r {
                Some(x) => old(self).spec_remaining().len() > 0 && old(self).spec_remaining()[0].1
                    == x && final(self).spec_remaining() == old(self).spec_remaining().skip(1),
                None => old(self).spec_remaining() == Seq::<(Entity, G::Item)>::empty()
                    && final(self).spec_remaining() == Seq::<(Entity, G::Item)>::empty(),
            },
            final(self).spec_entities() == old(self).spec_entities(),
            old(self).spec_position() <= final(self).spec_position() <= final(self).spec_entities().len(),
    {
        match self.next_with_entity() {
            Some((e, x)) => {
                assert(old(self).spec_remaining().skip(1) =~= self.spec_remaining());
                Some(x)
            },
            None => None,
        }
    }
}

/// Iterator over the items of a grouped query: walks a range of dense
/// indexes and yields those whose entity matches the entity filter and
/// every fetched part.
pub struct DenseIter<'q, 'a, G: Query<'a>, F: QueryFilter> {
    entities: &'a [Entity],
    get: &'q G,
    filter: F,
    index: usize,
    end: usize,
}

impl<'q, 'a, G: Query<'a>, F: QueryFilter> DenseIter<'q, 'a, G, F> {
    #[verifier::type_invariant]
    spec fn type_inv(self) -> bool {
        &&& self.index <= self.end
        &&& self.end <= self.entities@.len()
        &&& self.get.inv()
        &&& self.get.spec_dense_len() matches Some(n) ==> self.end <= n
    }

    /// The entities and items that remain to be yielded.
    pub closed spec fn spec_remaining(&self) -> Seq<(Entity, G::Item)> {
        spec_filter_pairs(
            &self.filter,
            spec_dense_pairs(self.get, self.entities@, self.index as int, self.end as int),
        )
    }

    /// The packed entities whose dense positions the iterator walks.
    pub closed spec fn spec_entities(&self) -> Seq<Entity> {
        self.entities@
    }

    /// The next dense position to probe.
    pub closed spec fn spec_position(&self) -> nat {
        self.index as nat
    }

    /// The end of the range of dense positions.
    pub closed spec fn spec_end(&self) -> nat {
        self.end as nat
    }

    /// Creates an iterator over the dense indexes `start..end` whose
    /// entities, held by `entities` at those positions, match `filter` and
    /// every part of `get`.
    pub fn new(start: usize, end: usize, entities: &'a [Entity], get: &'q G, filter: F) -> (it:
        Self)
        requires
            start <= end <= entities@.len(),
            get.inv(),
            get.spec_dense_len() matches Some(n) ==> end <= n,
        ensures
            it.spec_remaining() == spec_filter_pairs(
                &filter,
                spec_dense_pairs(get, entities@, start as int, end as int),
            ),
            it.spec_entities() == entities@,
            it.spec_position() == start,
            it.spec_end() == end,
    {
        DenseIter { entities, get, filter, index: start, end }
    }

    /// Yields the next entity that matches the filter and the fetched parts,
    /// and its items.
    pub fn next_with_entity(&mut self) -> (r: Option<(Entity, G::Item)>)
        ensures
            match r {
                Some(p) => old(self).spec_remaining() == seq![p] + final(self).spec_remaining(),
                None => old(self).spec_remaining() == Seq::<(Entity, G::Item)>::empty()
                    && final(self).spec_remaining() == Seq::<(Entity, G::Item)>::empty(),
            },
            final(self).spec_entities() == old(self).spec_entities(),
            final(self).spec_end() == old(self).spec_end(),
            old(self).spec_position() <= final(self).spec_position() <= final(self).spec_end(),
    {
        proof {
            use_type_invariant(&*self);
        }
        let ghost start = self.spec_remaining();
        loop
            invariant
                self.spec_remaining() == start,
                self.index <= self.end,
                self.end <= self.entities@.len(),
                self.get.inv(),
                self.get.spec_dense_len() matches Some(n) ==> self.end <= n,
                start == old(self).spec_remaining(),
                self.entities@ == old(self).spec_entities(),
                self.end == old(self).spec_end(),
                old(self).spec_position() <= self.index,
            decreases self.end - self.index,
        {
            if self.index >= self.end {
                assert(spec_dense_pairs(
                    self.get,
                    self.entities@,
                    self.index as int,
                    self.end as int,
                ) =~= Seq::<(Entity, G::Item)>::empty());
                return None;
            }
            let index = self.index;
            let entity = self.entities[index];
            proof {
                let ghost rest = spec_dense_pairs(
                    self.get,
                    self.entities@,
                    index + 1,
                    self.end as int,
                );
                let ghost p = (entity, self.get.spec_get_dense(index as int, entity));
                lemma_filter_pairs_prepend(&self.filter, p, rest);
            }
            self.index = index + 1;
            if self.filter.matches(entity) && self.get.contains_all(entity) {
                let item = self.get.get_dense(index, entity);
                return Some((entity, item));
            }
        }
    }

    /// Yields the items at the next dense index whose entity matches the
    /// filter and the fetched parts.
    pub fn next(&mut self) -> (r: Option<G::Item>)
        ensures
            match r {
                Some(x) => old(self).spec_remaining().len() > 0 && old(self).spec_remaining()[0].1
                    == x && final(self).spec_remaining() == old(self).spec_remaining().skip(1),
                None => old(self).spec_remaining() == Seq::<(Entity, G::Item)>::empty()
                    && final(self).spec_remaining() == Seq::<(Entity, G::Item)>::empty(),
            },
            final(self).spec_entities() == old(self).spec_entities(),
            final(self).spec_end() == old(self).spec_end(),
            old(self).spec_position() <= final(self).spec_position() <= final(self).spec_end(),
    {
        match self.next_with_entity() {
            Some((e, x)) => {
                assert(old(self).spec_remaining().skip(1) =~= self.spec_remaining());
                Some(x)
            },
            None => None,
        }
    }
}

/// Iterator over the items of a query, sparse or dense.
pub enum Iter<'q, 'a, G: Query<'a>, I: Query<'a>, E: Query<'a>, F: QueryFilter> {
    /// Walks a list of packed entities.
    Sparse(SparseIter<'q, 'a, G, I, E, F>),
    /// Walks a range of dense indexes.
    Dense(DenseIter<'q, 'a, G, F>),
}

impl<'q, 'a, G: Query<'a>, I: Query<'a>, E: Query<'a>, F: QueryFilter> Iter<'q, 'a, G, I, E, F> {
    /// The entities and items that remain to be yielded.
    pub open spec fn spec_remaining(&self) -> Seq<(Entity, G::Item)> {
        match self {
            Iter::Sparse(it) => it.spec_remaining(),
            Iter::Dense(it) => it.spec_remaining(),
        }
    }

    /// Returns whether the iterator walks a list of packed entities.
    pub fn is_sparse(&self) -> (b: bool)
        ensures
            b == self is Sparse,
    {
        match self {
            Iter::Sparse(_) => true,
            Iter::Dense(_) => false,
        }
    }

    /// Returns whether the iterator walks a range of dense indexes.
    pub fn is_dense(&self) -> (b: bool)
        ensures
            b == self is Dense,
    {
        match self {
            Iter::Sparse(_) => false,
            Iter::Dense(_) => true,
        }
    }

    /// Yields the next matching entity and its items.
    pub fn next_with_entity(&mut self) -> (r: Option<(Entity, G::Item)>)
        ensures
            match r {
                Some(p) => old(self).spec_remaining() == seq![p] + final(self).spec_remaining(),
                None => old(self).spec_remaining() == Seq::<(Entity, G::Item)>::empty()
                    && final(self).spec_remaining() == Seq::<(Entity, G::Item)>::empty(),
            },
    {
        match self {
            Iter::Sparse(it) => it.next_with_entity(),
            Iter::Dense(it) => it.next_with_entity(),
        }
    }

    /// Yields the items of the next matching entity.
    pub fn next(&mut self) -> (r: Option<G::Item>)
        ensures
            match r {
                Some(x) => old(self).spec_remaining().len() > 0 && old(self).spec_remaining()[0].1
                    == x && final(self).spec_remaining() == old(self).spec_remaining().skip(1),
                None => old(self).spec_remaining() == Seq::<(Entity, G::Item)>::empty()
                    && final(self).spec_remaining() == Seq::<(Entity, G::Item)>::empty(),
            },
    {
        match self.next_with_entity() {
            Some((e, x)) => {
                assert(old(self).spec_remaining().skip(1) =~= self.spec_remaining());
                Some(x)
            },
            None => None,
        }
    }
}

} // verus!
