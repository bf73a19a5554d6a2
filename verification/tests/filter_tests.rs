use sparsey::entity::Entity;
use sparsey::query::filter::Filter;
use sparsey::query::iter::{DenseIter, SparseIter};
use sparsey::query::part::QueryPart;
use sparsey::query::maybe::maybe;
use sparsey::query::optional::optional;
use sparsey::query::part::UnfilteredQueryElement;
use sparsey::query::query_all::QueryAll;
use sparsey::query::query_element_filter::{
    added, changed, contains, mutated, Added, Changed, Contains, Mutated, QueryElementFilter,
};
use sparsey::query::query_filter::{And, Not, Or, Passthrough, QueryFilter, Xor};
use sparsey::query::query_one::QueryOne;
use sparsey::query::state_filter::added::added as state_added;
use sparsey::query::state_filter::combinators::{AndStateFilter, OrStateFilter};
use sparsey::query::state_filter::passthrough::Passthrough as StatePassthrough;
use sparsey::query::state_filter::StateFilter;
use sparsey::storage::{ChangeTicks, ComponentStorage};
use sparsey::view::Comp;

struct IsEven;

impl QueryFilter for IsEven {
    fn spec_matches(&self, entity: Entity) -> bool {
        self.matches(entity)
    }

    fn matches(&self, entity: Entity) -> bool {
        entity.index % 2 == 0
    }
}

struct Below(u32);

impl QueryFilter for Below {
    fn spec_matches(&self, entity: Entity) -> bool {
        self.matches(entity)
    }

    fn matches(&self, entity: Entity) -> bool {
        entity.index < self.0
    }
}

fn e(i: u32) -> Entity {
    Entity::new(i, 0)
}

#[test]
fn entity_filter_combinators() {
    assert!(Passthrough.matches(e(3)));
    assert!(Not::new(IsEven).matches(e(3)));
    assert!(!Not::new(IsEven).matches(e(4)));
    assert!(And::new(IsEven, Below(5)).matches(e(4)));
    assert!(!And::new(IsEven, Below(3)).matches(e(4)));
    assert!(Or::new(IsEven, Below(3)).matches(e(1)));
    assert!(!Or::new(IsEven, Below(1)).matches(e(3)));
    assert!(Xor::new(IsEven, Below(3)).matches(e(4)));
    assert!(!Xor::new(IsEven, Below(5)).matches(e(4)));
    assert!(Not::new(IsEven).inner().matches(e(2)));
}

#[test]
fn de_morgan_on_concrete_entities() {
    for i in 0..8 {
        let lhs = Not::new(And::new(IsEven, Below(4))).matches(e(i));
        let rhs = Or::new(Not::new(IsEven), Not::new(Below(4))).matches(e(i));
        assert_eq!(lhs, rhs);
        let lhs = Not::new(Or::new(IsEven, Below(4))).matches(e(i));
        let rhs = And::new(Not::new(IsEven), Not::new(Below(4))).matches(e(i));
        assert_eq!(lhs, rhs);
        assert_eq!(Not::new(Not::new(IsEven)).matches(e(i)), IsEven.matches(e(i)));
        let x = Xor::new(IsEven, Below(4)).matches(e(i));
        let o = Or::new(IsEven, Below(4)).matches(e(i));
        let a = And::new(IsEven, Below(4)).matches(e(i));
        assert_eq!(x, o && !a);
    }
}

#[test]
fn element_filters_on_ticks() {
    let t = ChangeTicks { tick_added: 5, tick_mutated: 7 };
    assert!(QueryElementFilter::<i32>::matches(&Contains, &0, &t, 9, 9));
    assert!(QueryElementFilter::<i32>::matches(&Added, &0, &t, 5, 9));
    assert!(!QueryElementFilter::<i32>::matches(&Added, &0, &t, 6, 9));
    assert!(QueryElementFilter::<i32>::matches(&Mutated, &0, &t, 9, 6));
    assert!(!QueryElementFilter::<i32>::matches(&Mutated, &0, &t, 9, 7));
    assert!(QueryElementFilter::<i32>::matches(&Changed, &0, &t, 5, 7));
    assert!(QueryElementFilter::<i32>::matches(&Changed, &0, &t, 6, 6));
    assert!(!QueryElementFilter::<i32>::matches(&Changed, &0, &t, 6, 7));
    assert!(QueryElementFilter::<i32>::matches(&Not::new(Added), &0, &t, 6, 7));
}

#[test]
fn changed_is_added_or_mutated_on_concrete_ticks() {
    for added_tick in 0..4u32 {
        for mutated_tick in 0..4u32 {
            let t = ChangeTicks { tick_added: added_tick, tick_mutated: mutated_tick };
            let c = QueryElementFilter::<u8>::matches(&Changed, &0, &t, 2, 1);
            let a = QueryElementFilter::<u8>::matches(&Added, &0, &t, 2, 1);
            let m = QueryElementFilter::<u8>::matches(&Mutated, &0, &t, 2, 1);
            assert_eq!(c, a || m);
        }
    }
}

/// e0 added at tick 1, e1 added at tick 2, e2 added at tick 1 and mutated at 2.
fn ticked() -> ComponentStorage<i32> {
    let mut s = ComponentStorage::new();
    s.insert(e(0), 0, 1);
    s.insert(e(1), 1, 2);
    s.insert(e(2), 2, 1);
    s.insert(e(2), 20, 2);
    s
}

#[test]
fn added_mutated_changed_filters_in_queries() {
    let s = ticked();
    // world tick 2, mutations detected after tick 1
    let view = Comp::new(&s, None, 2, 1);
    let q = QueryOne::new((added(view),));
    assert!(!q.contains(e(0)));
    assert!(q.contains(e(1)));
    assert!(!q.contains(e(2)));
    let q = QueryOne::new((mutated(view),));
    assert!(!q.contains(e(1)));
    assert_eq!(q.get(e(2)).map(|(x,)| *x), Some(20));
    let q = QueryOne::new((changed(view),));
    assert!(!q.contains(e(0)));
    assert!(q.contains(e(1)));
    assert!(q.contains(e(2)));
    let q = QueryOne::new((contains(view),));
    assert!(q.contains(e(0)) && q.contains(e(1)) && q.contains(e(2)));
    assert!(!q.contains(e(3)));
}

#[test]
fn filtered_query_iterates_sparsely() {
    let s = ticked();
    let view = Comp::new(&s, None, 2, 1);
    let q = QueryAll::new((Filter::new(Changed, view), view));
    let mut it = q.iter();
    assert!(it.is_sparse());
    let mut got = Vec::new();
    while let Some((x, _)) = it.next() {
        got.push(*x);
    }
    assert_eq!(got, vec![1, 20]);
}

#[test]
fn maybe_forwards_matching_and_wraps_items() {
    let mut a: ComponentStorage<i32> = ComponentStorage::new();
    let mut b: ComponentStorage<u8> = ComponentStorage::new();
    a.insert(e(0), 1, 0);
    a.insert(e(1), 2, 0);
    b.insert(e(1), 9, 0);
    let q = QueryAll::new((Comp::new(&a, None, 0, 0), maybe(Comp::new(&b, None, 0, 0))));
    let mut it = q.iter();
    let mut got = Vec::new();
    while let Some((x, y)) = it.next() {
        got.push((*x, y.map(|y| *y)));
    }
    assert_eq!(got, vec![(2, Some(9))]);
    let one = QueryOne::new((maybe(Comp::new(&b, None, 0, 0)),));
    assert!(!one.contains(e(5)));
    assert!(one.get(e(5)).is_none());
    assert!(one.contains(e(1)));
    assert_eq!(one.get(e(1)).map(|(y,)| y.map(|y| *y)), Some(Some(9)));
    let m = maybe(Comp::new(&b, None, 0, 0));
    assert!(matches!(m.group_info(), Some((1, None))));
    assert_eq!(m.get_dense(0, e(1)).map(|y| *y), Some(9));
    assert_eq!(m.entities(), Some(&[e(1)][..]));
}

#[test]
fn grouped_query_with_maybe_part_stays_dense() {
    let mut a: ComponentStorage<i32> = ComponentStorage::new();
    a.insert(e(0), 1, 0);
    a.insert(e(1), 2, 0);
    let q = QueryAll::new((maybe(Comp::new(&a, None, 0, 0)),));
    let mut it = q.iter();
    assert!(it.is_dense());
    let mut got = Vec::new();
    while let Some((x,)) = it.next() {
        got.push(x.map(|x| *x));
    }
    assert_eq!(got, vec![Some(1), Some(2)]);
}

struct Positive;

impl QueryElementFilter<i32> for Positive {
    fn spec_matches_component(&self, component: i32, _ticks: ChangeTicks, _w: u32, _c: u32) -> bool {
        component > 0
    }

    fn matches(&self, component: &i32, _ticks: &ChangeTicks, _w: u32, _c: u32) -> bool {
        *component > 0
    }
}

#[test]
fn element_filter_on_component_values() {
    let mut a: ComponentStorage<i32> = ComponentStorage::new();
    a.insert(e(0), -1, 0);
    a.insert(e(1), 3, 0);
    let q = QueryOne::new((Filter::new(Positive, Comp::new(&a, None, 0, 0)),));
    assert!(!q.contains(e(0)));
    assert_eq!(q.get(e(1)).map(|(x,)| *x), Some(3));
}

#[test]
fn entity_filters_in_iterators() {
    let mut a: ComponentStorage<i32> = ComponentStorage::new();
    for i in 0..5u32 {
        a.insert(e(i), i as i32, 0);
    }
    let get = (Comp::new(&a, None, 0, 0),);
    let mut it = SparseIter::new(a.entities(), &get, &(), &(), IsEven);
    let mut got = Vec::new();
    while let Some((x,)) = it.next() {
        got.push(*x);
    }
    assert_eq!(got, vec![0, 2, 4]);
    let mut it = DenseIter::new(1, 5, a.entities(), &get, Not::new(IsEven));
    let mut got = Vec::new();
    while let Some((ent, (x,))) = it.next_with_entity() {
        got.push((ent, *x));
    }
    assert_eq!(got, vec![(e(1), 1), (e(3), 3)]);
    assert!(it.next().is_none());
    let mut it = DenseIter::new(0, 5, a.entities(), &get, Below(0));
    assert!(it.next().is_none());
}

#[test]
fn state_filters() {
    let s = ticked();
    let view = Comp::new(&s, None, 2, 1);
    let a = state_added(view);
    assert!(!a.matches(e(0)));
    assert!(a.matches(e(1)));
    assert!(!a.matches(e(3)));
    let n = state_added(view).not();
    assert!(n.matches(e(0)));
    assert!(!n.matches(e(1)));
    assert!(!n.matches(e(3)));
    assert!(StatePassthrough.matches(e(3)));
    let both = AndStateFilter::new(state_added(view), StatePassthrough);
    assert!(both.matches(e(1)) && !both.matches(e(0)));
    let either = OrStateFilter::new(state_added(view), state_added(view).not());
    assert!(either.matches(e(0)) && either.matches(e(1)) && !either.matches(e(3)));
}

#[test]
fn filtered_part_keeps_grouping_and_skips_rejected_entities() {
    let s = ticked();
    // a single view is dense over its whole storage; the filter still applies
    let view = Comp::new(&s, None, 2, 1);
    let q = QueryAll::new((Filter::new(Changed, view),));
    let mut it = q.iter();
    assert!(it.is_dense());
    let mut got = Vec::new();
    while let Some((ent, (x,))) = it.next_with_entity() {
        got.push((ent, *x));
    }
    assert_eq!(got, vec![(e(1), 1), (e(2), 20)]);
    let pit = q.par_iter();
    assert!(pit.is_dense());
    assert_eq!(pit.opt_len(), Some(3));
    let got: Vec<(Entity, i32)> = pit.collect_pairs().into_iter().map(|(e, (x,))| (e, *x)).collect();
    assert_eq!(got, vec![(e(1), 1), (e(2), 20)]);
}

#[test]
fn optional_matches_every_entity() {
    let mut a: ComponentStorage<i32> = ComponentStorage::new();
    let mut b: ComponentStorage<u8> = ComponentStorage::new();
    a.insert(e(0), 1, 0);
    a.insert(e(1), 2, 0);
    b.insert(e(1), 9, 0);
    let q = QueryAll::new((Comp::new(&a, None, 0, 0), optional(Comp::new(&b, None, 0, 0))));
    let mut it = q.iter();
    assert!(it.is_dense());
    let mut got = Vec::new();
    while let Some((x, y)) = it.next() {
        got.push((*x, y.map(|y| *y)));
    }
    assert_eq!(got, vec![(1, None), (2, Some(9))]);
    let one = QueryOne::new((optional(Comp::new(&b, None, 0, 0)),));
    assert!(one.contains(e(5)));
    assert_eq!(one.get(e(5)).map(|(y,)| y.is_none()), Some(true));
}

#[test]
fn maybe_forwards_ticks() {
    let s = ticked();
    let view = Comp::new(&s, None, 2, 1);
    let m = maybe(view);
    assert_eq!(m.world_tick(), 2);
    assert_eq!(m.change_tick(), 1);
    assert_eq!(m.get_with_ticks(e(2)).map(|(c, t)| (*c, t.tick_mutated)), Some((20, 2)));
    assert!(m.get_with_ticks(e(3)).is_none());
}

#[test]
fn optional_part_keeps_grouped_query_dense() {
    let mut a: ComponentStorage<i32> = ComponentStorage::new();
    let mut b: ComponentStorage<u8> = ComponentStorage::new();
    a.insert(e(0), 1, 0);
    a.insert(e(1), 2, 0);
    b.insert(e(1), 9, 0);
    let q = QueryAll::new((Comp::new(&a, None, 0, 0), optional(Comp::new(&b, None, 0, 0))));
    let mut it = q.iter();
    assert!(it.is_dense());
    let mut got = Vec::new();
    while let Some((x, y)) = it.next() {
        got.push((*x, y.map(|y| *y)));
    }
    assert_eq!(got, vec![(1, None), (2, Some(9))]);
}
