use sparsey::entity::Entity;
use sparsey::query::query_all::QueryAll;
use sparsey::query::query_one::QueryOne;
use sparsey::storage::ComponentStorage;
use sparsey::view::Comp;

#[test]
fn query_all_sparse_iteration_yields_matching_items() {
    let mut a: ComponentStorage<i32> = ComponentStorage::new();
    let mut b: ComponentStorage<u8> = ComponentStorage::new();
    let e0 = Entity::new(0, 0);
    let e1 = Entity::new(1, 0);
    let e2 = Entity::new(2, 0);
    a.insert(e0, 1, 0);
    a.insert(e1, 2, 0);
    b.insert(e1, 10, 0);
    b.insert(e2, 20, 0);
    let ca = Comp::new(&a, None, 1, 0);
    let cb = Comp::new(&b, None, 1, 0);
    let q = QueryAll::new((ca, cb));
    let mut it = q.iter();
    let mut items = Vec::new();
    while let Some((x, y)) = it.next() {
        items.push((*x, *y));
    }
    assert_eq!(items, vec![(2, 10)]);
}

#[test]
fn query_one_get_and_contains() {
    let mut a: ComponentStorage<i32> = ComponentStorage::new();
    let e0 = Entity::new(0, 0);
    let e1 = Entity::new(1, 0);
    a.insert(e0, 5, 0);
    let q = QueryOne::new((Comp::new(&a, None, 1, 0),));
    assert!(q.contains(e0));
    assert!(!q.contains(e1));
    assert_eq!(q.get(e0).map(|(x,)| *x), Some(5));
    assert_eq!(q.get(e1).map(|(x,)| *x), None);
}

use sparsey::group::{Group, GroupFamily, GroupInfo, QueryGroupInfo};
use sparsey::query::iter_data::{shortest_entity_slice, IterData};
use sparsey::query::query::Query;
use sparsey::query::query_group_info::group_range;
use sparsey::query::world_query::WorldQuery;
use sparsey::view::CompMut;

fn e(i: u32) -> Entity {
    Entity::new(i, 0)
}

#[test]
fn query_one_including_excluding_and_map() {
    let mut a: ComponentStorage<i32> = ComponentStorage::new();
    let mut b: ComponentStorage<u8> = ComponentStorage::new();
    let mut c: ComponentStorage<u8> = ComponentStorage::new();
    a.insert(e(0), 1, 0);
    a.insert(e(1), 2, 0);
    a.insert(e(2), 3, 0);
    b.insert(e(1), 0, 0);
    b.insert(e(2), 0, 0);
    c.insert(e(2), 0, 0);
    let q = QueryOne::new((Comp::new(&a, None, 0, 0),))
        .including((Comp::new(&b, None, 0, 0),))
        .exclude((Comp::new(&c, None, 0, 0),));
    assert!(!q.contains(e(0)));
    assert!(q.contains(e(1)));
    assert!(!q.contains(e(2)));
    assert_eq!(q.get(e(1)).map(|(x,)| *x), Some(2));
    assert_eq!(q.get(e(2)).map(|(x,)| *x), None);
    assert_eq!(q.map(e(1), |(x,)| *x * 10), Some(20));
    assert_eq!(q.map(e(0), |(x,)| *x * 10), None);
}

#[test]
fn world_query_is_query_one() {
    let mut a: ComponentStorage<i32> = ComponentStorage::new();
    a.insert(e(3), 4, 0);
    let q: WorldQuery<'_, _, (), ()> = QueryOne::new((Comp::new(&a, None, 0, 0),));
    assert_eq!(q.get(e(3)).map(|(x,)| *x), Some(4));
}

#[test]
fn tuple_queries_contain_all_and_none() {
    let mut a: ComponentStorage<i32> = ComponentStorage::new();
    let mut b: ComponentStorage<i32> = ComponentStorage::new();
    let mut c: ComponentStorage<i32> = ComponentStorage::new();
    a.insert(e(0), 1, 0);
    b.insert(e(0), 2, 0);
    c.insert(e(1), 3, 0);
    let (ca, cb, cc) = (Comp::new(&a, None, 0, 0), Comp::new(&b, None, 0, 0), Comp::new(&c, None, 0, 0));
    let q = (ca, cb, cc);
    assert!(!q.contains_all(e(0)));
    assert!((ca, cb).contains_all(e(0)));
    assert!(!(ca, cb).contains_none(e(0)));
    assert!((ca, cb).contains_none(e(1)));
    assert!(().contains_all(e(9)) && ().contains_none(e(9)));
    assert_eq!(q.get(e(0)).map(|(x, y, z)| (*x, *y, *z)), None);
    assert_eq!((ca, cb).get(e(0)).map(|(x, y)| (*x, *y)), Some((1, 2)));
    assert_eq!(q.split_sparse().map(|s| s.len()), Some(1));
    assert_eq!(q.split_dense(), Some(&[e(0)][..]));
    assert_eq!(q.dense_len(), Some(1));
    assert!(matches!(().group_info(), Some(QueryGroupInfo::Empty)));
    assert!(matches!((ca,).group_info(), Some(QueryGroupInfo::Single { len: 1, group_info: None })));
    assert!((ca, cb).group_info().is_none());
    let (sa, sb, sc) = q.slice(a.entities(), 0, 1);
    assert_eq!((sa, sb, sc), (&[1][..], &[2][..], &[3][..]));
    assert_eq!((ca, cb).get_dense(0, e(0)), (&1, &2));
}

#[test]
fn group_range_of_query_parts() {
    let mut a: ComponentStorage<i32> = ComponentStorage::new();
    let mut b: ComponentStorage<i32> = ComponentStorage::new();
    a.insert(e(0), 1, 0);
    a.insert(e(1), 1, 0);
    b.insert(e(0), 2, 0);
    let f = GroupFamily { id: 1, groups: vec![Group { include_mask: 0b11, len: 1 }] };
    let ca = Comp::new(&a, Some(GroupInfo { family: &f, offset: 0, mask: 0b01 }), 0, 0);
    let cb = Comp::new(&b, Some(GroupInfo { family: &f, offset: 0, mask: 0b10 }), 0, 0);
    assert_eq!(group_range(&(ca, cb), &(), &()), Some(0..1));
    assert_eq!(group_range(&(ca,), &(cb,), &()), Some(0..1));
    assert_eq!(group_range(&(ca,), &(), &()), Some(0..2));
    let plain = Comp::new(&b, None, 0, 0);
    assert_eq!(group_range(&(ca, plain), &(), &()), None);
}

#[test]
fn iter_data_and_ranges() {
    let ents = [e(0), e(1), e(2), e(3)];
    let d = IterData::new(&ents, 5, 4);
    assert_eq!(d.entities.len(), 4);
    let r = d.with_range(1..3);
    assert_eq!(r.entities, &[e(1), e(2)]);
    assert_eq!((r.world_tick, r.change_tick), (5, 4));
}

#[test]
fn shortest_entity_slice_picks_first_shortest() {
    let a = [e(0), e(1)];
    let b = [e(2)];
    let c = [e(3)];
    let slices: [&[Entity]; 3] = [&a, &b, &c];
    assert_eq!(shortest_entity_slice(&slices), Some(&b[..]));
    let none: [&[Entity]; 0] = [];
    assert_eq!(shortest_entity_slice(&none), None);
}

#[test]
fn comp_views() {
    let mut a: ComponentStorage<i32> = ComponentStorage::new();
    a.insert(e(4), 1, 0);
    a.insert(e(5), 2, 0);
    let v = Comp::new(&a, None, 3, 2);
    assert_eq!(v.entities(), &[e(4), e(5)]);
    assert_eq!(v.components(), &[1, 2]);
    assert_eq!(v.iter().copied().collect::<Vec<_>>(), vec![1, 2]);
    assert_eq!((v.world_tick(), v.change_tick()), (3, 2));
    assert!(v.group_info().is_none());
    assert_eq!(v.storage().len(), 2);
}

#[test]
fn comp_mut_views() {
    let mut a: ComponentStorage<i32> = ComponentStorage::new();
    a.insert(e(4), 1, 0);
    a.insert(e(5), 2, 0);
    {
        let mut v = CompMut::new(&mut a, None);
        for c in v.iter_mut() {
            *c += 100;
        }
        assert_eq!(v.iter().copied().collect::<Vec<_>>(), vec![101, 102]);
        assert_eq!(v.entities(), &[e(4), e(5)]);
        assert_eq!(v.components(), &[101, 102]);
    }
    assert_eq!(a.get(e(5)), Some(&102));
}

#[test]
fn query_one_fetches_entities() {
    let mut a: ComponentStorage<i32> = ComponentStorage::new();
    a.insert(e(2), 5, 0);
    let q = QueryOne::new(sparsey::query::entities::Entities).including((Comp::new(&a, None, 0, 0),));
    assert_eq!(q.get(e(2)), Some(e(2)));
    assert_eq!(q.get(e(3)), None);
    assert!(q.contains(e(2)));
    let all = QueryOne::new(sparsey::query::entities::Entities);
    assert_eq!(all.get(e(7)), Some(e(7)));
    let none = QueryOne::new((Comp::new(&a, None, 0, 0),)).exclude(sparsey::query::entities::Entities);
    assert_eq!(none.get(e(2)).map(|(x,)| *x), None);
}

#[test]
fn comp_mut_get_mut_writes_component() {
    let mut a: ComponentStorage<i32> = ComponentStorage::new();
    a.insert(e(4), 1, 0);
    {
        let mut v = CompMut::new(&mut a, None);
        *v.get_mut(e(4)).unwrap() += 41;
        assert!(v.get_mut(e(9)).is_none());
        assert_eq!(v.components(), &[42]);
    }
    assert_eq!(a.get(e(4)), Some(&42));
}

#[test]
fn comp_mut_slices_and_dense_positions() {
    let mut a: ComponentStorage<i32> = ComponentStorage::new();
    a.insert(e(4), 1, 0);
    a.insert(e(5), 2, 0);
    {
        let mut v = CompMut::new(&mut a, None);
        let s = v.iter_mut();
        s.swap(0, 1);
        s[0] += 100;
        *v.get_dense_mut(1) += 1000;
        assert_eq!(v.entities(), &[e(4), e(5)]);
    }
    assert_eq!(a.components(), &[102, 1001]);
    assert_eq!(a.get(e(4)), Some(&102));
}
