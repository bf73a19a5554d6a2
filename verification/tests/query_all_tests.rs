use sparsey::entity::Entity;
use sparsey::group::{Group, GroupFamily, GroupInfo};
use sparsey::query::entities::Entities;
use sparsey::query::iter::Iter;
use sparsey::query::query_all::QueryAll;
use sparsey::query::query_slice::UngroupedComponentStorages;
use sparsey::query::world_query::WorldQueryAll;
use sparsey::storage::ComponentStorage;
use sparsey::view::{Comp, CompMut};

fn e(i: u32) -> Entity {
    Entity::new(i, 0)
}

/// Storages A, B and C, grouped as (A, B) and (A, B, C): e0 has A, B and C,
/// e1 has A and B, e2 only A, e3 only B, e4 only C.
fn grouped() -> (ComponentStorage<i32>, ComponentStorage<u8>, ComponentStorage<char>, GroupFamily) {
    let mut a = ComponentStorage::new();
    let mut b = ComponentStorage::new();
    let mut c = ComponentStorage::new();
    a.insert(e(0), 0, 0);
    a.insert(e(1), 10, 0);
    a.insert(e(2), 20, 0);
    b.insert(e(0), 0, 0);
    b.insert(e(1), 1, 0);
    b.insert(e(3), 3, 0);
    c.insert(e(0), 'x', 0);
    c.insert(e(4), 'y', 0);
    let family = GroupFamily {
        id: 7,
        groups: vec![
            Group { include_mask: 0b011, len: 2 },
            Group { include_mask: 0b111, len: 1 },
        ],
    };
    (a, b, c, family)
}

fn collect<'q, 'a, G, I, E, F>(mut it: Iter<'q, 'a, G, I, E, F>) -> Vec<(Entity, G::Item)>
where
    G: sparsey::query::query::Query<'a>,
    I: sparsey::query::query::Query<'a>,
    E: sparsey::query::query::Query<'a>,
    F: sparsey::query::query_filter::QueryFilter,
{
    let mut out = Vec::new();
    while let Some(p) = it.next_with_entity() {
        out.push(p);
    }
    out
}

#[test]
fn grouped_query_iterates_densely() {
    let (a, b, _c, f) = grouped();
    let ca = Comp::new(&a, Some(GroupInfo { family: &f, offset: 0, mask: 0b001 }), 0, 0);
    let cb = Comp::new(&b, Some(GroupInfo { family: &f, offset: 0, mask: 0b010 }), 0, 0);
    let q = QueryAll::new((ca, cb));
    let it = q.iter();
    assert!(it.is_dense());
    let items: Vec<(Entity, i32, u8)> = collect(it).into_iter().map(|(e, (x, y))| (e, *x, *y)).collect();
    assert_eq!(items, vec![(e(0), 0, 0), (e(1), 10, 1)]);
}

#[test]
fn grouped_query_with_exclude_iterates_range_after_larger_group() {
    let (a, b, c, f) = grouped();
    let ca = Comp::new(&a, Some(GroupInfo { family: &f, offset: 0, mask: 0b001 }), 0, 0);
    let cb = Comp::new(&b, Some(GroupInfo { family: &f, offset: 0, mask: 0b010 }), 0, 0);
    let cc = Comp::new(&c, Some(GroupInfo { family: &f, offset: 1, mask: 0b100 }), 0, 0);
    let q = QueryAll::new((ca, cb)).exclude((cc,));
    let it = q.iter();
    assert!(it.is_dense());
    let items: Vec<(Entity, i32)> = collect(it).into_iter().map(|(e, (x, _))| (e, *x)).collect();
    assert_eq!(items, vec![(e(1), 10)]);
}

#[test]
fn ungrouped_query_iterates_sparsely_with_same_items() {
    let (a, b, c, _f) = grouped();
    let q = QueryAll::new((Comp::new(&a, None, 0, 0), Comp::new(&b, None, 0, 0)))
        .exclude((Comp::new(&c, None, 0, 0),));
    let it = q.iter();
    assert!(it.is_sparse());
    let items: Vec<(Entity, i32)> = collect(it).into_iter().map(|(e, (x, _))| (e, *x)).collect();
    assert_eq!(items, vec![(e(1), 10)]);
}

#[test]
fn dense_and_sparse_iteration_agree_on_grouped_storages() {
    let (a, b, _c, f) = grouped();
    let grouped_q = QueryAll::new((
        Comp::new(&a, Some(GroupInfo { family: &f, offset: 0, mask: 0b001 }), 0, 0),
        Comp::new(&b, Some(GroupInfo { family: &f, offset: 0, mask: 0b010 }), 0, 0),
    ));
    let plain_q = QueryAll::new((Comp::new(&a, None, 0, 0), Comp::new(&b, None, 0, 0)));
    let dense: Vec<Entity> = collect(grouped_q.iter()).into_iter().map(|(e, _)| e).collect();
    let sparse: Vec<Entity> = collect(plain_q.iter()).into_iter().map(|(e, _)| e).collect();
    assert_eq!(dense, sparse);
}

#[test]
fn including_restricts_to_entities_with_components() {
    let (a, b, _c, _f) = grouped();
    let q = QueryAll::new((Comp::new(&a, None, 0, 0),)).including((Comp::new(&b, None, 0, 0),));
    let items: Vec<i32> = collect(q.iter()).into_iter().map(|(_, (x,))| *x).collect();
    assert_eq!(items, vec![0, 10]);
}

#[test]
fn excluding_removes_entities_with_components() {
    let (a, b, _c, _f) = grouped();
    let q = QueryAll::new((Comp::new(&a, None, 0, 0),)).exclude((Comp::new(&b, None, 0, 0),));
    let items: Vec<i32> = collect(q.iter()).into_iter().map(|(_, (x,))| *x).collect();
    assert_eq!(items, vec![20]);
}

#[test]
fn including_and_excluding_together() {
    let (a, b, c, _f) = grouped();
    let q = QueryAll::new((Comp::new(&a, None, 0, 0),))
        .including((Comp::new(&b, None, 0, 0),))
        .exclude((Comp::new(&c, None, 0, 0),));
    let items: Vec<i32> = collect(q.iter()).into_iter().map(|(_, (x,))| *x).collect();
    assert_eq!(items, vec![10]);
}

#[test]
fn sparse_iteration_walks_the_shorter_list() {
    let mut a: ComponentStorage<i32> = ComponentStorage::new();
    let mut b: ComponentStorage<i32> = ComponentStorage::new();
    for i in 0..5 {
        a.insert(e(i), i as i32, 0);
    }
    b.insert(e(4), 40, 0);
    b.insert(e(2), 20, 0);
    let q = QueryAll::new((Comp::new(&a, None, 0, 0), Comp::new(&b, None, 0, 0)));
    // b is shorter, so its order is kept
    let ents: Vec<Entity> = collect(q.iter()).into_iter().map(|(e, _)| e).collect();
    assert_eq!(ents, vec![e(4), e(2)]);
}

#[test]
fn for_each_visits_every_item() {
    let (a, b, _c, _f) = grouped();
    let q = QueryAll::new((Comp::new(&a, None, 0, 0),)).including((Comp::new(&b, None, 0, 0),));
    let mut sum = 0;
    q.for_each(|(x,)| sum += *x);
    assert_eq!(sum, 10);
}

#[test]
fn slices_of_grouped_query() {
    let (a, b, c, f) = grouped();
    let ca = Comp::new(&a, Some(GroupInfo { family: &f, offset: 0, mask: 0b001 }), 0, 0);
    let cb = Comp::new(&b, Some(GroupInfo { family: &f, offset: 0, mask: 0b010 }), 0, 0);
    let q = QueryAll::new((ca, cb));
    assert_eq!(q.entities().unwrap(), &[e(0), e(1)]);
    let (sa, sb) = q.components().unwrap();
    assert_eq!(sa, &[0, 10]);
    assert_eq!(sb, &[0, 1]);
    let (ents, (sa, _)) = q.entities_components().unwrap();
    assert_eq!(ents, &[e(0), e(1)]);
    assert_eq!(sa, &[0, 10]);
    assert!(q.slice().is_some());

    let cc = Comp::new(&c, Some(GroupInfo { family: &f, offset: 1, mask: 0b100 }), 0, 0);
    let ex = QueryAll::new((ca, cb)).exclude((cc,));
    assert_eq!(ex.entities().unwrap(), &[e(1)]);
    let (sa, sb) = ex.components().unwrap();
    assert_eq!(sa, &[10]);
    assert_eq!(sb, &[1]);
}

#[test]
fn slicing_ungrouped_query_fails() {
    let (a, b, _c, _f) = grouped();
    let q = QueryAll::new((Comp::new(&a, None, 0, 0), Comp::new(&b, None, 0, 0)));
    assert_eq!(q.entities(), Err(UngroupedComponentStorages));
    assert!(q.components().is_err());
    assert!(q.entities_components().is_err());
    assert!(q.slice().is_none());
}

#[test]
fn single_view_query_is_dense_over_whole_storage() {
    let (a, _b, _c, _f) = grouped();
    let q = QueryAll::new((Comp::new(&a, None, 0, 0),));
    let it = q.iter();
    assert!(it.is_dense());
    assert_eq!(q.entities().unwrap(), &[e(0), e(1), e(2)]);
    let items: Vec<i32> = collect(it).into_iter().map(|(_, (x,))| *x).collect();
    assert_eq!(items, vec![0, 10, 20]);
}

#[test]
fn par_iter_yields_iteration_items() {
    let (a, b, c, f) = grouped();
    let ca = Comp::new(&a, Some(GroupInfo { family: &f, offset: 0, mask: 0b001 }), 0, 0);
    let cb = Comp::new(&b, Some(GroupInfo { family: &f, offset: 0, mask: 0b010 }), 0, 0);
    let dense = QueryAll::new((ca, cb));
    let pit = dense.par_iter();
    assert!(pit.is_dense());
    assert!(!pit.is_sparse());
    assert_eq!(pit.opt_len(), Some(2));
    let got: Vec<(Entity, i32)> = pit.collect_pairs().into_iter().map(|(e, (x, _))| (e, *x)).collect();
    assert_eq!(got, vec![(e(0), 0), (e(1), 10)]);

    let sparse = QueryAll::new((Comp::new(&a, None, 0, 0),)).exclude((Comp::new(&c, None, 0, 0),));
    let pit = sparse.par_iter();
    assert!(pit.is_sparse());
    assert_eq!(pit.opt_len(), None);
    let got: Vec<(Entity, i32)> = pit.collect_pairs().into_iter().map(|(e, (x,))| (e, *x)).collect();
    assert_eq!(got, vec![(e(1), 10), (e(2), 20)]);
}

#[test]
fn world_query_all_is_query_all() {
    let (a, _b, _c, _f) = grouped();
    let q: WorldQueryAll<'_, _, (), ()> = QueryAll::new((Comp::new(&a, None, 0, 0),));
    let items: Vec<i32> = collect(q.iter()).into_iter().map(|(_, (x,))| *x).collect();
    assert_eq!(items, vec![0, 10, 20]);
}

#[test]
fn entities_of_grouped_query_as_slice() {
    let (a, b, c, f) = grouped();
    let ca = Comp::new(&a, Some(GroupInfo { family: &f, offset: 0, mask: 0b001 }), 0, 0);
    let cb = Comp::new(&b, Some(GroupInfo { family: &f, offset: 0, mask: 0b010 }), 0, 0);
    let cc = Comp::new(&c, Some(GroupInfo { family: &f, offset: 1, mask: 0b100 }), 0, 0);
    let q = QueryAll::new(Entities).including((ca, cb));
    assert_eq!(q.slice(), Some(&[e(0), e(1)][..]));
    assert_eq!(q.components(), Ok(&[e(0), e(1)][..]));
    let ex = QueryAll::new(Entities).including((ca, cb)).exclude((cc,));
    assert_eq!(ex.slice(), Some(&[e(1)][..]));
    let it = ex.iter();
    assert!(it.is_dense());
    let got: Vec<(Entity, Entity)> = collect(it);
    assert_eq!(got, vec![(e(1), e(1))]);
}

#[test]
fn entities_of_ungrouped_query_iterate_sparsely() {
    let (a, b, c, _f) = grouped();
    let q = QueryAll::new(Entities)
        .including((Comp::new(&a, None, 0, 0), Comp::new(&b, None, 0, 0)))
        .exclude((Comp::new(&c, None, 0, 0),));
    assert!(q.slice().is_none());
    let it = q.iter();
    assert!(it.is_sparse());
    let got: Vec<Entity> = collect(it).into_iter().map(|(_, x)| x).collect();
    assert_eq!(got, vec![e(1)]);
}

#[test]
fn slicing_calls_agree() {
    let (a, b, _c, f) = grouped();
    let ca = Comp::new(&a, Some(GroupInfo { family: &f, offset: 0, mask: 0b001 }), 0, 0);
    let cb = Comp::new(&b, Some(GroupInfo { family: &f, offset: 0, mask: 0b010 }), 0, 0);
    let q = QueryAll::new((ca, cb));
    let (es, cs) = q.entities_components().unwrap();
    assert_eq!(q.entities().unwrap(), es);
    assert_eq!(q.components().unwrap(), cs);
    assert_eq!(q.slice().unwrap(), cs);
    let q2 = QueryAll::new((ca, cb)).including(());
    assert_eq!(q2.slice(), q.slice());
}

#[test]
fn positions_move_by_velocities() {
    let mut pos: ComponentStorage<(i32, i32)> = ComponentStorage::new();
    let mut vel: ComponentStorage<(i32, i32)> = ComponentStorage::new();
    pos.insert(e(0), (0, 0), 0);
    vel.insert(e(0), (1, 2), 0);
    pos.insert(e(1), (0, 0), 0);
    vel.insert(e(1), (2, 3), 0);
    vel.insert(e(2), (5, 5), 0);
    {
        let q = QueryAll::new((Comp::new(&vel, None, 0, 0),));
        let mut p = CompMut::new(&mut pos, None);
        q.update_with(&mut p, |p: &(i32, i32), (v,): (&(i32, i32),)| (p.0 + v.0, p.1 + v.1));
    }
    assert_eq!(pos.get(e(0)), Some(&(1, 2)));
    assert_eq!(pos.get(e(1)), Some(&(2, 3)));
    assert!(pos.get(e(2)).is_none());
    assert_eq!(vel.components(), &[(1, 2), (2, 3), (5, 5)]);
}

#[test]
fn get_mut_with_fetches_target_and_items() {
    let mut pos: ComponentStorage<i32> = ComponentStorage::new();
    let mut vel: ComponentStorage<i32> = ComponentStorage::new();
    pos.insert(e(0), 10, 0);
    pos.insert(e(1), 20, 0);
    vel.insert(e(0), 1, 0);
    vel.insert(e(3), 3, 0);
    {
        let q = QueryAll::new((Comp::new(&vel, None, 0, 0),));
        let mut p = CompMut::new(&mut pos, None);
        match q.get_mut_with(&mut p, e(0)) {
            Some((c, (v,))) => *c += *v,
            None => panic!("e0 matches"),
        }
        assert!(q.get_mut_with(&mut p, e(1)).is_none());
        assert!(q.get_mut_with(&mut p, e(3)).is_none());
    }
    assert_eq!(pos.get(e(0)), Some(&11));
    assert_eq!(pos.get(e(1)), Some(&20));
}

#[test]
fn entity_part_in_grouped_tuple() {
    let (a, b, c, f) = grouped();
    let ca = Comp::new(&a, Some(GroupInfo { family: &f, offset: 0, mask: 0b001 }), 0, 0);
    let cb = Comp::new(&b, Some(GroupInfo { family: &f, offset: 0, mask: 0b010 }), 0, 0);
    let q = QueryAll::new((Entities, ca, cb));
    let it = q.iter();
    assert!(it.is_dense());
    let got: Vec<(Entity, i32)> = collect(it).into_iter().map(|(_, (ent, x, _))| (ent, *x)).collect();
    assert_eq!(got, vec![(e(0), 0), (e(1), 10)]);
    let (es, sa, sb) = q.slice().unwrap();
    assert_eq!(es, &[e(0), e(1)]);
    assert_eq!(sa, &[0, 10]);
    assert_eq!(sb, &[0, 1]);
    let cc = Comp::new(&c, Some(GroupInfo { family: &f, offset: 1, mask: 0b100 }), 0, 0);
    let ex = QueryAll::new((Entities, ca, cb)).exclude((cc,));
    let (es, _, _) = ex.slice().unwrap();
    assert_eq!(es, &[e(1)]);
}

#[test]
fn for_each_calls_closure_on_every_item() {
    let (a, b, _c, _f) = grouped();
    let q = QueryAll::new((Entities,)).including((Comp::new(&a, None, 0, 0), Comp::new(&b, None, 0, 0)));
    let mut seen = Vec::new();
    q.for_each(|(ent,)| seen.push(ent));
    assert_eq!(seen, vec![e(0), e(1)]);
}
