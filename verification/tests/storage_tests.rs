use sparsey::entity::{DenseEntity, Entity, SparseVec};
use sparsey::storage::{ChangeTicks, ComponentStorage};

#[test]
fn entity_accessors() {
    let e = Entity::new(7, 3);
    assert_eq!(e.sparse(), 7);
    assert_eq!(e.version, 3);
    let d = e.with_dense(4);
    assert_eq!(d, DenseEntity { dense: 4, version: 3 });
    assert_eq!(d.dense(), 4);
}

#[test]
fn sparse_vec_insert_get_remove() {
    let mut s = SparseVec::new();
    assert_eq!(s.get_sparse(5), None);
    s.insert(5, DenseEntity { dense: 2, version: 1 });
    assert_eq!(s.get_sparse(5), Some(DenseEntity { dense: 2, version: 1 }));
    assert!(s.contains_sparse(5));
    assert!(!s.contains_sparse(4));
    assert!(s.contains(Entity::new(5, 1)));
    assert!(!s.contains(Entity::new(5, 2)));
    assert_eq!(s.get(Entity::new(5, 1)), Some(2));
    assert_eq!(s.get(Entity::new(5, 0)), None);
    assert_eq!(s.remove(5), Some(DenseEntity { dense: 2, version: 1 }));
    assert_eq!(s.remove(5), None);
    assert!(!s.contains_sparse(5));
    assert_eq!(s.remove(100), None);
}

#[test]
fn storage_insert_new_and_replace() {
    let mut st: ComponentStorage<i32> = ComponentStorage::new();
    assert!(st.is_empty());
    let e = Entity::new(2, 0);
    assert_eq!(st.insert(e, 10, 3), None);
    assert_eq!(st.len(), 1);
    assert!(st.contains(e));
    assert_eq!(st.get(e), Some(&10));
    assert_eq!(st.get_index(e), Some(0));
    let (c, t) = st.get_with_ticks(e).unwrap();
    assert_eq!(*c, 10);
    assert_eq!(*t, ChangeTicks { tick_added: 3, tick_mutated: 0 });
    // replacing the component of the same entity counts as a mutation
    assert_eq!(st.insert(e, 11, 5), Some(10));
    assert_eq!(st.get(e), Some(&11));
    let (_, t) = st.get_with_ticks(e).unwrap();
    assert_eq!(*t, ChangeTicks { tick_added: 3, tick_mutated: 5 });
    assert_eq!(st.len(), 1);
}

#[test]
fn storage_insert_other_version_replaces_entity() {
    let mut st: ComponentStorage<i32> = ComponentStorage::new();
    let old = Entity::new(1, 0);
    let new = Entity::new(1, 1);
    st.insert(old, 1, 0);
    assert_eq!(st.insert(new, 2, 4), None);
    assert!(!st.contains(old));
    assert!(st.contains(new));
    assert_eq!(st.entities(), &[new]);
    assert_eq!(st.get(new), Some(&2));
    let (_, t) = st.get_with_ticks(new).unwrap();
    assert_eq!(*t, ChangeTicks { tick_added: 4, tick_mutated: 0 });
}

#[test]
fn storage_remove_swaps_last_into_place() {
    let mut st: ComponentStorage<&str> = ComponentStorage::new();
    let a = Entity::new(0, 0);
    let b = Entity::new(1, 0);
    let c = Entity::new(2, 0);
    st.insert(a, "a", 0);
    st.insert(b, "b", 0);
    st.insert(c, "c", 0);
    assert_eq!(st.remove(a), Some("a"));
    assert_eq!(st.entities(), &[c, b]);
    assert_eq!(st.components(), &["c", "b"]);
    assert_eq!(st.get_index(c), Some(0));
    assert_eq!(st.get(c), Some(&"c"));
    assert_eq!(st.remove(a), None);
    assert_eq!(st.remove(b), Some("b"));
    assert_eq!(st.entities(), &[c]);
    assert_eq!(st.ticks().len(), 1);
    assert_eq!(st.sparse().get(c), Some(0));
}

#[test]
fn storage_remove_after_insert_restores_other_components() {
    let mut st: ComponentStorage<u8> = ComponentStorage::new();
    let a = Entity::new(0, 0);
    let b = Entity::new(3, 0);
    st.insert(a, 1, 0);
    st.insert(b, 2, 0);
    assert_eq!(st.remove(b), Some(2));
    assert_eq!(st.entities(), &[a]);
    assert_eq!(st.get(a), Some(&1));
    assert!(!st.contains(b));
}

#[test]
fn storage_components_mut_changes_components_only() {
    let mut st: ComponentStorage<i32> = ComponentStorage::new();
    let a = Entity::new(0, 0);
    let b = Entity::new(1, 0);
    st.insert(a, 1, 0);
    st.insert(b, 2, 0);
    for c in st.components_mut() {
        *c *= 10;
    }
    assert_eq!(st.components(), &[10, 20]);
    assert_eq!(st.entities(), &[a, b]);
    assert_eq!(st.get(b), Some(&20));
}

#[test]
fn change_ticks_just_added() {
    assert_eq!(
        ChangeTicks::just_added(9),
        ChangeTicks { tick_added: 9, tick_mutated: 0 }
    );
}

#[test]
fn storage_get_mut_writes_component() {
    let mut st: ComponentStorage<i32> = ComponentStorage::new();
    let a = Entity::new(1, 0);
    let b = Entity::new(2, 0);
    st.insert(a, 1, 5);
    st.insert(b, 2, 5);
    let ticks_before = st.ticks().to_vec();
    *st.get_mut(b).unwrap() = 20;
    assert_eq!(st.get(b), Some(&20));
    assert_eq!(st.get(a), Some(&1));
    assert_eq!(st.entities(), &[a, b]);
    assert_eq!(st.ticks(), &ticks_before[..]);
    assert!(st.get_mut(Entity::new(3, 0)).is_none());
    assert!(st.get_mut(Entity::new(1, 1)).is_none());
    assert_eq!(st.components(), &[1, 20]);
}

#[test]
fn storage_get_dense_mut_writes_position() {
    let mut st: ComponentStorage<i32> = ComponentStorage::new();
    st.insert(Entity::new(4, 0), 1, 0);
    st.insert(Entity::new(2, 0), 2, 0);
    *st.get_dense_mut(1) = 7;
    assert_eq!(st.get(Entity::new(2, 0)), Some(&7));
    assert_eq!(st.get(Entity::new(4, 0)), Some(&1));
}
