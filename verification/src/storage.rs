//! Component storage: a sparse set holding the components of one type,
//! packed in a dense array, along with their change ticks.
use crate::entity::{DenseEntity, Entity, SparseVec};
use vstd::prelude::*;

verus! {

/// World tick counter used for change detection.
pub type Ticks = u32;

/// Ticks at which a component was added and last mutated.
#[derive(Clone, Copy, PartialEq, Eq, Structural, Debug)]
pub struct ChangeTicks {
    /// Tick at which the component was added.
    pub tick_added: Ticks,
    /// Tick at which the component was last mutated.
    pub tick_mutated: Ticks,
}

impl ChangeTicks {
    /// Ticks of a component that was just added at `tick` and never mutated.
    pub fn just_added(tick: Ticks) -> (t: Self)
        ensures
            t.tick_added == tick,
            t.tick_mutated == 0,
    {
        ChangeTicks { tick_added: tick, tick_mutated: 0 }
    }
}

/// The entities that share `e`'s sparse index.
pub open spec fn same_index(e: Entity) -> Set<Entity> {
    Set::new(|x: Entity| x.index == e.index)
}

/// Sparse set of components of type `T`. Entities and components are packed
/// in dense arrays; the sparse vector maps each entity to its dense index.
pub struct ComponentStorage<T> {
    sparse: SparseVec,
    entities: Vec<Entity>,
    components: Vec<T>,
    ticks: Vec<ChangeTicks>,
}

impl<T> ComponentStorage<T> {
    /// The packed entities.
    pub closed spec fn spec_entities(&self) -> Seq<Entity> {
        self.entities@
    }

    /// The packed components, in the order of `spec_entities`.
    pub closed spec fn spec_components(&self) -> Seq<T> {
        self.components@
    }

    /// The change ticks, in the order of `spec_entities`.
    pub closed spec fn spec_ticks(&self) -> Seq<ChangeTicks> {
        self.ticks@
    }

    /// The sparse vector mapping entities to dense indexes.
    pub closed spec fn spec_sparse(&self) -> SparseVec {
        self.sparse
    }

    /// Whether `e` has a component in this storage.
    pub open spec fn spec_contains(&self, e: Entity) -> bool {
        self.spec_sparse().spec_contains(e)
    }

    /// The dense index of `e`'s component, if any.
    pub open spec fn spec_index(&self, e: Entity) -> Option<usize> {
        self.spec_sparse().spec_get(e)
    }

    /// Number of components.
    pub open spec fn spec_len(&self) -> nat {
        self.spec_entities().len()
    }

    /// The component of every entity in the storage.
    pub open spec fn spec_map(&self) -> Map<Entity, T> {
        Map::new(
            |e: Entity| self.spec_contains(e),
            |e: Entity| self.spec_components()[self.spec_index(e)->0 as int],
        )
    }

    /// The change ticks of every entity in the storage.
    pub open spec fn spec_ticks_map(&self) -> Map<Entity, ChangeTicks> {
        Map::new(
            |e: Entity| self.spec_contains(e),
            |e: Entity| self.spec_ticks()[self.spec_index(e)->0 as int],
        )
    }

    /// The sparse set invariant: the dense arrays have one length, every
    /// packed entity is mapped to its own position, and every mapped slot
    /// points at a packed entity with that index and version.
    pub closed spec fn wf(&self) -> bool {
        &&& self.entities@.len() == self.components@.len()
        &&& self.entities@.len() == self.ticks@.len()
        &&& forall|i: int|
            0 <= i < self.entities@.len() ==> #[trigger] self.sparse.lookup(
                self.entities@[i].index as int,
            ) == Some(DenseEntity { dense: i as usize, version: self.entities@[i].version })
        &&& forall|s: int|
            #![trigger self.sparse.lookup(s)]
            self.sparse.lookup(s) is Some ==> {
                let d = self.sparse.lookup(s)->0;
                &&& d.dense < self.entities@.len()
                &&& self.entities@[d.dense as int].index == s
                &&& self.entities@[d.dense as int].version == d.version
            }
    }

    /// The storage invariant seen from outside: entities are mapped to their
    /// own dense positions, so `spec_index` and `spec_entities` agree.
    pub proof fn lemma_inv(&self)
        requires
            self.wf(),
        ensures
            self.spec_len() <= usize::MAX,
            self.spec_entities().len() == self.spec_components().len(),
            self.spec_entities().len() == self.spec_ticks().len(),
            forall|i: int|
                0 <= i < self.spec_len() ==> #[trigger] self.spec_index(self.spec_entities()[i])
                    == Some(i as usize),
            forall|e: Entity|
                #[trigger] self.spec_contains(e) <==> self.spec_index(e) is Some,
            forall|e: Entity|
                #[trigger] self.spec_index(e) is Some ==> {
                    &&& self.spec_index(e)->0 < self.spec_len()
                    &&& self.spec_entities()[self.spec_index(e)->0 as int] == e
                },
            forall|e: Entity| #[trigger]
                self.spec_contains(e) <==> self.spec_entities().contains(e),
            forall|i: int, j: int|
                0 <= i < self.spec_len() && 0 <= j < self.spec_len() && i != j ==> #[trigger] self.spec_entities()[i].index
                    != #[trigger] self.spec_entities()[j].index,
    {
        vstd::std_specs::vec::axiom_spec_len(&self.entities);
        assert forall|e: Entity| #[trigger] self.spec_index(e) is Some implies {
            &&& self.spec_index(e)->0 < self.spec_len()
            &&& self.spec_entities()[self.spec_index(e)->0 as int] == e
        } by {
            assert(self.sparse.lookup(e.index as int) is Some);
        }
        assert forall|e: Entity| #[trigger]
            self.spec_contains(e) <==> self.spec_entities().contains(e) by {
            if self.spec_contains(e) {
                assert(self.sparse.lookup(e.index as int) is Some);
                let i = self.spec_index(e)->0 as int;
                assert(self.spec_entities()[i] == e);
            }
            if self.spec_entities().contains(e) {
                let i = choose|i: int| 0 <= i < self.spec_len() && self.spec_entities()[i] == e;
                assert(self.sparse.lookup(self.entities@[i].index as int) == Some(
                    DenseEntity { dense: i as usize, version: self.entities@[i].version },
                ));
            }
        }
        assert forall|i: int, j: int|
            0 <= i < self.spec_len() && 0 <= j < self.spec_len() && i != j implies #[trigger] self.spec_entities()[i].index
                != #[trigger] self.spec_entities()[j].index by {
            assert(self.sparse.lookup(self.entities@[i].index as int) == Some(
                DenseEntity { dense: i as usize, version: self.entities@[i].version },
            ));
            assert(self.sparse.lookup(self.entities@[j].index as int) == Some(
                DenseEntity { dense: j as usize, version: self.entities@[j].version },
            ));
        }
    }

    /// Creates an empty storage.
    pub fn new() -> (s: Self)
        ensures
            s.wf(),
            s.spec_entities() == Seq::<Entity>::empty(),
            s.spec_map() == Map::<Entity, T>::empty(),
    {
        let s = ComponentStorage {
            sparse: SparseVec::new(),
            entities: Vec::new(),
            components: Vec::new(),
            ticks: Vec::new(),
        };
        assert(s.spec_map() =~= Map::<Entity, T>::empty());
        s
    }

    /// Inserts `component` for `entity` at tick `tick`. When `entity`
    /// already has a component, it is replaced and returned, and the
    /// component counts as mutated at `tick`; otherwise the component counts
    /// as added at `tick`. An entity with the same index but another version
    /// loses its component.
    pub fn insert(&mut self, entity: Entity, component: T, tick: Ticks) -> (r: Option<T>)
        requires
            old(self).wf(),
            old(self).spec_len() < usize::MAX,
        ensures
            final(self).wf(),
            r is Some <==> old(self).spec_contains(entity),
            r is Some ==> r->0 == old(self).spec_map()[entity],
            final(self).spec_map() == old(self).spec_map().remove_keys(
                same_index(entity),
            ).insert(entity, component),
            final(self).spec_ticks_map() == old(self).spec_ticks_map().remove_keys(
                same_index(entity),
            ).insert(
                entity,
                if old(self).spec_contains(entity) {
                    ChangeTicks {
                        tick_added: old(self).spec_ticks_map()[entity].tick_added,
                        tick_mutated: tick,
                    }
                } else {
                    ChangeTicks { tick_added: tick, tick_mutated: 0 }
                },
            ),
            match old(self).spec_sparse().lookup(entity.index as int) {
                Some(d) => final(self).spec_entities() == old(self).spec_entities().update(
                    d.dense as int,
                    entity,
                ),
                None => final(self).spec_entities() == old(self).spec_entities().push(entity),
            },
    {
        proof {
            self.lemma_inv();
        }
        let ghost old_self = *self;
        let r = match self.sparse.get_sparse(entity.sparse()) {
            Some(d) => {
                let i = d.dense;
                if d.version == entity.version {
                    let mut c = component;
                    std::mem::swap(&mut self.components[i], &mut c);
                    let t = self.ticks[i];
                    self.ticks.set(i, ChangeTicks { tick_added: t.tick_added, tick_mutated: tick });
                    assert(old_self.entities@[i as int] == entity);
                    assert(self.entities@ =~= old_self.entities@.update(i as int, entity));
                    Some(c)
                } else {
                    self.entities.set(i, entity);
                    self.components.set(i, component);
                    self.ticks.set(i, ChangeTicks::just_added(tick));
                    self.sparse.insert(entity.sparse(), entity.with_dense(i));
                    assert(self.entities@ =~= old_self.entities@.update(i as int, entity));
                    None
                }
            },
            None => {
                let i = self.entities.len();
                self.sparse.insert(entity.sparse(), entity.with_dense(i));
                self.entities.push(entity);
                self.components.push(component);
                self.ticks.push(ChangeTicks::just_added(tick));
                assert(self.entities@ =~= old_self.entities@.push(entity));
                None
            },
        };
        proof {
            self.lemma_insert_wf(old_self, entity);
        }
        r
    }

    proof fn lemma_insert_wf(&self, old_self: Self, entity: Entity)
        requires
            old_self.wf(),
            ({
                let d = old_self.sparse.lookup(entity.index as int);
                &&& forall|s: int|
                    #![trigger self.sparse.lookup(s)]
                    s != entity.index ==> self.sparse.lookup(s) == old_self.sparse.lookup(s)
                &&& self.entities@.len() == self.components@.len()
                &&& self.entities@.len() == self.ticks@.len()
                &&& match d {
                    Some(d) => self.entities@ == old_self.entities@.update(d.dense as int, entity)
                        && self.sparse.lookup(entity.index as int) == Some(
                        DenseEntity { dense: d.dense, version: entity.version },
                    ),
                    None => self.entities@ == old_self.entities@.push(entity)
                        && self.sparse.lookup(entity.index as int) == Some(
                        DenseEntity { dense: old_self.entities@.len() as usize, version: entity.version },
                    ),
                }
            }),
        ensures
            self.wf(),
    {
        old_self.lemma_inv();
        vstd::std_specs::vec::axiom_spec_len(&old_self.entities);
        assert forall|i: int| 0 <= i < self.entities@.len() implies #[trigger] self.sparse.lookup(
            self.entities@[i].index as int,
        ) == Some(DenseEntity { dense: i as usize, version: self.entities@[i].version }) by {
            if self.entities@[i] != entity {
                assert(old_self.entities@[i] == self.entities@[i]);
                assert(old_self.sparse.lookup(old_self.entities@[i].index as int) == Some(
                    DenseEntity { dense: i as usize, version: old_self.entities@[i].version },
                ));
                if self.entities@[i].index == entity.index {
                    // the old slot of this index pointed at i, so i is the replaced position
                    assert(false);
                }
            }
        }
    }

    /// Removes the component of `entity` and returns it. The last packed
    /// component takes the place of the removed one.
    pub fn remove(&mut self, entity: Entity) -> (r: Option<T>)
        requires
            old(self).wf(),
        ensures
            final(self).wf(),
            r is Some <==> old(self).spec_contains(entity),
            r is Some ==> r->0 == old(self).spec_map()[entity],
            final(self).spec_map() == old(self).spec_map().remove(entity),
            final(self).spec_ticks_map() == old(self).spec_ticks_map().remove(entity),
            old(self).spec_contains(entity) ==> final(self).spec_entities()
                == old(self).spec_entities().update(
                old(self).spec_index(entity)->0 as int,
                old(self).spec_entities().last(),
            ).drop_last(),
            !old(self).spec_contains(entity) ==> final(self).spec_entities()
                == old(self).spec_entities(),
    {
        proof {
            self.lemma_inv();
        }
        let ghost old_self = *self;
        match self.sparse.get(entity) {
            None => {
                assert(self.spec_map() =~= old_self.spec_map().remove(entity));
                assert(self.spec_ticks_map() =~= old_self.spec_ticks_map().remove(entity));
                None
            },
            Some(i) => {
                self.sparse.remove(entity.sparse());
                let last = self.entities.len() - 1;
                self.entities.swap_remove(i);
                let c = self.components.swap_remove(i);
                self.ticks.swap_remove(i);
                if i < last {
                    let moved = self.entities[i];
                    self.sparse.insert(moved.sparse(), moved.with_dense(i));
                }
                proof {
                    self.lemma_remove_wf(old_self, entity, i);
                }
                Some(c)
            },
        }
    }

    proof fn lemma_remove_wf(&self, old_self: Self, entity: Entity, i: usize)
        requires
            old_self.wf(),
            old_self.spec_index(entity) == Some(i),
            self.entities@ == old_self.entities@.update(i as int, old_self.entities@.last()).drop_last(),
            self.components@ == old_self.components@.update(i as int, old_self.components@.last()).drop_last(),
            self.ticks@ == old_self.ticks@.update(i as int, old_self.ticks@.last()).drop_last(),
            forall|s: int|
                #![trigger self.sparse.lookup(s)]
                self.sparse.lookup(s) == if s == entity.index {
                    None
                } else if i < self.entities@.len() && s == self.entities@[i as int].index {
                    Some(DenseEntity { dense: i, version: self.entities@[i as int].version })
                } else {
                    old_self.sparse.lookup(s)
                },
        ensures
            self.wf(),
            self.spec_map() == old_self.spec_map().remove(entity),
            self.spec_ticks_map() == old_self.spec_ticks_map().remove(entity),
    {
        old_self.lemma_inv();
        let n = self.entities@.len();
        assert forall|k: int| 0 <= k < n implies #[trigger] self.sparse.lookup(
            self.entities@[k].index as int,
        ) == Some(DenseEntity { dense: k as usize, version: self.entities@[k].version }) by {
            if k == i {
            } else {
                assert(self.entities@[k] == old_self.entities@[k]);
                assert(old_self.spec_index(old_self.entities@[k]) == Some(k as usize));
                assert(old_self.entities@[k].index != old_self.entities@[i as int].index);
            }
        }
        assert forall|s: int|
            #![trigger self.sparse.lookup(s)]
            self.sparse.lookup(s) is Some implies {
                let d = self.sparse.lookup(s)->0;
                &&& d.dense < self.entities@.len()
                &&& self.entities@[d.dense as int].index == s
                &&& self.entities@[d.dense as int].version == d.version
            } by {
            if s != entity.index && !(i < n && s == self.entities@[i as int].index) {
                let d = old_self.sparse.lookup(s)->0;
                assert(old_self.sparse.lookup(s) is Some);
                assert(old_self.entities@[d.dense as int].index == s);
                if d.dense == n {
                    // the last entity moved to position i
                    assert(i < n);
                    assert(self.entities@[i as int] == old_self.entities@[n as int]);
                    assert(false);
                }
                if d.dense == i {
                    assert(old_self.entities@[i as int] == entity);
                    assert(false);
                }
            }
        }
        assert(self.wf());
        self.lemma_inv();
        assert forall|e: Entity| self.spec_contains(e) <==> (old_self.spec_contains(e) && e != entity) by {
            if e != entity && old_self.spec_contains(e) {
                let k = old_self.spec_index(e)->0 as int;
                assert(old_self.entities@[k] == e);
                if k == n {
                    assert(self.entities@[i as int] == e);
                } else {
                    assert(k != i);
                    assert(self.entities@[k] == e);
                }
                assert(self.spec_entities().contains(e));
            }
            if self.spec_contains(e) {
                let k = self.spec_index(e)->0 as int;
                assert(self.entities@[k] == e);
                if k == i {
                    assert(old_self.entities@[n as int] == e);
                    assert(old_self.spec_entities().contains(e));
                    assert(old_self.entities@[n as int].index != old_self.entities@[i as int].index);
                } else {
                    assert(old_self.entities@[k] == e);
                    assert(old_self.spec_entities().contains(e));
                    assert(old_self.entities@[k].index != old_self.entities@[i as int].index);
                }
            }
        }
        assert forall|e: Entity| #[trigger] self.spec_contains(e) implies {
            &&& self.spec_components()[self.spec_index(e)->0 as int] == old_self.spec_components()[old_self.spec_index(e)->0 as int]
            &&& self.spec_ticks()[self.spec_index(e)->0 as int] == old_self.spec_ticks()[old_self.spec_index(e)->0 as int]
        } by {
            let k = self.spec_index(e)->0 as int;
            assert(self.entities@[k] == e);
            if k == i {
                assert(old_self.entities@[n as int] == e);
                assert(old_self.spec_index(e) == Some(n as usize));
            } else {
                assert(old_self.entities@[k] == e);
                assert(old_self.spec_index(e) == Some(k as usize));
            }
        }
        assert(self.spec_map() =~= old_self.spec_map().remove(entity));
        assert(self.spec_ticks_map() =~= old_self.spec_ticks_map().remove(entity));
    }

    /// Returns the number of components in the storage.
    pub fn len(&self) -> (n: usize)
        ensures
            n == self.spec_len(),
    {
        self.entities.len()
    }

    /// Returns whether the storage holds no components.
    pub fn is_empty(&self) -> (b: bool)
        ensures
            b == (self.spec_len() == 0),
    {
        self.entities.len() == 0
    }

    /// Returns whether `entity` has a component in the storage.
    pub fn contains(&self, entity: Entity) -> (b: bool)
        ensures
            b == self.spec_contains(entity),
    {
        self.sparse.contains(entity)
    }

    /// Returns the dense index of `entity`'s component, if any.
    pub fn get_index(&self, entity: Entity) -> (r: Option<usize>)
        requires
            self.wf(),
        ensures
            r == self.spec_index(entity),
            r is Some ==> r->0 < self.spec_len(),
    {
        proof {
            self.lemma_inv();
        }
        self.sparse.get(entity)
    }

    /// Returns the component of `entity`, if any.
    pub fn get(&self, entity: Entity) -> (r: Option<&T>)
        requires
            self.wf(),
        ensures
            r is Some <==> self.spec_contains(entity),
            r is Some ==> *r->0 == self.spec_map()[entity],
    {
        proof {
            self.lemma_inv();
        }
        match self.sparse.get(entity) {
            Some(i) => Some(&self.components[i]),
            None => None,
        }
    }

    /// Returns the component of `entity` and its change ticks, if any.
    pub fn get_with_ticks(&self, entity: Entity) -> (r: Option<(&T, &ChangeTicks)>)
        requires
            self.wf(),
        ensures
            r is Some <==> self.spec_contains(entity),
            r matches Some((c, t)) ==> *c == self.spec_map()[entity] && *t
                == self.spec_ticks_map()[entity],
    {
        proof {
            self.lemma_inv();
        }
        match self.sparse.get(entity) {
            Some(i) => Some((&self.components[i], &self.ticks[i])),
            None => None,
        }
    }

    /// Returns a mutable reference to the component of `entity`, if any.
    /// Whatever is written through it becomes the entity's component; the
    /// entities and the change ticks stay as they are.
    pub fn get_mut(&mut self, entity: Entity) -> (r: Option<&mut T>)
        requires
            old(self).wf(),
        ensures
            final(self).wf(),
            final(self).spec_entities() == old(self).spec_entities(),
            final(self).spec_ticks() == old(self).spec_ticks(),
            final(self).spec_sparse() == old(self).spec_sparse(),
            r is Some <==> old(self).spec_contains(entity),
            match r {
                Some(c) => {
                    &&& *c == old(self).spec_map()[entity]
                    &&& final(self).spec_map() == old(self).spec_map().insert(entity, *final(c))
                },
                None => final(self).spec_map() == old(self).spec_map(),
            },
    {
        proof {
            self.lemma_inv();
        }
        match self.sparse.get(entity) {
            Some(i) => Some(&mut self.components[i]),
            None => None,
        }
    }

    /// Returns the packed entities.
    pub fn entities(&self) -> (s: &[Entity])
        ensures
            s@ == self.spec_entities(),
    {
        self.entities.as_slice()
    }

    /// Returns the packed components.
    pub fn components(&self) -> (s: &[T])
        ensures
            s@ == self.spec_components(),
    {
        self.components.as_slice()
    }

    /// Returns the change ticks of the packed components.
    pub fn ticks(&self) -> (s: &[ChangeTicks])
        ensures
            s@ == self.spec_ticks(),
    {
        self.ticks.as_slice()
    }

    /// Returns the components, mutably, in dense order: the component at
    /// position `k` is that of the entity at position `k`. Whatever is written
    /// through the slice becomes the components; the entities, the change
    /// ticks and the sparse vector stay as they are.
    pub fn components_mut(&mut self) -> (r: &mut [T])
        requires
            old(self).wf(),
        ensures
            r@ == old(self).spec_components(),
            final(self).spec_components() == final(r)@,
            final(self).spec_entities() == old(self).spec_entities(),
            final(self).spec_ticks() == old(self).spec_ticks(),
            final(self).spec_sparse() == old(self).spec_sparse(),
            final(r)@.len() == r@.len() ==> final(self).wf(),
    {
        self.components.as_mut_slice()
    }

    /// Returns a mutable reference to the component at dense position
    /// `index`. Whatever is written through it becomes that component; the
    /// entities, the change ticks and the sparse vector stay as they are.
    pub fn get_dense_mut(&mut self, index: usize) -> (r: &mut T)
        requires
            old(self).wf(),
            index < old(self).spec_len(),
        ensures
            *r == old(self).spec_components()[index as int],
            final(self).spec_components() == old(self).spec_components().update(
                index as int,
                *final(r),
            ),
            final(self).spec_entities() == old(self).spec_entities(),
            final(self).spec_ticks() == old(self).spec_ticks(),
            final(self).spec_sparse() == old(self).spec_sparse(),
            final(self).wf(),
    {
        proof {
            self.lemma_inv();
        }
        &mut self.components[index]
    }

    /// Returns the sparse vector of the storage.
    pub fn sparse(&self) -> (s: &SparseVec)
        ensures
            *s == self.spec_sparse(),
    {
        &self.sparse
    }
}

} // verus!
