//! Views over component storages: `Comp` borrows a storage immutably,
//! `CompMut` mutably. Both carry the storage's grouping information and the
//! ticks used for change detection.
use crate::entity::Entity;
use crate::group::GroupInfo;
use crate::storage::{ComponentStorage, Ticks};
use vstd::prelude::*;
use vstd::std_specs::iter::IteratorSpec;

verus! {

/// Shared view over the components of type `T`.
pub struct Comp<'a, T> {
    storage: &'a ComponentStorage<T>,
    group_info: Option<GroupInfo<'a>>,
    world_tick: Ticks,
    change_tick: Ticks,
}

impl<'a, T> Clone for Comp<'a, T> {
    fn clone(&self) -> (c: Self)
        ensures
            c == *self,
    {
        Comp {
            storage: self.storage,
            group_info: self.group_info,
            world_tick: self.world_tick,
            change_tick: self.change_tick,
        }
    }
}

impl<'a, T> Copy for Comp<'a, T> {

}

impl<'a, T> Comp<'a, T> {
    /// The viewed storage.
    pub closed spec fn spec_storage(&self) -> &'a ComponentStorage<T> {
        self.storage
    }

    /// The grouping information of the viewed storage.
    pub closed spec fn spec_group_info(&self) -> Option<GroupInfo<'a>> {
        self.group_info
    }

    /// The tick of the world when the view was borrowed.
    pub closed spec fn spec_world_tick(&self) -> Ticks {
        self.world_tick
    }

    /// The tick against which mutations are detected.
    pub closed spec fn spec_change_tick(&self) -> Ticks {
        self.change_tick
    }

    /// The view is well formed when its storage is.
    pub open spec fn wf(&self) -> bool {
        self.spec_storage().wf()
    }

    /// Creates a view over `storage`, with its grouping information and the
    /// ticks used for change detection.
    pub fn new(
        storage: &'a ComponentStorage<T>,
        group_info: Option<GroupInfo<'a>>,
        world_tick: Ticks,
        change_tick: Ticks,
    ) -> (c: Self)
        ensures
            c.spec_storage() == storage,
            c.spec_group_info() == group_info,
            c.spec_world_tick() == world_tick,
            c.spec_change_tick() == change_tick,
    {
        Comp { storage, group_info, world_tick, change_tick }
    }

    /// Returns the viewed storage.
    pub fn storage(&self) -> (s: &'a ComponentStorage<T>)
        ensures
            s == self.spec_storage(),
    {
        self.storage
    }

    /// Returns the grouping information of the viewed storage.
    pub fn group_info(&self) -> (g: Option<GroupInfo<'a>>)
        ensures
            g == self.spec_group_info(),
    {
        self.group_info
    }

    /// Returns the tick of the world when the view was borrowed.
    pub fn world_tick(&self) -> (t: Ticks)
        ensures
            t == self.spec_world_tick(),
    {
        self.world_tick
    }

    /// Returns the tick against which mutations are detected.
    pub fn change_tick(&self) -> (t: Ticks)
        ensures
            t == self.spec_change_tick(),
    {
        self.change_tick
    }

    /// Returns an iterator over the components, in dense order.
    pub fn iter(&self) -> (it: core::slice::Iter<'a, T>)
        ensures
            it.remaining() == self.spec_storage().spec_components().map_values(|c: T| &c),
    {
        let s: &'a [T] = self.storage.components();
        let it = s.iter();
        proof {
            vstd::std_specs::slice::axiom_spec_slice_iter(s);
        }
        it
    }

    /// Returns the entities that have a component, in dense order.
    pub fn entities(&self) -> (s: &'a [Entity])
        ensures
            s@ == self.spec_storage().spec_entities(),
    {
        self.storage.entities()
    }

    /// Returns the components, in dense order.
    pub fn components(&self) -> (s: &'a [T])
        ensures
            s@ == self.spec_storage().spec_components(),
    {
        self.storage.components()
    }
}

/// Mutable view over the components of type `T`.
pub struct CompMut<'a, T> {
    storage: &'a mut ComponentStorage<T>,
    group_info: Option<GroupInfo<'a>>,
}

impl<'a, T> CompMut<'a, T> {
    /// The viewed storage.
    pub closed spec fn spec_storage(&self) -> ComponentStorage<T> {
        *self.storage
    }

    /// The grouping information of the viewed storage.
    pub closed spec fn spec_group_info(&self) -> Option<GroupInfo<'a>> {
        self.group_info
    }

    /// Creates a mutable view over `storage`, with its grouping information.
    pub fn new(storage: &'a mut ComponentStorage<T>, group_info: Option<GroupInfo<'a>>) -> (c: Self)
        ensures
            c.spec_storage() == *old(storage),
            c.spec_group_info() == group_info,
    {
        CompMut { storage, group_info }
    }

    /// Returns an iterator over the components, in dense order.
    pub fn iter(&self) -> (it: core::slice::Iter<'_, T>)
        ensures
            it.remaining() == self.spec_storage().spec_components().map_values(|c: T| &c),
    {
        let s: &[T] = self.storage.components();
        let it = s.iter();
        proof {
            vstd::std_specs::slice::axiom_spec_slice_iter(s);
        }
        it
    }

    /// Returns the components, mutably, in dense order, to be iterated: the
    /// component at position `k` is that of the entity at position `k`.
    /// Whatever is written through the slice becomes the components; the
    /// entities and change ticks stay as they are.
    pub fn iter_mut(&mut self) -> (r: &mut [T])
        requires
            old(self).spec_storage().wf(),
        ensures
            r@ == old(self).spec_storage().spec_components(),
            final(self).spec_storage().spec_components() == final(r)@,
            final(r)@.len() == r@.len() ==> final(self).spec_storage().wf(),
            final(self).spec_storage().spec_entities() == old(self).spec_storage().spec_entities(),
            final(self).spec_storage().spec_ticks() == old(self).spec_storage().spec_ticks(),
            final(self).spec_group_info() == old(self).spec_group_info(),
    {
        self.storage.components_mut()
    }

    /// Returns a mutable reference to the component at dense position
    /// `index`. Whatever is written through it becomes that component; the
    /// entities and change ticks stay as they are.
    pub fn get_dense_mut(&mut self, index: usize) -> (r: &mut T)
        requires
            old(self).spec_storage().wf(),
            index < old(self).spec_storage().spec_len(),
        ensures
            *r == old(self).spec_storage().spec_components()[index as int],
            final(self).spec_storage().spec_components() == old(self).spec_storage().spec_components().update(index as int, *final(r)),
            final(self).spec_storage().spec_entities() == old(self).spec_storage().spec_entities(),
            final(self).spec_storage().spec_ticks() == old(self).spec_storage().spec_ticks(),
            final(self).spec_group_info() == old(self).spec_group_info(),
            final(self).spec_storage().wf(),
    {
        self.storage.get_dense_mut(index)
    }

    /// Returns a mutable reference to the component of `entity`, if any.
    /// Whatever is written through it becomes the entity's component; the
    /// entities and the change ticks stay as they are.
    pub fn get_mut(&mut self, entity: Entity) -> (r: Option<&mut T>)
        requires
            old(self).spec_storage().wf(),
        ensures
            final(self).spec_storage().wf(),
            final(self).spec_storage().spec_entities() == old(self).spec_storage().spec_entities(),
            final(self).spec_storage().spec_ticks() == old(self).spec_storage().spec_ticks(),
            final(self).spec_group_info() == old(self).spec_group_info(),
            r is Some <==> old(self).spec_storage().spec_contains(entity),
            match r {
                Some(c) => {
                    &&& *c == old(self).spec_storage().spec_map()[entity]
                    &&& final(self).spec_storage().spec_map()
                        == old(self).spec_storage().spec_map().insert(entity, *final(c))
                },
                None => final(self).spec_storage().spec_map() == old(self).spec_storage().spec_map(),
            },
    {
        self.storage.get_mut(entity)
    }

    /// Returns the entities that have a component, in dense order.
    pub fn entities(&self) -> (s: &[Entity])
        ensures
            s@ == self.spec_storage().spec_entities(),
    {
        self.storage.entities()
    }

    /// Returns the components, in dense order.
    pub fn components(&self) -> (s: &[T])
        ensures
            s@ == self.spec_storage().spec_components(),
    {
        self.storage.components()
    }
}

} // verus!
