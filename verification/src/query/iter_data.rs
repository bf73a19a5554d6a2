//! Data used by query iterators: the entities to walk and the ticks used
//! for change detection.
use crate::entity::Entity;
use crate::storage::Ticks;
use core::ops::Range;
use vstd::prelude::*;

verus! {

/// Data used internally by query iterators.
#[derive(Clone, Copy, Debug)]
pub struct IterData<'a> {
    /// The entities over which to iterate.
    pub entities: &'a [Entity],
    /// The world tick at the time of creating the iterator.
    pub world_tick: Ticks,
    /// The change tick at the time of creating the iterator.
    pub change_tick: Ticks,
}

impl<'a> IterData<'a> {
    /// Creates a new `IterData`.
    pub fn new(entities: &'a [Entity], world_tick: Ticks, change_tick: Ticks) -> (d: Self)
        ensures
            d.entities@ == entities@,
            d.world_tick == world_tick,
            d.change_tick == change_tick,
    {
        IterData { entities, world_tick, change_tick }
    }

    /// Restricts the entities to those at positions `range`, keeping the
    /// ticks.
    pub fn with_range(self, range: Range<usize>) -> (d: Self)
        requires
            range.start <= range.end <= self.entities@.len(),
        ensures
            d.entities@ == self.entities@.subrange(range.start as int, range.end as int),
            d.world_tick == self.world_tick,
            d.change_tick == self.change_tick,
    {
        let entities: &'a [Entity] = self.entities;
        IterData::new(&entities[range], self.world_tick, self.change_tick)
    }
}

/// Returns the first of the shortest entity slices, or `None` when there
/// are no slices.
pub fn shortest_entity_slice<'a>(slices: &[&'a [Entity]]) -> (r: Option<&'a [Entity]>)
    ensures
        match r {
            None => slices@.len() == 0,
            Some(s) => exists|i: int|
                0 <= i < slices@.len() && #[trigger] slices@[i] == s && (forall|j: int|
                    0 <= j < slices@.len() ==> s@.len() <= (#[trigger] slices@[j])@.len()) && (
                forall|j: int| 0 <= j < i ==> s@.len() < (#[trigger] slices@[j])@.len()),
        },
{
    if slices.len() == 0 {
        return None;
    }
    let mut best: usize = 0;
    let mut k: usize = 1;
    while k < slices.len()
        invariant
            0 <= best < k <= slices@.len(),
            forall|j: int| 0 <= j < k ==> slices@[best as int]@.len() <= (#[trigger] slices@[j])@.len(),
            forall|j: int| 0 <= j < best ==> slices@[best as int]@.len() < (#[trigger] slices@[j])@.len(),
        decreases slices@.len() - k,
    {
        if slices[k].len() < slices[best].len() {
            best = k;
        }
        k = k + 1;
    }
    let s = slices[best];
    assert(slices@[best as int] == s);
    Some(s)
}

} // verus!
