//! Entities and the sparse vector that maps an entity's sparse index to its
//! position in a dense array.
use vstd::prelude::*;

verus! {

/// Identifies an object in a world: a sparse index and a version, so that a
/// recycled index can be told apart from the entity that held it before.
#[derive(Clone, Copy, PartialEq, Eq, Structural, Debug, Hash)]
pub struct Entity {
    /// Index of the entity's slot in sparse vectors.
    pub index: u32,
    /// Version of the entity, bumped each time an index is recycled.
    pub version: u32,
}

impl Entity {
    /// Creates an entity with the given sparse index and version.
    pub fn new(index: u32, version: u32) -> (e: Self)
        ensures
            e.index == index,
            e.version == version,
    {
        Entity { index, version }
    }

    /// Returns the sparse index of the entity.
    pub fn sparse(&self) -> (i: usize)
        ensures
            i == self.index,
    {
        self.index as usize
    }

    /// Returns a `DenseEntity` with this entity's version, pointing at `dense`.
    pub fn with_dense(&self, dense: usize) -> (d: DenseEntity)
        ensures
            d.dense == dense,
            d.version == self.version,
    {
        DenseEntity { dense, version: self.version }
    }
}

/// Entry of a sparse vector: the position of an entity in a dense array,
/// along with the entity's version.
#[derive(Clone, Copy, PartialEq, Eq, Structural, Debug)]
pub struct DenseEntity {
    /// Position in the dense array.
    pub dense: usize,
    /// Version of the entity stored at that position.
    pub version: u32,
}

impl DenseEntity {
    /// Returns the position in the dense array.
    pub fn dense(&self) -> (d: usize)
        ensures
            d == self.dense,
    {
        self.dense
    }
}

/// Maps sparse indexes to dense entities.
pub struct SparseVec {
    slots: Vec<Option<DenseEntity>>,
}

impl View for SparseVec {
    type V = Seq<Option<DenseEntity>>;

    closed spec fn view(&self) -> Seq<Option<DenseEntity>> {
        self.slots@
    }
}

impl SparseVec {
    /// The dense entity stored at sparse index `i`, `None` outside the vector.
    pub open spec fn lookup(&self, i: int) -> Option<DenseEntity> {
        if 0 <= i < self@.len() {
            self@[i]
        } else {
            None
        }
    }

    /// Whether the slot of `e` holds a dense entity with the same version.
    pub open spec fn spec_contains(&self, e: Entity) -> bool {
        match self.lookup(e.index as int) {
            Some(d) => d.version == e.version,
            None => false,
        }
    }

    /// The dense index mapped to `e`, if the versions match.
    pub open spec fn spec_get(&self, e: Entity) -> Option<usize> {
        match self.lookup(e.index as int) {
            Some(d) => if d.version == e.version {
                Some(d.dense)
            } else {
                None
            },
            None => None,
        }
    }

    /// Creates an empty sparse vector.
    pub fn new() -> (s: Self)
        ensures
            forall|i: int| s.lookup(i) is None,
    {
        SparseVec { slots: Vec::new() }
    }

    /// Returns the dense entity stored at `sparse`, if any.
    pub fn get_sparse(&self, sparse: usize) -> (r: Option<DenseEntity>)
        ensures
            r == self.lookup(sparse as int),
    {
        if sparse < self.slots.len() {
            self.slots[sparse]
        } else {
            None
        }
    }

    /// Returns whether a dense entity is stored at `sparse`.
    pub fn contains_sparse(&self, sparse: usize) -> (r: bool)
        ensures
            r == self.lookup(sparse as int).is_some(),
    {
        self.get_sparse(sparse).is_some()
    }

    /// Returns whether `entity` is mapped, versions included.
    pub fn contains(&self, entity: Entity) -> (r: bool)
        ensures
            r == self.spec_contains(entity),
    {
        match self.get_sparse(entity.sparse()) {
            Some(d) => d.version == entity.version,
            None => false,
        }
    }

    /// Returns the dense index mapped to `entity`, versions included.
    pub fn get(&self, entity: Entity) -> (r: Option<usize>)
        ensures
            r == self.spec_get(entity),
    {
        match self.get_sparse(entity.sparse()) {
            Some(d) => if d.version == entity.version {
                Some(d.dense)
            } else {
                None
            },
            None => None,
        }
    }

    /// Stores `dense` at sparse index `sparse`, growing the vector as needed.
    pub fn insert(&mut self, sparse: usize, dense: DenseEntity)
        ensures
            forall|i: int|
                #![trigger final(self).lookup(i)]
                final(self).lookup(i) == if i == sparse {
                    Some(dense)
                } else {
                    old(self).lookup(i)
                },
    {
        while self.slots.len() <= sparse
            invariant
                forall|i: int| #![trigger self.lookup(i)] self.lookup(i) == old(self).lookup(i),
            decreases sparse + 1 - self.slots.len(),
        {
            let ghost prev = *self;
            self.slots.push(None);
            assert forall|i: int| #![trigger self.lookup(i)] self.lookup(i) == old(self).lookup(i) by {
                assert(prev.lookup(i) == old(self).lookup(i));
                if 0 <= i < prev@.len() {
                    assert(self@[i] == prev@[i]);
                }
            }
        }
        let ghost prev = *self;
        self.slots.set(sparse, Some(dense));
        assert forall|i: int|
            #![trigger self.lookup(i)]
            self.lookup(i) == if i == sparse {
                Some(dense)
            } else {
                old(self).lookup(i)
            } by {
            assert(prev.lookup(i) == old(self).lookup(i));
        }
    }

    /// Clears the slot at `sparse` and returns what it held.
    pub fn remove(&mut self, sparse: usize) -> (r: Option<DenseEntity>)
        ensures
            r == old(self).lookup(sparse as int),
            forall|i: int|
                #![trigger final(self).lookup(i)]
                final(self).lookup(i) == if i == sparse {
                    None
                } else {
                    old(self).lookup(i)
                },
    {
        if sparse < self.slots.len() {
            let r = self.slots[sparse];
            let ghost prev = *self;
            self.slots.set(sparse, None);
            assert(forall|i: int| #![trigger self.lookup(i)] i != sparse ==> self.lookup(i) == prev.lookup(i));
            r
        } else {
            None
        }
    }
}

} // verus!
