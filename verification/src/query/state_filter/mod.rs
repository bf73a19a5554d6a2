//! Filters over the state of an entity's components.
pub mod added;
pub mod combinators;
pub mod passthrough;

use crate::entity::Entity;
use vstd::prelude::*;

verus! {

/// Filter over the state of an entity's components.
pub trait StateFilter {
    /// The filter is well formed.
    spec fn inv(&self) -> bool;

    /// Whether `entity` matches the filter.
    spec fn spec_matches(&self, entity: Entity) -> bool;

    /// Returns whether `entity` matches the filter.
    fn matches(&self, entity: Entity) -> (r: bool)
        requires
            self.inv(),
        ensures
            r == self.spec_matches(entity),
    ;
}

} // verus!
