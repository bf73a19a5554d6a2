//! Slicing grouped queries.
use vstd::prelude::*;

verus! {

/// Error returned when slicing a query whose component storages are not
/// grouped.
#[derive(Debug, Clone, Copy, PartialEq, Eq, Structural)]
pub struct UngroupedComponentStorages;

impl UngroupedComponentStorages {
    /// The message describing the error.
    pub fn message(&self) -> (s: &'static str)
        ensures
            s@ == "Tried to slice query with ungrouped component storages"@,
    {
        "Tried to slice query with ungrouped component storages"
    }
}

} // verus!
