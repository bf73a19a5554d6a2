//! Queries borrowed from a world under their world names.
use crate::query::query_all::QueryAll;
use crate::query::query_one::QueryOne;
use vstd::prelude::*;

verus! {

/// Query over single entities of a world.
pub type WorldQuery<'a, G, I, E> = QueryOne<'a, G, I, E>;

/// Query over all entities of a world.
pub type WorldQueryAll<'a, G, I, E> = QueryAll<'a, G, I, E>;

} // verus!
