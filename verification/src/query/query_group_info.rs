//! The dense range of a query, computed from the grouping information of
//! its parts.
use crate::group::{group_range_impl, spec_group_range_impl, QueryGroupInfo};
use crate::query::query::Query;
use core::ops::Range;
use vstd::prelude::*;

verus! {

/// The dense range of the query described by the given parts, when all of
/// them have grouping information.
pub open spec fn spec_group_range<'a, G: Query<'a>, I: Query<'a>, E: Query<'a>>(
    get: &G,
    incl: &I,
    exclude: &E,
) -> Option<Range<usize>> {
    match (get.spec_group_info(), incl.spec_group_info(), exclude.spec_group_info()) {
        (Some(g), Some(i), Some(e)) => spec_group_range_impl(g, i, e),
        _ => None,
    }
}

/// Returns the group range of the query described by the given parts. The
/// query must fetch or require at least one storage.
pub fn group_range<'a, G: Query<'a>, I: Query<'a>, E: Query<'a>>(
    get: &G,
    incl: &I,
    exclude: &E,
) -> (r: Option<Range<usize>>)
    requires
        get.inv(),
        incl.inv(),
        exclude.inv(),
        !(get.spec_group_info() matches Some(QueryGroupInfo::Empty) && incl.spec_group_info() matches Some(
            QueryGroupInfo::Empty,
        ) && exclude.spec_group_info() is Some),
    ensures
        r == spec_group_range(get, incl, exclude),
{
    let g = match get.group_info() {
        Some(g) => g,
        None => return None,
    };
    let i = match incl.group_info() {
        Some(i) => i,
        None => return None,
    };
    let e = match exclude.group_info() {
        Some(e) => e,
        None => return None,
    };
    group_range_impl(g, i, e)
}

} // verus!
