//! Queries: fetching and iterating the components of the entities that
//! match a set of views.
pub mod part;
pub mod query;
pub mod entities;
pub mod iter;
pub mod query_one;
pub mod query_all;
pub mod query_filter;
pub mod filter;
pub mod maybe;
pub mod optional;
pub mod query_element_filter;
pub mod state_filter;
pub mod query_slice;
pub mod iter_data;
pub mod query_group_info;
pub mod world_query;
pub mod par_iter;
