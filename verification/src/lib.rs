//! A sparse set-based entity component system: component storages, views
//! and the queries that fetch and iterate components.
pub mod entity;
pub mod storage;
pub mod group;
pub mod view;
pub mod query;
