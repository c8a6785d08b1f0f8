//! Persistence core of a local inventory manager: per-category item tables
//! in an embedded SQLite database, bulk writes with a choice of conflict
//! policy, single-row inventory adjustment and paginated cross-table queries.

pub mod error;
pub mod ident;
pub mod sql;
pub mod engine;
pub mod row;
pub mod page;
pub mod store;
