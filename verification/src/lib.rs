//! An in-memory store of task records with verified insert, update and
//! delete operations: ids stay unique, order is kept, and every mutation
//! is pinned down by its contract.

mod gen;
pub mod item;
pub mod store;
