//! A versioned local data store with one-time legacy migration and
//! continuous self-healing initialization.
//!
//! The store persists a fixed set of named data collections as individual
//! JSON documents. On startup it migrates data from an older install
//! exactly once, backfills any missing document with a default, and never
//! overwrites a document that already exists.

pub mod config;
pub mod docs;
pub mod facade;
pub mod json;
pub mod migration;
pub mod parse;
pub mod store;
pub mod text;

use vstd::prelude::*;

verus! {

/// The frozen schema version of every on-disk document.
pub const CURRENT_VERSION: u64 = 1;

} // verus!
