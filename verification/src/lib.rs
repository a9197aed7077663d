//! Core engine of a desktop database-client backend: it turns the raw
//! material of a single database round trip (connection profiles, driver
//! rows, catalog listings) into uniformly typed, JSON-safe values, and it
//! guarantees the per-call connection lifecycle: one connection per
//! operation, released exactly once on every exit path.
//!
//! All driver I/O lives outside this crate; the modules here hold the
//! decisions: how a connection string is assembled, how native cells are
//! coerced to JSON-safe values, how a result set and a schema document are
//! built, and in what order the catalog is walked.

use vstd::prelude::*;

pub mod coerce;
pub mod error;
pub mod executor;
pub mod profile;
pub mod query_result;
pub mod schema;
pub mod settings;

verus! {

/// A JSON-safe value as the coercion engine produces it.
///
/// A double-precision cell is carried as its raw bit pattern: the engine
/// never inspects the number, it only passes it through, and the boundary
/// layer reconstitutes the float from the bits.
#[derive(Debug, Clone, PartialEq)]
pub enum JsonValue {
    Str(String),
    Int32(i32),
    Int64(i64),
    Bool(bool),
    FloatBits(u64),
    Null,
}

} // verus!
