//! A persistence-mapping layer for plain data records.
//!
//! A record type is described once by a declarative schema: an ordered list
//! of field declarations, each carrying the raw annotations found on the
//! field. From that description the library derives the effective field set
//! (skips removed, renames applied), converts the type name to the
//! snake_case table-name convention, and assembles the column lists,
//! placeholder lists and positional bind sequences for single-table
//! `INSERT` and `UPDATE` statements against a MySQL store.

pub mod attrs;
pub mod names;
pub mod schema;
pub mod sql;
pub mod stmt;
pub mod synth;
pub mod values;
