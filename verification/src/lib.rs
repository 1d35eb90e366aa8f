//! Snapshots of an Iceberg table.
//!
//! A snapshot is the state of a table at one moment. This library holds the
//! snapshot type and the rules around it: the records in which the two table
//! format versions store a snapshot, how a snapshot finds its schema and its
//! parent in the table metadata, and the named references (branches and tags)
//! that point at snapshots.

pub mod error;
pub mod laws;
pub mod reference;
pub mod snapshot;
pub mod table_metadata;
pub mod time;
