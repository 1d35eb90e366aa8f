//! The part of a table's metadata that its snapshots refer to.

use std::collections::HashMap;
use std::sync::Arc;
use vstd::prelude::*;

use crate::error::{append_decimal, decimal, Error, ErrorKind, ErrorView};
use crate::snapshot::SnapshotRef;

verus! {

broadcast use vstd::std_specs::hash::group_hash_axioms;

/// The identifier of a schema within its table.
pub type SchemaId = i32;

/// A shared schema. What a schema consists of makes no difference to snapshots,
/// so it is left open.
pub type SchemaRef<S> = Arc<S>;

/// The version of the table format.
#[derive(Debug, Clone, Copy, PartialEq, Eq, Structural)]
pub enum FormatVersion {
    /// The first version, which has no sequence numbers.
    V1,
    /// The second version.
    V2,
}

/// An entry of the history of a table: which snapshot became current, and when.
#[derive(Debug, Clone, Copy, PartialEq, Eq, Structural)]
pub struct SnapshotLog {
    /// The identifier of the snapshot.
    pub snapshot_id: i64,
    /// The time of the entry in milliseconds since the Unix epoch.
    pub timestamp_ms: i64,
}

/// The metadata of a table: its format version, its schemas and its snapshots.
///
/// One of the schemas is the current one.
#[derive(Debug)]
pub struct TableMetadata<S> {
    format_version: FormatVersion,
    schemas: HashMap<SchemaId, SchemaRef<S>>,
    current_schema_id: SchemaId,
    snapshots: HashMap<i64, SnapshotRef>,
}

/// The model of [`TableMetadata`].
pub struct TableMetadataView<S> {
    pub format_version: FormatVersion,
    pub schemas: Map<SchemaId, SchemaRef<S>>,
    pub current_schema_id: SchemaId,
    pub snapshots: Map<i64, SnapshotRef>,
}

impl<S> TableMetadataView<S> {
    /// Whether the current schema is one of the schemas.
    pub open spec fn well_formed(self) -> bool {
        self.schemas.contains_key(self.current_schema_id)
    }

    /// The current schema.
    pub open spec fn current_schema(self) -> SchemaRef<S> {
        self.schemas[self.current_schema_id]
    }
}

impl<S> View for TableMetadata<S> {
    type V = TableMetadataView<S>;

    closed spec fn view(&self) -> TableMetadataView<S> {
        TableMetadataView {
            format_version: self.format_version,
            schemas: self.schemas@,
            current_schema_id: self.current_schema_id,
            snapshots: self.snapshots@,
        }
    }
}

/// The message of the error for a schema that is not in the table metadata.
pub open spec fn schema_not_found_message(schema_id: SchemaId) -> Seq<char> {
    "Schema with id "@ + decimal(schema_id as int) + " not found"@
}

/// The error for a schema that is not in the table metadata.
pub open spec fn schema_not_found_error(schema_id: SchemaId) -> ErrorView {
    ErrorView { kind: ErrorKind::DataInvalid, message: schema_not_found_message(schema_id) }
}

/// Makes the error for a schema that is not in the table metadata.
pub(crate) fn schema_not_found(schema_id: SchemaId) -> (error: Error)
    ensures
        error@ == schema_not_found_error(schema_id),
{
    let mut message: String = "Schema with id ".to_owned();
    append_decimal(&mut message, schema_id as i64);
    message.append(" not found");
    Error::new(ErrorKind::DataInvalid, message)
}

impl<S> TableMetadata<S> {
    #[verifier::type_invariant]
    closed spec fn invariant_holds(&self) -> bool {
        self.schemas@.contains_key(self.current_schema_id)
    }

    /// Makes table metadata of its parts.
    ///
    /// It is an error of kind [`ErrorKind::DataInvalid`] where the current schema
    /// is not one of the schemas.
    pub fn new(
        format_version: FormatVersion,
        schemas: HashMap<SchemaId, SchemaRef<S>>,
        current_schema_id: SchemaId,
        snapshots: HashMap<i64, SnapshotRef>,
    ) -> (result: Result<Self, Error>)
        ensures
            result is Ok <==> schemas@.contains_key(current_schema_id),
            result matches Ok(metadata) ==> metadata@ == (TableMetadataView {
                format_version,
                schemas: schemas@,
                current_schema_id,
                snapshots: snapshots@,
            }),
            result matches Err(error) ==> error@ == schema_not_found_error(current_schema_id),
    {
        if schemas.contains_key(&current_schema_id) {
            Ok(TableMetadata { format_version, schemas, current_schema_id, snapshots })
        } else {
            Err(schema_not_found(current_schema_id))
        }
    }

    /// The version of the table format.
    pub fn format_version(&self) -> (format_version: FormatVersion)
        ensures
            format_version == self@.format_version,
    {
        self.format_version
    }

    /// The schema with the given identifier, where the table has one.
    pub fn schema_by_id(&self, schema_id: SchemaId) -> (schema: Option<&SchemaRef<S>>)
        ensures
            schema is Some <==> self@.schemas.contains_key(schema_id),
            schema matches Some(found) ==> *found == self@.schemas[schema_id],
    {
        self.schemas.get(&schema_id)
    }

    /// The current schema, which every table has.
    pub fn current_schema(&self) -> (schema: &SchemaRef<S>)
        ensures
            self@.well_formed(),
            *schema == self@.current_schema(),
    {
        proof {
            use_type_invariant(self);
        }
        self.schemas.get(&self.current_schema_id).unwrap()
    }

    /// The snapshot with the given identifier, where the table has one.
    pub fn snapshot_by_id(&self, snapshot_id: i64) -> (snapshot: Option<&SnapshotRef>)
        ensures
            snapshot is Some <==> self@.snapshots.contains_key(snapshot_id),
            snapshot matches Some(found) ==> *found == self@.snapshots[snapshot_id],
    {
        self.snapshots.get(&snapshot_id)
    }
}

} // verus!
