//! Snapshots: what they hold, and what they find in the metadata of their table. The name of the
//! main branch stands here too; the references to snapshots themselves are in `reference`.

use std::collections::HashMap;
use std::sync::Arc;
use vstd::prelude::*;

use crate::error::{Error, ErrorKind, ErrorView};
use crate::table_metadata::{
    schema_not_found, schema_not_found_error, FormatVersion, SchemaId, SchemaRef, SnapshotLog,
    TableMetadata,
};
use crate::time::{
    is_utc_millis, timestamp_ms_to_utc, utc_at_millis, UtcDateTime, INVALID_TIMESTAMP,
};

pub mod builder;
pub mod record;

verus! {

/// The name of the reference to the main branch of a table.
pub const MAIN_BRANCH: &'static str = "main";

/// Placeholder for the identifier of a snapshot. A field that holds it must get the actual
/// identifier before it is committed.
pub const UNASSIGNED_SNAPSHOT_ID: i64 = -1;

/// A shared [`Snapshot`].
pub type SnapshotRef = Arc<Snapshot>;

/// The operation that made a snapshot. Some procedures, such as the expiration of snapshots,
/// skip snapshots by it.
#[derive(Debug, PartialEq, Eq, Structural)]
pub enum Operation {
    /// Only data files were added, and no files were removed.
    Append,
    /// Data and delete files were added and removed without a change to the table data:
    /// compaction, another data file format, or other places for the data files.
    Replace,
    /// Data and delete files were added and removed in a logical overwrite.
    Overwrite,
    /// Data files were removed and their contents logically deleted, or delete files were
    /// added to delete rows.
    Delete,
}

impl Operation {
    /// The name of the operation, in lower case.
    pub open spec fn name(self) -> Seq<char> {
        match self {
            Operation::Append => "append"@,
            Operation::Replace => "replace"@,
            Operation::Overwrite => "overwrite"@,
            Operation::Delete => "delete"@,
        }
    }

    /// The name of the operation, in lower case.
    pub fn as_str(&self) -> (name: &str)
        ensures
            name@ == self.name(),
    {
        match self {
            Operation::Append => "append",
            Operation::Replace => "replace",
            Operation::Overwrite => "overwrite",
            Operation::Delete => "delete",
        }
    }
}

impl Clone for Operation {
    fn clone(&self) -> (operation: Self)
        ensures
            operation == *self,
    {
        match self {
            Operation::Append => Operation::Append,
            Operation::Replace => Operation::Replace,
            Operation::Overwrite => Operation::Overwrite,
            Operation::Delete => Operation::Delete,
        }
    }
}

impl Default for Operation {
    /// The operation of a snapshot that names none.
    fn default() -> (operation: Operation)
        ensures
            operation == Operation::Append,
    {
        Operation::Append
    }
}

/// No two operations have the same name.
pub proof fn operation_names_are_distinct(a: Operation, b: Operation)
    ensures
        a.name() == b.name() ==> a == b,
{
    reveal_strlit("append");
    reveal_strlit("replace");
    reveal_strlit("overwrite");
    reveal_strlit("delete");
    assert(a.name().len() == b.name().len() && a.name()[0] == b.name()[0] ==> a == b);
}

/// The name of an operation consists of lower-case letters.
pub proof fn operation_names_are_lower_case(operation: Operation)
    ensures
        operation.name().len() > 0,
        forall|i: int|
            0 <= i < operation.name().len() ==> 'a' <= #[trigger] operation.name()[i] <= 'z',
{
    reveal_strlit("append");
    reveal_strlit("replace");
    reveal_strlit("overwrite");
    reveal_strlit("delete");
}

/// A summary of what a snapshot changed.
#[derive(Debug, PartialEq, Eq)]
pub struct Summary {
    /// The operation that made the snapshot.
    pub operation: Operation,
    /// Other properties of the change.
    pub additional_properties: HashMap<String, String>,
}

/// The model of a [`Summary`].
pub struct SummaryView {
    pub operation: Operation,
    pub additional_properties: Map<String, String>,
}

impl View for Summary {
    type V = SummaryView;

    open spec fn view(&self) -> SummaryView {
        SummaryView {
            operation: self.operation,
            additional_properties: self.additional_properties@,
        }
    }
}

impl Clone for Summary {
    fn clone(&self) -> (summary: Self)
        ensures
            summary@ == self@,
    {
        Summary {
            operation: self.operation.clone(),
            additional_properties: self.additional_properties.clone(),
        }
    }
}

/// The state of a table at one moment, through which all of its data files are found.
#[derive(Debug, PartialEq, Eq)]
pub struct Snapshot {
    /// The unique identifier.
    snapshot_id: i64,
    /// The identifier of the parent, where the snapshot has one.
    parent_snapshot_id: Option<i64>,
    /// A number that grows with the order of changes to the table.
    sequence_number: i64,
    /// When the snapshot was made, in milliseconds since the Unix epoch.
    timestamp_ms: i64,
    /// The location of the manifest list, the file that tracks the manifest files.
    manifest_list: String,
    /// What the snapshot changed.
    summary: Summary,
    /// The identifier of the schema that was current when the snapshot was made.
    schema_id: Option<SchemaId>,
}

/// The model of a [`Snapshot`].
pub struct SnapshotView {
    pub snapshot_id: i64,
    pub parent_snapshot_id: Option<i64>,
    pub sequence_number: i64,
    pub timestamp_ms: i64,
    pub manifest_list: Seq<char>,
    pub summary: SummaryView,
    pub schema_id: Option<SchemaId>,
}

impl View for Snapshot {
    type V = SnapshotView;

    closed spec fn view(&self) -> SnapshotView {
        SnapshotView {
            snapshot_id: self.snapshot_id,
            parent_snapshot_id: self.parent_snapshot_id,
            sequence_number: self.sequence_number,
            timestamp_ms: self.timestamp_ms,
            manifest_list: self.manifest_list@,
            summary: self.summary@,
            schema_id: self.schema_id,
        }
    }
}

impl Clone for Snapshot {
    fn clone(&self) -> (snapshot: Self)
        ensures
            snapshot@ == self@,
    {
        Snapshot {
            snapshot_id: self.snapshot_id,
            parent_snapshot_id: self.parent_snapshot_id,
            sequence_number: self.sequence_number,
            timestamp_ms: self.timestamp_ms,
            manifest_list: self.manifest_list.clone(),
            summary: self.summary.clone(),
            schema_id: self.schema_id,
        }
    }
}

/// What has to be read to get the manifest list of a snapshot.
#[derive(Debug, PartialEq, Eq)]
pub struct ManifestListRead {
    /// The location of the file.
    pub location: String,
    /// The version of the table format that the file is parsed by.
    pub format_version: FormatVersion,
}

impl Snapshot {
    /// The identifier of the snapshot.
    pub fn snapshot_id(&self) -> (snapshot_id: i64)
        ensures
            snapshot_id == self@.snapshot_id,
    {
        self.snapshot_id
    }

    /// The identifier of the parent, where the snapshot has one.
    pub fn parent_snapshot_id(&self) -> (parent_snapshot_id: Option<i64>)
        ensures
            parent_snapshot_id == self@.parent_snapshot_id,
    {
        self.parent_snapshot_id
    }

    /// The sequence number, which is 0 in tables of the first format version.
    pub fn sequence_number(&self) -> (sequence_number: i64)
        ensures
            sequence_number == self@.sequence_number,
    {
        self.sequence_number
    }

    /// The location of the manifest list.
    pub fn manifest_list(&self) -> (manifest_list: &str)
        ensures
            manifest_list@ == self@.manifest_list,
    {
        self.manifest_list.as_str()
    }

    /// The summary of what the snapshot changed.
    pub fn summary(&self) -> (summary: &Summary)
        ensures
            summary@ == self@.summary,
    {
        &self.summary
    }

    /// When the snapshot was made.
    ///
    /// It is an error of kind [`ErrorKind::DataInvalid`] where the milliseconds of the snapshot
    /// are no point in time.
    pub fn timestamp(&self) -> (result: Result<UtcDateTime, Error>)
        ensures
            result is Ok <==> is_utc_millis(self@.timestamp_ms as int),
            result matches Ok(at) ==> at == utc_at_millis(self@.timestamp_ms as int),
            result matches Err(error) ==> error@ == (ErrorView {
                kind: ErrorKind::DataInvalid,
                message: INVALID_TIMESTAMP@,
            }),
    {
        timestamp_ms_to_utc(self.timestamp_ms)
    }

    /// When the snapshot was made, in milliseconds since the Unix epoch.
    pub fn timestamp_ms(&self) -> (timestamp_ms: i64)
        ensures
            timestamp_ms == self@.timestamp_ms,
    {
        self.timestamp_ms
    }

    /// The identifier of the schema of the snapshot, where it names one.
    pub fn schema_id(&self) -> (schema_id: Option<SchemaId>)
        ensures
            schema_id == self@.schema_id,
    {
        self.schema_id
    }

    /// The schema of the snapshot: the one that it names, and the current one of the table
    /// where it names none.
    ///
    /// It is an error of kind [`ErrorKind::DataInvalid`] where the table does not have the
    /// schema that the snapshot names.
    pub fn schema<S>(&self, table_metadata: &TableMetadata<S>) -> (result: Result<
        SchemaRef<S>,
        Error,
    >)
        ensures
            match self@.schema_id {
                Some(schema_id) => if table_metadata@.schemas.contains_key(schema_id) {
                    result == Ok::<SchemaRef<S>, Error>(table_metadata@.schemas[schema_id])
                } else {
                    result is Err && result->Err_0@ == schema_not_found_error(schema_id)
                },
                None => {
                    &&& table_metadata@.well_formed()
                    &&& result == Ok::<SchemaRef<S>, Error>(table_metadata@.current_schema())
                },
            },
    {
        match self.schema_id() {
            Some(schema_id) => match table_metadata.schema_by_id(schema_id) {
                Some(schema) => Ok(schema.clone()),
                None => Err(schema_not_found(schema_id)),
            },
            None => Ok(table_metadata.current_schema().clone()),
        }
    }

    /// The parent of the snapshot, where it has one and the table still has that one.
    pub fn parent_snapshot<S>(&self, table_metadata: &TableMetadata<S>) -> (parent: Option<
        SnapshotRef,
    >)
        ensures
            parent == match self@.parent_snapshot_id {
                Some(id) => if table_metadata@.snapshots.contains_key(id) {
                    Some(table_metadata@.snapshots[id])
                } else {
                    None
                },
                None => None,
            },
    {
        match self.parent_snapshot_id {
            Some(id) => match table_metadata.snapshot_by_id(id) {
                Some(snapshot) => Some(snapshot.clone()),
                None => None,
            },
            None => None,
        }
    }

    /// What has to be read to load the manifest list: the file that the snapshot names,
    /// by the format version of the table.
    pub fn manifest_list_read<S>(&self, table_metadata: &TableMetadata<S>) -> (read:
        ManifestListRead)
        ensures
            read.location@ == self@.manifest_list,
            read.format_version == table_metadata@.format_version,
    {
        ManifestListRead {
            location: self.manifest_list.clone(),
            format_version: table_metadata.format_version(),
        }
    }

    /// The entry of the snapshot in the history of the table.
    pub fn log(&self) -> (log: SnapshotLog)
        ensures
            log == (SnapshotLog {
                snapshot_id: self@.snapshot_id,
                timestamp_ms: self@.timestamp_ms,
            }),
    {
        SnapshotLog { timestamp_ms: self.timestamp_ms, snapshot_id: self.snapshot_id }
    }
}

} // verus!
