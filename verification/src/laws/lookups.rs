//! Laws of what snapshots find in the metadata of their table.

use std::collections::HashMap;
use vstd::prelude::*;

use crate::error::{decimal, Error, ErrorKind};
use crate::snapshot::{ManifestListRead, Snapshot, SnapshotRef};
use crate::table_metadata::{FormatVersion, SchemaId, SchemaRef, SnapshotLog, TableMetadata};

verus! {

/// A table can be made exactly where its current schema is one of its schemas. The error
/// otherwise names the missing schema.
pub proof fn table_needs_its_current_schema<S>(
    format_version: FormatVersion,
    schemas: HashMap<SchemaId, SchemaRef<S>>,
    current_schema_id: SchemaId,
    snapshots: HashMap<i64, SnapshotRef>,
    made: Result<TableMetadata<S>, Error>,
    kind: ErrorKind,
    message: &str,
)
    requires
        call_ensures(
            TableMetadata::<S>::new,
            (format_version, schemas, current_schema_id, snapshots),
            made,
        ),
        made is Err ==> call_ensures(Error::kind, (&made->Err_0,), kind),
        made is Err ==> call_ensures(Error::message, (&made->Err_0,), message),
    ensures
        made is Ok <==> schemas@.contains_key(current_schema_id),
        made is Err ==> kind is DataInvalid,
        made is Err ==> message@ == "Schema with id "@ + decimal(current_schema_id as int) + " not found"@,
{
}

/// A table has what it was made of.
pub proof fn table_has_what_it_was_made_of<S>(
    format_version: FormatVersion,
    schemas: HashMap<SchemaId, SchemaRef<S>>,
    current_schema_id: SchemaId,
    snapshots: HashMap<i64, SnapshotRef>,
    made: Result<TableMetadata<S>, Error>,
    version: FormatVersion,
    current: &SchemaRef<S>,
    schema_id: SchemaId,
    schema: Option<&SchemaRef<S>>,
    snapshot_id: i64,
    snapshot: Option<&SnapshotRef>,
)
    requires
        call_ensures(
            TableMetadata::<S>::new,
            (format_version, schemas, current_schema_id, snapshots),
            made,
        ),
        made is Ok,
        call_ensures(TableMetadata::<S>::format_version, (&made->Ok_0,), version),
        call_ensures(TableMetadata::<S>::current_schema, (&made->Ok_0,), current),
        call_ensures(TableMetadata::<S>::schema_by_id, (&made->Ok_0, schema_id), schema),
        call_ensures(TableMetadata::<S>::snapshot_by_id, (&made->Ok_0, snapshot_id), snapshot),
    ensures
        version == format_version,
        *current == schemas@[current_schema_id],
        schema is Some <==> schemas@.contains_key(schema_id),
        schema is Some ==> *schema->0 == schemas@[schema_id],
        snapshot is Some <==> snapshots@.contains_key(snapshot_id),
        snapshot is Some ==> *snapshot->0 == snapshots@[snapshot_id],
{
}

/// The schema of a snapshot that names none is the one that the table was made with as its
/// current one.
pub proof fn schema_of_a_snapshot_that_names_none<S>(
    format_version: FormatVersion,
    schemas: HashMap<SchemaId, SchemaRef<S>>,
    current_schema_id: SchemaId,
    snapshots: HashMap<i64, SnapshotRef>,
    made: Result<TableMetadata<S>, Error>,
    snapshot: Snapshot,
    schema: Result<SchemaRef<S>, Error>,
)
    requires
        call_ensures(
            TableMetadata::<S>::new,
            (format_version, schemas, current_schema_id, snapshots),
            made,
        ),
        made is Ok,
        call_ensures(Snapshot::schema_id, (&snapshot,), None::<SchemaId>),
        call_ensures(Snapshot::schema::<S>, (&snapshot, &made->Ok_0), schema),
    ensures
        schemas@.contains_key(current_schema_id),
        schema == Ok::<SchemaRef<S>, Error>(schemas@[current_schema_id]),
{
}

/// The schema of a snapshot that names one is the one that the table was made with under that
/// identifier. It is an error that names the identifier exactly where there is none.
pub proof fn schema_of_a_snapshot_that_names_one<S>(
    format_version: FormatVersion,
    schemas: HashMap<SchemaId, SchemaRef<S>>,
    current_schema_id: SchemaId,
    snapshots: HashMap<i64, SnapshotRef>,
    made: Result<TableMetadata<S>, Error>,
    snapshot: Snapshot,
    schema_id: SchemaId,
    schema: Result<SchemaRef<S>, Error>,
    kind: ErrorKind,
    message: &str,
)
    requires
        call_ensures(
            TableMetadata::<S>::new,
            (format_version, schemas, current_schema_id, snapshots),
            made,
        ),
        made is Ok,
        call_ensures(Snapshot::schema_id, (&snapshot,), Some(schema_id)),
        call_ensures(Snapshot::schema::<S>, (&snapshot, &made->Ok_0), schema),
        schema is Err ==> call_ensures(Error::kind, (&schema->Err_0,), kind),
        schema is Err ==> call_ensures(Error::message, (&schema->Err_0,), message),
    ensures
        schema is Ok <==> schemas@.contains_key(schema_id),
        schema is Ok ==> schema->Ok_0 == schemas@[schema_id],
        schema is Err ==> kind is DataInvalid,
        schema is Err ==> message@ == "Schema with id "@ + decimal(schema_id as int) + " not found"@,
{
}

/// The parent of a snapshot is the snapshot that the table was made with under the identifier of
/// the parent. There is none where the snapshot names no parent, or the table has none under it.
pub proof fn parent_of_a_snapshot<S>(
    format_version: FormatVersion,
    schemas: HashMap<SchemaId, SchemaRef<S>>,
    current_schema_id: SchemaId,
    snapshots: HashMap<i64, SnapshotRef>,
    made: Result<TableMetadata<S>, Error>,
    snapshot: Snapshot,
    parent_snapshot_id: Option<i64>,
    parent: Option<SnapshotRef>,
)
    requires
        call_ensures(
            TableMetadata::<S>::new,
            (format_version, schemas, current_schema_id, snapshots),
            made,
        ),
        made is Ok,
        call_ensures(Snapshot::parent_snapshot_id, (&snapshot,), parent_snapshot_id),
        call_ensures(Snapshot::parent_snapshot::<S>, (&snapshot, &made->Ok_0), parent),
    ensures
        parent is Some <==> parent_snapshot_id is Some && snapshots@.contains_key(
            parent_snapshot_id->0,
        ),
        parent is Some ==> parent->0 == snapshots@[parent_snapshot_id->0],
{
}

/// The manifest list of a snapshot is read from the location that the snapshot names, by the
/// format version that the table was made with.
pub proof fn read_of_a_manifest_list<S>(
    format_version: FormatVersion,
    schemas: HashMap<SchemaId, SchemaRef<S>>,
    current_schema_id: SchemaId,
    snapshots: HashMap<i64, SnapshotRef>,
    made: Result<TableMetadata<S>, Error>,
    snapshot: Snapshot,
    manifest_list: &str,
    read: ManifestListRead,
)
    requires
        call_ensures(
            TableMetadata::<S>::new,
            (format_version, schemas, current_schema_id, snapshots),
            made,
        ),
        made is Ok,
        call_ensures(Snapshot::manifest_list, (&snapshot,), manifest_list),
        call_ensures(Snapshot::manifest_list_read::<S>, (&snapshot, &made->Ok_0), read),
    ensures
        read.location@ == manifest_list@,
        read.format_version == format_version,
{
}

/// The entry of a snapshot in the history has its identifier and its time.
pub proof fn history_entry_of_a_snapshot(
    snapshot: Snapshot,
    snapshot_id: i64,
    timestamp_ms: i64,
    log: SnapshotLog,
)
    requires
        call_ensures(Snapshot::snapshot_id, (&snapshot,), snapshot_id),
        call_ensures(Snapshot::timestamp_ms, (&snapshot,), timestamp_ms),
        call_ensures(Snapshot::log, (&snapshot,), log),
    ensures
        log.snapshot_id == snapshot_id,
        log.timestamp_ms == timestamp_ms,
{
}

/// An error says what it was made with.
pub proof fn error_says_what_it_was_made_with(
    given_kind: ErrorKind,
    given_message: String,
    error: Error,
    kind: ErrorKind,
    message: &str,
)
    requires
        call_ensures(Error::new, (given_kind, given_message), error),
        call_ensures(Error::kind, (&error,), kind),
        call_ensures(Error::message, (&error,), message),
    ensures
        kind == given_kind,
        message@ == given_message@,
{
}

/// A number below ten is written as its digit.
pub proof fn decimal_of_one_digit(
    value: int,
)
    requires
        0 <= value < 10,
    ensures
        decimal(value) == seq![('0' as int + value) as char],
{
}

/// A number of more digits is written as its tenth, rounded down, and its last digit.
pub proof fn decimal_ends_with_the_last_digit(
    tenth: int,
    last: int,
)
    requires
        tenth > 0,
        0 <= last < 10,
    ensures
        decimal(10 * tenth + last) == decimal(tenth).push(('0' as int + last) as char),
{
}

/// A negative number is written as a minus sign and the number without it.
pub proof fn decimal_of_a_negative_number(
    value: int,
)
    requires
        value > 0,
    ensures
        decimal(-value) == seq!['-'] + decimal(value),
{
}

} // verus!
