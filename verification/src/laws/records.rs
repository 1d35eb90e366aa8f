//! Laws of storing snapshots and reading them.

use vstd::prelude::*;

use crate::error::Error;
use crate::snapshot::record::{SnapshotV1, SnapshotV2};
use crate::snapshot::{Operation, Snapshot, Summary};
use crate::table_metadata::SchemaId;

verus! {

/// A snapshot that was read from a second-version record says what the record holds.
pub proof fn v2_record_is_read_as_it_stands(
    v2: SnapshotV2,
    snapshot: Snapshot,
    snapshot_id: i64,
    parent_snapshot_id: Option<i64>,
    sequence_number: i64,
    timestamp_ms: i64,
    manifest_list: &str,
    summary: &Summary,
    schema_id: Option<SchemaId>,
)
    requires
        call_ensures(<Snapshot as From<SnapshotV2>>::from, (v2,), snapshot),
        call_ensures(Snapshot::snapshot_id, (&snapshot,), snapshot_id),
        call_ensures(Snapshot::parent_snapshot_id, (&snapshot,), parent_snapshot_id),
        call_ensures(Snapshot::sequence_number, (&snapshot,), sequence_number),
        call_ensures(Snapshot::timestamp_ms, (&snapshot,), timestamp_ms),
        call_ensures(Snapshot::manifest_list, (&snapshot,), manifest_list),
        call_ensures(Snapshot::summary, (&snapshot,), summary),
        call_ensures(Snapshot::schema_id, (&snapshot,), schema_id),
    ensures
        snapshot_id == v2.snapshot_id,
        parent_snapshot_id == v2.parent_snapshot_id,
        sequence_number == v2.sequence_number,
        timestamp_ms == v2.timestamp_ms,
        manifest_list@ == v2.manifest_list@,
        summary.operation == v2.summary.operation,
        summary.additional_properties@ == v2.summary.additional_properties@,
        schema_id == v2.schema_id,
{
}

/// The second-version record of a snapshot holds what the snapshot says.
pub proof fn snapshot_is_stored_in_v2_as_it_stands(
    snapshot: Snapshot,
    snapshot_id: i64,
    parent_snapshot_id: Option<i64>,
    sequence_number: i64,
    timestamp_ms: i64,
    manifest_list: &str,
    summary: &Summary,
    schema_id: Option<SchemaId>,
    v2: SnapshotV2,
)
    requires
        call_ensures(Snapshot::snapshot_id, (&snapshot,), snapshot_id),
        call_ensures(Snapshot::parent_snapshot_id, (&snapshot,), parent_snapshot_id),
        call_ensures(Snapshot::sequence_number, (&snapshot,), sequence_number),
        call_ensures(Snapshot::timestamp_ms, (&snapshot,), timestamp_ms),
        call_ensures(Snapshot::manifest_list, (&snapshot,), manifest_list),
        call_ensures(Snapshot::summary, (&snapshot,), summary),
        call_ensures(Snapshot::schema_id, (&snapshot,), schema_id),
        call_ensures(<SnapshotV2 as From<Snapshot>>::from, (snapshot,), v2),
    ensures
        v2.snapshot_id == snapshot_id,
        v2.parent_snapshot_id == parent_snapshot_id,
        v2.sequence_number == sequence_number,
        v2.timestamp_ms == timestamp_ms,
        v2.manifest_list@ == manifest_list@,
        v2.summary.operation == summary.operation,
        v2.summary.additional_properties@ == summary.additional_properties@,
        v2.schema_id == schema_id,
{
}

/// Every first-version record can be read, whatever it holds. The snapshot has the identifier, the
/// parent, the time and the schema of the record, and the sequence number 0.
pub proof fn v1_record_is_read(
    v1: SnapshotV1,
    read: Result<Snapshot, Error>,
    snapshot_id: i64,
    parent_snapshot_id: Option<i64>,
    sequence_number: i64,
    timestamp_ms: i64,
    schema_id: Option<SchemaId>,
)
    requires
        call_ensures(<Snapshot as TryFrom<SnapshotV1>>::try_from, (v1,), read),
        call_ensures(Snapshot::snapshot_id, (&read->Ok_0,), snapshot_id),
        call_ensures(Snapshot::parent_snapshot_id, (&read->Ok_0,), parent_snapshot_id),
        call_ensures(Snapshot::sequence_number, (&read->Ok_0,), sequence_number),
        call_ensures(Snapshot::timestamp_ms, (&read->Ok_0,), timestamp_ms),
        call_ensures(Snapshot::schema_id, (&read->Ok_0,), schema_id),
    ensures
        read is Ok,
        snapshot_id == v1.snapshot_id,
        parent_snapshot_id == v1.parent_snapshot_id,
        sequence_number == 0,
        timestamp_ms == v1.timestamp_ms,
        schema_id == v1.schema_id,
{
}

/// A snapshot that was read from a first-version record has the manifest list of the record
/// where that is all the record has. Where the record has manifest files too, or no manifest list,
/// a sentence that says so stands in its place.
pub proof fn v1_manifest_list_is_read(
    v1: SnapshotV1,
    read: Result<Snapshot, Error>,
    manifest_list: &str,
)
    requires
        call_ensures(<Snapshot as TryFrom<SnapshotV1>>::try_from, (v1,), read),
        call_ensures(Snapshot::manifest_list, (&read->Ok_0,), manifest_list),
    ensures
        v1.manifest_list is Some && v1.manifests is None ==> manifest_list@
            == v1.manifest_list->0@,
        v1.manifest_list is Some && v1.manifests is Some ==> manifest_list@
            == "Invalid v1 snapshot, when manifest list provided, manifest files should be omitted"@,
        v1.manifest_list is None ==> manifest_list@
            == "Unsupported v1 snapshot, only manifest list is supported"@,
{
}

/// A snapshot that was read from a first-version record has the very summary of the record. Where
/// the record has none, it is an append without further properties.
pub proof fn v1_summary_is_read(
    v1: SnapshotV1,
    read: Result<Snapshot, Error>,
    summary: &Summary,
)
    requires
        call_ensures(<Snapshot as TryFrom<SnapshotV1>>::try_from, (v1,), read),
        call_ensures(Snapshot::summary, (&read->Ok_0,), summary),
    ensures
        v1.summary is Some ==> summary.operation == v1.summary->0.operation,
        v1.summary is Some ==> summary.additional_properties@
            == v1.summary->0.additional_properties@,
        v1.summary is None ==> summary.operation == Operation::Append,
        v1.summary is None ==> summary.additional_properties@ == Map::<String, String>::empty(),
{
}

/// The first-version record of a snapshot holds what the snapshot says, but for the sequence
/// number, which it has no place for. It has no manifest files.
pub proof fn snapshot_is_stored_in_v1_as_it_stands(
    snapshot: Snapshot,
    snapshot_id: i64,
    parent_snapshot_id: Option<i64>,
    timestamp_ms: i64,
    manifest_list: &str,
    summary: &Summary,
    schema_id: Option<SchemaId>,
    v1: SnapshotV1,
)
    requires
        call_ensures(Snapshot::snapshot_id, (&snapshot,), snapshot_id),
        call_ensures(Snapshot::parent_snapshot_id, (&snapshot,), parent_snapshot_id),
        call_ensures(Snapshot::timestamp_ms, (&snapshot,), timestamp_ms),
        call_ensures(Snapshot::manifest_list, (&snapshot,), manifest_list),
        call_ensures(Snapshot::summary, (&snapshot,), summary),
        call_ensures(Snapshot::schema_id, (&snapshot,), schema_id),
        call_ensures(<SnapshotV1 as From<Snapshot>>::from, (snapshot,), v1),
    ensures
        v1.snapshot_id == snapshot_id,
        v1.parent_snapshot_id == parent_snapshot_id,
        v1.timestamp_ms == timestamp_ms,
        v1.manifest_list is Some,
        v1.manifest_list->0@ == manifest_list@,
        v1.manifests is None,
        v1.summary is Some,
        v1.summary->0.operation == summary.operation,
        v1.summary->0.additional_properties@ == summary.additional_properties@,
        v1.schema_id == schema_id,
{
}

/// A clone of a snapshot says what the snapshot says.
pub proof fn clone_of_a_snapshot(
    snapshot: Snapshot,
    snapshot_id: i64,
    parent_snapshot_id: Option<i64>,
    sequence_number: i64,
    timestamp_ms: i64,
    manifest_list: &str,
    summary: &Summary,
    schema_id: Option<SchemaId>,
    clone: Snapshot,
    clone_snapshot_id: i64,
    clone_parent_snapshot_id: Option<i64>,
    clone_sequence_number: i64,
    clone_timestamp_ms: i64,
    clone_manifest_list: &str,
    clone_summary: &Summary,
    clone_schema_id: Option<SchemaId>,
)
    requires
        call_ensures(Snapshot::snapshot_id, (&snapshot,), snapshot_id),
        call_ensures(Snapshot::parent_snapshot_id, (&snapshot,), parent_snapshot_id),
        call_ensures(Snapshot::sequence_number, (&snapshot,), sequence_number),
        call_ensures(Snapshot::timestamp_ms, (&snapshot,), timestamp_ms),
        call_ensures(Snapshot::manifest_list, (&snapshot,), manifest_list),
        call_ensures(Snapshot::summary, (&snapshot,), summary),
        call_ensures(Snapshot::schema_id, (&snapshot,), schema_id),
        call_ensures(<Snapshot as Clone>::clone, (&snapshot,), clone),
        call_ensures(Snapshot::snapshot_id, (&clone,), clone_snapshot_id),
        call_ensures(Snapshot::parent_snapshot_id, (&clone,), clone_parent_snapshot_id),
        call_ensures(Snapshot::sequence_number, (&clone,), clone_sequence_number),
        call_ensures(Snapshot::timestamp_ms, (&clone,), clone_timestamp_ms),
        call_ensures(Snapshot::manifest_list, (&clone,), clone_manifest_list),
        call_ensures(Snapshot::summary, (&clone,), clone_summary),
        call_ensures(Snapshot::schema_id, (&clone,), clone_schema_id),
    ensures
        clone_snapshot_id == snapshot_id,
        clone_parent_snapshot_id == parent_snapshot_id,
        clone_sequence_number == sequence_number,
        clone_timestamp_ms == timestamp_ms,
        clone_manifest_list@ == manifest_list@,
        clone_summary.operation == summary.operation,
        clone_summary.additional_properties@ == summary.additional_properties@,
        clone_schema_id == schema_id,
{
}

/// A clone of a summary has its operation and its properties.
pub proof fn clone_of_a_summary(
    summary: Summary,
    clone: Summary,
)
    requires
        call_ensures(<Summary as Clone>::clone, (&summary,), clone),
    ensures
        clone.operation == summary.operation,
        clone.additional_properties@ == summary.additional_properties@,
{
}

/// An operation is named in the records by its variant in lower case.
pub proof fn name_of_an_operation(
    operation: Operation,
    name: &str,
)
    requires
        call_ensures(Operation::as_str, (&operation,), name),
    ensures
        operation is Append ==> name@ == "append"@,
        operation is Replace ==> name@ == "replace"@,
        operation is Overwrite ==> name@ == "overwrite"@,
        operation is Delete ==> name@ == "delete"@,
{
}

/// The operation that stands for none is the append.
pub proof fn default_operation(
    operation: Operation,
)
    requires
        call_ensures(<Operation as Default>::default, (), operation),
    ensures
        operation is Append,
{
}

} // verus!
