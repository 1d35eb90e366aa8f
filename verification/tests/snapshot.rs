use std::borrow::Cow;
use std::collections::HashMap;
use std::sync::Arc;

use chrono::{DateTime, TimeZone, Utc};
use serde_json::Value;
use snapshots::error::ErrorKind;
use snapshots::snapshot::builder::IntoText;
use snapshots::snapshot::record::{
    SnapshotV1, SnapshotV2, MANIFEST_FILES_NOT_OMITTED, MANIFEST_LIST_MISSING,
};
use snapshots::snapshot::{
    ManifestListRead, Operation, Snapshot, Summary, MAIN_BRANCH, UNASSIGNED_SNAPSHOT_ID,
};
use snapshots::table_metadata::{FormatVersion, SchemaId, SnapshotLog, TableMetadata};
use snapshots::time::{UtcDateTime, MAX_UTC_MILLIS, MIN_UTC_MILLIS};

fn text(value: &Value) -> Option<String> {
    value.as_str().map(|text| text.to_string())
}

fn operation(name: &str) -> Operation {
    [Operation::Append, Operation::Replace, Operation::Overwrite, Operation::Delete]
        .into_iter()
        .find(|operation| operation.as_str() == name)
        .unwrap()
}

fn summary_of_json(value: &Value) -> Option<Summary> {
    let fields = value.as_object()?;
    let additional_properties = fields
        .iter()
        .filter(|(name, _)| name.as_str() != "operation")
        .map(|(name, value)| (name.clone(), text(value).unwrap()))
        .collect();
    Some(Summary {
        operation: operation(fields["operation"].as_str().unwrap()),
        additional_properties,
    })
}

fn v1_of_json(record: &str) -> SnapshotV1 {
    let record: Value = serde_json::from_str(record).unwrap();
    SnapshotV1 {
        snapshot_id: record["snapshot-id"].as_i64().unwrap(),
        parent_snapshot_id: record["parent-snapshot-id"].as_i64(),
        timestamp_ms: record["timestamp-ms"].as_i64().unwrap(),
        manifest_list: text(&record["manifest-list"]),
        manifests: record["manifests"]
            .as_array()
            .map(|files| files.iter().map(|file| text(file).unwrap()).collect()),
        summary: summary_of_json(&record["summary"]),
        schema_id: record["schema-id"].as_i64().map(|id| SchemaId::try_from(id).unwrap()),
    }
}

fn chrono_time(at: UtcDateTime) -> DateTime<Utc> {
    Utc.timestamp_opt(at.timestamp, at.timestamp_subsec_nanos).unwrap()
}

fn a_summary() -> Summary {
    Summary {
        operation: Operation::Overwrite,
        additional_properties: HashMap::from([("added-files".to_string(), "4".to_string())]),
    }
}

fn a_snapshot() -> Snapshot {
    Snapshot::builder()
        .with_snapshot_id(11)
        .with_parent_snapshot_id(Some(10))
        .with_sequence_number(3)
        .with_timestamp_ms(1515100955770)
        .with_manifest_list("s3://b/wh/.../s1.avro")
        .with_summary(a_summary())
        .with_schema_id(1)
        .build()
}

fn at_time(timestamp_ms: i64) -> Snapshot {
    Snapshot::builder()
        .with_snapshot_id(1)
        .with_sequence_number(0)
        .with_timestamp_ms(timestamp_ms)
        .with_manifest_list(String::new())
        .with_summary(a_summary())
        .build()
}

fn a_table(snapshots: Vec<Snapshot>) -> TableMetadata<&'static str> {
    TableMetadata::new(
        FormatVersion::V2,
        HashMap::from([(0, Arc::new("schema 0")), (1, Arc::new("schema 1"))]),
        0,
        snapshots
            .into_iter()
            .map(|snapshot| (snapshot.snapshot_id(), Arc::new(snapshot)))
            .collect(),
    )
    .unwrap()
}

#[test]
fn schema() {
    let record = r#"
        {
            "snapshot-id": 3051729675574597004,
            "timestamp-ms": 1515100955770,
            "summary": {
                "operation": "append"
            },
            "manifest-list": "s3://b/wh/.../s1.avro",
            "schema-id": 0
        }
        "#;

    let result: Snapshot = v1_of_json(record).try_into().unwrap();
    assert_eq!(3051729675574597004, result.snapshot_id());
    assert_eq!(
        Utc.timestamp_millis_opt(1515100955770).unwrap(),
        chrono_time(result.timestamp().unwrap())
    );
    assert_eq!(1515100955770, result.timestamp_ms());
    assert_eq!(
        Summary {
            operation: Operation::Append,
            additional_properties: HashMap::new()
        },
        *result.summary()
    );
    assert_eq!("s3://b/wh/.../s1.avro".to_string(), *result.manifest_list());
}

#[test]
fn constants() {
    assert_eq!(MAIN_BRANCH, "main");
    assert_eq!(UNASSIGNED_SNAPSHOT_ID, -1);
}

#[test]
fn operation_names() {
    assert_eq!(Operation::Append.as_str(), "append");
    assert_eq!(Operation::Replace.as_str(), "replace");
    assert_eq!(Operation::Overwrite.as_str(), "overwrite");
    assert_eq!(Operation::Delete.as_str(), "delete");
}

#[test]
fn default_operation_is_append() {
    assert_eq!(Operation::default(), Operation::Append);
}

#[test]
fn built_snapshot_has_what_was_given() {
    let snapshot = a_snapshot();
    assert_eq!(snapshot.snapshot_id(), 11);
    assert_eq!(snapshot.parent_snapshot_id(), Some(10));
    assert_eq!(snapshot.sequence_number(), 3);
    assert_eq!(snapshot.timestamp_ms(), 1515100955770);
    assert_eq!(snapshot.manifest_list(), "s3://b/wh/.../s1.avro");
    assert_eq!(*snapshot.summary(), a_summary());
    assert_eq!(snapshot.schema_id(), Some(1));
}

#[test]
fn builder_takes_fields_in_any_order() {
    let snapshot = Snapshot::builder()
        .schema_id_opt(Some(1))
        .with_summary(a_summary())
        .with_manifest_list("s3://b/wh/.../s1.avro".to_string())
        .with_timestamp_ms(1515100955770)
        .with_sequence_number(3)
        .with_parent_snapshot_id(Some(10))
        .with_snapshot_id(11)
        .build();
    assert_eq!(snapshot, a_snapshot());
}

fn with_list(manifest_list: impl IntoText) -> String {
    Snapshot::builder()
        .with_snapshot_id(1)
        .with_sequence_number(0)
        .with_timestamp_ms(0)
        .with_manifest_list(manifest_list)
        .with_summary(a_summary())
        .build()
        .manifest_list()
        .to_string()
}

#[test]
fn manifest_list_from_any_text() {
    let mut owned = "\u{e9}/m.avro".to_string();
    assert_eq!(with_list("\u{e9}/m.avro"), "\u{e9}/m.avro");
    assert_eq!(with_list(&owned), "\u{e9}/m.avro");
    assert_eq!(with_list(owned.as_mut_str()), "\u{e9}/m.avro");
    assert_eq!(with_list(owned.clone().into_boxed_str()), "\u{e9}/m.avro");
    assert_eq!(with_list(Cow::Borrowed("\u{e9}/m.avro")), "\u{e9}/m.avro");
    assert_eq!(with_list(Cow::<str>::Owned(owned.clone())), "\u{e9}/m.avro");
    assert_eq!(with_list(owned), "\u{e9}/m.avro");
}

#[test]
fn manifest_list_from_a_character() {
    assert_eq!(with_list('m'), "m");
    assert_eq!(with_list('\u{1f9ca}'), "\u{1f9ca}");
}

#[test]
fn builder_defaults() {
    let snapshot = at_time(0);
    assert_eq!(snapshot.parent_snapshot_id(), None);
    assert_eq!(snapshot.schema_id(), None);
    let snapshot = Snapshot::builder()
        .with_snapshot_id(1)
        .with_parent_snapshot_id(None)
        .with_sequence_number(0)
        .with_timestamp_ms(0)
        .with_manifest_list("")
        .with_summary(a_summary())
        .schema_id_opt(None)
        .build();
    assert_eq!(snapshot, at_time(0));
}

#[test]
fn timestamp_in_seconds_and_nanoseconds() {
    assert_eq!(
        at_time(1515100955770).timestamp().unwrap(),
        UtcDateTime { timestamp: 1515100955, timestamp_subsec_nanos: 770_000_000 }
    );
    assert_eq!(
        at_time(0).timestamp().unwrap(),
        UtcDateTime { timestamp: 0, timestamp_subsec_nanos: 0 }
    );
    assert_eq!(
        at_time(-1).timestamp().unwrap(),
        UtcDateTime { timestamp: -1, timestamp_subsec_nanos: 999_000_000 }
    );
}

#[test]
fn timestamp_keeps_the_milliseconds() {
    for timestamp_ms in [MIN_UTC_MILLIS, -1_001, -1_000, -1, 0, 1, 999, 1_000, MAX_UTC_MILLIS] {
        let at = at_time(timestamp_ms).timestamp().unwrap();
        assert_eq!(chrono_time(at).timestamp_millis(), timestamp_ms);
        assert_eq!(chrono_time(at), Utc.timestamp_millis_opt(timestamp_ms).unwrap());
    }
}

#[test]
fn timestamp_range_ends_with_the_calendar() {
    assert_eq!(
        chrono_time(at_time(MIN_UTC_MILLIS).timestamp().unwrap()),
        DateTime::<Utc>::MIN_UTC
    );
    assert_eq!(MAX_UTC_MILLIS, DateTime::<Utc>::MAX_UTC.timestamp_millis());
    for timestamp_ms in [i64::MIN, MIN_UTC_MILLIS - 1, MAX_UTC_MILLIS + 1, i64::MAX] {
        assert_eq!(Utc.timestamp_millis_opt(timestamp_ms).single(), None);
        let error = at_time(timestamp_ms).timestamp().unwrap_err();
        assert_eq!(error.kind(), ErrorKind::DataInvalid);
        assert_eq!(error.message(), "Invalid timestamp");
    }
}

#[test]
fn schema_by_the_id_of_the_snapshot() {
    let found = a_snapshot().schema(&a_table(Vec::new())).unwrap();
    assert_eq!(*found, "schema 1");
}

#[test]
fn current_schema_without_an_id() {
    let found = at_time(0).schema(&a_table(Vec::new())).unwrap();
    assert_eq!(*found, "schema 0");
}

#[test]
fn unknown_schema_id_is_an_error() {
    for (schema_id, message) in [
        (2, "Schema with id 2 not found"),
        (-7, "Schema with id -7 not found"),
        (1234567890, "Schema with id 1234567890 not found"),
        (SchemaId::MAX, "Schema with id 2147483647 not found"),
        (SchemaId::MIN, "Schema with id -2147483648 not found"),
    ] {
        let snapshot = Snapshot::builder()
            .with_snapshot_id(1)
            .with_sequence_number(0)
            .with_timestamp_ms(0)
            .with_manifest_list("")
            .with_summary(a_summary())
            .with_schema_id(schema_id)
            .build();
        let error = snapshot.schema(&a_table(Vec::new())).unwrap_err();
        assert_eq!(error.kind(), ErrorKind::DataInvalid);
        assert_eq!(error.message(), message);
    }
}

#[test]
fn table_needs_its_current_schema() {
    let error = TableMetadata::<u8>::new(FormatVersion::V1, HashMap::new(), 100, HashMap::new())
        .unwrap_err();
    assert_eq!(error.kind(), ErrorKind::DataInvalid);
    assert_eq!(error.message(), "Schema with id 100 not found");
}

#[test]
fn table_lookups() {
    let table = a_table(vec![a_snapshot()]);
    assert_eq!(table.format_version(), FormatVersion::V2);
    assert_eq!(**table.current_schema(), "schema 0");
    assert_eq!(table.schema_by_id(1).map(|schema| **schema), Some("schema 1"));
    assert_eq!(table.schema_by_id(2), None);
    assert_eq!(table.snapshot_by_id(11).map(|snapshot| snapshot.snapshot_id()), Some(11));
    assert_eq!(table.snapshot_by_id(12), None);
}

#[test]
fn parent_is_found_in_the_table() {
    let parent = Snapshot::builder()
        .with_snapshot_id(10)
        .with_sequence_number(2)
        .with_timestamp_ms(5)
        .with_manifest_list("p.avro")
        .with_summary(a_summary())
        .build();
    let table = a_table(vec![parent.clone(), a_snapshot()]);
    assert_eq!(a_snapshot().parent_snapshot(&table).map(|found| (*found).clone()), Some(parent));
}

#[test]
fn no_parent() {
    let table = a_table(vec![a_snapshot()]);
    assert_eq!(a_snapshot().parent_snapshot(&table), None);
    assert_eq!(at_time(0).parent_snapshot(&table), None);
}

#[test]
fn log_has_id_and_time() {
    assert_eq!(
        a_snapshot().log(),
        SnapshotLog { snapshot_id: 11, timestamp_ms: 1515100955770 }
    );
}

#[test]
fn manifest_list_is_read_by_the_format_of_the_table() {
    assert_eq!(
        a_snapshot().manifest_list_read(&a_table(Vec::new())),
        ManifestListRead {
            location: "s3://b/wh/.../s1.avro".to_string(),
            format_version: FormatVersion::V2,
        }
    );
}

#[test]
fn v2_round_trip() {
    let record = SnapshotV2::from(a_snapshot());
    assert_eq!(
        record,
        SnapshotV2 {
            snapshot_id: 11,
            parent_snapshot_id: Some(10),
            sequence_number: 3,
            timestamp_ms: 1515100955770,
            manifest_list: "s3://b/wh/.../s1.avro".to_string(),
            summary: a_summary(),
            schema_id: Some(1),
        }
    );
    assert_eq!(Snapshot::from(record), a_snapshot());
}

#[test]
fn v1_round_trip_loses_the_sequence_number() {
    let record = SnapshotV1::from(a_snapshot());
    assert_eq!(
        record,
        SnapshotV1 {
            snapshot_id: 11,
            parent_snapshot_id: Some(10),
            timestamp_ms: 1515100955770,
            manifest_list: Some("s3://b/wh/.../s1.avro".to_string()),
            manifests: None,
            summary: Some(a_summary()),
            schema_id: Some(1),
        }
    );
    let read = Snapshot::try_from(record).unwrap();
    assert_eq!(read.sequence_number(), 0);
    assert_eq!(
        SnapshotV2 { sequence_number: 3, ..SnapshotV2::from(read) },
        SnapshotV2::from(a_snapshot())
    );
}

#[test]
fn v1_round_trip_of_a_snapshot_without_sequence_number() {
    let read = Snapshot::try_from(SnapshotV1::from(at_time(7))).unwrap();
    assert_eq!(read, at_time(7));
}

#[test]
fn v1_without_summary_is_an_append() {
    let read: Snapshot = v1_of_json(
        r#"{"snapshot-id": 1, "timestamp-ms": 2, "manifest-list": "m.avro"}"#,
    )
    .try_into()
    .unwrap();
    assert_eq!(
        *read.summary(),
        Summary { operation: Operation::Append, additional_properties: HashMap::new() }
    );
    assert_eq!(read.manifest_list(), "m.avro");
    assert_eq!(read.parent_snapshot_id(), None);
    assert_eq!(read.schema_id(), None);
}

#[test]
fn v1_with_list_and_files() {
    let read: Snapshot = v1_of_json(
        r#"{"snapshot-id": 1, "timestamp-ms": 2, "manifest-list": "m.avro", "manifests": ["a"]}"#,
    )
    .try_into()
    .unwrap();
    assert_eq!(
        read.manifest_list(),
        "Invalid v1 snapshot, when manifest list provided, manifest files should be omitted"
    );
    assert_eq!(read.manifest_list(), MANIFEST_FILES_NOT_OMITTED);
}

#[test]
fn v1_without_list() {
    for record in [
        r#"{"snapshot-id": 1, "timestamp-ms": 2}"#,
        r#"{"snapshot-id": 1, "timestamp-ms": 2, "manifests": ["a", "b"]}"#,
    ] {
        let read: Snapshot = v1_of_json(record).try_into().unwrap();
        assert_eq!(
            read.manifest_list(),
            "Unsupported v1 snapshot, only manifest list is supported"
        );
        assert_eq!(read.manifest_list(), MANIFEST_LIST_MISSING);
        let again = Snapshot::try_from(SnapshotV1::from(read.clone())).unwrap();
        assert_eq!(again, read);
    }
}

#[test]
fn clones_are_equal() {
    assert_eq!(a_snapshot().clone(), a_snapshot());
    assert_eq!(a_summary().clone(), a_summary());
    for name in ["append", "replace", "overwrite", "delete"] {
        assert_eq!(operation(name).clone().as_str(), name);
    }
}
