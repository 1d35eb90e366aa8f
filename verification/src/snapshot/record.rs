//! The records in which the versions of the table format store a snapshot.
//!
//! A stored snapshot is first read into the record of its format version, which is then turned
//! into a [`Snapshot`]. To store a snapshot goes the other way.

use std::collections::HashMap;
use vstd::prelude::*;
use vstd::std_specs::convert::{FromSpec, FromSpecImpl, TryFromSpecImpl};

use crate::error::Error;
use crate::snapshot::{Operation, Snapshot, SnapshotView, Summary, SummaryView};
use crate::table_metadata::SchemaId;

verus! {

/// Stands in place of the manifest list of a first-version record that has both a manifest
/// list and manifest files.
pub const MANIFEST_FILES_NOT_OMITTED: &'static str =
    "Invalid v1 snapshot, when manifest list provided, manifest files should be omitted";

/// Stands in place of the manifest list of a first-version record that has none.
pub const MANIFEST_LIST_MISSING: &'static str =
    "Unsupported v1 snapshot, only manifest list is supported";

/// The record of a snapshot in the second version of the table format.
#[derive(Debug, PartialEq, Eq)]
pub struct SnapshotV2 {
    pub snapshot_id: i64,
    pub parent_snapshot_id: Option<i64>,
    pub sequence_number: i64,
    pub timestamp_ms: i64,
    pub manifest_list: String,
    pub summary: Summary,
    pub schema_id: Option<SchemaId>,
}

/// A second-version record says all that there is to a snapshot, so both have one model.
impl View for SnapshotV2 {
    type V = SnapshotView;

    open spec fn view(&self) -> SnapshotView {
        SnapshotView {
            snapshot_id: self.snapshot_id,
            parent_snapshot_id: self.parent_snapshot_id,
            sequence_number: self.sequence_number,
            timestamp_ms: self.timestamp_ms,
            manifest_list: self.manifest_list@,
            summary: self.summary@,
            schema_id: self.schema_id,
        }
    }
}

/// The record of a snapshot in the first version of the table format.
#[derive(Debug, PartialEq, Eq)]
pub struct SnapshotV1 {
    pub snapshot_id: i64,
    pub parent_snapshot_id: Option<i64>,
    pub timestamp_ms: i64,
    pub manifest_list: Option<String>,
    pub manifests: Option<Vec<String>>,
    pub summary: Option<Summary>,
    pub schema_id: Option<SchemaId>,
}

/// The model of a [`SnapshotV1`].
pub struct SnapshotV1View {
    pub snapshot_id: i64,
    pub parent_snapshot_id: Option<i64>,
    pub timestamp_ms: i64,
    pub manifest_list: Option<Seq<char>>,
    pub manifests: Option<Seq<String>>,
    pub summary: Option<SummaryView>,
    pub schema_id: Option<SchemaId>,
}

impl View for SnapshotV1 {
    type V = SnapshotV1View;

    open spec fn view(&self) -> SnapshotV1View {
        SnapshotV1View {
            snapshot_id: self.snapshot_id,
            parent_snapshot_id: self.parent_snapshot_id,
            timestamp_ms: self.timestamp_ms,
            manifest_list: match self.manifest_list {
                Some(manifest_list) => Some(manifest_list@),
                None => None,
            },
            manifests: match self.manifests {
                Some(manifests) => Some(manifests@),
                None => None,
            },
            summary: match self.summary {
                Some(summary) => Some(summary@),
                None => None,
            },
            schema_id: self.schema_id,
        }
    }
}

impl SummaryView {
    /// The summary of a snapshot that has none: an append without further properties.
    pub open spec fn missing() -> SummaryView {
        SummaryView { operation: Operation::Append, additional_properties: Map::empty() }
    }
}

impl SnapshotV1View {
    /// The snapshot of a first-version record.
    pub open spec fn to_snapshot(self) -> SnapshotView {
        SnapshotView {
            snapshot_id: self.snapshot_id,
            parent_snapshot_id: self.parent_snapshot_id,
            sequence_number: 0,
            timestamp_ms: self.timestamp_ms,
            manifest_list: match (self.manifest_list, self.manifests) {
                (Some(manifest_list), None) => manifest_list,
                (Some(_), Some(_)) => MANIFEST_FILES_NOT_OMITTED@,
                (None, _) => MANIFEST_LIST_MISSING@,
            },
            summary: match self.summary {
                Some(summary) => summary,
                None => SummaryView::missing(),
            },
            schema_id: self.schema_id,
        }
    }
}

impl SnapshotView {
    /// The first-version record of a snapshot, which has no place for the sequence number.
    pub open spec fn to_v1(self) -> SnapshotV1View {
        SnapshotV1View {
            snapshot_id: self.snapshot_id,
            parent_snapshot_id: self.parent_snapshot_id,
            timestamp_ms: self.timestamp_ms,
            manifest_list: Some(self.manifest_list),
            manifests: None,
            summary: Some(self.summary),
            schema_id: self.schema_id,
        }
    }
}

impl From<SnapshotV2> for Snapshot {
    /// The snapshot of a second-version record.
    fn from(v2: SnapshotV2) -> (snapshot: Self)
        ensures
            snapshot@ == v2@,
    {
        Snapshot {
            snapshot_id: v2.snapshot_id,
            parent_snapshot_id: v2.parent_snapshot_id,
            sequence_number: v2.sequence_number,
            timestamp_ms: v2.timestamp_ms,
            manifest_list: v2.manifest_list,
            summary: v2.summary,
            schema_id: v2.schema_id,
        }
    }
}

impl FromSpecImpl<SnapshotV2> for Snapshot {
    open spec fn obeys_from_spec() -> bool {
        true
    }

    closed spec fn from_spec(v2: SnapshotV2) -> Self {
        Snapshot {
            snapshot_id: v2.snapshot_id,
            parent_snapshot_id: v2.parent_snapshot_id,
            sequence_number: v2.sequence_number,
            timestamp_ms: v2.timestamp_ms,
            manifest_list: v2.manifest_list,
            summary: v2.summary,
            schema_id: v2.schema_id,
        }
    }
}

impl From<Snapshot> for SnapshotV2 {
    /// The second-version record of a snapshot.
    fn from(snapshot: Snapshot) -> (v2: Self)
        ensures
            v2@ == snapshot@,
    {
        SnapshotV2 {
            snapshot_id: snapshot.snapshot_id,
            parent_snapshot_id: snapshot.parent_snapshot_id,
            sequence_number: snapshot.sequence_number,
            timestamp_ms: snapshot.timestamp_ms,
            manifest_list: snapshot.manifest_list,
            summary: snapshot.summary,
            schema_id: snapshot.schema_id,
        }
    }
}

impl FromSpecImpl<Snapshot> for SnapshotV2 {
    open spec fn obeys_from_spec() -> bool {
        true
    }

    closed spec fn from_spec(snapshot: Snapshot) -> Self {
        SnapshotV2 {
            snapshot_id: snapshot.snapshot_id,
            parent_snapshot_id: snapshot.parent_snapshot_id,
            sequence_number: snapshot.sequence_number,
            timestamp_ms: snapshot.timestamp_ms,
            manifest_list: snapshot.manifest_list,
            summary: snapshot.summary,
            schema_id: snapshot.schema_id,
        }
    }
}

impl TryFrom<SnapshotV1> for Snapshot {
    type Error = Error;

    /// The snapshot of a first-version record, which every such record has.
    ///
    /// Its sequence number is 0. Only a manifest list is supported: where the record has none,
    /// or has manifest files too, a sentence that says so stands in its place. A record without
    /// a summary is an append.
    fn try_from(v1: SnapshotV1) -> (result: Result<Self, Error>)
        ensures
            result is Ok,
            result->Ok_0@ == v1@.to_snapshot(),
    {
        Ok(
            Snapshot {
                snapshot_id: v1.snapshot_id,
                parent_snapshot_id: v1.parent_snapshot_id,
                sequence_number: 0,
                timestamp_ms: v1.timestamp_ms,
                manifest_list: match (v1.manifest_list, v1.manifests) {
                    (Some(manifest_list), None) => manifest_list,
                    (Some(_), Some(_)) => MANIFEST_FILES_NOT_OMITTED.to_owned(),
                    (None, _) => MANIFEST_LIST_MISSING.to_owned(),
                },
                summary: match v1.summary {
                    Some(summary) => summary,
                    None => Summary {
                        operation: Operation::default(),
                        additional_properties: HashMap::new(),
                    },
                },
                schema_id: v1.schema_id,
            },
        )
    }
}

/// Texts are made here, and two texts are compared by their characters. So what the conversion
/// gives is stated over models, by `try_from` itself.
impl TryFromSpecImpl<SnapshotV1> for Snapshot {
    open spec fn obeys_try_from_spec() -> bool {
        false
    }

    open spec fn try_from_spec(v1: SnapshotV1) -> Result<Self, Error> {
        arbitrary()
    }
}

impl From<Snapshot> for SnapshotV1 {
    /// The first-version record of a snapshot.
    fn from(snapshot: Snapshot) -> (v1: Self)
        ensures
            v1@ == snapshot@.to_v1(),
    {
        SnapshotV1 {
            snapshot_id: snapshot.snapshot_id,
            parent_snapshot_id: snapshot.parent_snapshot_id,
            timestamp_ms: snapshot.timestamp_ms,
            manifest_list: Some(snapshot.manifest_list),
            summary: Some(snapshot.summary),
            schema_id: snapshot.schema_id,
            manifests: None,
        }
    }
}

impl FromSpecImpl<Snapshot> for SnapshotV1 {
    open spec fn obeys_from_spec() -> bool {
        true
    }

    closed spec fn from_spec(snapshot: Snapshot) -> Self {
        SnapshotV1 {
            snapshot_id: snapshot.snapshot_id,
            parent_snapshot_id: snapshot.parent_snapshot_id,
            timestamp_ms: snapshot.timestamp_ms,
            manifest_list: Some(snapshot.manifest_list),
            manifests: None,
            summary: Some(snapshot.summary),
            schema_id: snapshot.schema_id,
        }
    }
}

/// To store a snapshot in a second-version record and read it back gives the same snapshot.
pub proof fn snapshot_survives_v2(snapshot: Snapshot)
    ensures
        <Snapshot as FromSpec<SnapshotV2>>::from_spec(
            <SnapshotV2 as FromSpec<Snapshot>>::from_spec(snapshot),
        ) == snapshot,
{
}

/// To read a second-version record and store its snapshot gives the same record.
pub proof fn v2_record_survives_snapshot(v2: SnapshotV2)
    ensures
        <SnapshotV2 as FromSpec<Snapshot>>::from_spec(
            <Snapshot as FromSpec<SnapshotV2>>::from_spec(v2),
        ) == v2,
{
}

/// To store a snapshot in a first-version record and read it back loses the sequence number,
/// which becomes 0, and nothing else.
pub proof fn snapshot_through_v1_loses_the_sequence_number(snapshot: SnapshotView)
    ensures
        snapshot.to_v1().to_snapshot() == (SnapshotView { sequence_number: 0, ..snapshot }),
        snapshot.to_v1().to_snapshot() == snapshot <==> snapshot.sequence_number == 0,
{
}

/// To read a first-version record and store its snapshot gives the same record exactly where
/// the record has a manifest list, no manifest files and a summary.
pub proof fn v1_record_survives_snapshot(v1: SnapshotV1View)
    ensures
        v1.to_snapshot().to_v1() == v1 <==> v1.manifest_list is Some && v1.manifests is None
            && v1.summary is Some,
{
}

/// To store what was read from a first-version record in that version changes nothing for a
/// later reader.
pub proof fn v1_read_is_stable(v1: SnapshotV1View)
    ensures
        v1.to_snapshot().to_v1().to_snapshot() == v1.to_snapshot(),
{
}

/// A snapshot that was read from a first-version record has the sequence number 0.
pub proof fn v1_snapshot_has_sequence_number_zero(v1: SnapshotV1View)
    ensures
        v1.to_snapshot().sequence_number == 0,
{
}

} // verus!
