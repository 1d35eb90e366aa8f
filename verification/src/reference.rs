//! Branches and tags: named references to snapshots, and how long they are kept.

use vstd::prelude::*;

verus! {

/// A reference to a snapshot. Tables keep track of branches and tags by them.
#[derive(Debug, PartialEq, Eq, Structural)]
pub struct SnapshotReference {
    /// The identifier of the snapshot: the tagged one, or the latest one of a branch.
    pub snapshot_id: i64,
    /// How long the reference, and the snapshots behind it, are kept.
    pub retention: SnapshotRetention,
}

/// How long a reference, and the snapshots behind it, are kept when snapshots expire.
#[derive(Debug, PartialEq, Eq, Structural)]
pub enum SnapshotRetention {
    /// Branches are mutable references: a new snapshot can be committed as the one that a
    /// branch refers to.
    Branch {
        /// A positive number: how many snapshots of the branch are kept at least.
        /// Defaults to the table property `history.expire.min-snapshots-to-keep`.
        min_snapshots_to_keep: Option<i32>,
        /// A positive number: the highest age of the snapshots that are kept, the latest one
        /// counted among them. Defaults to the table property
        /// `history.expire.max-snapshot-age-ms`.
        max_snapshot_age_ms: Option<i64>,
        /// A positive number: the highest age of the reference, except for the main branch,
        /// which never expires. Defaults to the table property
        /// `history.expire.max-ref-age-ms`.
        max_ref_age_ms: Option<i64>,
    },
    /// Tags are labels for single snapshots.
    Tag {
        /// A positive number: the highest age of the reference. Defaults to the table property
        /// `history.expire.max-ref-age-ms`.
        max_ref_age_ms: Option<i64>,
    },
}

impl Clone for SnapshotReference {
    fn clone(&self) -> (reference: Self)
        ensures
            reference == *self,
    {
        SnapshotReference { snapshot_id: self.snapshot_id, retention: self.retention.clone() }
    }
}

impl Clone for SnapshotRetention {
    fn clone(&self) -> (retention: Self)
        ensures
            retention == *self,
    {
        match self {
            SnapshotRetention::Branch {
                min_snapshots_to_keep,
                max_snapshot_age_ms,
                max_ref_age_ms,
            } => SnapshotRetention::Branch {
                min_snapshots_to_keep: *min_snapshots_to_keep,
                max_snapshot_age_ms: *max_snapshot_age_ms,
                max_ref_age_ms: *max_ref_age_ms,
            },
            SnapshotRetention::Tag { max_ref_age_ms } => SnapshotRetention::Tag {
                max_ref_age_ms: *max_ref_age_ms,
            },
        }
    }
}

impl SnapshotReference {
    /// Makes a reference to a snapshot.
    pub fn new(snapshot_id: i64, retention: SnapshotRetention) -> (reference: Self)
        ensures
            reference == (SnapshotReference { snapshot_id, retention }),
    {
        SnapshotReference { snapshot_id, retention }
    }

    /// Whether the reference is a branch.
    pub open spec fn is_branch_spec(self) -> bool {
        self.retention is Branch
    }

    /// Whether the reference is a branch.
    pub fn is_branch(&self) -> (is_branch: bool)
        ensures
            is_branch == self.is_branch_spec(),
    {
        matches!(self.retention, SnapshotRetention::Branch { .. })
    }
}

impl SnapshotRetention {
    /// Makes the retention policy of a branch.
    pub fn branch(
        min_snapshots_to_keep: Option<i32>,
        max_snapshot_age_ms: Option<i64>,
        max_ref_age_ms: Option<i64>,
    ) -> (retention: Self)
        ensures
            retention == (SnapshotRetention::Branch {
                min_snapshots_to_keep,
                max_snapshot_age_ms,
                max_ref_age_ms,
            }),
    {
        SnapshotRetention::Branch { min_snapshots_to_keep, max_snapshot_age_ms, max_ref_age_ms }
    }
}

/// A reference with the retention policy of a branch is a branch, and one with the retention
/// policy of a tag is not, whatever the policies say.
pub proof fn retention_policy_decides_what_is_a_branch(
    snapshot_id: i64,
    min_snapshots_to_keep: Option<i32>,
    max_snapshot_age_ms: Option<i64>,
    max_ref_age_ms: Option<i64>,
)
    ensures
        (SnapshotReference {
            snapshot_id,
            retention: SnapshotRetention::Branch {
                min_snapshots_to_keep,
                max_snapshot_age_ms,
                max_ref_age_ms,
            },
        }).is_branch_spec(),
        !(SnapshotReference {
            snapshot_id,
            retention: SnapshotRetention::Tag { max_ref_age_ms },
        }).is_branch_spec(),
{
}

} // verus!
