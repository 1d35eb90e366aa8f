//! Laws of branches and tags.

use vstd::prelude::*;

use crate::reference::{SnapshotReference, SnapshotRetention};

verus! {

/// A reference has the snapshot and the retention policy that it was made with, and is a branch
/// exactly where the policy is that of a branch.
pub proof fn reference_is_what_it_was_made_of(
    snapshot_id: i64,
    retention: SnapshotRetention,
    reference: SnapshotReference,
    is_branch: bool,
)
    requires
        call_ensures(SnapshotReference::new, (snapshot_id, retention), reference),
        call_ensures(SnapshotReference::is_branch, (&reference,), is_branch),
    ensures
        reference.snapshot_id == snapshot_id,
        reference.retention == retention,
        is_branch <==> retention is Branch,
        is_branch <==> !(retention is Tag),
{
}

/// The retention policy of a branch has the limits that it was made with.
pub proof fn branch_policy_has_its_limits(
    min_snapshots_to_keep: Option<i32>,
    max_snapshot_age_ms: Option<i64>,
    max_ref_age_ms: Option<i64>,
    retention: SnapshotRetention,
)
    requires
        call_ensures(
            SnapshotRetention::branch,
            (min_snapshots_to_keep, max_snapshot_age_ms, max_ref_age_ms),
            retention,
        ),
    ensures
        retention is Branch,
        retention->min_snapshots_to_keep == min_snapshots_to_keep,
        retention->max_snapshot_age_ms == max_snapshot_age_ms,
        retention->Branch_max_ref_age_ms == max_ref_age_ms,
{
}

/// A clone of a reference is the same reference.
pub proof fn clone_of_a_reference(
    reference: SnapshotReference,
    clone: SnapshotReference,
)
    requires
        call_ensures(<SnapshotReference as Clone>::clone, (&reference,), clone),
    ensures
        clone == reference,
{
}

} // verus!
