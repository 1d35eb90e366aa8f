use snapshots::reference::{SnapshotReference, SnapshotRetention};

#[test]
fn branch_policy() {
    assert_eq!(
        SnapshotRetention::branch(Some(1), Some(2), None),
        SnapshotRetention::Branch {
            min_snapshots_to_keep: Some(1),
            max_snapshot_age_ms: Some(2),
            max_ref_age_ms: None,
        }
    );
}

#[test]
fn branch_is_a_branch() {
    let reference = SnapshotReference::new(3, SnapshotRetention::branch(None, None, None));
    assert_eq!(reference.snapshot_id, 3);
    assert!(reference.is_branch());
}

#[test]
fn tag_is_no_branch() {
    let retention = SnapshotRetention::Tag { max_ref_age_ms: Some(9) };
    let reference = SnapshotReference::new(3, retention.clone());
    assert_eq!(reference.retention, retention);
    assert!(!reference.is_branch());
}

#[test]
fn reference_clones_are_equal() {
    for retention in [
        SnapshotRetention::branch(Some(1), Some(2), Some(3)),
        SnapshotRetention::Tag { max_ref_age_ms: Some(4) },
    ] {
        let reference = SnapshotReference::new(5, retention);
        assert_eq!(reference.clone(), reference);
    }
}
