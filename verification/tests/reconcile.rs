use pairsync::error::SyncError;
use pairsync::reconcile::{decide, Direction, FileAction, Side, SyncDecision};

#[test]
fn equal_fingerprints_need_nothing() {
    for overwrite in [false, true] {
        assert_eq!(decide(7, 7, 5, 5, overwrite), Ok(SyncDecision::Noop));
        assert_eq!(decide(7, 7, 5, 0, overwrite), Ok(SyncDecision::Noop));
        assert_eq!(decide(0, 0, 0, 9, overwrite), Ok(SyncDecision::Noop));
    }
}

#[test]
fn divergence_without_overwrite_is_unresolved() {
    assert_eq!(decide(1, 2, 5, 5, false), Err(SyncError::UnresolvedDivergence));
    assert_eq!(decide(1, 2, 5, 0, false), Err(SyncError::UnresolvedDivergence));
    assert_eq!(decide(1, 2, 0, 5, false), Err(SyncError::UnresolvedDivergence));
    assert_eq!(decide(1, 2, 0, 0, false), Err(SyncError::UnresolvedDivergence));
}

#[test]
fn conflict_is_won_by_a() {
    assert_eq!(
        decide(1, 2, 5, 5, true),
        Ok(SyncDecision::ConflictBackupThenCopy(Direction::AtoB))
    );
    assert_eq!(
        decide(2, 1, 1, u64::MAX, true),
        Ok(SyncDecision::ConflictBackupThenCopy(Direction::AtoB))
    );
}

#[test]
fn empty_side_receives_the_other() {
    assert_eq!(decide(1, 0, 5, 0, true), Ok(SyncDecision::CopyAtoB));
    assert_eq!(decide(0, 1, 0, 5, true), Ok(SyncDecision::CopyBtoA));
}

#[test]
fn two_empty_files_need_nothing_even_with_unlike_fingerprints() {
    // one fingerprint is the stand-in for a failed read
    assert_eq!(decide(0, 3, 0, 0, true), Ok(SyncDecision::Noop));
}

#[test]
fn plan_of_each_decision() {
    assert_eq!(SyncDecision::Noop.plan(), vec![]);
    assert_eq!(SyncDecision::CopyAtoB.plan(), vec![FileAction::Copy(Direction::AtoB)]);
    assert_eq!(SyncDecision::CopyBtoA.plan(), vec![FileAction::Copy(Direction::BtoA)]);
    assert_eq!(
        SyncDecision::ConflictBackupThenCopy(Direction::AtoB).plan(),
        vec![
            FileAction::Backup(Side::A),
            FileAction::Backup(Side::B),
            FileAction::Copy(Direction::AtoB),
        ]
    );
    assert_eq!(
        SyncDecision::ConflictBackupThenCopy(Direction::BtoA).plan(),
        vec![
            FileAction::Backup(Side::A),
            FileAction::Backup(Side::B),
            FileAction::Copy(Direction::BtoA),
        ]
    );
}

#[test]
fn copy_of_each_decision() {
    assert_eq!(SyncDecision::Noop.copy(), None);
    assert_eq!(SyncDecision::CopyAtoB.copy(), Some(Direction::AtoB));
    assert_eq!(SyncDecision::CopyBtoA.copy(), Some(Direction::BtoA));
    assert_eq!(
        SyncDecision::ConflictBackupThenCopy(Direction::AtoB).copy(),
        Some(Direction::AtoB)
    );
}

#[test]
fn sides_and_directions() {
    assert_eq!(Side::A.other(), Side::B);
    assert_eq!(Side::B.other(), Side::A);
    assert_eq!(Direction::from_side(Side::A), Direction::AtoB);
    assert_eq!(Direction::from_side(Side::B), Direction::BtoA);
    assert_eq!(Direction::AtoB.source(), Side::A);
    assert_eq!(Direction::AtoB.destination(), Side::B);
    assert_eq!(Direction::BtoA.source(), Side::B);
    assert_eq!(Direction::BtoA.destination(), Side::A);
}
