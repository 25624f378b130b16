use pairsync::error::SyncError;
use pairsync::reconcile::{Direction, Side, SyncDecision};
use pairsync::watch::{
    ChangeEvent, EventKind, Reaction, SyncState, Touched, TrackedFile, UNREADABLE,
};

fn state(digest_a: u32, digest_b: u32) -> SyncState {
    SyncState::new(
        TrackedFile::new("/left/notes.txt", Some(digest_a)).unwrap(),
        TrackedFile::new("/right/notes.txt", Some(digest_b)).unwrap(),
    )
}

fn event(kind: EventKind, paths: &[&str]) -> ChangeEvent {
    ChangeEvent { paths: paths.iter().map(|p| p.to_string()).collect(), kind }
}

fn held(state: &SyncState) -> (u32, u32) {
    (state.file_a.digest, state.file_b.digest)
}

#[test]
fn tracked_file_knows_its_parent_directory() {
    let file = TrackedFile::new("/tmp/a/notes.txt", Some(42)).unwrap();
    assert_eq!(file.path, "/tmp/a/notes.txt");
    assert_eq!(file.parent_directory, "/tmp/a");
    assert_eq!(file.digest, 42);
}

#[test]
fn tracked_file_holds_sentinel_for_unreadable_content() {
    let file = TrackedFile::new("/tmp/a/notes.txt", None).unwrap();
    assert_eq!(file.digest, 0);
    assert_eq!(UNREADABLE, 0);
}

#[test]
fn tracked_file_needs_a_parent() {
    assert_eq!(TrackedFile::new("/", Some(1)).err(), Some(SyncError::InvalidPath));
    assert_eq!(TrackedFile::new("", Some(1)).err(), Some(SyncError::InvalidPath));
}

#[test]
fn watch_directories_are_not_repeated() {
    let same = SyncState::new(
        TrackedFile::new("/dir/a.txt", Some(1)).unwrap(),
        TrackedFile::new("/dir/A.TXT", Some(1)).unwrap(),
    );
    assert_eq!(same.watch_directories(), vec!["/dir".to_string()]);
    assert_eq!(
        state(1, 1).watch_directories(),
        vec!["/left".to_string(), "/right".to_string()]
    );
}

#[test]
fn batch_touches_by_exact_path() {
    let s = state(1, 1);
    let batch = vec![event(EventKind::Modify, &["/left/notes.txt"])];
    assert_eq!(s.touched(&batch), Touched { a: true, b: false });
    let batch = vec![event(EventKind::Modify, &["/right/notes.txt"])];
    assert_eq!(s.touched(&batch), Touched { a: false, b: true });
    let batch = vec![event(EventKind::Modify, &["/left/notes.txt.swp", "/left/notes.tx", "/left"])];
    assert_eq!(s.touched(&batch), Touched { a: false, b: false });
}

#[test]
fn batch_touches_both_sides() {
    let s = state(1, 1);
    let batch = vec![
        event(EventKind::Modify, &["/elsewhere/file"]),
        event(EventKind::Modify, &["/right/notes.txt"]),
        event(EventKind::Modify, &["/left/other", "/left/notes.txt"]),
    ];
    assert_eq!(s.touched(&batch), Touched { a: true, b: true });
    let one = vec![event(EventKind::Modify, &["/right/notes.txt", "/left/notes.txt"])];
    assert_eq!(s.touched(&one), Touched { a: true, b: true });
}

#[test]
fn empty_batch_touches_nothing() {
    assert_eq!(state(1, 1).touched(&vec![]), Touched { a: false, b: false });
    let no_paths = vec![event(EventKind::Modify, &[])];
    assert_eq!(state(1, 1).touched(&no_paths), Touched { a: false, b: false });
}

#[test]
fn access_events_are_discarded() {
    let s = state(1, 1);
    let batch = vec![event(EventKind::Access, &["/left/notes.txt", "/right/notes.txt"])];
    assert_eq!(s.touched(&batch), Touched { a: false, b: false });
    let mixed = vec![
        event(EventKind::Access, &["/left/notes.txt"]),
        event(EventKind::Modify, &["/right/notes.txt"]),
    ];
    assert_eq!(s.touched(&mixed), Touched { a: false, b: true });
}

#[test]
fn other_kinds_of_event_count() {
    let s = state(1, 1);
    for kind in [EventKind::Create, EventKind::Modify, EventKind::Remove, EventKind::Other] {
        let batch = vec![event(kind, &["/left/notes.txt"])];
        assert_eq!(s.touched(&batch), Touched { a: true, b: false });
    }
}

#[test]
fn observe_skips_unreadable_side() {
    let mut s = state(10, 20);
    assert_eq!(s.observe(Side::A, None), Reaction::Unreadable);
    assert_eq!(s.observe(Side::B, None), Reaction::Unreadable);
    assert_eq!(held(&s), (10, 20));
}

#[test]
fn observe_skips_known_content() {
    let mut s = state(10, 20);
    assert_eq!(s.observe(Side::A, Some(10)), Reaction::Unchanged);
    assert_eq!(s.observe(Side::B, Some(20)), Reaction::Unchanged);
    assert_eq!(held(&s), (10, 20));
}

#[test]
fn observe_holds_new_fingerprint_at_once() {
    let mut s = state(10, 20);
    assert_eq!(s.observe(Side::A, Some(11)), Reaction::Propagate(11));
    assert_eq!(held(&s), (11, 20));
    assert_eq!(s.observe(Side::B, Some(10)), Reaction::Propagate(10));
    assert_eq!(held(&s), (11, 10));
}

#[test]
fn settle_after_write_updates_the_destination() {
    let mut s = state(11, 20);
    s.settle(Side::A, 11, true);
    assert_eq!(held(&s), (11, 11));
    let mut s = state(10, 21);
    s.settle(Side::B, 21, true);
    assert_eq!(held(&s), (21, 21));
}

#[test]
fn settle_after_failed_write_changes_nothing() {
    let mut s = state(11, 20);
    s.settle(Side::A, 11, false);
    assert_eq!(held(&s), (11, 20));
    s.settle(Side::B, 99, false);
    assert_eq!(held(&s), (11, 20));
}

#[test]
fn failed_write_does_not_hide_the_next_change_of_the_destination() {
    let mut s = state(10, 20);
    assert_eq!(s.observe(Side::A, Some(11)), Reaction::Propagate(11));
    s.settle(Side::A, 11, false);
    // B still holds its old fingerprint: content with fingerprint 11 there is news
    assert_eq!(s.observe(Side::B, Some(11)), Reaction::Propagate(11));
}

#[test]
fn echo_of_own_write_is_recognised() {
    let mut s = state(10, 10);
    assert_eq!(s.observe(Side::A, Some(11)), Reaction::Propagate(11));
    s.settle(Side::A, 11, true);
    assert_eq!(s.observe(Side::B, Some(11)), Reaction::Unchanged);
    assert_eq!(held(&s), (11, 11));
}

#[test]
fn state_reconcile_sets_destination_fingerprint() {
    let mut s = state(10, 20);
    assert_eq!(s.reconcile(5, 0, true), Ok(SyncDecision::CopyAtoB));
    assert_eq!(held(&s), (10, 10));

    let mut s = state(10, 20);
    assert_eq!(s.reconcile(0, 5, true), Ok(SyncDecision::CopyBtoA));
    assert_eq!(held(&s), (20, 20));

    let mut s = state(10, 20);
    assert_eq!(
        s.reconcile(5, 5, true),
        Ok(SyncDecision::ConflictBackupThenCopy(Direction::AtoB))
    );
    assert_eq!(held(&s), (10, 10));
}

#[test]
fn state_reconcile_without_copy_keeps_fingerprints() {
    let mut s = state(10, 10);
    assert_eq!(s.reconcile(5, 5, false), Ok(SyncDecision::Noop));
    assert_eq!(held(&s), (10, 10));

    let mut s = state(0, 20);
    assert_eq!(s.reconcile(0, 0, true), Ok(SyncDecision::Noop));
    assert_eq!(held(&s), (0, 20));

    let mut s = state(10, 20);
    assert_eq!(s.reconcile(5, 5, false), Err(SyncError::UnresolvedDivergence));
    assert_eq!(held(&s), (10, 20));
}

#[test]
fn file_of_each_side() {
    let s = state(10, 20);
    assert_eq!(s.file(Side::A).path, "/left/notes.txt");
    assert_eq!(s.file(Side::A).digest, 10);
    assert_eq!(s.file(Side::B).path, "/right/notes.txt");
    assert_eq!(s.file(Side::B).digest, 20);
}

#[test]
fn state_reconcile_keeps_paths() {
    let mut s = state(10, 20);
    s.reconcile(5, 0, true).unwrap();
    assert_eq!(s.file_a.path, "/left/notes.txt");
    assert_eq!(s.file_b.path, "/right/notes.txt");
    assert_eq!(s.file_a.parent_directory, "/left");
    assert_eq!(s.file_b.parent_directory, "/right");
}
