use pairsync::error::{Phase, SyncError};

fn every_error() -> Vec<SyncError> {
    vec![
        SyncError::InvalidPath,
        SyncError::NameMismatch { name_a: "a".to_string(), name_b: "b".to_string() },
        SyncError::BinaryFileRejected { path: "/x/a.png".to_string() },
        SyncError::UnresolvedDivergence,
        SyncError::IoError { operation: "write".to_string(), path: "/x/a.txt".to_string() },
        SyncError::WatchSubsystemError,
    ]
}

#[test]
fn every_failure_is_fatal_during_startup() {
    for error in every_error() {
        assert!(error.is_fatal(Phase::Startup), "{:?}", error);
    }
}

#[test]
fn failed_file_operation_is_survived_while_watching() {
    let error = SyncError::IoError { operation: "read".to_string(), path: "/x/a.txt".to_string() };
    assert!(!error.is_fatal(Phase::Watching));
}

#[test]
fn broken_event_stream_ends_the_watch() {
    assert!(SyncError::WatchSubsystemError.is_fatal(Phase::Watching));
}

#[test]
fn errors_compare_by_their_fields() {
    assert_eq!(
        SyncError::IoError { operation: "read".to_string(), path: "p".to_string() },
        SyncError::IoError { operation: "read".to_string(), path: "p".to_string() }
    );
    assert_ne!(
        SyncError::IoError { operation: "read".to_string(), path: "p".to_string() },
        SyncError::IoError { operation: "write".to_string(), path: "p".to_string() }
    );
    assert_ne!(SyncError::InvalidPath, SyncError::WatchSubsystemError);
}
