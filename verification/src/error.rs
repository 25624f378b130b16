//! The ways in which setting up or running a mirrored pair can fail.

use vstd::prelude::*;

verus! {

/// When a failure arises: while the pair is set up, or while it is watched.
#[derive(Clone, Copy, Debug, PartialEq, Eq, Structural)]
pub enum Phase {
    Startup,
    Watching,
}

/// Why a pair was refused, could not be reconciled, or stopped being watched.
#[derive(Debug, PartialEq, Eq)]
pub enum SyncError {
    /// A path has no file name to compare, or no parent directory to watch.
    InvalidPath,
    /// The two file names differ by more than ASCII case.
    NameMismatch { name_a: String, name_b: String },
    /// The file at `path` does not look like text.
    BinaryFileRejected { path: String },
    /// The files differ and overwriting was not allowed.
    UnresolvedDivergence,
    /// A file operation failed.
    IoError { operation: String, path: String },
    /// The stream of change events broke.
    WatchSubsystemError,
}

/// A `SyncError` with its strings seen as character sequences.
pub enum SyncErrorView {
    InvalidPath,
    NameMismatch { name_a: Seq<char>, name_b: Seq<char> },
    BinaryFileRejected { path: Seq<char> },
    UnresolvedDivergence,
    IoError { operation: Seq<char>, path: Seq<char> },
    WatchSubsystemError,
}

impl View for SyncError {
    type V = SyncErrorView;

    open spec fn view(&self) -> SyncErrorView {
        match *self {
            SyncError::InvalidPath => SyncErrorView::InvalidPath,
            SyncError::NameMismatch { name_a, name_b } => SyncErrorView::NameMismatch {
                name_a: name_a@,
                name_b: name_b@,
            },
            SyncError::BinaryFileRejected { path } => SyncErrorView::BinaryFileRejected {
                path: path@,
            },
            SyncError::UnresolvedDivergence => SyncErrorView::UnresolvedDivergence,
            SyncError::IoError { operation, path } => SyncErrorView::IoError {
                operation: operation@,
                path: path@,
            },
            SyncError::WatchSubsystemError => SyncErrorView::WatchSubsystemError,
        }
    }
}

impl SyncError {
    /// Whether the failure ends the process. During start-up every failure
    /// does. While watching, a failed file operation is reported and survived:
    /// the state stays fit for the next event, and only the next change tries
    /// again.
    pub open spec fn spec_is_fatal(&self, phase: Phase) -> bool {
        phase == Phase::Startup || !(*self is IoError)
    }

    /// Whether the failure ends the process.
    #[verifier::when_used_as_spec(spec_is_fatal)]
    pub fn is_fatal(&self, phase: Phase) -> (fatal: bool)
        ensures
            fatal == self.spec_is_fatal(phase),
    {
        match phase {
            Phase::Startup => true,
            Phase::Watching => match self {
                SyncError::IoError { .. } => false,
                _ => true,
            },
        }
    }
}

} // verus!
