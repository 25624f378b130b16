//! The steady state: the two tracked files with the fingerprints held for
//! them, and the reaction to each batch of change events.

use vstd::prelude::*;
use crate::digest::Fingerprint;
use crate::error::{SyncError, SyncErrorView};
use crate::paths::{parent_of, path_parent};
use crate::reconcile::{decide, decision_for, Side, SyncDecision};

verus! {

/// The fingerprint that stands for a file that could not be read. It is also
/// the fingerprint of some readable content, so it proves nothing by itself.
pub const UNREADABLE: Fingerprint = 0;

/// What kind of change an event reports.
#[derive(Clone, Copy, Debug, PartialEq, Eq, Structural)]
pub enum EventKind {
    Create,
    Modify,
    Remove,
    Access,
    Other,
}

/// One change event: the paths it affects and its kind.
#[derive(Debug)]
pub struct ChangeEvent {
    pub paths: Vec<String>,
    pub kind: EventKind,
}

/// A change event with its paths seen as a set of character sequences.
pub struct ChangeEventView {
    pub paths: Set<Seq<char>>,
    pub kind: EventKind,
}

impl View for ChangeEvent {
    type V = ChangeEventView;

    open spec fn view(&self) -> ChangeEventView {
        ChangeEventView {
            paths: Set::new(
                |p: Seq<char>| exists|j: int| 0 <= j < self.paths@.len() && self.paths@[j]@ == p,
            ),
            kind: self.kind,
        }
    }
}

/// The events of a batch, each by its view.
pub open spec fn batch_view(batch: Seq<ChangeEvent>) -> Seq<ChangeEventView> {
    batch.map_values(|e: ChangeEvent| e@)
}

/// Whether an event says that the file at `path` may have new content: it
/// names the path exactly, and it is not a mere access.
pub open spec fn event_touches(event: ChangeEventView, path: Seq<char>) -> bool {
    event.kind != EventKind::Access && event.paths.contains(path)
}

/// Whether some event of the batch touches `path`.
pub open spec fn batch_touches(batch: Seq<ChangeEventView>, path: Seq<char>) -> bool {
    exists|i: int| 0 <= i < batch.len() && event_touches(#[trigger] batch[i], path)
}

/// Which of the two files a batch touches.
#[derive(Clone, Copy, Debug, PartialEq, Eq, Structural)]
pub struct Touched {
    pub a: bool,
    pub b: bool,
}

/// One file of the pair, as the process knows it.
#[derive(Debug)]
pub struct TrackedFile {
    /// Absolute path of the file.
    pub path: String,
    /// Fingerprint of the content last written or last seen by this process.
    pub digest: Fingerprint,
    /// The directory to watch for changes of the file.
    pub parent_directory: String,
}

/// A tracked file with its strings seen as character sequences.
pub struct TrackedFileView {
    pub path: Seq<char>,
    pub digest: Fingerprint,
    pub parent_directory: Seq<char>,
}

impl View for TrackedFile {
    type V = TrackedFileView;

    open spec fn view(&self) -> TrackedFileView {
        TrackedFileView {
            path: self.path@,
            digest: self.digest,
            parent_directory: self.parent_directory@,
        }
    }
}

/// The fingerprint held for a file whose digest was attempted.
pub open spec fn held_or_sentinel(digest: Option<Fingerprint>) -> Fingerprint {
    match digest {
        Some(d) => d,
        None => UNREADABLE,
    }
}

impl TrackedFile {
    /// Starts tracking the file at `path`. `digest` is the fingerprint of its
    /// content, or `None` where it could not be computed; `UNREADABLE` is then
    /// held. Fails with `InvalidPath` where the path has no parent directory.
    pub fn new(path: &str, digest: Option<Fingerprint>) -> (r: Result<TrackedFile, SyncError>)
        ensures
            match r {
                Ok(file) => {
                    &&& file@.path == path@
                    &&& file@.digest == held_or_sentinel(digest)
                    &&& path_parent(path@) == Some(file@.parent_directory)
                },
                Err(e) => path_parent(path@).is_none() && e@ == SyncErrorView::InvalidPath,
            },
    {
        let held = match digest {
            Some(d) => d,
            None => UNREADABLE,
        };
        match parent_of(path) {
            Some(parent) => Ok(
                TrackedFile { path: path.to_owned(), digest: held, parent_directory: parent },
            ),
            None => Err(SyncError::InvalidPath),
        }
    }
}

/// What to do about a file whose digest was just recomputed.
#[derive(Clone, Copy, Debug, PartialEq, Eq, Structural)]
pub enum Reaction {
    /// The digest could not be computed. Nothing changes; the next event tries
    /// again.
    Unreadable,
    /// The digest is the one already held: the content is what this process
    /// wrote or saw last.
    Unchanged,
    /// The content is new. Its fingerprint is now held for this side, and the
    /// content has to be written to the other side.
    Propagate(Fingerprint),
}

/// The two tracked files.
#[derive(Debug)]
pub struct SyncState {
    pub file_a: TrackedFile,
    pub file_b: TrackedFile,
}

/// The two tracked files, each by its view.
pub struct SyncStateView {
    pub file_a: TrackedFileView,
    pub file_b: TrackedFileView,
}

impl View for SyncState {
    type V = SyncStateView;

    open spec fn view(&self) -> SyncStateView {
        SyncStateView { file_a: self.file_a@, file_b: self.file_b@ }
    }
}

impl SyncStateView {
    /// The tracked file of a side.
    pub open spec fn file(self, side: Side) -> TrackedFileView {
        match side {
            Side::A => self.file_a,
            Side::B => self.file_b,
        }
    }

    /// The fingerprint held for a side.
    pub open spec fn held(self, side: Side) -> Fingerprint {
        self.file(side).digest
    }

    /// The same state with `digest` held for `side`.
    pub open spec fn with_held(self, side: Side, digest: Fingerprint) -> SyncStateView {
        match side {
            Side::A => SyncStateView {
                file_a: TrackedFileView { digest: digest, ..self.file_a },
                ..self
            },
            Side::B => SyncStateView {
                file_b: TrackedFileView { digest: digest, ..self.file_b },
                ..self
            },
        }
    }

    /// The state once a decision has been carried out: the destination of its
    /// copy holds the source's fingerprint.
    pub open spec fn after_decision(self, decision: SyncDecision) -> SyncStateView {
        match decision.spec_copy() {
            Some(d) => self.with_held(d.spec_destination(), self.held(d.spec_source())),
            None => self,
        }
    }

    /// The reaction to a recomputed digest of `side`.
    pub open spec fn reaction(self, side: Side, digest: Option<Fingerprint>) -> Reaction {
        match digest {
            None => Reaction::Unreadable,
            Some(d) => if d == self.held(side) {
                Reaction::Unchanged
            } else {
                Reaction::Propagate(d)
            },
        }
    }

    /// The state after a digest of `side` was recomputed: new content has its
    /// fingerprint held at once.
    pub open spec fn after_observe(self, side: Side, digest: Option<Fingerprint>) -> SyncStateView {
        match self.reaction(side, digest) {
            Reaction::Propagate(d) => self.with_held(side, d),
            _ => self,
        }
    }

    /// The state after the content of `source`, with fingerprint `digest`, was
    /// or was not written to the other side.
    pub open spec fn after_settle(
        self,
        source: Side,
        digest: Fingerprint,
        written: bool,
    ) -> SyncStateView {
        if written {
            self.with_held(source.spec_other(), digest)
        } else {
            self
        }
    }

    /// The directories to watch: the parent of A, and that of B where it is
    /// another one.
    pub open spec fn watch_directories(self) -> Seq<Seq<char>> {
        if self.file_a.parent_directory == self.file_b.parent_directory {
            seq![self.file_a.parent_directory]
        } else {
            seq![self.file_a.parent_directory, self.file_b.parent_directory]
        }
    }
}

fn names_path(paths: &Vec<String>, path: &String) -> (found: bool)
    ensures
        found == exists|j: int| 0 <= j < paths@.len() && paths@[j]@ == path@,
{
    let mut j: usize = 0;
    while j < paths.len()
        invariant
            j <= paths.len(),
            forall|k: int| 0 <= k < j ==> paths@[k]@ != path@,
        decreases paths.len() - j,
    {
        if paths[j] == *path {
            return true;
        }
        j = j + 1;
    }
    false
}

impl SyncState {
    /// The state for two tracked files.
    pub fn new(file_a: TrackedFile, file_b: TrackedFile) -> (state: SyncState)
        ensures
            state@ == (SyncStateView { file_a: file_a@, file_b: file_b@ }),
    {
        SyncState { file_a, file_b }
    }

    /// The tracked file of a side.
    pub fn file(&self, side: Side) -> (file: &TrackedFile)
        ensures
            file@ == self@.file(side),
    {
        match side {
            Side::A => &self.file_a,
            Side::B => &self.file_b,
        }
    }

    fn hold(&mut self, side: Side, digest: Fingerprint)
        ensures
            final(self)@ == old(self)@.with_held(side, digest),
    {
        match side {
            Side::A => {
                self.file_a.digest = digest;
            },
            Side::B => {
                self.file_b.digest = digest;
            },
        }
    }

    /// The directories to watch, without repetition.
    pub fn watch_directories(&self) -> (dirs: Vec<String>)
        ensures
            dirs@.map_values(|d: String| d@) == self@.watch_directories(),
    {
        let mut dirs: Vec<String> = Vec::new();
        dirs.push(self.file_a.parent_directory.clone());
        if self.file_a.parent_directory != self.file_b.parent_directory {
            dirs.push(self.file_b.parent_directory.clone());
        }
        dirs
    }

    /// Resolves the start-up state of the pair from the held fingerprints and
    /// the lengths of the two files. On success the caller has to carry out the
    /// decision's plan; the held fingerprints are already those that hold once
    /// it has. On failure nothing changes.
    pub fn reconcile(&mut self, len_a: u64, len_b: u64, overwrite: bool) -> (r: Result<
        SyncDecision,
        SyncError,
    >)
        ensures
            match r {
                Ok(d) => {
                    &&& decision_for(
                        old(self)@.held(Side::A),
                        old(self)@.held(Side::B),
                        len_a as nat,
                        len_b as nat,
                        overwrite,
                    ) == Some(d)
                    &&& final(self)@ == old(self)@.after_decision(d)
                },
                Err(e) => {
                    &&& decision_for(
                        old(self)@.held(Side::A),
                        old(self)@.held(Side::B),
                        len_a as nat,
                        len_b as nat,
                        overwrite,
                    ).is_none()
                    &&& e@ == SyncErrorView::UnresolvedDivergence
                    &&& final(self)@ == old(self)@
                },
            },
    {
        let decision = decide(self.file_a.digest, self.file_b.digest, len_a, len_b, overwrite)?;
        match decision.copy() {
            Some(d) => {
                let digest = self.file(d.source()).digest;
                self.hold(d.destination(), digest);
            },
            None => {},
        }
        Ok(decision)
    }

    /// Which of the two files a batch of events touches.
    pub fn touched(&self, batch: &Vec<ChangeEvent>) -> (t: Touched)
        ensures
            t.a == batch_touches(batch_view(batch@), self@.file_a.path),
            t.b == batch_touches(batch_view(batch@), self@.file_b.path),
    {
        let mut t = Touched { a: false, b: false };
        let mut i: usize = 0;
        while i < batch.len()
            invariant
                i <= batch.len(),
                t.a == batch_touches(batch_view(batch@.take(i as int)), self@.file_a.path),
                t.b == batch_touches(batch_view(batch@.take(i as int)), self@.file_b.path),
            decreases batch.len() - i,
        {
            let event = &batch[i];
            let relevant = match event.kind {
                EventKind::Access => false,
                _ => true,
            };
            let hits_a = relevant && names_path(&event.paths, &self.file_a.path);
            let hits_b = relevant && names_path(&event.paths, &self.file_b.path);
            proof {
                let before = batch_view(batch@.take(i as int));
                let after = batch_view(batch@.take(i + 1));
                assert forall|p: Seq<char>|
                    batch_touches(after, p) == (batch_touches(before, p) || event_touches(
                        after[i as int],
                        p,
                    )) by {
                    if batch_touches(before, p) {
                        let k = choose|k: int|
                            0 <= k < before.len() && event_touches(#[trigger] before[k], p);
                        assert(event_touches(after[k], p));
                    }
                    if batch_touches(after, p) {
                        let k = choose|k: int|
                            0 <= k < after.len() && event_touches(#[trigger] after[k], p);
                        if k < i {
                            assert(event_touches(before[k], p));
                        }
                    }
                }
            }
            if hits_a {
                t.a = true;
            }
            if hits_b {
                t.b = true;
            }
            i = i + 1;
        }
        assert(batch@.take(batch.len() as int) =~= batch@);
        t
    }

    /// Takes in the recomputed digest of `side` (`None` where it could not be
    /// computed) and says what has to happen. New content has its fingerprint
    /// held for `side` at once.
    pub fn observe(&mut self, side: Side, digest: Option<Fingerprint>) -> (reaction: Reaction)
        ensures
            reaction == old(self)@.reaction(side, digest),
            final(self)@ == old(self)@.after_observe(side, digest),
    {
        match digest {
            None => Reaction::Unreadable,
            Some(d) => {
                if d == self.file(side).digest {
                    Reaction::Unchanged
                } else {
                    self.hold(side, d);
                    Reaction::Propagate(d)
                }
            },
        }
    }

    /// Takes in the outcome of writing the content of `source`, with
    /// fingerprint `digest`, to the other side. After a successful write the
    /// other side holds `digest`, so that the event which the write causes is
    /// recognised as an echo. After a failed write nothing changes.
    pub fn settle(&mut self, source: Side, digest: Fingerprint, written: bool)
        ensures
            final(self)@ == old(self)@.after_settle(source, digest, written),
    {
        if written {
            self.hold(source.other(), digest);
        }
    }
}

} // verus!
