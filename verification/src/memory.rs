//! A pair of files held in memory. It goes through validation, reconciliation
//! and change propagation exactly as a pair on disk does, with file
//! operations that cannot fail, so that the behaviour of the whole can be
//! stated and tried without a file system.

use vstd::prelude::*;
use vstd::slice::slice_to_vec;
use crate::digest::{compute_hash, crc32_of};
use crate::error::{SyncError, SyncErrorView};
use crate::paths::path_parent;
use crate::reconcile::{decision_for, Direction, FileAction, Side, SyncDecision};
use crate::validate::{pair_fault, validate};
use crate::watch::{
    batch_touches, batch_view, ChangeEvent, ChangeEventView, Reaction, SyncState, SyncStateView,
    Touched, TrackedFile, TrackedFileView,
};

verus! {

/// Two files and their backups as byte strings, with the tracking state.
#[derive(Debug)]
pub struct MemoryPair {
    pub state: SyncState,
    pub content_a: Vec<u8>,
    pub content_b: Vec<u8>,
    /// The backup of A, once one has been made.
    pub backup_a: Option<Vec<u8>>,
    /// The backup of B, once one has been made.
    pub backup_b: Option<Vec<u8>>,
}

/// A `MemoryPair` with its contents seen as byte sequences.
pub struct MemoryPairView {
    pub state: SyncStateView,
    pub content_a: Seq<u8>,
    pub content_b: Seq<u8>,
    pub backup_a: Option<Seq<u8>>,
    pub backup_b: Option<Seq<u8>>,
}

/// The bytes of an optional buffer.
pub open spec fn bytes_of(buffer: Option<Vec<u8>>) -> Option<Seq<u8>> {
    match buffer {
        Some(b) => Some(b@),
        None => None,
    }
}

impl View for MemoryPair {
    type V = MemoryPairView;

    open spec fn view(&self) -> MemoryPairView {
        MemoryPairView {
            state: self.state@,
            content_a: self.content_a@,
            content_b: self.content_b@,
            backup_a: bytes_of(self.backup_a),
            backup_b: bytes_of(self.backup_b),
        }
    }
}

/// What is wrong with the files a pair is to be opened on, if anything: a
/// fault of the pair, or else a path without a parent directory.
pub open spec fn open_fault(
    path_a: Seq<char>,
    path_b: Seq<char>,
    content_a: Seq<u8>,
    content_b: Seq<u8>,
) -> Option<SyncErrorView> {
    match pair_fault(path_a, path_b, content_a, content_b) {
        Some(e) => Some(e),
        None => if path_parent(path_a).is_none() || path_parent(path_b).is_none() {
            Some(SyncErrorView::InvalidPath)
        } else {
            None
        },
    }
}

/// The pair as it is right after opening: each file tracked with the
/// fingerprint of its content, and no backups.
pub open spec fn opened(
    path_a: Seq<char>,
    path_b: Seq<char>,
    content_a: Seq<u8>,
    content_b: Seq<u8>,
) -> MemoryPairView {
    MemoryPairView {
        state: SyncStateView {
            file_a: TrackedFileView {
                path: path_a,
                digest: crc32_of(content_a),
                parent_directory: path_parent(path_a).unwrap(),
            },
            file_b: TrackedFileView {
                path: path_b,
                digest: crc32_of(content_b),
                parent_directory: path_parent(path_b).unwrap(),
            },
        },
        content_a,
        content_b,
        backup_a: None,
        backup_b: None,
    }
}

impl MemoryPairView {
    /// The content of a side.
    pub open spec fn content(self, side: Side) -> Seq<u8> {
        match side {
            Side::A => self.content_a,
            Side::B => self.content_b,
        }
    }

    /// The same pair with `content` on `side`.
    pub open spec fn with_content(self, side: Side, content: Seq<u8>) -> MemoryPairView {
        match side {
            Side::A => MemoryPairView { content_a: content, ..self },
            Side::B => MemoryPairView { content_b: content, ..self },
        }
    }

    /// The backup of a side, if one was made.
    pub open spec fn backup(self, side: Side) -> Option<Seq<u8>> {
        match side {
            Side::A => self.backup_a,
            Side::B => self.backup_b,
        }
    }

    /// Whether the fingerprint held for `side` is that of its present content.
    pub open spec fn in_step_at(self, side: Side) -> bool {
        self.state.held(side) == crc32_of(self.content(side))
    }

    /// Whether the tracking state has kept up with both files: each held
    /// fingerprint is that of the file's present content.
    pub open spec fn in_step(self) -> bool {
        self.in_step_at(Side::A) && self.in_step_at(Side::B)
    }

    /// The pair after one file operation. A backup replaces an earlier one.
    pub open spec fn performed(self, action: FileAction) -> MemoryPairView {
        match action {
            FileAction::Backup(Side::A) => MemoryPairView {
                backup_a: Some(self.content_a),
                ..self
            },
            FileAction::Backup(Side::B) => MemoryPairView {
                backup_b: Some(self.content_b),
                ..self
            },
            FileAction::Copy(d) => self.with_content(
                d.spec_destination(),
                self.content(d.spec_source()),
            ),
        }
    }

    /// The pair after a sequence of file operations, first to last.
    pub open spec fn performed_all(self, actions: Seq<FileAction>) -> MemoryPairView
        decreases actions.len(),
    {
        if actions.len() == 0 {
            self
        } else {
            self.performed_all(actions.drop_last()).performed(actions.last())
        }
    }

    /// File operations leave the tracking state alone.
    pub proof fn lemma_performed_all_keeps_state(self, actions: Seq<FileAction>)
        ensures
            self.performed_all(actions).state == self.state,
        decreases actions.len(),
    {
        if actions.len() > 0 {
            self.lemma_performed_all_keeps_state(actions.drop_last());
        }
    }

    /// The pair with the fingerprint of each file's present content held.
    pub open spec fn digested(self) -> MemoryPairView {
        MemoryPairView {
            state: self.state.with_held(Side::A, crc32_of(self.content_a)).with_held(
                Side::B,
                crc32_of(self.content_b),
            ),
            ..self
        }
    }

    /// The decision that reconciliation takes on the pair, or `None` where the
    /// contents diverge and overwriting is not allowed.
    pub open spec fn decision(self, overwrite: bool) -> Option<SyncDecision> {
        decision_for(
            crc32_of(self.content_a),
            crc32_of(self.content_b),
            self.content_a.len(),
            self.content_b.len(),
            overwrite,
        )
    }

    /// The pair after reconciliation with decision `d`: fingerprints taken
    /// afresh, the plan carried out, and the copy's destination holding the
    /// source's fingerprint.
    pub open spec fn reconciled(self, d: SyncDecision) -> MemoryPairView {
        let done = self.digested().performed_all(d.spec_plan());
        MemoryPairView { state: done.state.after_decision(d), ..done }
    }

    /// The pair after the watch loop has looked at `side`: where the content's
    /// fingerprint is not the held one, the content goes to the other side and
    /// both sides hold its fingerprint; else nothing changes.
    pub open spec fn synced_from(self, side: Side) -> MemoryPairView {
        let digest = crc32_of(self.content(side));
        match self.state.reaction(side, Some(digest)) {
            Reaction::Propagate(d) => {
                let copied = self.with_content(side.spec_other(), self.content(side));
                MemoryPairView {
                    state: self.state.after_observe(side, Some(digest)).after_settle(
                        side,
                        d,
                        true,
                    ),
                    ..copied
                }
            },
            _ => self,
        }
    }

    /// The pair after a batch that touches the given sides: A is looked at
    /// first, then B.
    pub open spec fn delivered(self, touched: Touched) -> MemoryPairView {
        let first = if touched.a {
            self.synced_from(Side::A)
        } else {
            self
        };
        if touched.b {
            first.synced_from(Side::B)
        } else {
            first
        }
    }

    /// Which sides of the pair a batch touches.
    pub open spec fn touched_by(self, batch: Seq<ChangeEventView>) -> Touched {
        Touched {
            a: batch_touches(batch, self.state.file_a.path),
            b: batch_touches(batch, self.state.file_b.path),
        }
    }
}

impl MemoryPair {
    /// Opens a pair on two files given by path and content. The pair is
    /// validated first; fingerprints are taken only of a valid pair.
    pub fn open(path_a: &str, path_b: &str, content_a: Vec<u8>, content_b: Vec<u8>) -> (r: Result<
        MemoryPair,
        SyncError,
    >)
        ensures
            match r {
                Ok(pair) => {
                    &&& open_fault(path_a@, path_b@, content_a@, content_b@).is_none()
                    &&& pair@ == opened(path_a@, path_b@, content_a@, content_b@)
                },
                Err(e) => open_fault(path_a@, path_b@, content_a@, content_b@) == Some(e@),
            },
    {
        match validate(path_a, path_b, content_a.as_slice(), content_b.as_slice()) {
            Err(e) => {
                return Err(e);
            },
            Ok(_) => {},
        }
        let digest_a = compute_hash(content_a.as_slice());
        let digest_b = compute_hash(content_b.as_slice());
        let file_a = TrackedFile::new(path_a, Some(digest_a))?;
        let file_b = TrackedFile::new(path_b, Some(digest_b))?;
        Ok(
            MemoryPair {
                state: SyncState::new(file_a, file_b),
                content_a,
                content_b,
                backup_a: None,
                backup_b: None,
            },
        )
    }

    /// Replaces the content of `side`, as an edit from outside does: the
    /// tracking state does not learn of it.
    pub fn edit(&mut self, side: Side, content: Vec<u8>)
        ensures
            final(self)@ == old(self)@.with_content(side, content@),
    {
        match side {
            Side::A => {
                self.content_a = content;
            },
            Side::B => {
                self.content_b = content;
            },
        }
    }

    /// Carries out one file operation.
    pub fn perform(&mut self, action: FileAction)
        ensures
            final(self)@ == old(self)@.performed(action),
    {
        match action {
            FileAction::Backup(Side::A) => {
                self.backup_a = Some(slice_to_vec(self.content_a.as_slice()));
            },
            FileAction::Backup(Side::B) => {
                self.backup_b = Some(slice_to_vec(self.content_b.as_slice()));
            },
            FileAction::Copy(Direction::AtoB) => {
                self.content_b = slice_to_vec(self.content_a.as_slice());
            },
            FileAction::Copy(Direction::BtoA) => {
                self.content_a = slice_to_vec(self.content_b.as_slice());
            },
        }
    }

    /// Reconciles the pair: takes the fingerprints of both contents, decides,
    /// and carries the decision out. Fails with `UnresolvedDivergence`, and
    /// changes nothing, where the contents diverge and `overwrite` is false.
    pub fn reconcile(&mut self, overwrite: bool) -> (r: Result<SyncDecision, SyncError>)
        ensures
            match r {
                Ok(d) => {
                    &&& old(self)@.decision(overwrite) == Some(d)
                    &&& final(self)@ == old(self)@.reconciled(d)
                },
                Err(e) => {
                    &&& old(self)@.decision(overwrite).is_none()
                    &&& e@ == SyncErrorView::UnresolvedDivergence
                    &&& final(self)@ == old(self)@
                },
            },
    {
        let held_a = self.state.file_a.digest;
        let held_b = self.state.file_b.digest;
        self.state.file_a.digest = compute_hash(self.content_a.as_slice());
        self.state.file_b.digest = compute_hash(self.content_b.as_slice());
        let len_a: u64 = self.content_a.len() as u64;
        let len_b: u64 = self.content_b.len() as u64;
        match self.state.reconcile(len_a, len_b, overwrite) {
            Err(e) => {
                self.state.file_a.digest = held_a;
                self.state.file_b.digest = held_b;
                Err(e)
            },
            Ok(d) => {
                let ghost decided = self@;
                let actions = d.plan();
                let mut i: usize = 0;
                while i < actions.len()
                    invariant
                        i <= actions.len(),
                        self.state@ == decided.state,
                        self@ == (MemoryPairView {
                            state: decided.state,
                            ..old(self)@.digested().performed_all(actions@.take(i as int))
                        }),
                    decreases actions.len() - i,
                {
                    assert(actions@.take(i + 1).drop_last() == actions@.take(i as int));
                    self.perform(actions[i]);
                    i = i + 1;
                }
                proof {
                    assert(actions@.take(actions.len() as int) == actions@);
                    old(self)@.digested().lemma_performed_all_keeps_state(actions@);
                }
                Ok(d)
            },
        }
    }

    /// Looks at `side` as the watch loop does after an event for it: takes the
    /// fingerprint of its content and, where that is new, writes the content
    /// to the other side.
    pub fn sync_from(&mut self, side: Side) -> (reaction: Reaction)
        ensures
            reaction == old(self)@.state.reaction(
                side,
                Some(crc32_of(old(self)@.content(side))),
            ),
            final(self)@ == old(self)@.synced_from(side),
    {
        let digest = match side {
            Side::A => compute_hash(self.content_a.as_slice()),
            Side::B => compute_hash(self.content_b.as_slice()),
        };
        let reaction = self.state.observe(side, Some(digest));
        match reaction {
            Reaction::Propagate(d) => {
                self.perform(FileAction::Copy(Direction::from_side(side)));
                self.state.settle(side, d, true);
            },
            _ => {},
        }
        reaction
    }

    /// Takes in one batch of change events: A is looked at first where the
    /// batch touches it, then B.
    pub fn deliver(&mut self, batch: &Vec<ChangeEvent>) -> (touched: Touched)
        ensures
            touched == old(self)@.touched_by(batch_view(batch@)),
            final(self)@ == old(self)@.delivered(touched),
    {
        let touched = self.state.touched(batch);
        if touched.a {
            self.sync_from(Side::A);
        }
        if touched.b {
            self.sync_from(Side::B);
        }
        touched
    }
}

} // verus!
