//! The start-up decision: what to do about two files that may already differ.

use vstd::prelude::*;
use crate::digest::Fingerprint;
use crate::error::{SyncError, SyncErrorView};

verus! {

/// One of the two files of a pair.
#[derive(Clone, Copy, Debug, PartialEq, Eq, Structural)]
pub enum Side {
    A,
    B,
}

/// The way content travels in a copy.
#[derive(Clone, Copy, Debug, PartialEq, Eq, Structural)]
pub enum Direction {
    AtoB,
    BtoA,
}

/// What reconciliation does to a pair.
#[derive(Clone, Copy, Debug, PartialEq, Eq, Structural)]
pub enum SyncDecision {
    /// Nothing: the files agree, or both are empty.
    Noop,
    /// B is empty: it receives A's content.
    CopyAtoB,
    /// A is empty: it receives B's content.
    CopyBtoA,
    /// Both hold content: each is backed up, then one is copied onto the other.
    ConflictBackupThenCopy(Direction),
}

/// One file operation of a plan.
#[derive(Clone, Copy, Debug, PartialEq, Eq, Structural)]
pub enum FileAction {
    /// Save the whole content of this side at its backup path.
    Backup(Side),
    /// Write the source's whole content over the destination.
    Copy(Direction),
}

impl Side {
    /// The opposite side.
    pub open spec fn spec_other(self) -> Side {
        match self {
            Side::A => Side::B,
            Side::B => Side::A,
        }
    }

    /// The opposite side.
    #[verifier::when_used_as_spec(spec_other)]
    pub fn other(self) -> (o: Side)
        ensures
            o == self.spec_other(),
    {
        match self {
            Side::A => Side::B,
            Side::B => Side::A,
        }
    }
}

impl Direction {
    /// The side that is read.
    pub open spec fn spec_source(self) -> Side {
        match self {
            Direction::AtoB => Side::A,
            Direction::BtoA => Side::B,
        }
    }

    /// The side that is read.
    #[verifier::when_used_as_spec(spec_source)]
    pub fn source(self) -> (s: Side)
        ensures
            s == self.spec_source(),
    {
        match self {
            Direction::AtoB => Side::A,
            Direction::BtoA => Side::B,
        }
    }

    /// The side that is written.
    pub open spec fn spec_destination(self) -> Side {
        self.spec_source().spec_other()
    }

    /// The side that is written.
    #[verifier::when_used_as_spec(spec_destination)]
    pub fn destination(self) -> (s: Side)
        ensures
            s == self.spec_destination(),
    {
        self.source().other()
    }

    /// The direction that starts at `source`.
    pub open spec fn spec_from_side(source: Side) -> Direction {
        match source {
            Side::A => Direction::AtoB,
            Side::B => Direction::BtoA,
        }
    }

    /// The direction that starts at `source`.
    #[verifier::when_used_as_spec(spec_from_side)]
    pub fn from_side(source: Side) -> (d: Direction)
        ensures
            d == Direction::spec_from_side(source),
    {
        match source {
            Side::A => Direction::AtoB,
            Side::B => Direction::BtoA,
        }
    }
}

/// The decision for two files with the given fingerprints and lengths, or
/// `None` where they diverge and overwriting is not allowed.
///
/// Equal fingerprints mean there is nothing to do. Otherwise the lengths
/// decide: an empty side receives the other's content, two non-empty sides
/// are a conflict that A wins, and two empty sides need nothing.
pub open spec fn decision_for(
    digest_a: Fingerprint,
    digest_b: Fingerprint,
    len_a: nat,
    len_b: nat,
    overwrite: bool,
) -> Option<SyncDecision> {
    if digest_a == digest_b {
        Some(SyncDecision::Noop)
    } else if !overwrite {
        None
    } else if len_a > 0 && len_b > 0 {
        Some(SyncDecision::ConflictBackupThenCopy(Direction::AtoB))
    } else if len_a > 0 {
        Some(SyncDecision::CopyAtoB)
    } else if len_b > 0 {
        Some(SyncDecision::CopyBtoA)
    } else {
        Some(SyncDecision::Noop)
    }
}

/// Decides what reconciliation does, or fails with `UnresolvedDivergence`
/// where the fingerprints differ and overwriting is not allowed.
pub fn decide(
    digest_a: Fingerprint,
    digest_b: Fingerprint,
    len_a: u64,
    len_b: u64,
    overwrite: bool,
) -> (r: Result<SyncDecision, SyncError>)
    ensures
        match r {
            Ok(d) => decision_for(digest_a, digest_b, len_a as nat, len_b as nat, overwrite) == Some(d),
            Err(e) => {
                &&& decision_for(digest_a, digest_b, len_a as nat, len_b as nat, overwrite).is_none()
                &&& e@ == SyncErrorView::UnresolvedDivergence
            },
        },
{
    if digest_a == digest_b {
        Ok(SyncDecision::Noop)
    } else if !overwrite {
        Err(SyncError::UnresolvedDivergence)
    } else if len_a > 0 && len_b > 0 {
        Ok(SyncDecision::ConflictBackupThenCopy(Direction::AtoB))
    } else if len_a > 0 {
        Ok(SyncDecision::CopyAtoB)
    } else if len_b > 0 {
        Ok(SyncDecision::CopyBtoA)
    } else {
        Ok(SyncDecision::Noop)
    }
}

impl SyncDecision {
    /// The copy that the decision ends with, if it copies at all.
    pub open spec fn spec_copy(self) -> Option<Direction> {
        match self {
            SyncDecision::Noop => None,
            SyncDecision::CopyAtoB => Some(Direction::AtoB),
            SyncDecision::CopyBtoA => Some(Direction::BtoA),
            SyncDecision::ConflictBackupThenCopy(d) => Some(d),
        }
    }

    /// The copy that the decision ends with, if it copies at all.
    #[verifier::when_used_as_spec(spec_copy)]
    pub fn copy(self) -> (c: Option<Direction>)
        ensures
            c == self.spec_copy(),
    {
        match self {
            SyncDecision::Noop => None,
            SyncDecision::CopyAtoB => Some(Direction::AtoB),
            SyncDecision::CopyBtoA => Some(Direction::BtoA),
            SyncDecision::ConflictBackupThenCopy(d) => Some(d),
        }
    }

    /// The file operations that carry a decision out, in order: a conflict
    /// backs up A, then B, before it copies.
    pub open spec fn spec_plan(self) -> Seq<FileAction> {
        match self {
            SyncDecision::Noop => seq![],
            SyncDecision::CopyAtoB => seq![FileAction::Copy(Direction::AtoB)],
            SyncDecision::CopyBtoA => seq![FileAction::Copy(Direction::BtoA)],
            SyncDecision::ConflictBackupThenCopy(d) => seq![
                FileAction::Backup(Side::A),
                FileAction::Backup(Side::B),
                FileAction::Copy(d),
            ],
        }
    }

    /// The file operations that carry a decision out, in order.
    pub fn plan(self) -> (actions: Vec<FileAction>)
        ensures
            actions@ == self.spec_plan(),
    {
        let mut actions: Vec<FileAction> = Vec::new();
        match self {
            SyncDecision::Noop => {},
            SyncDecision::CopyAtoB => {
                actions.push(FileAction::Copy(Direction::AtoB));
            },
            SyncDecision::CopyBtoA => {
                actions.push(FileAction::Copy(Direction::BtoA));
            },
            SyncDecision::ConflictBackupThenCopy(d) => {
                actions.push(FileAction::Backup(Side::A));
                actions.push(FileAction::Backup(Side::B));
                actions.push(FileAction::Copy(d));
            },
        }
        actions
    }
}

} // verus!
