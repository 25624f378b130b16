//! What holds of validation, reconciliation and change propagation as a
//! whole, proved over the in-memory pair.

use vstd::prelude::*;
use crate::classify::{is_text, known_signature, probe_of, starts_with};
use crate::digest::crc32_of;
use crate::error::SyncErrorView;
use crate::memory::{open_fault, opened, MemoryPairView};
use crate::paths::path_file_name;
use crate::reconcile::{Direction, Side, SyncDecision};
use crate::validate::{name_fault, pair_fault};
use crate::watch::{batch_touches, ChangeEventView, Reaction, Touched};

verus! {

/// Spells out what reconciliation with each decision leaves behind: the
/// contents, the backups, and the held fingerprints.
pub proof fn lemma_reconciled(pair: MemoryPairView, d: SyncDecision)
    ensures
        pair.reconciled(d).state.file_a.path == pair.state.file_a.path,
        pair.reconciled(d).state.file_b.path == pair.state.file_b.path,
        pair.reconciled(d).state.file_a.parent_directory == pair.state.file_a.parent_directory,
        pair.reconciled(d).state.file_b.parent_directory == pair.state.file_b.parent_directory,
        d == SyncDecision::Noop ==> pair.reconciled(d) == pair.digested(),
        d.spec_copy() == Some(Direction::AtoB) ==> {
            &&& pair.reconciled(d).content_a == pair.content_a
            &&& pair.reconciled(d).content_b == pair.content_a
            &&& pair.reconciled(d).state.file_a.digest == crc32_of(pair.content_a)
            &&& pair.reconciled(d).state.file_b.digest == crc32_of(pair.content_a)
        },
        d.spec_copy() == Some(Direction::BtoA) ==> {
            &&& pair.reconciled(d).content_a == pair.content_b
            &&& pair.reconciled(d).content_b == pair.content_b
            &&& pair.reconciled(d).state.file_a.digest == crc32_of(pair.content_b)
            &&& pair.reconciled(d).state.file_b.digest == crc32_of(pair.content_b)
        },
        d is ConflictBackupThenCopy ==> {
            &&& pair.reconciled(d).backup_a == Some(pair.content_a)
            &&& pair.reconciled(d).backup_b == Some(pair.content_b)
        },
        !(d is ConflictBackupThenCopy) ==> {
            &&& pair.reconciled(d).backup_a == pair.backup_a
            &&& pair.reconciled(d).backup_b == pair.backup_b
        },
{
    reveal_with_fuel(MemoryPairView::performed_all, 4);
}

/// Reconciliation is idempotent: on a pair that it has just reconciled, a
/// second run decides on `Noop`, whatever it is allowed, and changes nothing.
/// On a pair whose contents agree to begin with, the first run decides on
/// `Noop` as well.
pub proof fn law_reconcile_idempotent(pair: MemoryPairView, overwrite: bool, again: bool)
    requires
        pair.decision(overwrite).is_some(),
    ensures
        ({
            let after = pair.reconciled(pair.decision(overwrite).unwrap());
            &&& after.decision(again) == Some(SyncDecision::Noop)
            &&& after.reconciled(SyncDecision::Noop) == after
        }),
        pair.content_a == pair.content_b ==> pair.decision(overwrite) == Some(SyncDecision::Noop),
{
    let d = pair.decision(overwrite).unwrap();
    let after = pair.reconciled(d);
    lemma_reconciled(pair, d);
    lemma_reconciled(after, SyncDecision::Noop);
    if d == SyncDecision::Noop && crc32_of(pair.content_a) != crc32_of(pair.content_b) {
        assert(pair.content_a =~= pair.content_b);
    }
}

/// Equal contents are left alone: the decision is `Noop`, whatever is allowed,
/// and neither a file nor a backup changes.
pub proof fn law_equal_content_is_noop(pair: MemoryPairView, overwrite: bool)
    requires
        pair.content_a == pair.content_b,
    ensures
        pair.decision(overwrite) == Some(SyncDecision::Noop),
        pair.reconciled(SyncDecision::Noop).content_a == pair.content_a,
        pair.reconciled(SyncDecision::Noop).content_b == pair.content_b,
        pair.reconciled(SyncDecision::Noop).backup_a == pair.backup_a,
        pair.reconciled(SyncDecision::Noop).backup_b == pair.backup_b,
{
    lemma_reconciled(pair, SyncDecision::Noop);
}

/// An empty B is filled from A: where the fingerprints tell the two apart and
/// overwriting is allowed, B's content becomes A's, A keeps its own, and no
/// backup is made.
pub proof fn law_empty_side_is_filled(pair: MemoryPairView)
    requires
        pair.content_a.len() > 0,
        pair.content_b.len() == 0,
        crc32_of(pair.content_a) != crc32_of(pair.content_b),
    ensures
        pair.decision(true) == Some(SyncDecision::CopyAtoB),
        pair.reconciled(SyncDecision::CopyAtoB).content_b == pair.content_a,
        pair.reconciled(SyncDecision::CopyAtoB).content_a == pair.content_a,
        pair.reconciled(SyncDecision::CopyAtoB).backup_a == pair.backup_a,
        pair.reconciled(SyncDecision::CopyAtoB).backup_b == pair.backup_b,
{
    lemma_reconciled(pair, SyncDecision::CopyAtoB);
}

/// A conflict keeps both versions and lets A win: where both files hold
/// content, the fingerprints differ and overwriting is allowed, each content
/// is backed up and both files end with A's content.
pub proof fn law_conflict_backs_up_both(pair: MemoryPairView)
    requires
        pair.content_a.len() > 0,
        pair.content_b.len() > 0,
        crc32_of(pair.content_a) != crc32_of(pair.content_b),
    ensures
        ({
            let d = SyncDecision::ConflictBackupThenCopy(Direction::AtoB);
            &&& pair.decision(true) == Some(d)
            &&& pair.reconciled(d).backup_a == Some(pair.content_a)
            &&& pair.reconciled(d).backup_b == Some(pair.content_b)
            &&& pair.reconciled(d).content_a == pair.content_a
            &&& pair.reconciled(d).content_b == pair.content_a
        }),
{
    lemma_reconciled(pair, SyncDecision::ConflictBackupThenCopy(Direction::AtoB));
}

/// Divergence is not resolved without leave: where the fingerprints differ and
/// overwriting is not allowed, no decision is taken, whatever the contents.
/// (`MemoryPair::reconcile` then fails and leaves the pair as it was.)
pub proof fn law_divergence_needs_overwrite(pair: MemoryPairView)
    requires
        crc32_of(pair.content_a) != crc32_of(pair.content_b),
    ensures
        pair.decision(false).is_none(),
{
}

/// A pair is opened in step: the fingerprints held are those of the contents.
pub proof fn law_opened_pair_is_in_step(
    path_a: Seq<char>,
    path_b: Seq<char>,
    content_a: Seq<u8>,
    content_b: Seq<u8>,
)
    ensures
        opened(path_a, path_b, content_a, content_b).in_step(),
{
}

/// Reconciliation leaves the pair in step, whatever it held before: each held
/// fingerprint is that of the content the file ends with.
pub proof fn law_reconciled_pair_is_in_step(pair: MemoryPairView, overwrite: bool)
    requires
        pair.decision(overwrite).is_some(),
    ensures
        pair.reconciled(pair.decision(overwrite).unwrap()).in_step(),
{
    lemma_reconciled(pair, pair.decision(overwrite).unwrap());
}

/// Looking at a side brings the pair in step, provided the other side was: a
/// held fingerprint never stays behind the content that this process has
/// seen or written.
pub proof fn law_looking_restores_step(pair: MemoryPairView, side: Side)
    requires
        pair.in_step_at(side.spec_other()),
    ensures
        pair.synced_from(side).in_step(),
{
}

/// A pair in step is left alone: whatever a batch touches, nothing is copied
/// and nothing held changes.
pub proof fn law_quiet_pair_is_left_alone(pair: MemoryPairView, touched: Touched)
    requires
        pair.in_step(),
    ensures
        pair.delivered(touched) == pair,
{
}

/// Echo suppression: once a change has travelled from one side to the other,
/// looking at the other side finds the content that was just written, holds
/// its fingerprint already, and does nothing.
pub proof fn law_echo_is_suppressed(pair: MemoryPairView, side: Side)
    requires
        pair.state.reaction(side, Some(crc32_of(pair.content(side)))) is Propagate,
    ensures
        ({
            let after = pair.synced_from(side);
            let other = side.spec_other();
            &&& after.content(other) == pair.content(side)
            &&& after.state.reaction(other, Some(crc32_of(after.content(other))))
                == Reaction::Unchanged
            &&& after.synced_from(other) == after
        }),
{
}

/// Once a side has been looked at, looking at it again does nothing: its held
/// fingerprint is that of its content.
pub proof fn law_sync_is_idempotent(pair: MemoryPairView, side: Side)
    ensures
        pair.synced_from(side).synced_from(side) == pair.synced_from(side),
{
}

/// A genuine change makes the round: new content `x` on A, followed by a batch
/// that touches A and not B, ends with `x` on B and its fingerprint held for
/// both sides. The fingerprint of `x` must not be the one already held for A,
/// or else B must hold `x` and its fingerprint already: a change that the
/// fingerprint does not show is not seen.
pub proof fn law_change_reaches_other_side(
    pair: MemoryPairView,
    x: Seq<u8>,
    batch: Seq<ChangeEventView>,
)
    requires
        batch_touches(batch, pair.state.file_a.path),
        !batch_touches(batch, pair.state.file_b.path),
        crc32_of(x) != pair.state.held(Side::A) || (pair.content_b == x && pair.state.held(
            Side::B,
        ) == crc32_of(x)),
    ensures
        ({
            let edited = pair.with_content(Side::A, x);
            let after = edited.delivered(edited.touched_by(batch));
            &&& after.content_a == x
            &&& after.content_b == x
            &&& after.state.held(Side::A) == crc32_of(x)
            &&& after.state.held(Side::B) == crc32_of(x)
        }),
{
}

/// Content with a known signature is refused: where the leading bytes of a
/// non-empty file match the signature table, the file is no text, a pair with
/// such a file on either side has a fault, and no pair is opened on it. With
/// sound names the fault is that of the first file that is no text.
pub proof fn law_known_signature_is_rejected(
    path_a: Seq<char>,
    path_b: Seq<char>,
    content_a: Seq<u8>,
    content_b: Seq<u8>,
)
    requires
        (content_a.len() > 0 && known_signature(probe_of(content_a))) || (content_b.len() > 0
            && known_signature(probe_of(content_b))),
    ensures
        pair_fault(path_a, path_b, content_a, content_b).is_some(),
        open_fault(path_a, path_b, content_a, content_b) == pair_fault(
            path_a,
            path_b,
            content_a,
            content_b,
        ),
        name_fault(path_file_name(path_a), path_file_name(path_b)).is_none() ==> pair_fault(
            path_a,
            path_b,
            content_a,
            content_b,
        ) == Some(
            if !is_text(content_a) {
                SyncErrorView::BinaryFileRejected { path: path_a }
            } else {
                SyncErrorView::BinaryFileRejected { path: path_b }
            },
        ),
        content_a.len() > 0 && known_signature(probe_of(content_a)) ==> !is_text(content_a),
        content_b.len() > 0 && known_signature(probe_of(content_b)) ==> !is_text(content_b),
{
}

/// A PNG image is never taken for text: content that begins with the PNG
/// magic number is refused by the encoding guess alone, whatever the
/// signature table says.
pub proof fn law_png_is_not_text(content: Seq<u8>)
    requires
        starts_with(content, seq![0x89u8, 0x50u8, 0x4Eu8, 0x47u8]),
    ensures
        !is_text(content),
{
}

} // verus!
