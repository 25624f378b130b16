//! Telling text from binary content by the first bytes of a file, with the
//! `infer` crate's signature table and the `content_inspector` crate's
//! encoding guess.

use vstd::prelude::*;
use vstd::slice::slice_subrange;

verus! {

/// How many leading bytes of a file are looked at.
pub const PROBE_SIZE: usize = 1024;

/// What `content_inspector` takes a buffer to hold.
#[derive(Clone, Copy, Debug, PartialEq, Eq, Structural)]
pub enum ContentKind {
    Binary,
    Utf8,
    Utf8Bom,
    Utf16Le,
    Utf16Be,
    Utf32Le,
    Utf32Be,
}

/// `infer::Type`, the description of a file type that `infer` recognised.
#[verifier::external_type_specification]
#[verifier::external_body]
pub struct ExInferType(infer::Type);

/// Whether the `infer` crate's table of magic numbers holds a file type that
/// matches a buffer starting with these bytes.
pub uninterp spec fn known_signature(head: Seq<u8>) -> bool;

/// `infer::get` finds a file type exactly where its table holds a match. Which
/// type it finds is not stated.
pub assume_specification[ infer::get ](buf: &[u8]) -> (hit: Option<infer::Type>)
    ensures
        hit.is_some() == known_signature(buf@),
;

/// Whether `buf` begins with the bytes of `mark`.
pub open spec fn starts_with(buf: Seq<u8>, mark: Seq<u8>) -> bool {
    &&& mark.len() <= buf.len()
    &&& forall|i: int| 0 <= i < mark.len() ==> buf[i] == mark[i]
}

/// Whether one of the first 1024 bytes of `buf` is zero.
pub open spec fn has_zero_byte(buf: Seq<u8>) -> bool {
    exists|i: int| 0 <= i < buf.len() && i < 1024 && buf[i] == 0
}

/// The kind `content_inspector::inspect` reports: a byte order mark decides
/// first (UTF-32 before UTF-16, whose marks are prefixes of them), then a zero
/// byte or the magic number of a PDF or PNG file means binary, and everything
/// else is taken for UTF-8.
pub open spec fn inspected(buf: Seq<u8>) -> ContentKind {
    if starts_with(buf, seq![0xEFu8, 0xBBu8, 0xBFu8]) {
        ContentKind::Utf8Bom
    } else if starts_with(buf, seq![0x00u8, 0x00u8, 0xFEu8, 0xFFu8]) {
        ContentKind::Utf32Be
    } else if starts_with(buf, seq![0xFFu8, 0xFEu8, 0x00u8, 0x00u8]) {
        ContentKind::Utf32Le
    } else if starts_with(buf, seq![0xFEu8, 0xFFu8]) {
        ContentKind::Utf16Be
    } else if starts_with(buf, seq![0xFFu8, 0xFEu8]) {
        ContentKind::Utf16Le
    } else if has_zero_byte(buf) {
        ContentKind::Binary
    } else if starts_with(buf, seq![0x25u8, 0x50u8, 0x44u8, 0x46u8]) || starts_with(
        buf,
        seq![0x89u8, 0x50u8, 0x4Eu8, 0x47u8],
    ) {
        ContentKind::Binary
    } else {
        ContentKind::Utf8
    }
}

/// `content_inspector::inspect`, with its answer carried over variant by
/// variant. The contract restates the crate's short decision procedure.
#[verifier::external_body]
pub(crate) fn inspect(buf: &[u8]) -> (kind: ContentKind)
    ensures
        kind == inspected(buf@),
{
    match content_inspector::inspect(buf) {
        content_inspector::ContentType::BINARY => ContentKind::Binary,
        content_inspector::ContentType::UTF_8 => ContentKind::Utf8,
        content_inspector::ContentType::UTF_8_BOM => ContentKind::Utf8Bom,
        content_inspector::ContentType::UTF_16LE => ContentKind::Utf16Le,
        content_inspector::ContentType::UTF_16BE => ContentKind::Utf16Be,
        content_inspector::ContentType::UTF_32LE => ContentKind::Utf32Le,
        content_inspector::ContentType::UTF_32BE => ContentKind::Utf32Be,
    }
}

/// The part of a file that is looked at: its first `PROBE_SIZE` bytes, or all
/// of it where it is shorter.
pub open spec fn probe_of(content: Seq<u8>) -> Seq<u8> {
    if content.len() > PROBE_SIZE {
        content.subrange(0, PROBE_SIZE as int)
    } else {
        content
    }
}

/// The verdict on a non-empty probe: text exactly where no known signature
/// matched and the encoding guess is UTF-8, with or without a byte order mark.
pub open spec fn verdict_is_text(signature_hit: bool, kind: ContentKind) -> bool {
    !signature_hit && (kind == ContentKind::Utf8 || kind == ContentKind::Utf8Bom)
}

/// Whether content counts as text: an empty file always does, any other by
/// the verdict on its probe.
pub open spec fn is_text(content: Seq<u8>) -> bool {
    let head = probe_of(content);
    head.len() == 0 || verdict_is_text(known_signature(head), inspected(head))
}

/// Combines the two classifier answers for a non-empty probe.
pub fn text_verdict(signature_hit: bool, kind: ContentKind) -> (text: bool)
    ensures
        text == verdict_is_text(signature_hit, kind),
{
    if signature_hit {
        return false;
    }
    match kind {
        ContentKind::Utf8 | ContentKind::Utf8Bom => true,
        _ => false,
    }
}

/// Whether a file with this content (or with these leading bytes) is accepted
/// as a text file. Only the first `PROBE_SIZE` bytes are looked at.
pub fn is_valid_text_file(content: &[u8]) -> (text: bool)
    ensures
        text == is_text(content@),
{
    let head = if content.len() > PROBE_SIZE {
        slice_subrange(content, 0, PROBE_SIZE)
    } else {
        content
    };
    if head.len() == 0 {
        return true;
    }
    let signature_hit = match infer::get(head) {
        Some(_) => true,
        None => false,
    };
    text_verdict(signature_hit, inspect(head))
}

} // verus!
