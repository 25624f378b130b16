//! Content fingerprints: CRC-32 checksums computed by the `crc32fast` crate.

use vstd::prelude::*;
use vstd::slice::slice_subrange;

verus! {

/// A fixed-width fingerprint of a byte string. Equal fingerprints are taken as
/// proof of equal content; a collision is an accepted risk.
pub type Fingerprint = u32;

/// Number of bytes handed to the checksum accumulator at a time.
pub const CHUNK_SIZE: usize = 8192;

/// `crc32fast::Hasher`, an in-progress checksum computation.
#[verifier::external_type_specification]
#[verifier::external_body]
pub struct ExHasher(crc32fast::Hasher);

/// The bytes a hasher has been fed since it was created, in order. The hasher
/// itself keeps only a running checksum and a count of them.
pub uninterp spec fn hasher_bytes(h: crc32fast::Hasher) -> Seq<u8>;

/// The CRC-32 (IEEE) checksum of a byte string: what a `crc32fast::Hasher`
/// yields once it has been fed exactly these bytes.
pub uninterp spec fn crc32_of(bytes: Seq<u8>) -> u32;

/// `crc32fast::Hasher::new` starts a computation that has seen no bytes.
pub assume_specification[ crc32fast::Hasher::new ]() -> (h: crc32fast::Hasher)
    ensures
        hasher_bytes(h) == Seq::<u8>::empty(),
;

/// `crc32fast::Hasher::update` appends `buf` to the bytes seen so far. The
/// hasher counts its input in a `u64`, so the total must stay within one.
pub assume_specification[ crc32fast::Hasher::update ](h: &mut crc32fast::Hasher, buf: &[u8])
    requires
        hasher_bytes(*old(h)).len() + buf@.len() <= u64::MAX,
    ensures
        hasher_bytes(*final(h)) == hasher_bytes(*old(h)) + buf@,
;

/// `crc32fast::Hasher::total_len` returns how many bytes have been seen.
pub assume_specification[ crc32fast::Hasher::total_len ](h: &crc32fast::Hasher) -> (n: u64)
    ensures
        n == hasher_bytes(*h).len(),
;

/// `crc32fast::Hasher::finalize` returns the checksum of all bytes seen.
pub assume_specification[ crc32fast::Hasher::finalize ](h: crc32fast::Hasher) -> (sum: u32)
    ensures
        sum == crc32_of(hasher_bytes(h)),
;

/// A streaming fingerprint accumulator: bytes go in chunk by chunk, and the
/// fingerprint of their concatenation comes out.
pub struct ContentDigest {
    hasher: crc32fast::Hasher,
}

impl View for ContentDigest {
    type V = Seq<u8>;

    /// Every byte absorbed so far, in order.
    closed spec fn view(&self) -> Seq<u8> {
        hasher_bytes(self.hasher)
    }
}

impl ContentDigest {
    /// An accumulator that has absorbed nothing.
    pub fn new() -> (d: ContentDigest)
        ensures
            d@ == Seq::<u8>::empty(),
    {
        ContentDigest { hasher: crc32fast::Hasher::new() }
    }

    /// Absorbs `chunk`. The accumulator counts at most `u64::MAX` bytes; a chunk
    /// that would exceed this is refused and leaves the accumulator as it was.
    pub fn absorb(&mut self, chunk: &[u8]) -> (taken: bool)
        ensures
            taken == (old(self)@.len() + chunk@.len() <= u64::MAX),
            taken ==> final(self)@ == old(self)@ + chunk@,
            !taken ==> final(self)@ == old(self)@,
    {
        let n: u64 = chunk.len() as u64;
        if n > u64::MAX - self.hasher.total_len() {
            return false;
        }
        self.hasher.update(chunk);
        true
    }

    /// The fingerprint of everything absorbed.
    pub fn finish(self) -> (digest: Fingerprint)
        ensures
            digest == crc32_of(self@),
    {
        self.hasher.finalize()
    }
}

/// Fingerprint of `content`, fed to the accumulator in pieces of at most
/// `CHUNK_SIZE` bytes.
pub fn compute_hash(content: &[u8]) -> (digest: Fingerprint)
    ensures
        digest == crc32_of(content@),
{
    let mut acc = ContentDigest::new();
    let total: usize = content.len();
    let mut done: usize = 0;
    while done < total
        invariant
            total == content@.len(),
            done <= total,
            acc@ == content@.subrange(0, done as int),
        decreases total - done,
    {
        let left: usize = total - done;
        let count: usize = if left < CHUNK_SIZE { left } else { CHUNK_SIZE };
        let chunk = slice_subrange(content, done, done + count);
        let taken = acc.absorb(chunk);
        assert(content@.subrange(0, done as int) + content@.subrange(done as int, done + count)
            == content@.subrange(0, done + count));
        done = done + count;
    }
    assert(content@.subrange(0, total as int) == content@);
    acc.finish()
}

} // verus!
