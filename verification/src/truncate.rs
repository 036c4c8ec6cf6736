//! Dynamic truncation (RFC 4226, section 5.4): from a 20-byte digest to a
//! 31-bit number.

use vstd::prelude::*;

verus! {

/// The length in bytes of an HMAC-SHA1 digest.
pub const DIGEST_LEN: usize = 20;

/// Where the four bytes that make up the code start: the low nibble of the
/// digest's last byte.
pub open spec fn truncation_offset(digest: Seq<u8>) -> int {
    (digest[19] & 0x0f) as int
}

/// Four bytes joined most significant first, with the top bit of the first
/// one cleared.
pub open spec fn join_31(b0: u8, b1: u8, b2: u8, b3: u8) -> u32 {
    ((b0 as u32) & 0x7f) << 24 | (b1 as u32) << 16 | (b2 as u32) << 8 | (b3 as u32)
}

/// The 31-bit code that dynamic truncation extracts from a digest.
pub open spec fn code31(digest: Seq<u8>) -> u32 {
    let offset = truncation_offset(digest);
    join_31(digest[offset], digest[offset + 1], digest[offset + 2], digest[offset + 3])
}

/// The arithmetic meaning of [`join_31`]: the low seven bits of the first
/// byte and the three bytes after it, read as one base-256 number.
pub proof fn lemma_join_31_value(b0: u8, b1: u8, b2: u8, b3: u8)
    ensures
        join_31(b0, b1, b2, b3) == (b0 % 128) * 0x100_0000 + b1 * 0x1_0000 + b2 * 0x100 + b3,
        join_31(b0, b1, b2, b3) < 0x8000_0000,
{
    assert(((b0 as u32) & 0x7f) << 24 | (b1 as u32) << 16 | (b2 as u32) << 8 | (b3 as u32)
        == (b0 % 128) * 0x100_0000 + b1 * 0x1_0000 + b2 * 0x100 + b3) by (bit_vector);
}

/// The code of a digest has 31 bits, whatever the digest holds.
pub proof fn lemma_code31_bound(digest: Seq<u8>)
    ensures
        code31(digest) < 0x8000_0000,
{
    let offset = truncation_offset(digest);
    lemma_join_31_value(
        digest[offset],
        digest[offset + 1],
        digest[offset + 2],
        digest[offset + 3],
    );
}

/// The offset never exceeds 15, so the four bytes of the code always lie
/// inside a 20-byte digest: the last index read is at most 18.
pub proof fn lemma_truncation_window_in_digest(digest: Seq<u8>)
    requires
        digest.len() == DIGEST_LEN,
    ensures
        truncation_offset(digest) == digest[19] % 16,
        0 <= truncation_offset(digest) <= 15,
        truncation_offset(digest) + 3 <= 18 < digest.len(),
{
    let last = digest[19];
    assert(last & 0x0f == last % 16) by (bit_vector);
}

/// When the low nibble of the last byte is `0xf` the code is made of the
/// bytes at indices 15, 16, 17 and 18.
pub proof fn lemma_truncation_at_last_window(digest: Seq<u8>)
    requires
        digest.len() == DIGEST_LEN,
        digest[19] & 0x0f == 0x0f,
    ensures
        truncation_offset(digest) == 15,
        code31(digest) == join_31(digest[15], digest[16], digest[17], digest[18]),
{
}

/// Extracts the 31-bit code from a digest.
pub fn dynamic_truncate(digest: &[u8]) -> (code: u32)
    requires
        digest@.len() == DIGEST_LEN,
    ensures
        code == code31(digest@),
        code < 0x8000_0000,
{
    let last: u8 = digest[19];
    assert(last & 0x0f <= 15) by (bit_vector);
    let offset: usize = (last & 0x0f) as usize;
    let b0: u8 = digest[offset];
    let b1: u8 = digest[offset + 1];
    let b2: u8 = digest[offset + 2];
    let b3: u8 = digest[offset + 3];
    proof {
        lemma_join_31_value(b0, b1, b2, b3);
    }
    ((b0 as u32) & 0x7f) << 24 | (b1 as u32) << 16 | (b2 as u32) << 8 | (b3 as u32)
}

} // verus!
