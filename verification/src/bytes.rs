//! Byte-level helpers shared by the block decoders: bit extraction,
//! little-endian words, block checksums and ASCII text.

use vstd::prelude::*;

verus! {

/// Value of bit `i` (0 = least significant) of `b`.
pub open spec fn spec_bit(b: u8, i: u8) -> bool
    recommends
        i < 8,
{
    (b as u32 / pow2_u32(i)) % 2 == 1
}

/// 2^i for the small exponents the bit-field layouts use.
pub open spec fn pow2_u32(i: u8) -> u32
    recommends
        i < 8,
{
    if i == 0 {
        1u32
    } else if i == 1 {
        2u32
    } else if i == 2 {
        4u32
    } else if i == 3 {
        8u32
    } else if i == 4 {
        16u32
    } else if i == 5 {
        32u32
    } else if i == 6 {
        64u32
    } else {
        128u32
    }
}

/// Extract bit `i` of a byte.
pub fn bit(b: u8, i: u8) -> (r: bool)
    requires
        i < 8,
    ensures
        r == spec_bit(b, i),
{
    let p: u32 = if i == 0 {
        1
    } else if i == 1 {
        2
    } else if i == 2 {
        4
    } else if i == 3 {
        8
    } else if i == 4 {
        16
    } else if i == 5 {
        32
    } else if i == 6 {
        64
    } else {
        128
    };
    (b as u32 / p) % 2 == 1
}

/// Little-endian 16-bit word from two bytes.
pub open spec fn spec_le16(lo: u8, hi: u8) -> u16 {
    (lo + hi * 256) as u16
}

pub fn le16(lo: u8, hi: u8) -> (r: u16)
    ensures
        r == spec_le16(lo, hi),
{
    lo as u16 + hi as u16 * 256
}

/// Little-endian 24-bit word from three bytes.
pub open spec fn spec_le24(b0: u8, b1: u8, b2: u8) -> u32 {
    (b0 + b1 * 0x100 + b2 * 0x10000) as u32
}

pub fn le24(b0: u8, b1: u8, b2: u8) -> (r: u32)
    ensures
        r == spec_le24(b0, b1, b2),
{
    b0 as u32 + b1 as u32 * 0x100 + b2 as u32 * 0x10000
}

/// Little-endian 32-bit word from four bytes.
pub open spec fn spec_le32(b0: u8, b1: u8, b2: u8, b3: u8) -> u32 {
    (b0 + b1 * 0x100 + b2 * 0x10000 + b3 * 0x1000000) as u32
}

pub fn le32(b0: u8, b1: u8, b2: u8, b3: u8) -> (r: u32)
    ensures
        r == spec_le32(b0, b1, b2, b3),
{
    b0 as u32 + b1 as u32 * 0x100 + b2 as u32 * 0x10000 + b3 as u32 * 0x1000000
}

/// Sum of the bytes `d[off .. off + n]`.
pub open spec fn spec_byte_sum(d: Seq<u8>, off: int, n: int) -> int
    decreases n,
{
    if n <= 0 {
        0
    } else {
        spec_byte_sum(d, off, n - 1) + d[off + n - 1]
    }
}

proof fn lemma_byte_sum_bound(d: Seq<u8>, off: int, n: int)
    requires
        0 <= n,
    ensures
        0 <= spec_byte_sum(d, off, n) <= n * 255,
    decreases n,
{
    if n > 0 {
        lemma_byte_sum_bound(d, off, n - 1);
        assert((n - 1) * 255 + 255 == n * 255) by (nonlinear_arith);
    }
}

/// Whether a 128-byte block starting at `off` is checksum-conformant:
/// the sum of all 128 bytes is 0 modulo 256.
pub open spec fn spec_block_sum_ok(d: Seq<u8>, off: int) -> bool {
    spec_byte_sum(d, off, 128) % 256 == 0
}

/// Sum the 128 bytes of the block starting at `off` modulo 256, and report
/// whether the block is checksum-conformant.
pub fn block_sum_ok(d: &[u8], off: usize) -> (r: bool)
    requires
        off + 128 <= d@.len(),
    ensures
        r == spec_block_sum_ok(d@, off as int),
{
    let n = d.len();
    let mut sum: u32 = 0;
    let mut i: usize = 0;
    while i < 128
        invariant
            0 <= i <= 128,
            off + 128 <= n == d@.len(),
            sum == spec_byte_sum(d@, off as int, i as int) % 256,
        decreases 128 - i,
    {
        proof {
            lemma_byte_sum_bound(d@, off as int, i as int);
        }
        let idx = off + i;
        sum = (sum + d[idx] as u32) % 256;
        i = i + 1;
    }
    sum == 0
}

/// Corrupting any single byte of a checksum-conformant block breaks the
/// checksum: the byte sums of the two blocks differ by less than 256 and are
/// therefore not congruent modulo 256.
pub proof fn lemma_single_corruption_breaks_checksum(d: Seq<u8>, off: int, i: int, v: u8)
    requires
        0 <= off,
        off <= i < off + 128,
        off + 128 <= d.len(),
        spec_block_sum_ok(d, off),
        v != d[i],
    ensures
        !spec_block_sum_ok(d.update(i, v), off),
{
    lemma_byte_sum_update(d, off, 128, i, v);
    let s = spec_byte_sum(d, off, 128);
    let s2 = spec_byte_sum(d.update(i, v), off, 128);
    assert(s2 == s + v - d[i]);
    lemma_byte_sum_bound(d, off, 128);
    lemma_byte_sum_bound(d.update(i, v), off, 128);
    let delta = v - d[i];
    assert(-255 <= delta && delta <= 255 && delta != 0);
    if s2 % 256 == 0 {
        // Both sums are multiples of 256 yet differ by a nonzero amount
        // smaller than 256 in magnitude, which is impossible.
        assert(s % 256 == 0 && s2 % 256 == 0 && s2 == s + delta);
        vstd::arithmetic::div_mod::lemma_sub_mod_noop(s2, s, 256);
        vstd::arithmetic::div_mod::lemma_mod_twice(s2 - s, 256);
        assert(delta % 256 == 0);
        if delta > 0 {
            vstd::arithmetic::div_mod::lemma_small_mod(delta as nat, 256);
        } else {
            vstd::arithmetic::div_mod::lemma_small_mod((delta + 256) as nat, 256);
            vstd::arithmetic::div_mod::lemma_mod_add_multiples_vanish(delta, 256);
        }
        assert(false);
    }
}

proof fn lemma_byte_sum_update(d: Seq<u8>, off: int, n: int, i: int, v: u8)
    requires
        0 <= off <= i < off + n,
        off + n <= d.len(),
    ensures
        spec_byte_sum(d.update(i, v), off, n) == spec_byte_sum(d, off, n) + v - d[i],
    decreases n,
{
    if n > 0 {
        if i == off + n - 1 {
            lemma_byte_sum_same(d, d.update(i, v), off, n - 1);
        } else {
            lemma_byte_sum_update(d, off, n - 1, i, v);
        }
    }
}

proof fn lemma_byte_sum_same(d1: Seq<u8>, d2: Seq<u8>, off: int, n: int)
    requires
        0 <= off,
        off + n <= d1.len(),
        off + n <= d2.len(),
        forall|j: int| off <= j < off + n ==> d1[j] == d2[j],
    ensures
        spec_byte_sum(d1, off, n) == spec_byte_sum(d2, off, n),
    decreases n,
{
    if n > 0 {
        lemma_byte_sum_same(d1, d2, off, n - 1);
    }
}

/// Relies on std's `String::from_utf8`: ASCII bytes decode to the string with
/// exactly those characters (ASCII is valid UTF-8, so the error arm is
/// unreachable under the precondition).
#[verifier::external_body]
pub fn ascii_string(bytes: &Vec<u8>) -> (r: String)
    requires
        forall|i: int| 0 <= i < bytes@.len() ==> bytes@[i] < 128,
    ensures
        r@.len() == bytes@.len(),
        forall|i: int| 0 <= i < bytes@.len() ==> r@[i] == bytes@[i] as char,
{
    match String::from_utf8(bytes.clone()) {
        Ok(s) => s,
        Err(_) => String::new(),
    }
}

} // verus!
