//! Little-endian numbers and byte sequences.

use vstd::prelude::*;

verus! {

/// The 16-bit number whose low byte is `lo` and whose high byte is `hi`.
pub open spec fn le16(lo: u8, hi: u8) -> u16 {
    (lo + 256 * hi) as u16
}

/// The 32-bit number with the given bytes, lowest first.
pub open spec fn le32(b0: u8, b1: u8, b2: u8, b3: u8) -> u32 {
    (b0 + 256 * b1 + 65536 * b2 + 16777216 * b3) as u32
}

/// The low byte of `n`.
pub open spec fn low_byte(n: u16) -> u8 {
    (n % 256) as u8
}

/// The high byte of `n`.
pub open spec fn high_byte(n: u16) -> u8 {
    (n / 256) as u8
}

pub fn u16_le(lo: u8, hi: u8) -> (n: u16)
    ensures
        n == le16(lo, hi),
        n == lo + 256 * hi,
{
    lo as u16 + 256 * (hi as u16)
}

pub fn u32_le(b0: u8, b1: u8, b2: u8, b3: u8) -> (n: u32)
    ensures
        n == le32(b0, b1, b2, b3),
        n == b0 + 256 * b1 + 65536 * b2 + 16777216 * b3,
{
    b0 as u32 + 256 * (b1 as u32) + 65536 * (b2 as u32) + 16777216 * (b3 as u32)
}

pub fn u16_low(n: u16) -> (b: u8)
    ensures
        b == low_byte(n),
{
    (n % 256) as u8
}

pub fn u16_high(n: u16) -> (b: u8)
    ensures
        b == high_byte(n),
{
    (n / 256) as u8
}

/// A number and its two bytes determine each other.
pub proof fn law_le16_round_trip(n: u16, lo: u8, hi: u8)
    ensures
        le16(low_byte(n), high_byte(n)) == n,
        low_byte(le16(lo, hi)) == lo,
        high_byte(le16(lo, hi)) == hi,
{
}

/// The bytes of `s` from `from` up to `to`.
pub fn copy_range(s: &[u8], from: usize, to: usize) -> (v: Vec<u8>)
    requires
        from <= to <= s@.len(),
    ensures
        v@ == s@.subrange(from as int, to as int),
{
    let mut v: Vec<u8> = Vec::new();
    let mut i: usize = from;
    while i < to
        invariant
            from <= i <= to <= s@.len(),
            v@ == s@.subrange(from as int, i as int),
        decreases to - i,
    {
        v.push(s[i]);
        proof {
            assert(v@ =~= s@.subrange(from as int, i + 1));
        }
        i = i + 1;
    }
    v
}

/// The byte of `s` at index `i`, or zero where `s` is too short.
pub open spec fn byte_or_zero(s: Seq<u8>, i: int) -> u8 {
    if 0 <= i < s.len() {
        s[i]
    } else {
        0
    }
}

pub fn byte_at(s: &[u8], i: usize) -> (b: u8)
    ensures
        b == byte_or_zero(s@, i as int),
{
    if i < s.len() {
        s[i]
    } else {
        0
    }
}

} // verus!
