//! Little-endian decoding of fixed-width integers from byte buffers.
//!
//! Every multi-byte field of the on-disk format is stored little-endian at a
//! fixed byte offset; these spec functions say what such a field's value is,
//! and the exec readers compute it with explicit bounds checks.

use vstd::prelude::*;

verus! {

/// The value of the little-endian 16-bit field stored at `s[i..i + 2]`.
pub open spec fn le16_at(s: Seq<u8>, i: int) -> int {
    s[i] + 0x100 * s[i + 1]
}

/// The value of the little-endian 32-bit field stored at `s[i..i + 4]`.
pub open spec fn le32_at(s: Seq<u8>, i: int) -> int {
    s[i] + 0x100 * s[i + 1] + 0x1_0000 * s[i + 2] + 0x100_0000 * s[i + 3]
}

/// The value of the little-endian 64-bit field stored at `s[i..i + 8]`.
pub open spec fn le64_at(s: Seq<u8>, i: int) -> int {
    s[i] + 0x100 * s[i + 1] + 0x1_0000 * s[i + 2] + 0x100_0000 * s[i + 3]
        + 0x1_0000_0000 * s[i + 4] + 0x100_0000_0000 * s[i + 5]
        + 0x1_0000_0000_0000 * s[i + 6] + 0x100_0000_0000_0000 * s[i + 7]
}

pub fn read_le16(s: &[u8], i: usize) -> (r: u16)
    requires
        i + 2 <= s@.len(),
    ensures
        r == le16_at(s@, i as int),
{
    (s[i] as u16) + 0x100 * (s[i + 1] as u16)
}

pub fn read_le32(s: &[u8], i: usize) -> (r: u32)
    requires
        i + 4 <= s@.len(),
    ensures
        r == le32_at(s@, i as int),
{
    (s[i] as u32) + 0x100 * (s[i + 1] as u32) + 0x1_0000 * (s[i + 2] as u32)
        + 0x100_0000 * (s[i + 3] as u32)
}

pub fn read_le64(s: &[u8], i: usize) -> (r: u64)
    requires
        i + 8 <= s@.len(),
    ensures
        r == le64_at(s@, i as int),
{
    (s[i] as u64) + 0x100 * (s[i + 1] as u64) + 0x1_0000 * (s[i + 2] as u64)
        + 0x100_0000 * (s[i + 3] as u64) + 0x1_0000_0000 * (s[i + 4] as u64)
        + 0x100_0000_0000 * (s[i + 5] as u64) + 0x1_0000_0000_0000 * (s[i + 6] as u64)
        + 0x100_0000_0000_0000 * (s[i + 7] as u64)
}

/// Copies the `N` bytes stored at `s[off..off + N]` into a fresh array.
pub fn read_bytes_array<const N: usize>(s: &[u8], off: usize) -> (r: [u8; N])
    requires
        off + N <= s@.len(),
    ensures
        r@ == s@.subrange(off as int, off as int + N as int),
{
    let slen = s.len();
    let mut r: [u8; N] = [0u8; N];
    let mut k: usize = 0;
    while k < N
        invariant
            k <= N,
            off + N <= slen == s@.len(),
            forall|j: int| 0 <= j < k ==> r@[j] == s@[off + j],
        decreases N - k,
    {
        r[k] = s[off + k];
        k = k + 1;
    }
    proof {
        assert(r@ =~= s@.subrange(off as int, off as int + N as int));
    }
    r
}

} // verus!
