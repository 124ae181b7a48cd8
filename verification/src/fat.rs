//! The FAT (file allocation table): a contiguous array of 32-bit entries,
//! one per cluster, that links the clusters of the cluster heap into chains.
//!
//! Entry 0 holds the media type in its low byte; entry 1 is reserved; the
//! entries at indices `2 ..= cluster_count + 1` each describe the cluster
//! with the same index, holding either the index of the next cluster in the
//! chain or one of two sentinel values.

use vstd::prelude::*;
use crate::bytes_le::{le32_at, read_le32};

verus! {

/// The chain-terminator sentinel value: the described cluster is the last of
/// its chain.
pub open spec fn is_last_value(v: u32) -> bool {
    v == 0xFF_FF_FF_FFu32
}

/// The bad-cluster sentinel value: the described cluster is unusable.
pub open spec fn is_bad_value(v: u32) -> bool {
    v == 0xFF_FF_FF_F7u32
}

/// A single entry in a FAT. This entry describes the cluster with the same
/// index as this entry; the index itself is not stored here.
#[derive(Clone, Copy, Eq, PartialEq, Debug)]
pub struct FatEntry {
    v: u32,
}

impl View for FatEntry {
    type V = u32;

    closed spec fn view(&self) -> u32 {
        self.v
    }
}

impl FatEntry {
    pub fn from_val(i: u32) -> (r: Self)
        ensures
            r@ == i,
    {
        FatEntry { v: i }
    }

    /// If true, the cluster that corresponds to this FAT entry is marked as bad.
    pub fn is_bad(&self) -> (r: bool)
        ensures
            r == is_bad_value(self@),
    {
        self.v == 0xFF_FF_FF_F7
    }

    /// If true, the cluster that corresponds to this FAT entry is the last one
    /// in its cluster chain.
    pub fn is_last(&self) -> (r: bool)
        ensures
            r == is_last_value(self@),
    {
        self.v == 0xFF_FF_FF_FF
    }

    /// If not one of the sentinel values, this is the index of the next
    /// cluster in the cluster chain.
    pub fn val(&self) -> (r: u32)
        ensures
            r == self@,
    {
        self.v
    }
}

/// The caller handed the FAT a byte range it cannot hold: constructing a
/// table from a byte length that is not a multiple of the 4-byte entry size
/// is a contract violation, distinct from any I/O failure.
#[derive(Debug, PartialEq, Eq)]
pub enum FatInitError {
    LenNotMultipleOfEntrySize(usize),
}

/// An immutable snapshot of a FAT, decoded from its on-disk bytes.
pub struct Fat {
    v: Vec<u32>,
}

impl View for Fat {
    type V = Seq<u32>;

    closed spec fn view(&self) -> Seq<u32> {
        self.v@
    }
}

impl Fat {
    /// Decodes a FAT from the raw bytes of the FAT region: entry `i` is the
    /// little-endian 32-bit value at bytes `4 * i ..`. A byte length that is
    /// not a multiple of 4 is rejected outright, never silently truncated.
    pub fn from_bytes(bytes: &[u8]) -> (r: Result<Self, FatInitError>)
        ensures
            r is Ok <==> bytes@.len() % 4 == 0,
            r matches Ok(f) ==> {
                &&& f@.len() == bytes@.len() / 4
                &&& forall|i: int| 0 <= i < f@.len() ==> f@[i] == le32_at(bytes@, 4 * i)
            },
            bytes@.len() % 4 != 0 ==> r == Err::<Fat, _>(FatInitError::LenNotMultipleOfEntrySize(
                bytes@.len() as usize,
            )),
    {
        let len = bytes.len();
        if len % 4 != 0 {
            return Err(FatInitError::LenNotMultipleOfEntrySize(len));
        }
        let entries = len / 4;
        let mut v: Vec<u32> = Vec::new();
        let mut i: usize = 0;
        while i < entries
            invariant
                i <= entries,
                len == bytes@.len(),
                len % 4 == 0,
                entries == len / 4,
                v@.len() == i,
                forall|j: int| 0 <= j < i ==> v@[j] == le32_at(bytes@, 4 * j),
            decreases entries - i,
        {
            v.push(read_le32(bytes, 4 * i));
            i = i + 1;
        }
        Ok(Fat { v })
    }

    /// The media type, stored in the low byte of entry 0.
    pub fn media_type(&self) -> (r: u8)
        requires
            self@.len() >= 1,
        ensures
            r == self@[0] % 0x100,
    {
        proof {
            let v0 = self@[0];
            assert((v0 & 0xff) == v0 % 0x100) by (bit_vector);
        }
        (self.v[0] & 0xff) as u8
    }

    /// The number of clusters this table describes: one entry per cluster,
    /// after the two reserved entries at indices 0 and 1.
    pub fn cluster_ct(&self) -> (r: u32)
        requires
            2 <= self@.len(),
            self@.len() - 2 <= u32::MAX,
        ensures
            r == self@.len() - 2,
    {
        (self.v.len() - 2) as u32
    }

    /// The number of entries in the table.
    pub fn len(&self) -> (r: usize)
        ensures
            r == self@.len(),
    {
        self.v.len()
    }

    /// The entry that describes cluster `e`, for `e` a meaningful cluster
    /// address: at least 2, and within the table. An index outside that range
    /// is a contract violation of the caller.
    pub fn entry(&self, e: FatEntry) -> (r: FatEntry)
        requires
            2 <= e@,
            e@ < self@.len(),
        ensures
            r@ == self@[e@ as int],
    {
        FatEntry::from_val(self.v[e.val() as usize])
    }
}

} // verus!
