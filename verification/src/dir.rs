//! Directory entries: 32-byte records stored, one after another, in the
//! cluster chain of a directory. The stream of records ends at the first
//! record whose entry-type byte is zero; records after that point are
//! undefined and must not be interpreted.

use vstd::prelude::*;
use crate::bytes_le::{le32_at, le64_at, read_le32, read_le64, read_bytes_array};

verus! {

/// A series of 32-byte directory entries stored in a cluster chain.
pub struct Dir {}

/// One 32-byte directory entry record.
pub struct DirEntry {
    v: [u8; 32],
}

impl View for DirEntry {
    type V = Seq<u8>;

    closed spec fn view(&self) -> Seq<u8> {
        self.v@
    }
}

impl DirEntry {
    /// Create from the exact amount of data needed. Any bit pattern is legal
    /// data; what the record means is decided by its entry-type byte.
    pub fn from(v: [u8; 32]) -> (r: Self)
        ensures
            r@ == v@,
    {
        DirEntry { v }
    }

    /// The entry-type byte at offset 0:
    /// 0x00 is end-of-directory (all subsequent records of the stream are
    /// also end-of-directory); 0x01..=0x7F marks an unused entry;
    /// 0x81..=0xFF is an in-use typed entry; 0x80 is invalid.
    pub fn entry_type(&self) -> (r: u8)
        ensures
            r == self@[0],
    {
        self.v[0]
    }

    /// True iff this record ends the directory stream.
    pub fn is_end_of_directory(&self) -> (r: bool)
        ensures
            r == (self@[0] == 0u8),
    {
        self.v[0] == 0
    }

    /// The 19 bytes of type-specific payload at offset 1; how to decode them
    /// is keyed by the entry type and out of this envelope's scope.
    pub fn custom_defined(&self) -> (r: [u8; 19])
        ensures
            r@ == self@.subrange(1, 20),
    {
        read_bytes_array(self.v.as_slice(), 1)
    }

    /// The first cluster of this entry's data, at offset 20.
    pub fn first_cluster(&self) -> (r: u32)
        ensures
            r == le32_at(self@, 20),
    {
        read_le32(self.v.as_slice(), 20)
    }

    /// The byte length of this entry's data, at offset 24.
    pub fn data_len(&self) -> (r: u64)
        ensures
            r == le64_at(self@, 24),
    {
        read_le64(self.v.as_slice(), 24)
    }
}

/// The decomposition of an entry-type byte: bits 0..=4 are the type code,
/// bit 5 the importance flag, bit 6 the category flag, and bit 7 says
/// whether the entry is in use.
pub struct EntryType {
    raw: u8,
}

impl View for EntryType {
    type V = u8;

    closed spec fn view(&self) -> u8 {
        self.raw
    }
}

impl EntryType {
    pub fn from_raw(raw: u8) -> (r: Self)
        ensures
            r@ == raw,
    {
        EntryType { raw }
    }

    /// Bits 0..=4.
    pub fn type_code(&self) -> (r: u8)
        ensures
            r == self@ % 32,
    {
        proof {
            let v = self@;
            assert((v & 0x1f) == v % 32) by (bit_vector);
        }
        self.raw & 0x1f
    }

    /// Bit 5.
    pub fn type_importance(&self) -> (r: u8)
        ensures
            r == (self@ / 32) % 2,
    {
        proof {
            let v = self@;
            assert(((v >> 5) & 1) == (v / 32) % 2) by (bit_vector);
        }
        (self.raw >> 5) & 1
    }

    /// Bit 6.
    pub fn type_category(&self) -> (r: u8)
        ensures
            r == (self@ / 64) % 2,
    {
        proof {
            let v = self@;
            assert(((v >> 6) & 1) == (v / 64) % 2) by (bit_vector);
        }
        (self.raw >> 6) & 1
    }

    /// True for the in-use range 0x80..=0xFF; false for end-of-directory and
    /// for the unused-entry range 0x01..=0x7F.
    pub fn in_use(&self) -> (r: bool)
        ensures
            r == (self@ >= 0x80),
    {
        self.raw >= 0x80
    }
}

} // verus!
