//! The extended boot sectors: after the boot sector, the boot region carries
//! eight further sectors intended for extra boot code. A sector may be marked
//! as an extended boot sector by a signature in its last four bytes; what
//! unmarked sectors hold is undefined.

use vstd::prelude::*;
use vstd::arithmetic::power2::{
    pow2, lemma_pow2_strictly_increases, lemma2_to64, lemma2_to64_rest,
};
use crate::bytes_le::{le32_at, read_le32};
use crate::boot_sector::pow2_u64;

verus! {

/// One extended boot sector, together with the volume's bytes-per-sector
/// shift, which locates the signature within the sector.
#[derive(Clone, Debug)]
pub struct ExtendedBootSector {
    s: Vec<u8>,
    bytes_per_sector_shift: u8,
}

impl View for ExtendedBootSector {
    type V = Seq<u8>;

    closed spec fn view(&self) -> Seq<u8> {
        self.s@
    }
}

impl ExtendedBootSector {
    /// The stored bytes-per-sector shift.
    pub closed spec fn spec_shift(&self) -> u8 {
        self.bytes_per_sector_shift
    }

    /// The byte offset of the signature field for shift `shift`: the last
    /// four bytes of a `2^shift`-byte sector.
    pub open spec fn spec_signature_offs(shift: u8) -> int
        recommends
            shift >= 2,
    {
        pow2(shift as nat) as int - 4
    }

    pub fn from(s: Vec<u8>, bytes_per_sector_shift: u8) -> (r: Self)
        ensures
            r@ == s@,
            r.spec_shift() == bytes_per_sector_shift,
    {
        ExtendedBootSector { s, bytes_per_sector_shift }
    }

    /// The stored bytes.
    pub fn raw(&self) -> (r: &[u8])
        ensures
            r@ == self@,
    {
        self.s.as_slice()
    }

    /// The signature field: the little-endian 32-bit value in the sector's
    /// last four bytes, at byte offset `2^bytes_per_sector_shift - 4`. The
    /// buffer must hold the whole sector for the field to exist.
    pub fn signature(&self) -> (r: u32)
        requires
            self.spec_shift() >= 2,
            Self::spec_signature_offs(self.spec_shift()) + 4 <= self@.len(),
        ensures
            r == le32_at(self@, Self::spec_signature_offs(self.spec_shift())),
    {
        let slen = self.s.len();
        let e = self.bytes_per_sector_shift;
        proof {
            lemma2_to64();
            if e > 2 {
                lemma_pow2_strictly_increases(2, e as nat);
            }
            assert(pow2(e as nat) >= 4);
            if e >= 64 {
                if e > 64 {
                    lemma_pow2_strictly_increases(64, e as nat);
                }
                lemma2_to64_rest();
                assert(pow2(e as nat) >= 0x1_0000_0000_0000_0000);
                assert(false);
            }
        }
        let offs = pow2_u64(e) as usize - 4;
        read_le32(self.s.as_slice(), offs)
    }

    /// True iff the signature marks this sector as an extended boot sector.
    pub fn is_extended_boot_sector(&self) -> (r: bool)
        requires
            self.spec_shift() >= 2,
            Self::spec_signature_offs(self.spec_shift()) + 4 <= self@.len(),
        ensures
            r == (le32_at(self@, Self::spec_signature_offs(self.spec_shift()))
                == 0xAA_55_00_00),
    {
        self.signature() == 0xAA_55_00_00
    }
}

} // verus!
