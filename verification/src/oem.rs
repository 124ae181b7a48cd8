//! The OEM parameter area: one sector of the boot region, conventionally
//! sector 9, holding 10 fixed-size parameter slots. Each slot is a 16-byte
//! UUID followed by 32 bytes of opaque parameter data; a slot is "used" iff
//! its UUID is not all zero. Any bit pattern is legal data.

use vstd::prelude::*;
use crate::bytes_le::read_bytes_array;

verus! {

/// The number of bytes of the OEM parameter area.
pub const OEM_PARAMETERS_LEN: usize = 480;

/// One 48-byte OEM parameter slot.
pub struct OemParameter {
    raw: [u8; 48],
}

impl View for OemParameter {
    type V = Seq<u8>;

    closed spec fn view(&self) -> Seq<u8> {
        self.raw@
    }
}

impl OemParameter {
    /// Create from the exact amount of data needed.
    pub fn from(raw: [u8; 48]) -> (r: Self)
        ensures
            r@ == raw@,
    {
        OemParameter { raw }
    }

    /// A slot is used iff its UUID is not all zero.
    pub fn is_used(&self) -> (r: bool)
        ensures
            r == exists|i: int| 0 <= i < 16 && self@[i] != 0u8,
    {
        let mut i: usize = 0;
        while i < 16
            invariant
                i <= 16,
                forall|j: int| 0 <= j < i ==> self@[j] == 0u8,
            decreases 16 - i,
        {
            if self.raw[i] != 0 {
                proof {
                    assert(self@[i as int] != 0u8);
                }
                return true;
            }
            i = i + 1;
        }
        false
    }

    /// The slot's UUID, bytes 0..16.
    pub fn uuid(&self) -> (r: [u8; 16])
        ensures
            r@ == self@.subrange(0, 16),
    {
        read_bytes_array(self.raw.as_slice(), 0)
    }

    /// The slot's parameter data, bytes 16..48.
    pub fn data(&self) -> (r: [u8; 32])
        ensures
            r@ == self@.subrange(16, 48),
    {
        read_bytes_array(self.raw.as_slice(), 16)
    }
}

/// The whole OEM parameter area: 480 bytes holding 10 slots.
pub struct OemParameters {
    s: Vec<u8>,
}

impl View for OemParameters {
    type V = Seq<u8>;

    closed spec fn view(&self) -> Seq<u8> {
        self.s@
    }
}

impl OemParameters {
    /// The area is exactly 10 slots of 48 bytes.
    #[verifier::type_invariant]
    closed spec fn wf(self) -> bool {
        self.s@.len() == 480
    }

    /// Create from the exact amount of data needed.
    pub fn from(s: Vec<u8>) -> (r: Self)
        requires
            s@.len() == 480,
        ensures
            r@ == s@,
    {
        OemParameters { s }
    }

    /// The stored bytes.
    pub fn raw(&self) -> (r: &[u8])
        ensures
            r@ == self@,
    {
        self.s.as_slice()
    }

    /// The 10 slots, in the order stored: slot `i` holds bytes
    /// `48 * i .. 48 * i + 48`.
    pub fn all(&self) -> (r: Vec<OemParameter>)
        ensures
            r@.len() == 10,
            forall|i: int|
                0 <= i < 10 ==> (#[trigger] r@[i])@ == self@.subrange(48 * i, 48 * i + 48),
    {
        proof {
            use_type_invariant(self);
        }
        let mut out: Vec<OemParameter> = Vec::new();
        let mut i: usize = 0;
        while i < 10
            invariant
                i <= 10,
                self@.len() == 480,
                out@.len() == i,
                forall|j: int|
                    0 <= j < i ==> (#[trigger] out@[j])@ == self@.subrange(48 * j, 48 * j + 48),
            decreases 10 - i,
        {
            let slot: [u8; 48] = read_bytes_array(self.s.as_slice(), 48 * i);
            out.push(OemParameter::from(slot));
            i = i + 1;
        }
        out
    }
}

} // verus!
