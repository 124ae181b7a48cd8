//! The exFAT superblock, usually called the boot sector: a fixed 512-byte
//! record at the start of the volume (with a backup copy later on) that
//! describes the volume geometry.
//!
//! A `BootSector` can only be built by [`BootSector::from`], which checks
//! every structural invariant of the record; every value of the type is
//! therefore a valid boot sector, and the accessors are pure projections
//! over the stored bytes.

use vstd::prelude::*;
use vstd::arithmetic::power2::{
    pow2, lemma_pow2_unfold, lemma_pow2_strictly_increases, lemma2_to64, lemma2_to64_rest,
};
use crate::bytes_le::{le16_at, le32_at, le64_at, read_le16, read_le32, read_le64,
    read_bytes_array};

verus! {

/// The structural invariant of the boot sector that was found violated.
#[derive(Debug, PartialEq, Eq)]
pub enum BootSectorInitError {
    /// The magic string at bytes 3..11 is not `"EXFAT   "`; carries the bytes
    /// actually found there.
    BadMagic([u8; 8]),
    /// Some byte of the reserved must-be-zero region at bytes 11..64 is not zero.
    MustBeZeroNonZero,
    /// The FAT offset is below the 24-sector floor; carries the offset found.
    FatOffsTooSmall(u32),
    /// The FAT region, `number_of_fats` copies of `fat_len` sectors starting
    /// at `fat_offs`, runs past the start of the cluster heap.
    FatRegionOverlapsClusterHeap,
    /// The cluster heap, `cluster_count` clusters starting at
    /// `cluster_heap_offs`, runs past the end of the volume.
    ClusterHeapExceedsVolume,
    /// The bytes-per-sector shift is outside 9..=12; carries the shift found.
    BadBytesPerSectorShift(u8),
    /// The first cluster of the root directory is outside
    /// 2..=cluster_count + 1; carries the cluster index found.
    BadFirstClusterOfRootDir(u32),
    /// The number of FATs is neither 1 nor 2; carries the count found.
    BadNumberOfFats(u8),
    /// The percent-in-use is above 100 and not the 0xFF "unavailable" marker;
    /// carries the value found.
    BadPercentInUse(u8),
}

pub open spec fn spec_partition_offs(s: Seq<u8>) -> int {
    le64_at(s, 64)
}

pub open spec fn spec_volume_len(s: Seq<u8>) -> int {
    le64_at(s, 72)
}

pub open spec fn spec_fat_offs(s: Seq<u8>) -> int {
    le32_at(s, 80)
}

pub open spec fn spec_fat_len(s: Seq<u8>) -> int {
    le32_at(s, 84)
}

pub open spec fn spec_cluster_heap_offs(s: Seq<u8>) -> int {
    le32_at(s, 88)
}

pub open spec fn spec_cluster_count(s: Seq<u8>) -> int {
    le32_at(s, 92)
}

pub open spec fn spec_first_cluster_of_root_dir(s: Seq<u8>) -> int {
    le32_at(s, 96)
}

pub open spec fn spec_volume_serial_num(s: Seq<u8>) -> int {
    le32_at(s, 100)
}

pub open spec fn spec_file_system_rev(s: Seq<u8>) -> int {
    le16_at(s, 104)
}

pub open spec fn spec_volume_flags(s: Seq<u8>) -> int {
    le16_at(s, 106)
}

pub open spec fn spec_bytes_per_sector_shift(s: Seq<u8>) -> u8 {
    s[108]
}

pub open spec fn spec_sectors_per_cluster_shift(s: Seq<u8>) -> u8 {
    s[109]
}

pub open spec fn spec_number_of_fats(s: Seq<u8>) -> u8 {
    s[110]
}

pub open spec fn spec_drive_select(s: Seq<u8>) -> u8 {
    s[111]
}

pub open spec fn spec_percent_in_use(s: Seq<u8>) -> u8 {
    s[112]
}

/// Bytes 3..11 hold the ASCII magic string `"EXFAT   "` (three trailing spaces).
pub open spec fn spec_magic_ok(s: Seq<u8>) -> bool {
    &&& s[3] == 0x45u8
    &&& s[4] == 0x58u8
    &&& s[5] == 0x46u8
    &&& s[6] == 0x41u8
    &&& s[7] == 0x54u8
    &&& s[8] == 0x20u8
    &&& s[9] == 0x20u8
    &&& s[10] == 0x20u8
}

/// The reserved region at bytes 11..64 is all zero.
pub open spec fn spec_reserved_zero(s: Seq<u8>) -> bool {
    forall|i: int| 11 <= i < 64 ==> s[i] == 0u8
}

/// The FAT starts at or after the 24-sector alignment floor.
pub open spec fn spec_fat_offs_ok(s: Seq<u8>) -> bool {
    spec_fat_offs(s) >= 24
}

/// All copies of the FAT lie before the cluster heap.
pub open spec fn spec_fat_region_fits(s: Seq<u8>) -> bool {
    spec_fat_offs(s) + spec_fat_len(s) * spec_number_of_fats(s) <= spec_cluster_heap_offs(s)
}

/// The cluster heap, `cluster_count` clusters of `2^sectors_per_cluster_shift`
/// sectors each, lies within the volume.
pub open spec fn spec_cluster_heap_fits(s: Seq<u8>) -> bool {
    spec_cluster_heap_offs(s) + spec_cluster_count(s) * pow2(
        spec_sectors_per_cluster_shift(s) as nat,
    ) <= spec_volume_len(s)
}

/// Sectors are between 512 and 4096 bytes.
pub open spec fn spec_bytes_per_sector_shift_ok(s: Seq<u8>) -> bool {
    9 <= spec_bytes_per_sector_shift(s) <= 12
}

/// The root directory starts at a meaningful cluster index.
pub open spec fn spec_root_dir_ok(s: Seq<u8>) -> bool {
    2 <= spec_first_cluster_of_root_dir(s) <= spec_cluster_count(s) + 1
}

/// A volume carries one or two FATs.
pub open spec fn spec_number_of_fats_ok(s: Seq<u8>) -> bool {
    spec_number_of_fats(s) == 1 || spec_number_of_fats(s) == 2
}

/// Percent-in-use is a percentage, or 0xFF for "unavailable".
pub open spec fn spec_percent_in_use_ok(s: Seq<u8>) -> bool {
    spec_percent_in_use(s) <= 100 || spec_percent_in_use(s) == 0xFFu8
}

/// All structural invariants of a boot sector, over its 512 bytes.
pub open spec fn spec_boot_sector_valid(s: Seq<u8>) -> bool {
    &&& spec_magic_ok(s)
    &&& spec_reserved_zero(s)
    &&& spec_fat_offs_ok(s)
    &&& spec_fat_region_fits(s)
    &&& spec_cluster_heap_fits(s)
    &&& spec_bytes_per_sector_shift_ok(s)
    &&& spec_root_dir_ok(s)
    &&& spec_number_of_fats_ok(s)
    &&& spec_percent_in_use_ok(s)
}

/// An exFAT superblock, stored as the whole 512-byte sector so that the
/// sector can be written back unchanged.
#[derive(Clone, Copy)]
pub struct BootSector {
    raw: [u8; 512],
}

impl View for BootSector {
    type V = Seq<u8>;

    closed spec fn view(&self) -> Seq<u8> {
        self.raw@
    }
}

impl BootSector {
    /// Every reachable `BootSector` value holds validated bytes.
    #[verifier::type_invariant]
    closed spec fn wf(self) -> bool {
        spec_boot_sector_valid(self.raw@)
    }

    /// Create from the exact amount of data needed, after checking every
    /// structural invariant; on failure, reports the first violated invariant
    /// in the order of the clauses below.
    pub fn from(s: [u8; 512]) -> (r: Result<Self, BootSectorInitError>)
        ensures
            r is Ok <==> spec_boot_sector_valid(s@),
            r matches Ok(bs) ==> bs@ == s@,
            !spec_magic_ok(s@) ==> (r matches Err(BootSectorInitError::BadMagic(m)) && m@ == s@
                .subrange(3, 11)),
            spec_magic_ok(s@) && !spec_reserved_zero(s@) ==> r == Err::<
                BootSector,
                _,
            >(BootSectorInitError::MustBeZeroNonZero),
            spec_magic_ok(s@) && spec_reserved_zero(s@) && !spec_fat_offs_ok(s@) ==> r == Err::<
                BootSector,
                _,
            >(BootSectorInitError::FatOffsTooSmall(spec_fat_offs(s@) as u32)),
            spec_magic_ok(s@) && spec_reserved_zero(s@) && spec_fat_offs_ok(s@)
                && !spec_fat_region_fits(s@) ==> r == Err::<
                BootSector,
                _,
            >(BootSectorInitError::FatRegionOverlapsClusterHeap),
            spec_magic_ok(s@) && spec_reserved_zero(s@) && spec_fat_offs_ok(s@)
                && spec_fat_region_fits(s@) && !spec_cluster_heap_fits(s@) ==> r == Err::<
                BootSector,
                _,
            >(BootSectorInitError::ClusterHeapExceedsVolume),
            spec_magic_ok(s@) && spec_reserved_zero(s@) && spec_fat_offs_ok(s@)
                && spec_fat_region_fits(s@) && spec_cluster_heap_fits(s@)
                && !spec_bytes_per_sector_shift_ok(s@) ==> r == Err::<
                BootSector,
                _,
            >(BootSectorInitError::BadBytesPerSectorShift(spec_bytes_per_sector_shift(s@))),
            spec_magic_ok(s@) && spec_reserved_zero(s@) && spec_fat_offs_ok(s@)
                && spec_fat_region_fits(s@) && spec_cluster_heap_fits(s@)
                && spec_bytes_per_sector_shift_ok(s@) && !spec_root_dir_ok(s@) ==> r == Err::<
                BootSector,
                _,
            >(BootSectorInitError::BadFirstClusterOfRootDir(
                spec_first_cluster_of_root_dir(s@) as u32,
            )),
            spec_magic_ok(s@) && spec_reserved_zero(s@) && spec_fat_offs_ok(s@)
                && spec_fat_region_fits(s@) && spec_cluster_heap_fits(s@)
                && spec_bytes_per_sector_shift_ok(s@) && spec_root_dir_ok(s@)
                && !spec_number_of_fats_ok(s@) ==> r == Err::<
                BootSector,
                _,
            >(BootSectorInitError::BadNumberOfFats(spec_number_of_fats(s@))),
            spec_magic_ok(s@) && spec_reserved_zero(s@) && spec_fat_offs_ok(s@)
                && spec_fat_region_fits(s@) && spec_cluster_heap_fits(s@)
                && spec_bytes_per_sector_shift_ok(s@) && spec_root_dir_ok(s@)
                && spec_number_of_fats_ok(s@) && !spec_percent_in_use_ok(s@) ==> r == Err::<
                BootSector,
                _,
            >(BootSectorInitError::BadPercentInUse(spec_percent_in_use(s@))),
    {
        // 0..3 is jump code, uninterpreted here.
        if !(s[3] == 0x45 && s[4] == 0x58 && s[5] == 0x46 && s[6] == 0x41 && s[7] == 0x54 && s[8]
            == 0x20 && s[9] == 0x20 && s[10] == 0x20) {
            let m: [u8; 8] = read_bytes_array(s.as_slice(), 3);
            return Err(BootSectorInitError::BadMagic(m));
        }
        let mut i: usize = 11;
        while i < 64
            invariant
                11 <= i <= 64,
                spec_magic_ok(s@),
                forall|j: int| 11 <= j < i ==> s@[j] == 0u8,
            decreases 64 - i,
        {
            if s[i] != 0 {
                return Err(BootSectorInitError::MustBeZeroNonZero);
            }
            i = i + 1;
        }
        let fat_offs = read_le32(s.as_slice(), 80);
        if fat_offs < 24 {
            return Err(BootSectorInitError::FatOffsTooSmall(fat_offs));
        }
        let fat_len = read_le32(s.as_slice(), 84);
        let cluster_heap_offs = read_le32(s.as_slice(), 88);
        let number_of_fats = s[110];
        let fl64 = fat_len as u64;
        let nf64 = number_of_fats as u64;
        proof {
            assert(fl64 * nf64 <= 0xFFFF_FFFFu64 * 0xFFu64) by (nonlinear_arith)
                requires
                    fl64 <= 0xFFFF_FFFFu64,
                    nf64 <= 0xFFu64,
            ;
        }
        if fat_offs as u64 + fl64 * nf64 > cluster_heap_offs as u64 {
            return Err(BootSectorInitError::FatRegionOverlapsClusterHeap);
        }
        let volume_len = read_le64(s.as_slice(), 72);
        let cluster_count = read_le32(s.as_slice(), 92);
        let spc_shift = s[109];
        let heap_fits: bool = if cluster_count == 0 {
            proof {
                assert(spec_cluster_count(s@) * pow2(spec_sectors_per_cluster_shift(s@) as nat)
                    == 0) by (nonlinear_arith)
                    requires
                        spec_cluster_count(s@) == 0,
                ;
            }
            cluster_heap_offs as u64 <= volume_len
        } else if spc_shift >= 64 {
            proof {
                if spc_shift > 64 {
                    lemma_pow2_strictly_increases(64, spc_shift as nat);
                }
                lemma2_to64_rest();
                assert(pow2(spc_shift as nat) >= 0x1_0000_0000_0000_0000) by {
                    assert(pow2(64) == 0x1_0000_0000_0000_0000);
                }
                assert(cluster_count as int * pow2(spc_shift as nat) >= 1 * pow2(
                    spc_shift as nat,
                )) by (nonlinear_arith)
                    requires
                        cluster_count >= 1,
                ;
            }
            false
        } else {
            let cluster_sectors = pow2_u64(spc_shift);
            let cc128 = cluster_count as u128;
            let cs128 = cluster_sectors as u128;
            proof {
                lemma_pow2_strictly_increases(spc_shift as nat, 64);
                lemma2_to64_rest();
                assert(cc128 * cs128 <= 0xFFFF_FFFFu128 * 0x1_0000_0000_0000_0000u128)
                    by (nonlinear_arith)
                    requires
                        cc128 <= 0xFFFF_FFFFu128,
                        cs128 <= 0x1_0000_0000_0000_0000u128,
                ;
                assert(cc128 as int * (cs128 as int) == spec_cluster_count(s@) * pow2(
                    spec_sectors_per_cluster_shift(s@) as nat,
                )) by (nonlinear_arith)
                    requires
                        cc128 as int == spec_cluster_count(s@),
                        cs128 as int == pow2(spec_sectors_per_cluster_shift(s@) as nat) as int,
                ;
            }
            (cluster_heap_offs as u128) + cc128 * cs128 <= volume_len as u128
        };
        if !heap_fits {
            return Err(BootSectorInitError::ClusterHeapExceedsVolume);
        }
        let bps_shift = s[108];
        if !(9 <= bps_shift && bps_shift <= 12) {
            return Err(BootSectorInitError::BadBytesPerSectorShift(bps_shift));
        }
        let root_dir = read_le32(s.as_slice(), 96);
        if !(2 <= root_dir && root_dir as u64 <= cluster_count as u64 + 1) {
            return Err(BootSectorInitError::BadFirstClusterOfRootDir(root_dir));
        }
        if !(number_of_fats == 1 || number_of_fats == 2) {
            return Err(BootSectorInitError::BadNumberOfFats(number_of_fats));
        }
        let percent = s[112];
        if !(percent <= 100 || percent == 0xFF) {
            return Err(BootSectorInitError::BadPercentInUse(percent));
        }
        Ok(BootSector { raw: s })
    }

    /// The stored sector, byte for byte.
    pub fn raw(&self) -> (r: &[u8; 512])
        ensures
            r@ == self@,
    {
        &self.raw
    }

    /// A jump instruction for x86; bytes 0..3, informational only.
    pub fn jump_boot(&self) -> (r: [u8; 3])
        ensures
            r@ == self@.subrange(0, 3),
    {
        read_bytes_array(self.raw.as_slice(), 0)
    }

    /// The magic string `"EXFAT   "`; bytes 3..11.
    pub fn magic(&self) -> (r: [u8; 8])
        ensures
            r@ == self@.subrange(3, 11),
    {
        read_bytes_array(self.raw.as_slice(), 3)
    }

    /// Offset in sectors of this partition from the start of the media;
    /// zero means "ignore". Bytes 64..72.
    pub fn partition_offs(&self) -> (r: u64)
        ensures
            r == spec_partition_offs(self@),
    {
        read_le64(self.raw.as_slice(), 64)
    }

    /// Length of the volume in sectors. Bytes 72..80.
    pub fn volume_len(&self) -> (r: u64)
        ensures
            r == spec_volume_len(self@),
    {
        read_le64(self.raw.as_slice(), 72)
    }

    /// Volume-relative sector offset of the first FAT. Bytes 80..84.
    pub fn fat_offs(&self) -> (r: u32)
        ensures
            r == spec_fat_offs(self@),
    {
        read_le32(self.raw.as_slice(), 80)
    }

    /// Length in sectors of each FAT. Bytes 84..88.
    pub fn fat_len(&self) -> (r: u32)
        ensures
            r == spec_fat_len(self@),
    {
        read_le32(self.raw.as_slice(), 84)
    }

    /// Volume-relative sector offset of the cluster heap. Bytes 88..92.
    pub fn cluster_heap_offs(&self) -> (r: u32)
        ensures
            r == spec_cluster_heap_offs(self@),
    {
        read_le32(self.raw.as_slice(), 88)
    }

    /// Number of clusters in the cluster heap. Bytes 92..96.
    pub fn cluster_count(&self) -> (r: u32)
        ensures
            r == spec_cluster_count(self@),
    {
        read_le32(self.raw.as_slice(), 92)
    }

    /// Cluster index of the first cluster of the root directory. Bytes 96..100.
    pub fn first_cluster_of_root_dir(&self) -> (r: u32)
        ensures
            r == spec_first_cluster_of_root_dir(self@),
    {
        read_le32(self.raw.as_slice(), 96)
    }

    /// Volume serial number. Bytes 100..104.
    pub fn volume_serial_num(&self) -> (r: u32)
        ensures
            r == spec_volume_serial_num(self@),
    {
        read_le32(self.raw.as_slice(), 100)
    }

    /// Filesystem revision: low byte minor version, high byte major version.
    /// Bytes 104..106.
    pub fn file_system_rev(&self) -> (r: u16)
        ensures
            r == spec_file_system_rev(self@),
    {
        read_le16(self.raw.as_slice(), 104)
    }

    /// Volume flags bitfield: bit 0 active FAT, bit 1 volume dirty,
    /// bit 2 media failure, bit 3 clear to zero. Bytes 106..108.
    pub fn volume_flags(&self) -> (r: u16)
        ensures
            r == spec_volume_flags(self@),
    {
        read_le16(self.raw.as_slice(), 106)
    }

    /// Bytes per sector as log2; between 9 (512 bytes) and 12 (4096 bytes).
    /// Byte 108.
    pub fn bytes_per_sector_shift(&self) -> (r: u8)
        ensures
            r == spec_bytes_per_sector_shift(self@),
    {
        self.raw[108]
    }

    /// Sectors per cluster as log2. Byte 109.
    pub fn sectors_per_cluster_shift(&self) -> (r: u8)
        ensures
            r == spec_sectors_per_cluster_shift(self@),
    {
        self.raw[109]
    }

    /// Number of FATs and allocation bitmaps: 1 or 2. Byte 110.
    pub fn number_of_fats(&self) -> (r: u8)
        ensures
            r == spec_number_of_fats(self@),
    {
        self.raw[110]
    }

    /// INT 13h drive number, for BIOS bootup. Byte 111.
    pub fn drive_select(&self) -> (r: u8)
        ensures
            r == spec_drive_select(self@),
    {
        self.raw[111]
    }

    /// Percentage of allocated clusters, or 0xFF for "unavailable". Byte 112.
    pub fn percent_in_use(&self) -> (r: u8)
        ensures
            r == spec_percent_in_use(self@),
    {
        self.raw[112]
    }

    /// Bootstrap code for BIOS boot. Bytes 120..510.
    pub fn boot_code(&self) -> (r: [u8; 390])
        ensures
            r@ == self@.subrange(120, 510),
    {
        read_bytes_array(self.raw.as_slice(), 120)
    }

    /// The boot signature, the bytes 0x55 0xAA. Bytes 510..512.
    pub fn boot_signature(&self) -> (r: [u8; 2])
        ensures
            r@ == self@.subrange(510, 512),
    {
        read_bytes_array(self.raw.as_slice(), 510)
    }

    /// The sector size in bytes, computed from the validated
    /// bytes-per-sector shift.
    pub fn bytes_per_sector(&self) -> (r: u64)
        ensures
            r == pow2(spec_bytes_per_sector_shift(self@) as nat),
            512 <= r <= 4096,
    {
        proof {
            use_type_invariant(self);
            lemma2_to64();
        }
        pow2_u64(self.raw[108])
    }

    /// The byte offset of the backup boot region: 24 sectors from the start
    /// of the volume, with the sector size taken from this boot sector.
    pub fn backup_boot_region_offs(&self) -> (r: u64)
        ensures
            r == 24 * pow2(spec_bytes_per_sector_shift(self@) as nat),
    {
        24 * self.bytes_per_sector()
    }

    /// The byte offset of the OEM parameter area of the boot region that
    /// starts at byte offset `base`: 9 sectors into the region, with the
    /// sector size taken from this boot sector.
    pub fn oem_parameters_offs(&self, base: u64) -> (r: u64)
        requires
            base + 9 * pow2(spec_bytes_per_sector_shift(self@) as nat) <= u64::MAX,
        ensures
            r == base + 9 * pow2(spec_bytes_per_sector_shift(self@) as nat),
    {
        base + 9 * self.bytes_per_sector()
    }
}

/// Computes `2^e` exactly, for exponents that fit a 64-bit result.
pub fn pow2_u64(e: u8) -> (r: u64)
    requires
        e < 64,
    ensures
        r == pow2(e as nat),
{
    let mut r: u64 = 1;
    let mut i: u8 = 0;
    proof {
        lemma2_to64();
    }
    while i < e
        invariant
            i <= e < 64,
            r == pow2(i as nat),
        decreases e - i,
    {
        proof {
            lemma_pow2_strictly_increases(i as nat, 63);
            lemma2_to64_rest();
            lemma_pow2_unfold((i + 1) as nat);
        }
        r = r * 2;
        i = i + 1;
    }
    r
}

} // verus!
