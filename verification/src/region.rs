//! Composition of the decoded structures: a boot region is a validated boot
//! sector together with the OEM parameter area read from the same region;
//! a filesystem owns the primary boot region and its backup copy.
//!
//! Reading the regions from a storage device is the caller's business; the
//! byte offsets to read from are computed here, from the validated primary
//! boot sector, never from an assumed sector size.

use vstd::prelude::*;
use crate::boot_sector::BootSector;
use crate::oem::OemParameters;

verus! {

/// One boot region: the boot sector and the OEM parameter area that
/// follows it.
pub struct BootRegion {
    pub bs: BootSector,
    pub oem: OemParameters,
}

impl BootRegion {
    pub fn new(bs: BootSector, oem: OemParameters) -> (r: Self)
        ensures
            r.bs == bs,
            r.oem == oem,
    {
        BootRegion { bs, oem }
    }

    /// The boot sector of this region.
    pub fn boot_sector(&self) -> (r: &BootSector)
        ensures
            *r == self.bs,
    {
        &self.bs
    }

    /// The OEM parameter area of this region.
    pub fn oem_parameters(&self) -> (r: &OemParameters)
        ensures
            *r == self.oem,
    {
        &self.oem
    }
}

/// A filesystem instance: the primary boot region and its backup copy.
/// The primary region's boot sector is the authoritative one.
pub struct Fs {
    pub boot_regions: [BootRegion; 2],
}

impl Fs {
    /// Assembles a filesystem from its two independently validated boot
    /// regions: the primary, read at byte offset 0, and the backup, read at
    /// the offset the primary's boot sector names.
    pub fn from_regions(primary: BootRegion, backup: BootRegion) -> (r: Self)
        ensures
            r.boot_regions@[0] == primary,
            r.boot_regions@[1] == backup,
    {
        Fs { boot_regions: [primary, backup] }
    }

    /// The authoritative boot sector: the primary region's.
    pub fn boot_sector(&self) -> (r: &BootSector)
        ensures
            *r == self.boot_regions@[0].bs,
    {
        &self.boot_regions[0].bs
    }
}

} // verus!
