//! Decoding of the on-disk layout of an exFAT volume: the boot sector, the
//! OEM parameter area, the file allocation table, cluster chains, and
//! directory entry records.

pub mod boot_sector;
pub mod bytes_le;
pub mod chain;
pub mod dir;
pub mod ebs;
pub mod fat;
pub mod oem;
pub mod region;

pub use boot_sector::BootSector;
pub use boot_sector::BootSectorInitError;
pub use chain::ClusterChain;
pub use dir::Dir;
pub use dir::DirEntry;
pub use dir::EntryType;
pub use ebs::ExtendedBootSector;
pub use fat::Fat;
pub use fat::FatEntry;
pub use fat::FatInitError;
pub use oem::OemParameter;
pub use oem::OemParameters;
pub use region::BootRegion;
pub use region::Fs;

