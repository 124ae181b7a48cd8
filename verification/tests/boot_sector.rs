use exfat::BootSector;
use exfat::BootSectorInitError;

/// A fully valid 512-byte boot sector with distinctive field values.
fn valid_boot_bytes() -> [u8; 512] {
    let mut s = [0u8; 512];
    s[0] = 0xEB;
    s[1] = 0x76;
    s[2] = 0x90;
    s[3..11].copy_from_slice(b"EXFAT   ");
    // bytes 11..64 stay zero: the reserved must-be-zero region
    s[64..72].copy_from_slice(&0x0807060504030201u64.to_le_bytes()); // partition_offs
    s[72..80].copy_from_slice(&100u64.to_le_bytes()); // volume_len
    s[80..84].copy_from_slice(&24u32.to_le_bytes()); // fat_offs
    s[84..88].copy_from_slice(&1u32.to_le_bytes()); // fat_len
    s[88..92].copy_from_slice(&26u32.to_le_bytes()); // cluster_heap_offs
    s[92..96].copy_from_slice(&1u32.to_le_bytes()); // cluster_count
    s[96..100].copy_from_slice(&2u32.to_le_bytes()); // first_cluster_of_root_dir
    s[100..104].copy_from_slice(&0xDEADBEEFu32.to_le_bytes()); // volume_serial_num
    s[104..106].copy_from_slice(&0x0100u16.to_le_bytes()); // file_system_rev 1.0
    s[106..108].copy_from_slice(&0x0002u16.to_le_bytes()); // volume_flags: dirty
    s[108] = 9; // bytes_per_sector_shift: 512-byte sectors
    s[109] = 0; // sectors_per_cluster_shift: 1 sector per cluster
    s[110] = 1; // number_of_fats
    s[111] = 0x80; // drive_select
    s[112] = 50; // percent_in_use
    s[120] = 0xAB; // first byte of boot_code
    s[510] = 0x55;
    s[511] = 0xAA;
    s
}

#[test]
fn valid_boot_sector_accessors() {
    let s = valid_boot_bytes();
    let bs = BootSector::from(s).expect("valid boot sector must construct");
    assert_eq!(bs.raw(), &s);
    assert_eq!(bs.jump_boot(), [0xEB, 0x76, 0x90]);
    assert_eq!(bs.magic(), *b"EXFAT   ");
    assert_eq!(bs.partition_offs(), 0x0807060504030201);
    assert_eq!(bs.volume_len(), 100);
    assert_eq!(bs.fat_offs(), 24);
    assert_eq!(bs.fat_len(), 1);
    assert_eq!(bs.cluster_heap_offs(), 26);
    assert_eq!(bs.cluster_count(), 1);
    assert_eq!(bs.first_cluster_of_root_dir(), 2);
    assert_eq!(bs.volume_serial_num(), 0xDEADBEEF);
    assert_eq!(bs.file_system_rev(), 0x0100);
    assert_eq!(bs.volume_flags(), 0x0002);
    assert_eq!(bs.bytes_per_sector_shift(), 9);
    assert_eq!(bs.sectors_per_cluster_shift(), 0);
    assert_eq!(bs.number_of_fats(), 1);
    assert_eq!(bs.drive_select(), 0x80);
    assert_eq!(bs.percent_in_use(), 50);
    assert_eq!(bs.boot_code()[0], 0xAB);
    assert_eq!(bs.boot_code()[389], 0);
    assert_eq!(bs.boot_signature(), [0x55, 0xAA]);
    assert_eq!(bs.bytes_per_sector(), 512);
    assert_eq!(bs.backup_boot_region_offs(), 24 * 512);
    assert_eq!(bs.oem_parameters_offs(0), 9 * 512);
    assert_eq!(bs.oem_parameters_offs(24 * 512), 24 * 512 + 9 * 512);
}

#[test]
fn bad_magic_reports_bytes() {
    let mut s = valid_boot_bytes();
    s[3..11].copy_from_slice(b"NTFS    ");
    match BootSector::from(s) {
        Err(BootSectorInitError::BadMagic(m)) => assert_eq!(&m, b"NTFS    "),
        other => panic!("expected BadMagic, got {:?}", other.err()),
    }
}

#[test]
fn bad_magic_single_byte() {
    let mut s = valid_boot_bytes();
    s[10] = 0x21;
    match BootSector::from(s) {
        Err(BootSectorInitError::BadMagic(m)) => assert_eq!(&m, b"EXFAT  !"),
        other => panic!("expected BadMagic, got {:?}", other.err()),
    }
}

#[test]
fn reserved_region_must_be_zero() {
    for i in [11usize, 20, 63] {
        let mut s = valid_boot_bytes();
        s[i] = 7;
        assert_eq!(
            BootSector::from(s).err(),
            Some(BootSectorInitError::MustBeZeroNonZero)
        );
    }
}

#[test]
fn fat_offs_below_floor() {
    let mut s = valid_boot_bytes();
    s[80..84].copy_from_slice(&23u32.to_le_bytes());
    assert_eq!(
        BootSector::from(s).err(),
        Some(BootSectorInitError::FatOffsTooSmall(23))
    );
    let mut s = valid_boot_bytes();
    s[80..84].copy_from_slice(&0u32.to_le_bytes());
    assert_eq!(
        BootSector::from(s).err(),
        Some(BootSectorInitError::FatOffsTooSmall(0))
    );
}

#[test]
fn fat_region_overlaps_cluster_heap() {
    let mut s = valid_boot_bytes();
    s[84..88].copy_from_slice(&10u32.to_le_bytes()); // fat ends at 24 + 10 > 26
    assert_eq!(
        BootSector::from(s).err(),
        Some(BootSectorInitError::FatRegionOverlapsClusterHeap)
    );
}

#[test]
fn cluster_heap_exceeds_volume() {
    let mut s = valid_boot_bytes();
    s[72..80].copy_from_slice(&26u64.to_le_bytes()); // heap needs 26 + 1 sectors
    assert_eq!(
        BootSector::from(s).err(),
        Some(BootSectorInitError::ClusterHeapExceedsVolume)
    );
}

#[test]
fn huge_cluster_shift_exceeds_volume() {
    let mut s = valid_boot_bytes();
    s[109] = 200; // clusters of 2^200 sectors can never fit
    assert_eq!(
        BootSector::from(s).err(),
        Some(BootSectorInitError::ClusterHeapExceedsVolume)
    );
}

#[test]
fn bad_bytes_per_sector_shift() {
    for shift in [0u8, 8, 13, 0xFF] {
        let mut s = valid_boot_bytes();
        s[108] = shift;
        assert_eq!(
            BootSector::from(s).err(),
            Some(BootSectorInitError::BadBytesPerSectorShift(shift))
        );
    }
}

#[test]
fn bad_first_cluster_of_root_dir() {
    // cluster_count is 1, so only cluster index 2 is meaningful
    for root in [0u32, 1, 3, 5] {
        let mut s = valid_boot_bytes();
        s[96..100].copy_from_slice(&root.to_le_bytes());
        assert_eq!(
            BootSector::from(s).err(),
            Some(BootSectorInitError::BadFirstClusterOfRootDir(root))
        );
    }
}

#[test]
fn bad_number_of_fats() {
    for nf in [0u8, 3] {
        let mut s = valid_boot_bytes();
        s[88..92].copy_from_slice(&30u32.to_le_bytes()); // keep the FAT region within bounds
        s[110] = nf;
        assert_eq!(
            BootSector::from(s).err(),
            Some(BootSectorInitError::BadNumberOfFats(nf))
        );
    }
}

#[test]
fn two_fats_accepted() {
    let mut s = valid_boot_bytes();
    s[88..92].copy_from_slice(&30u32.to_le_bytes());
    s[110] = 2;
    assert!(BootSector::from(s).is_ok());
}

#[test]
fn bad_percent_in_use() {
    for p in [101u8, 200, 0xFE] {
        let mut s = valid_boot_bytes();
        s[112] = p;
        assert_eq!(
            BootSector::from(s).err(),
            Some(BootSectorInitError::BadPercentInUse(p))
        );
    }
}

#[test]
fn percent_unavailable_accepted() {
    let mut s = valid_boot_bytes();
    s[112] = 0xFF;
    assert!(BootSector::from(s).is_ok());
}

#[test]
fn magic_checked_before_reserved_region() {
    let mut s = valid_boot_bytes();
    s[3] = 0;
    s[20] = 7;
    assert!(matches!(
        BootSector::from(s),
        Err(BootSectorInitError::BadMagic(_))
    ));
}
