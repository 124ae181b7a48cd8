use exfat::ExtendedBootSector;

#[test]
fn marked_extended_boot_sector() {
    // the signature is the last four bytes: 512 - 4 == 508 for 512-byte sectors
    let mut s = vec![0u8; 512];
    s[508..512].copy_from_slice(&0xAA55_0000u32.to_le_bytes());
    let ebs = ExtendedBootSector::from(s, 9);
    assert_eq!(ebs.signature(), 0xAA55_0000);
    assert!(ebs.is_extended_boot_sector());
}

#[test]
fn signature_ignores_earlier_bytes() {
    // a marker anywhere else in the sector does not count
    let mut s = vec![0u8; 512];
    s[32..36].copy_from_slice(&0xAA55_0000u32.to_le_bytes());
    let ebs = ExtendedBootSector::from(s, 9);
    assert_eq!(ebs.signature(), 0);
    assert!(!ebs.is_extended_boot_sector());
}

#[test]
fn larger_sector_moves_the_signature() {
    // 4096-byte sectors: the field sits at 4096 - 4 == 4092
    let mut s = vec![0u8; 4096];
    s[4092..4096].copy_from_slice(&0xAA55_0000u32.to_le_bytes());
    let ebs = ExtendedBootSector::from(s, 12);
    assert_eq!(ebs.signature(), 0xAA55_0000);
    assert!(ebs.is_extended_boot_sector());
}

#[test]
fn unmarked_extended_boot_sector() {
    let s = vec![0u8; 512];
    let ebs = ExtendedBootSector::from(s, 9);
    assert_eq!(ebs.signature(), 0);
    assert!(!ebs.is_extended_boot_sector());
    assert_eq!(ebs.raw().len(), 512);
}
