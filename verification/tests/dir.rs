use exfat::DirEntry;
use exfat::EntryType;

#[test]
fn end_of_directory_record() {
    let d = DirEntry::from([0u8; 32]);
    assert!(d.is_end_of_directory());
    assert_eq!(d.entry_type(), 0x00);
}

#[test]
fn in_use_file_entry_type() {
    let mut v = [0u8; 32];
    v[0] = 0x85;
    let d = DirEntry::from(v);
    assert!(!d.is_end_of_directory());
    assert_eq!(d.entry_type(), 0x85);
    let t = EntryType::from_raw(d.entry_type());
    assert_eq!(t.type_code(), 0x05);
    assert!(t.in_use());
    assert_eq!(t.type_importance(), 0);
    assert_eq!(t.type_category(), 0);
}

#[test]
fn unused_entry_not_in_use() {
    for raw in [0x01u8, 0x05, 0x7F] {
        let t = EntryType::from_raw(raw);
        assert!(!t.in_use());
    }
    for raw in [0x81u8, 0xC0, 0xFF] {
        let t = EntryType::from_raw(raw);
        assert!(t.in_use());
    }
}

#[test]
fn entry_type_bitfields() {
    let t = EntryType::from_raw(0xE3);
    // 0xE3 = 0b1110_0011: code 3, importance 1, category 1, in use
    assert_eq!(t.type_code(), 3);
    assert_eq!(t.type_importance(), 1);
    assert_eq!(t.type_category(), 1);
    assert!(t.in_use());
}

#[test]
fn dir_entry_fields() {
    let mut v = [0u8; 32];
    v[0] = 0x85;
    for i in 1..20 {
        v[i] = i as u8;
    }
    v[20..24].copy_from_slice(&7u32.to_le_bytes());
    v[24..32].copy_from_slice(&0x0000_0001_0000_0002u64.to_le_bytes());
    let d = DirEntry::from(v);
    let payload = d.custom_defined();
    assert_eq!(payload.len(), 19);
    for i in 0..19 {
        assert_eq!(payload[i], (i + 1) as u8);
    }
    assert_eq!(d.first_cluster(), 7);
    assert_eq!(d.data_len(), 0x0000_0001_0000_0002);
}
