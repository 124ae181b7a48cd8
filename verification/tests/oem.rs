use exfat::OemParameter;
use exfat::OemParameters;

#[test]
fn slot_with_zero_uuid_is_unused() {
    let p = OemParameter::from([0u8; 48]);
    assert!(!p.is_used());
    assert_eq!(p.uuid(), [0u8; 16]);
    assert_eq!(p.data(), [0u8; 32]);
}

#[test]
fn slot_with_nonzero_uuid_is_used() {
    for i in [0usize, 7, 15] {
        let mut raw = [0u8; 48];
        raw[i] = 1;
        assert!(OemParameter::from(raw).is_used());
    }
}

#[test]
fn nonzero_data_alone_does_not_mark_used() {
    let mut raw = [0u8; 48];
    raw[16] = 0xFF; // first byte of the data area, not of the UUID
    raw[47] = 0xFF;
    let p = OemParameter::from(raw);
    assert!(!p.is_used());
    assert_eq!(p.data()[0], 0xFF);
    assert_eq!(p.data()[31], 0xFF);
}

#[test]
fn all_returns_ten_slots_in_order() {
    let mut bytes = vec![0u8; 480];
    for slot in 0..10 {
        bytes[slot * 48] = slot as u8 + 1; // first UUID byte
        bytes[slot * 48 + 16] = 0xA0 + slot as u8; // first data byte
    }
    let area = OemParameters::from(bytes.clone());
    assert_eq!(area.raw(), &bytes[..]);
    let slots = area.all();
    assert_eq!(slots.len(), 10);
    for (i, slot) in slots.iter().enumerate() {
        assert!(slot.is_used());
        assert_eq!(slot.uuid()[0], i as u8 + 1);
        assert_eq!(slot.data()[0], 0xA0 + i as u8);
    }
}
