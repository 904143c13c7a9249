use fan_dimmer::identity::{device_identity, mac_hex_bytes};

#[test]
fn mac_renders_as_uppercase_hex_without_separators() {
    let mac = [0xAB, 0x00, 0x1F, 0x52, 0x9C, 0xDE];
    assert_eq!(mac_hex_bytes(&mac), b"AB001F529CDE".to_vec());
}

#[test]
fn mac_digits_cover_both_nibbles() {
    let mac = [0x01, 0x23, 0x45, 0x67, 0x89, 0xFA];
    assert_eq!(mac_hex_bytes(&mac), b"0123456789FA".to_vec());
}

#[test]
fn configured_name_wins() {
    let mac = [0xAB, 0x00, 0x1F, 0x52, 0x9C, 0xDE];
    let name = device_identity(b"living-room-fan".to_vec(), &mac);
    assert_eq!(name, b"living-room-fan".to_vec());
}

#[test]
fn empty_name_falls_back_to_mac() {
    let mac = [0xAB, 0x00, 0x1F, 0x52, 0x9C, 0xDE];
    let name = device_identity(Vec::new(), &mac);
    assert_eq!(name, b"AB001F529CDE".to_vec());
}
