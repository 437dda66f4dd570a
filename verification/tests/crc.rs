use modbus_servo::crc::{check_crc, modbus_crc16};

#[test]
fn crc_known_request_vector() {
    // A read-input request for one register at 0x0002, slave 1.
    let frame = [0x01u8, 0x04, 0x00, 0x02, 0x00, 0x01];
    assert_eq!(modbus_crc16(&frame), 0x0A90);
}

#[test]
fn crc_of_empty_input_is_ffff() {
    assert_eq!(modbus_crc16(&[]), 0xFFFF);
}

#[test]
fn crc_single_byte() {
    assert_eq!(modbus_crc16(&[0x01]), 0x807E);
}

#[test]
fn check_crc_accepts_valid_frame() {
    // A one-register response carrying 0x02BC, checksum low byte first.
    let frame = [0x01u8, 0x04, 0x02, 0x02, 0xBC, 0xB9, 0xE1];
    assert!(check_crc(&frame));
}

#[test]
fn check_crc_rejects_swapped_checksum_bytes() {
    let frame = [0x01u8, 0x04, 0x02, 0x02, 0xBC, 0xE1, 0xB9];
    assert!(!check_crc(&frame));
}

#[test]
fn check_crc_rejects_corrupted_byte() {
    let frame = [0x01u8, 0x04, 0x02, 0x03, 0xBC, 0xB9, 0xE1];
    assert!(!check_crc(&frame));
}

#[test]
fn check_crc_rejects_too_short_frame() {
    assert!(!check_crc(&[]));
    assert!(!check_crc(&[0x90]));
    assert!(!check_crc(&[0x90, 0x0A]));
}
