use modbus_servo::crc::check_crc;
use modbus_servo::frame::{build_request, FC_READ_HOLDING, FC_READ_INPUT};

#[test]
fn build_request_layout() {
    let frame = build_request(1, FC_READ_INPUT, 0x0002, 1).unwrap();
    assert_eq!(frame, vec![0x01, 0x04, 0x00, 0x02, 0x00, 0x01, 0x90, 0x0A]);
}

#[test]
fn build_request_big_endian_fields() {
    let frame = build_request(0x11, FC_READ_HOLDING, 0x1234, 10).unwrap();
    assert_eq!(&frame[..6], &[0x11, 0x03, 0x12, 0x34, 0x00, 0x0A]);
    assert_eq!(frame.len(), 8);
}

#[test]
fn build_request_rejects_zero_count() {
    assert!(build_request(1, FC_READ_INPUT, 0x0002, 0).is_none());
}

#[test]
fn build_request_rejects_count_over_ten() {
    assert!(build_request(1, FC_READ_INPUT, 0x0002, 11).is_none());
    assert!(build_request(1, FC_READ_INPUT, 0x0002, 10).is_some());
}

#[test]
fn request_passes_its_own_frame_checks() {
    // A freshly built request, read back as a frame, passes the CRC
    // check and echoes its own header fields.
    let frame = build_request(7, FC_READ_HOLDING, 0x00A0, 3).unwrap();
    assert!(check_crc(&frame));
    assert_eq!(frame[0], 7);
    assert_eq!(frame[1], FC_READ_HOLDING);
}
