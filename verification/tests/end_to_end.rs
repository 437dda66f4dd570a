//! One full poll tick against a scripted slave: request built, response
//! captured byte by byte, frame validated and decoded, actuation state
//! updated, pulse width derived.

use modbus_servo::control::ActuationState;
use modbus_servo::crc::{check_crc, modbus_crc16};
use modbus_servo::frame::{build_request, FC_READ_INPUT};
use modbus_servo::pwm::deg_to_pulse_us;
use modbus_servo::reader::{ReadEvent, ReaderConfig, ResponseReader};
use modbus_servo::response::{expected_frame_len, parse_response};

/// A slave that holds 70.0 % humidity in input register 0x0002 and
/// answers a well-formed read-input request for it.
fn scripted_slave(request: &[u8]) -> Option<Vec<u8>> {
    if !check_crc(request) || request.len() != 8 {
        return None;
    }
    if request[1] != FC_READ_INPUT || request[2..6] != [0x00, 0x02, 0x00, 0x01] {
        return None;
    }
    let mut reply = vec![request[0], request[1], 0x02, 0x02, 0xBC];
    let crc = modbus_crc16(&reply);
    reply.push((crc & 0xFF) as u8);
    reply.push((crc >> 8) as u8);
    Some(reply)
}

#[test]
fn poll_tick_decodes_and_actuates() {
    let request = build_request(1, FC_READ_INPUT, 0x0002, 1).unwrap();
    let reply = scripted_slave(&request).expect("the slave answers a valid request");

    // The response arrives in two chunks with a short pause between.
    let mut reader = ResponseReader::new(ReaderConfig::default(), expected_frame_len(1));
    assert!(!reader.step(ReadEvent::Received(reply[..3].to_vec()), 4));
    assert!(!reader.step(ReadEvent::Idle(2), 6));
    assert!(reader.step(ReadEvent::Received(reply[3..].to_vec()), 8));
    let frame = reader.into_frame();

    let regs = parse_response(&frame, 1, FC_READ_INPUT, 1).unwrap();
    assert_eq!(regs, vec![700]);

    // 70.0 % is not above the 70 % band threshold, so the servo aims at
    // 60 degrees, and the fan stays off.
    let mut state = ActuationState::new();
    state.apply_poll(Some(regs[0]));
    assert_eq!(state.target_deg, 60);
    assert!(!state.fan_on);
    assert_eq!(deg_to_pulse_us(state.target_deg), 1500);
}

#[test]
fn poll_tick_with_garbled_reply_keeps_state() {
    let request = build_request(1, FC_READ_INPUT, 0x0002, 1).unwrap();
    let mut reply = scripted_slave(&request).unwrap();
    reply[4] ^= 0x01;

    let mut state = ActuationState::new();
    state.apply_poll(Some(850));
    assert!(state.fan_on);

    let outcome = parse_response(&reply, 1, FC_READ_INPUT, 1);
    assert!(outcome.is_err());
    state.apply_poll(outcome.ok().map(|regs| regs[0]));
    assert_eq!(state.target_deg, 120);
    assert!(state.fan_on);
}
