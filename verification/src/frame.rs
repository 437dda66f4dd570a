//! Builder for the fixed 8-byte Modbus RTU read-registers request.
//!
//! A request is `[id, function, addr_hi, addr_lo, count_hi, count_lo,
//! crc_lo, crc_hi]`: slave id, function code (0x03 read-holding or 0x04
//! read-input), big-endian start address, big-endian register count, and
//! the CRC16 of the first six bytes, low byte first.

use vstd::prelude::*;
use crate::crc::{crc16_spec, crc_low_byte, crc_high_byte, frame_crc_ok, modbus_crc16};

verus! {

/// Function code for reading holding registers.
pub const FC_READ_HOLDING: u8 = 0x03;

/// Function code for reading input registers.
pub const FC_READ_INPUT: u8 = 0x04;

/// Largest register count a single request may ask for.
pub const MAX_REGISTER_COUNT: u16 = 10;

/// A register count a request may carry: at least one register, at most
/// ten.
pub open spec fn valid_count(count: u16) -> bool {
    1 <= count <= MAX_REGISTER_COUNT
}

/// The first six bytes of a request: header and body, without the
/// checksum.
pub open spec fn request_body(slave_id: u8, function: u8, start_addr: u16, count: u16) -> Seq<u8> {
    seq![
        slave_id,
        function,
        (start_addr >> 8) as u8,
        (start_addr & 0xFF) as u8,
        (count >> 8) as u8,
        (count & 0xFF) as u8,
    ]
}

/// The full 8-byte request: body followed by its CRC16, low byte first.
pub open spec fn request_bytes(slave_id: u8, function: u8, start_addr: u16, count: u16) -> Seq<u8> {
    let body = request_body(slave_id, function, start_addr, count);
    body + seq![crc_low_byte(crc16_spec(body)), crc_high_byte(crc16_spec(body))]
}

/// Build the 8-byte request frame, or `None` when the register count is
/// out of range (no transaction should be attempted then).
pub fn build_request(slave_id: u8, function: u8, start_addr: u16, count: u16) -> (frame: Option<
    Vec<u8>,
>)
    ensures
        valid_count(count) ==> (frame matches Some(f) && f@ == request_bytes(
            slave_id,
            function,
            start_addr,
            count,
        ) && f@.len() == 8),
        !valid_count(count) ==> frame is None,
{
    if count < 1 || count > MAX_REGISTER_COUNT {
        return None;
    }
    let mut f: Vec<u8> = Vec::new();
    f.push(slave_id);
    f.push(function);
    proof {
        assert(start_addr >> 8 < 256) by (bit_vector);
        assert(start_addr & 0xFF < 256) by (bit_vector);
        assert(count >> 8 < 256) by (bit_vector);
        assert(count & 0xFF < 256) by (bit_vector);
    }
    f.push((start_addr >> 8) as u8);
    f.push((start_addr & 0xFF) as u8);
    f.push((count >> 8) as u8);
    f.push((count & 0xFF) as u8);
    proof {
        assert(f@ =~= request_body(slave_id, function, start_addr, count));
    }
    let crc = modbus_crc16(f.as_slice());
    proof {
        assert(crc & 0xFF < 256) by (bit_vector);
        assert(crc >> 8 < 256) by (bit_vector);
    }
    f.push((crc & 0xFF) as u8);
    f.push((crc >> 8) as u8);
    proof {
        assert(f@ =~= request_bytes(slave_id, function, start_addr, count));
    }
    Some(f)
}

/// A freshly built request already passes the checks a response must
/// pass: read back as a frame, it carries a valid trailing checksum and
/// echoes the slave id and function code it was built from.
pub proof fn lemma_request_self_check(slave_id: u8, function: u8, start_addr: u16, count: u16)
    ensures
        frame_crc_ok(request_bytes(slave_id, function, start_addr, count)),
        request_bytes(slave_id, function, start_addr, count).len() == 8,
        request_bytes(slave_id, function, start_addr, count)[0] == slave_id,
        request_bytes(slave_id, function, start_addr, count)[1] == function,
{
    let body = request_body(slave_id, function, start_addr, count);
    let full = request_bytes(slave_id, function, start_addr, count);
    assert(full.take(full.len() - 2) =~= body);
}

} // verus!
