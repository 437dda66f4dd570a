//! Validation and decoding of Modbus RTU response frames.
//!
//! A normal response is `[slave_id, function, byte_count, data...,
//! crc_lo, crc_hi]` with one big-endian 16-bit word per register; an
//! exception response echoes the function code with its top bit set and
//! carries an exception code instead of data.  The checks run in a fixed
//! order and every failure is reported without touching the caller's
//! registers.

use vstd::prelude::*;
use crate::crc::{crc16_spec, crc_low_byte, crc_high_byte, crc16_prefix};
use crate::frame::valid_count;

verus! {

/// Why a response frame was rejected.  Every variant names one of the
/// transaction-level failures; none of them is fatal to the caller,
/// whose next scheduled poll is the retry.
#[derive(Clone, Copy, Debug, PartialEq, Eq, Structural)]
pub enum ModbusError {
    /// No bytes were captured before the absolute timeout.
    Timeout,
    /// Fewer bytes arrived than the structure requires.
    ShortFrame,
    /// The echoed slave id differs from the request.
    SlaveIdMismatch,
    /// The slave flagged the request as failed; the payload is its
    /// exception code.
    Exception(u8),
    /// The echoed function code differs from the request and is not a
    /// flagged exception.
    FunctionMismatch,
    /// The declared payload size disagrees with the requested register
    /// count.
    ByteCountMismatch,
    /// The trailing checksum disagrees with the one recomputed over the
    /// frame.
    CrcMismatch,
}

/// The register word at index `i` of a response frame: high byte first,
/// starting right after the three header bytes.
pub open spec fn register_at(frame: Seq<u8>, i: int) -> u16 {
    ((frame[3 + 2 * i] as int) * 256 + (frame[3 + 2 * i + 1] as int)) as u16
}

/// The register words a response frame carries for a request of `count`
/// registers.
pub open spec fn registers_of(frame: Seq<u8>, count: u16) -> Seq<u16> {
    Seq::new(count as nat, |i: int| register_at(frame, i))
}

/// The length a normal response to a request of `count` registers has:
/// three header bytes, two data bytes per register, two checksum bytes.
pub open spec fn expected_response_len(count: u16) -> int {
    5 + 2 * count
}

/// The length of the normal response to a request of `count` registers,
/// handed to the capture loop as its early-stop point.
pub fn expected_frame_len(count: u16) -> (len: usize)
    requires
        valid_count(count),
    ensures
        len == expected_response_len(count),
{
    5 + 2 * (count as usize)
}

/// What validating a captured frame against a request of `count`
/// registers from `slave_id` with `function` yields, checks in order:
/// emptiness (timeout), structural minimum, slave id echo, flagged
/// exception, function echo, declared byte count, declared length,
/// trailing checksum; then the decoded registers.
pub open spec fn parse_result(frame: Seq<u8>, slave_id: u8, function: u8, count: u16) -> Result<
    Seq<u16>,
    ModbusError,
> {
    let byte_count = frame[2] as int;
    if frame.len() == 0 {
        Err(ModbusError::Timeout)
    } else if frame.len() < 5 {
        Err(ModbusError::ShortFrame)
    } else if frame[0] != slave_id {
        Err(ModbusError::SlaveIdMismatch)
    } else if frame[1] == (function | 0x80) {
        Err(ModbusError::Exception(frame[2]))
    } else if frame[1] != function {
        Err(ModbusError::FunctionMismatch)
    } else if byte_count != 2 * count {
        Err(ModbusError::ByteCountMismatch)
    } else if frame.len() < 3 + byte_count + 2 {
        Err(ModbusError::ShortFrame)
    } else if frame[3 + byte_count] != crc_low_byte(crc16_spec(frame.take(3 + byte_count)))
        || frame[3 + byte_count + 1] != crc_high_byte(crc16_spec(frame.take(3 + byte_count))) {
        Err(ModbusError::CrcMismatch)
    } else {
        Ok(registers_of(frame, count))
    }
}

/// Validate a captured frame against the request it answers and decode
/// its register words.  The checksum is recomputed over everything up to
/// the trailing checksum bytes and compared low byte first.
pub fn parse_response(frame: &[u8], slave_id: u8, function: u8, count: u16) -> (result: Result<
    Vec<u16>,
    ModbusError,
>)
    ensures
        parse_result(frame@, slave_id, function, count) matches Ok(regs) ==> (result matches Ok(v)
            && v@ == regs),
        parse_result(frame@, slave_id, function, count) matches Err(e) ==> (result matches Err(got)
            && got == e),
{
    if frame.len() == 0 {
        return Err(ModbusError::Timeout);
    }
    if frame.len() < 5 {
        return Err(ModbusError::ShortFrame);
    }
    if frame[0] != slave_id {
        return Err(ModbusError::SlaveIdMismatch);
    }
    if frame[1] == (function | 0x80) {
        return Err(ModbusError::Exception(frame[2]));
    }
    if frame[1] != function {
        return Err(ModbusError::FunctionMismatch);
    }
    let byte_count: usize = frame[2] as usize;
    if byte_count != 2 * (count as usize) {
        return Err(ModbusError::ByteCountMismatch);
    }
    if frame.len() < 3 + byte_count + 2 {
        return Err(ModbusError::ShortFrame);
    }
    let crc = crc16_prefix(frame, 3 + byte_count);
    proof {
        assert(crc & 0xFF < 256) by (bit_vector);
        assert(crc >> 8 < 256) by (bit_vector);
    }
    if frame[3 + byte_count] != (crc & 0xFF) as u8 || frame[3 + byte_count + 1] != (crc >> 8)
        as u8 {
        return Err(ModbusError::CrcMismatch);
    }
    let mut regs: Vec<u16> = Vec::new();
    let mut i: usize = 0;
    while i < count as usize
        invariant
            i <= count,
            2 * count + 5 <= frame@.len(),
            regs@ =~= registers_of(frame@, count).take(i as int),
        decreases count - i,
    {
        let hi: u16 = frame[3 + 2 * i] as u16;
        let lo: u16 = frame[3 + 2 * i + 1] as u16;
        regs.push(hi * 256 + lo);
        i = i + 1;
    }
    proof {
        assert(regs@ =~= registers_of(frame@, count));
    }
    Ok(regs)
}

/// Validate a single-register response and return its one word, the
/// shape a poll of one humidity or temperature register uses.
pub fn parse_single_register(frame: &[u8], slave_id: u8, function: u8) -> (result: Result<
    u16,
    ModbusError,
>)
    ensures
        parse_result(frame@, slave_id, function, 1) matches Ok(regs) ==> (result matches Ok(value)
            && value == regs[0]),
        parse_result(frame@, slave_id, function, 1) matches Err(e) ==> (result matches Err(got)
            && got == e),
{
    match parse_response(frame, slave_id, function, 1) {
        Ok(regs) => Ok(regs[0]),
        Err(e) => Err(e),
    }
}

} // verus!
