//! CRC16 engine for Modbus RTU frames.
//!
//! The Modbus variant of CRC16: the accumulator starts at 0xFFFF, each
//! input byte is XORed into the low byte, and eight shift steps follow,
//! each XORing the polynomial 0xA001 into the shifted value whenever the
//! bit shifted out was set.  On the wire the checksum travels low byte
//! first.

use vstd::prelude::*;

verus! {

/// One shift step: shift right once, folding in the polynomial when the
/// bit shifted out was set.
pub open spec fn crc16_shift(crc: u16) -> u16 {
    if crc & 1 != 0 {
        (crc >> 1) ^ 0xA001
    } else {
        crc >> 1
    }
}

/// `k` shift steps applied to `crc`.
pub open spec fn crc16_shifts(crc: u16, k: nat) -> u16
    decreases k,
{
    if k == 0 {
        crc
    } else {
        crc16_shift(crc16_shifts(crc, (k - 1) as nat))
    }
}

/// The accumulator after absorbing one input byte: XOR into the low
/// byte, then eight shift steps.
pub open spec fn crc16_absorb(crc: u16, byte: u8) -> u16 {
    crc16_shifts(crc ^ (byte as u16), 8)
}

/// The CRC16 of a byte sequence, starting from 0xFFFF.
pub open spec fn crc16_spec(data: Seq<u8>) -> u16
    decreases data.len(),
{
    if data.len() == 0 {
        0xFFFF
    } else {
        crc16_absorb(crc16_spec(data.drop_last()), data.last())
    }
}

/// Low byte of a checksum, the first one transmitted.
pub open spec fn crc_low_byte(crc: u16) -> u8 {
    (crc & 0xFF) as u8
}

/// High byte of a checksum, the second one transmitted.
pub open spec fn crc_high_byte(crc: u16) -> u8 {
    (crc >> 8) as u8
}

/// A frame carries a valid trailing checksum: its last two bytes are the
/// CRC16 of everything before them, low byte first.  Frames shorter than
/// three bytes have no room for a checksum and a payload and never pass.
pub open spec fn frame_crc_ok(frame: Seq<u8>) -> bool {
    &&& frame.len() >= 3
    &&& frame[frame.len() - 2] == crc_low_byte(crc16_spec(frame.take(frame.len() - 2)))
    &&& frame[frame.len() - 1] == crc_high_byte(crc16_spec(frame.take(frame.len() - 2)))
}

/// Absorb one byte into a running CRC16 accumulator.
fn crc16_update(crc: u16, byte: u8) -> (updated: u16)
    ensures
        updated == crc16_absorb(crc, byte),
{
    let mut acc: u16 = crc ^ (byte as u16);
    let mut k: usize = 0;
    while k < 8
        invariant
            k <= 8,
            acc == crc16_shifts(crc ^ (byte as u16), k as nat),
        decreases 8 - k,
    {
        acc = if acc & 1 != 0 {
            (acc >> 1) ^ 0xA001
        } else {
            acc >> 1
        };
        k = k + 1;
    }
    acc
}

/// CRC16 of a prefix of a byte slice, so that a frame's checksum can be
/// recomputed without copying the bytes before it.
pub fn crc16_prefix(data: &[u8], len: usize) -> (crc: u16)
    requires
        len <= data@.len(),
    ensures
        crc == crc16_spec(data@.take(len as int)),
{
    let mut crc: u16 = 0xFFFF;
    let mut i: usize = 0;
    while i < len
        invariant
            i <= len,
            len <= data@.len(),
            crc == crc16_spec(data@.take(i as int)),
        decreases len - i,
    {
        crc = crc16_update(crc, data[i]);
        proof {
            assert(data@.take(i + 1).drop_last() =~= data@.take(i as int));
            assert(data@.take(i + 1).last() == data@[i as int]);
        }
        i = i + 1;
    }
    crc
}

/// CRC16 of a whole byte slice.
pub fn modbus_crc16(data: &[u8]) -> (crc: u16)
    ensures
        crc == crc16_spec(data@),
{
    let crc = crc16_prefix(data, data.len());
    proof {
        assert(data@.take(data@.len() as int) =~= data@);
    }
    crc
}

/// Whether a received frame ends in a valid checksum over the bytes
/// before it, low byte first.
pub fn check_crc(frame: &[u8]) -> (ok: bool)
    ensures
        ok == frame_crc_ok(frame@),
{
    if frame.len() < 3 {
        return false;
    }
    let crc = crc16_prefix(frame, frame.len() - 2);
    proof {
        assert(crc & 0xFF < 256) by (bit_vector);
        assert(crc >> 8 < 256) by (bit_vector);
    }
    frame[frame.len() - 2] == (crc & 0xFF) as u8 && frame[frame.len() - 1] == (crc >> 8) as u8
}

} // verus!
