//! Validation of a Modbus RTU request frame: length, slave address,
//! function code and the trailing CRC.

use vstd::prelude::*;
use crate::crc::{calculate_crc, crc16};

verus! {

/// Longest Modbus RTU frame, in bytes.
pub const MAX_MODBUS_BYTES: usize = 256;

/// Shortest Modbus RTU frame (address, function code, CRC), in bytes.
pub const MINIMUM_MODBUS_BYTES: usize = 4;

/// The 16-bit value of two bytes, the first one the more significant.
pub open spec fn be_word(hi: u8, lo: u8) -> u16 {
    (hi * 256 + lo) as u16
}

/// The big-endian word at positions `i` and `i + 1` of a frame.
pub open spec fn word_at(t: Seq<u8>, i: int) -> u16 {
    be_word(t[i], t[i + 1])
}

/// A 16-bit word read as a two's complement signed integer.
pub open spec fn as_signed(w: u16) -> i16 {
    if w < 0x8000 {
        w as i16
    } else {
        (w - 0x10000) as i16
    }
}

/// The CRC that a frame carries in its last two bytes, low byte first.
pub open spec fn received_crc(t: Seq<u8>) -> u16 {
    be_word(t[t.len() - 1], t[t.len() - 2])
}

/// The bytes of a frame that its CRC covers: all but the last two.
pub open spec fn crc_covered(t: Seq<u8>) -> Seq<u8> {
    t.take(t.len() - 2)
}

/// A frame that the validation accepts: 4 to 256 bytes long, a slave
/// address in 1..=247, a function code in 1..=24, and a correct CRC.
pub open spec fn valid_frame(t: Seq<u8>) -> bool {
    &&& MINIMUM_MODBUS_BYTES <= t.len() <= MAX_MODBUS_BYTES
    &&& 1 <= t[0] <= 247
    &&& 1 <= t[1] <= 24
    &&& received_crc(t) == crc16(crc_covered(t))
}

/// The word whose high byte is `hi` and low byte `lo`.
pub fn be_u16(hi: u8, lo: u8) -> (w: u16)
    ensures
        w == be_word(hi, lo),
        w as int == hi * 256 + lo,
{
    (hi as u16) * 256 + (lo as u16)
}

/// Reads a big-endian word from a slice of exactly two bytes.
pub fn bytes_to_u16(bytes: &[u8]) -> (w: Option<u16>)
    ensures
        w == (if bytes@.len() == 2 {
            Some(be_word(bytes@[0], bytes@[1]))
        } else {
            None::<u16>
        }),
{
    if bytes.len() != 2 {
        return None;
    }
    Some(be_u16(bytes[0], bytes[1]))
}

/// Reads a word as a two's complement signed integer.
pub fn to_signed(w: u16) -> (v: i16)
    ensures
        v == as_signed(w),
{
    if w < 0x8000 {
        w as i16
    } else {
        (w as i32 - 0x10000) as i16
    }
}

/// The header fields of an accepted frame.
pub struct ModbusInstruction {
    pub slave_address: u8,
    pub function_code: u8,
    pub crc: u16,
}

/// Checks the length, slave address, function code and CRC of a frame and
/// returns its header, or `None` when any check fails.
pub fn trace_validation(vec: &[u8]) -> (r: Option<ModbusInstruction>)
    ensures
        r is Some <==> valid_frame(vec@),
        r matches Some(m) ==> {
            &&& m.slave_address == vec@[0]
            &&& m.function_code == vec@[1]
            &&& m.crc == crc16(crc_covered(vec@))
            &&& m.crc == received_crc(vec@)
        },
{
    if vec.len() == 0 {
        return None;
    }
    if vec.len() < MINIMUM_MODBUS_BYTES || vec.len() > MAX_MODBUS_BYTES {
        return None;
    }
    let slave_address = vec[0];
    if slave_address < 1 || slave_address > 247 {
        return None;
    }
    let function_code = vec[1];
    if function_code < 1 || function_code > 24 {
        return None;
    }
    let len = vec.len();
    let crc_received = be_u16(vec[len - 1], vec[len - 2]);
    let crc_calculated = calculate_crc(&vec[0..len - 2]);
    assert(vec@.subrange(0, len - 2) =~= crc_covered(vec@));
    if crc_received != crc_calculated {
        return None;
    }
    Some(ModbusInstruction { slave_address, function_code, crc: crc_calculated })
}

} // verus!
