//! CRC-16/MODBUS: reflected polynomial 0xA001, initial value 0xFFFF, no
//! final xor.

use vstd::prelude::*;

verus! {

/// One shift of the CRC register: shift right, and xor in the reflected
/// polynomial when the bit shifted out was set.
pub open spec fn crc_shift(c: u16) -> u16 {
    if c & 1 != 0 {
        (c >> 1) ^ 0xA001
    } else {
        c >> 1
    }
}

/// `n` successive shifts of the CRC register.
pub open spec fn crc_shift_n(c: u16, n: nat) -> u16
    decreases n,
{
    if n == 0 {
        c
    } else {
        crc_shift(crc_shift_n(c, (n - 1) as nat))
    }
}

/// The register after feeding one byte.
pub open spec fn crc_update(c: u16, b: u8) -> u16 {
    crc_shift_n(c ^ (b as u16), 8)
}

/// The CRC-16/MODBUS of a byte sequence.
pub open spec fn crc16(data: Seq<u8>) -> u16
    decreases data.len(),
{
    if data.len() == 0 {
        0xFFFF
    } else {
        crc_update(crc16(data.drop_last()), data.last())
    }
}

/// Computes the CRC-16/MODBUS of `data`.
pub fn calculate_crc(data: &[u8]) -> (crc: u16)
    ensures
        crc == crc16(data@),
{
    let mut crc: u16 = 0xFFFF;
    let mut i: usize = 0;
    while i < data.len()
        invariant
            i <= data.len(),
            crc == crc16(data@.take(i as int)),
        decreases data.len() - i,
    {
        let byte = data[i];
        let ghost start: u16 = crc ^ (byte as u16);
        crc = crc ^ (byte as u16);
        let mut k: u32 = 0;
        while k < 8
            invariant
                k <= 8,
                crc == crc_shift_n(start, k as nat),
            decreases 8 - k,
        {
            if (crc & 1) != 0 {
                crc = (crc >> 1) ^ 0xA001;
            } else {
                crc = crc >> 1;
            }
            k = k + 1;
        }
        assert(data@.take(i + 1).drop_last() =~= data@.take(i as int));
        i = i + 1;
    }
    assert(data@.take(data.len() as int) =~= data@);
    crc
}

} // verus!
