//! Turning a raw Modbus RTU request frame into a feature record.

use vstd::prelude::*;
use crate::crc::crc16;
use crate::frame::{
    as_signed, be_u16, bytes_to_u16, crc_covered, received_crc, to_signed, trace_validation, valid_frame,
    word_at, MAX_MODBUS_BYTES, MINIMUM_MODBUS_BYTES,
};
use crate::names::{function_name_of, function_name_string, lemma_known_codes_named};
use crate::registers::{
    calculate_register_units, count_zero_bits, is_sorted, lemma_sorted_unique, lemma_sorted_values,
    median_of_sorted, no_units, sorted_values, sum_values, total_zero_bits, units_of, zero_bits,
    RegisterUnits,
};

verus! {

/// Length of the request frames that carry one address and one quantity
/// field (function codes 1 to 6).
pub const COMMON_MODBUS_BYTES_LENGTH: usize = 8;

/// Longest "Write Multiple Coils" / "Write Multiple Registers" frame.
pub const MAX_WRITE_MULTIPLE_COILS_BYTES: usize = 246;

/// Largest number of registers that "Write Multiple Registers" may carry.
pub const MAX_WRITE_MULTIPLE_REGISTERS: usize = 125;

/// Largest number of registers that "Read Write Multiple Registers" may write.
pub const READ_WRITE_MULTIPLE_REGISTERS_MAX_WRITE: usize = 121;

/// Largest quantity of registers that "Read Write Multiple Registers" may read.
pub const READ_WRITE_MULTIPLE_REGISTERS_MAX_READ: i16 = 125;

/// Shortest "Read Write Multiple Registers" frame.
pub const READ_WRITE_MULTIPLE_REGISTERS_MIN_BYTES: usize = 13;

/// A captured Modbus RTU request frame, CRC included.
#[derive(Debug, Clone, PartialEq, Eq, PartialOrd, Ord)]
pub struct RawTraces {
    pub traces: Vec<u8>,
}

/// The feature record of one frame. An `Option` field holding `Some(-1)`
/// marks a feature that does not apply to the frame's function code.
#[derive(Debug, Clone, PartialEq, Eq, PartialOrd, Ord)]
pub struct ProcessedTraces {
    pub slave_address: u8,
    pub function_code: u8,
    pub function_name: String,
    pub address_unit_1: Option<i16>,
    pub quantity_unit_1: Option<i16>,
    pub count_unit_1: Option<i16>,
    pub register_units: RegisterUnits,
    pub address_unit_2: Option<i16>,
    pub quantity_unit_2: Option<i16>,
    pub crc_calculated: u16,
}

/// The mathematical value of a `ProcessedTraces`: the same fields, with the
/// function name as a sequence of characters.
pub struct ProcessedView {
    pub slave_address: u8,
    pub function_code: u8,
    pub function_name: Seq<char>,
    pub address_unit_1: Option<i16>,
    pub quantity_unit_1: Option<i16>,
    pub count_unit_1: Option<i16>,
    pub register_units: RegisterUnits,
    pub address_unit_2: Option<i16>,
    pub quantity_unit_2: Option<i16>,
    pub crc_calculated: u16,
}

impl View for ProcessedTraces {
    type V = ProcessedView;

    open spec fn view(&self) -> ProcessedView {
        ProcessedView {
            slave_address: self.slave_address,
            function_code: self.function_code,
            function_name: self.function_name@,
            address_unit_1: self.address_unit_1,
            quantity_unit_1: self.quantity_unit_1,
            count_unit_1: self.count_unit_1,
            register_units: self.register_units,
            address_unit_2: self.address_unit_2,
            quantity_unit_2: self.quantity_unit_2,
            crc_calculated: self.crc_calculated,
        }
    }
}

/// The record of a frame of function code 1 that carries no feature.
pub open spec fn default_view() -> ProcessedView {
    ProcessedView {
        slave_address: 1,
        function_code: 1,
        function_name: function_name_of(1),
        address_unit_1: Some(-1i16),
        quantity_unit_1: Some(-1i16),
        count_unit_1: Some(-1i16),
        register_units: no_units(),
        address_unit_2: Some(-1i16),
        quantity_unit_2: Some(-1i16),
        crc_calculated: 0,
    }
}

impl Default for ProcessedTraces {
    fn default() -> (p: Self)
        ensures
            p@ == default_view(),
    {
        ProcessedTraces {
            slave_address: 1,
            function_code: 1,
            function_name: function_name_string(1),
            address_unit_1: Some(-1),
            quantity_unit_1: Some(-1),
            count_unit_1: Some(-1),
            register_units: RegisterUnits::default(),
            address_unit_2: Some(-1),
            quantity_unit_2: Some(-1),
            crc_calculated: 0,
        }
    }
}

/// Function codes whose request carries an address and, but for code 6, a
/// quantity field right after the header.
pub open spec fn has_request_fields(fc: u8) -> bool {
    fc == 1 || fc == 2 || fc == 3 || fc == 4 || fc == 5 || fc == 6 || fc == 15 || fc == 16
        || fc == 23
}

/// Function codes whose request is the bare header and CRC.
pub open spec fn is_header_only_code(fc: u8) -> bool {
    fc == 7 || fc == 11 || fc == 12
}

/// Function codes that are accepted whatever the frame's length.
pub open spec fn is_unfiltered_code(fc: u8) -> bool {
    fc == 8 || fc == 17 || fc == 20 || fc == 21 || fc == 22 || fc == 24
}

/// The byte values of a "Write Multiple Coils" payload, as words.
pub open spec fn coil_values(t: Seq<u8>) -> Seq<u16> {
    Seq::new((t.len() - 9) as nat, |i: int| t[7 + i] as u16)
}

/// The `n` big-endian register words that start at position `start`.
pub open spec fn register_values(t: Seq<u8>, start: int, n: int) -> Seq<u16> {
    Seq::new(n as nat, |i: int| word_at(t, start + 2 * i))
}

/// The statistics of a single register value.
pub open spec fn single_register_units(w: u16) -> RegisterUnits {
    RegisterUnits {
        mininum_value_register: Some(w as i64),
        maximum_value_register: Some(w as i64),
        median_value_register: Some(w as i64),
        total_value_register: Some(w as i64),
        zeros_count_register: Some(zero_bits(w) as i64),
    }
}

/// The record of an accepted frame before its function-specific fields.
pub open spec fn header_view(t: Seq<u8>) -> ProcessedView {
    ProcessedView {
        slave_address: t[0],
        function_code: t[1],
        function_name: function_name_of(t[1]),
        crc_calculated: received_crc(t),
        ..default_view()
    }
}

/// The header record with the address field, and the quantity field but
/// for function code 6.
pub open spec fn request_fields_view(t: Seq<u8>) -> ProcessedView {
    ProcessedView {
        address_unit_1: Some(as_signed(word_at(t, 2))),
        quantity_unit_1: if t[1] == 6 {
            Some(-1i16)
        } else {
            Some(as_signed(word_at(t, 4)))
        },
        ..header_view(t)
    }
}

/// What processing a frame gives: `None` for a frame that is rejected,
/// else the record of its features.
pub open spec fn spec_process(t: Seq<u8>) -> Option<ProcessedView> {
    if !valid_frame(t) {
        None
    } else {
        let fc = t[1];
        let len = t.len();
        if has_request_fields(fc) {
            let v = request_fields_view(t);
            if fc == 6 {
                if len == 8 {
                    Some(ProcessedView { register_units: single_register_units(word_at(t, 4)), ..v })
                } else {
                    None
                }
            } else if fc == 15 {
                if 10 <= len <= 246 && len == 9 + t[6] {
                    Some(
                        ProcessedView {
                            count_unit_1: Some(t[6] as i16),
                            register_units: units_of(coil_values(t)),
                            ..v
                        },
                    )
                } else {
                    None
                }
            } else if fc == 16 {
                if 10 <= len <= 246 && len == 9 + t[6] && t[6] % 2 == 0 {
                    Some(
                        ProcessedView {
                            count_unit_1: Some(t[6] as i16),
                            register_units: units_of(register_values(t, 7, t[6] as int / 2)),
                            ..v
                        },
                    )
                } else {
                    None
                }
            } else if fc == 23 {
                let write_quantity = as_signed(word_at(t, 8));
                let write_count = t[10];
                if 13 <= len && as_signed(word_at(t, 4)) <= 125 && 2 * write_quantity == write_count
                    && len == 13 + write_count {
                    Some(
                        ProcessedView {
                            address_unit_2: Some(as_signed(word_at(t, 6))),
                            count_unit_1: Some(write_count as i16),
                            quantity_unit_2: Some(write_quantity),
                            register_units: units_of(register_values(t, 11, write_count as int / 2)),
                            ..v
                        },
                    )
                } else {
                    None
                }
            } else {
                Some(v)
            }
        } else if is_header_only_code(fc) {
            if len == 4 {
                Some(header_view(t))
            } else {
                None
            }
        } else if is_unfiltered_code(fc) {
            Some(header_view(t))
        } else {
            None
        }
    }
}

/// The frames that processing handles: it reads the quantity field of a
/// frame with request fields only where the frame has one, and it doubles
/// the write quantity of a "Read Write Multiple Registers" frame only where
/// that fits in 16 bits.
pub open spec fn processable(t: Seq<u8>) -> bool {
    valid_frame(t) ==> {
        &&& (has_request_fields(t[1]) && t[1] != 6 ==> t.len() >= 6)
        &&& (t[1] == 23 && t.len() >= 13 && as_signed(word_at(t, 4)) <= 125 ==> -0x4000
            <= as_signed(word_at(t, 8)) < 0x4000)
    }
}

/// Reads the big-endian word at position `i` as a signed field value.
fn signed_field(t: &[u8], i: usize) -> (v: Option<i16>)
    requires
        i + 2 <= t@.len(),
    ensures
        v == Some(as_signed(word_at(t@, i as int))),
{
    let len = t.len();
    assert(i + 2 <= len);
    match bytes_to_u16(&t[i..i + 2]) {
        Some(w) => Some(to_signed(w)),
        None => None,
    }
}

/// Reads `n` big-endian register words starting at position `start`.
fn read_registers(t: &[u8], start: usize, n: usize) -> (regs: Vec<u16>)
    requires
        start + 2 * n <= t@.len(),
    ensures
        regs@ == register_values(t@, start as int, n as int),
{
    let mut regs: Vec<u16> = Vec::new();
    let mut k: usize = 0;
    let len = t.len();
    while k < n
        invariant
            k <= n,
            len == t@.len(),
            start + 2 * n <= len,
            regs@.len() == k,
            forall|j: int| 0 <= j < k ==> regs@[j] == word_at(t@, start + 2 * j),
        decreases n - k,
    {
        let a = start + 2 * k;
        match bytes_to_u16(&t[a..a + 2]) {
            Some(w) => regs.push(w),
            None => {},
        }
        k = k + 1;
    }
    assert(regs@ =~= register_values(t@, start as int, n as int));
    regs
}

/// Reads the coil bytes between position 7 and the CRC as words.
fn read_coil_bytes(t: &[u8]) -> (vals: Vec<u16>)
    requires
        9 <= t@.len(),
    ensures
        vals@ == coil_values(t@),
{
    let mut vals: Vec<u16> = Vec::new();
    let end = t.len() - 2;
    let mut k: usize = 7;
    while k < end
        invariant
            7 <= k <= end,
            end == t@.len() - 2,
            vals@.len() == k - 7,
            forall|j: int| 0 <= j < k - 7 ==> vals@[j] == t@[7 + j] as u16,
        decreases end - k,
    {
        vals.push(t[k] as u16);
        k = k + 1;
    }
    assert(vals@ =~= coil_values(t@));
    vals
}

impl RawTraces {
    /// Tells whether `process` may be called on this frame: false exactly
    /// for the frames that would have it read a quantity field past the end
    /// of a short frame, or double a "Read Write Multiple Registers" write
    /// quantity outside the 16-bit range.
    pub fn is_processable(&self) -> (b: bool)
        ensures
            b == processable(self.traces@),
    {
        let t = self.traces.as_slice();
        if trace_validation(t).is_none() {
            return true;
        }
        let function_code = t[1];
        let len = t.len();
        let has_fields = function_code == 1 || function_code == 2 || function_code == 3
            || function_code == 4 || function_code == 5 || function_code == 6
            || function_code == 15 || function_code == 16 || function_code == 23;
        if has_fields && function_code != 6 && len < 6 {
            return false;
        }
        if function_code == 23 && len >= 13 {
            let read_quantity = to_signed(be_u16(t[4], t[5]));
            if read_quantity <= READ_WRITE_MULTIPLE_REGISTERS_MAX_READ {
                let write_quantity = to_signed(be_u16(t[8], t[9]));
                if write_quantity < -0x4000 || write_quantity >= 0x4000 {
                    return false;
                }
            }
        }
        true
    }

    /// Validates the frame and extracts its features: `None` when the
    /// frame is rejected, else its record, where `Some(-1)` marks a feature
    /// that does not apply to the frame's function code.
    pub fn process(&self) -> (r: Option<ProcessedTraces>)
        requires
            processable(self.traces@),
        ensures
            match r {
                Some(p) => spec_process(self.traces@) == Some(p@),
                None => spec_process(self.traces@) is None,
            },
    {
        let t = self.traces.as_slice();
        let validation = match trace_validation(t) {
            Some(v) => v,
            None => return None,
        };
        let traces_length = t.len();
        let function_code = validation.function_code;
        let mut trace = ProcessedTraces {
            slave_address: validation.slave_address,
            function_code: function_code,
            function_name: function_name_string(function_code),
            crc_calculated: validation.crc,
            address_unit_1: Some(-1),
            quantity_unit_1: Some(-1),
            count_unit_1: Some(-1),
            register_units: RegisterUnits::default(),
            address_unit_2: Some(-1),
            quantity_unit_2: Some(-1),
        };
        match function_code {
            1 | 2 | 3 | 4 | 5 | 6 | 15 | 16 | 23 => {
                trace.address_unit_1 = signed_field(t, 2);
                if function_code != 6 {
                    trace.quantity_unit_1 = signed_field(t, 4);
                }
                match function_code {
                    6 => {
                        if traces_length != COMMON_MODBUS_BYTES_LENGTH {
                            return None;
                        }
                        let reg_unit = match bytes_to_u16(&t[4..6]) {
                            Some(w) => w,
                            None => return None,
                        };
                        trace.register_units = RegisterUnits {
                            mininum_value_register: Some(reg_unit as i64),
                            maximum_value_register: Some(reg_unit as i64),
                            median_value_register: Some(reg_unit as i64),
                            total_value_register: Some(reg_unit as i64),
                            zeros_count_register: Some(count_zero_bits(reg_unit) as i64),
                        };
                    },
                    15 => {
                        if traces_length < 10 || traces_length > MAX_WRITE_MULTIPLE_COILS_BYTES {
                            return None;
                        }
                        let byte_count = t[6];
                        if traces_length != 7 + (byte_count as usize) + 2 {
                            return None;
                        }
                        trace.count_unit_1 = Some(byte_count as i16);
                        let payload = read_coil_bytes(t);
                        trace.register_units = calculate_register_units(&payload);
                    },
                    16 => {
                        if traces_length < 10 || traces_length > MAX_WRITE_MULTIPLE_COILS_BYTES {
                            return None;
                        }
                        let byte_count = t[6];
                        if traces_length != 7 + (byte_count as usize) + 2 {
                            return None;
                        }
                        trace.count_unit_1 = Some(byte_count as i16);
                        let payload_len = traces_length - 9;
                        if payload_len % 2 != 0 {
                            return None;
                        }
                        let reg_len = payload_len / 2;
                        if reg_len > MAX_WRITE_MULTIPLE_REGISTERS {
                            return None;
                        }
                        let registers = read_registers(t, 7, reg_len);
                        trace.register_units = calculate_register_units(&registers);
                    },
                    23 => {
                        if traces_length < READ_WRITE_MULTIPLE_REGISTERS_MIN_BYTES
                            || traces_length > MAX_MODBUS_BYTES {
                            return None;
                        }
                        let read_quantity = match trace.quantity_unit_1 {
                            Some(q) => q,
                            None => return None,
                        };
                        if read_quantity > READ_WRITE_MULTIPLE_REGISTERS_MAX_READ {
                            return None;
                        }
                        trace.address_unit_2 = signed_field(t, 6);
                        let write_quantity = match signed_field(t, 8) {
                            Some(q) => q,
                            None => return None,
                        };
                        let write_registers_count = t[10] as i16;
                        if 2 * write_quantity != write_registers_count {
                            return None;
                        }
                        if traces_length != 11 + (write_registers_count as usize) + 2 {
                            return None;
                        }
                        let payload_len = traces_length - 13;
                        if payload_len % 2 != 0 {
                            return None;
                        }
                        let reg_len = payload_len / 2;
                        if reg_len > READ_WRITE_MULTIPLE_REGISTERS_MAX_WRITE {
                            return None;
                        }
                        let registers = read_registers(t, 11, reg_len);
                        trace.register_units = calculate_register_units(&registers);
                        trace.count_unit_1 = Some(write_registers_count);
                        trace.quantity_unit_2 = Some(write_quantity);
                    },
                    _ => {},
                }
            },
            7 | 11 | 12 => {
                if traces_length != MINIMUM_MODBUS_BYTES {
                    return None;
                }
            },
            8 | 17 | 20 | 21 | 22 | 24 => {},
            _ => {
                return None;
            },
        }
        proof {
            assert(spec_process(self.traces@) == Some(trace@));
        }
        Some(trace)
    }
}

/// A frame is accepted only when it is well formed: 4 to 256 bytes, a
/// slave address in 1..=247, a function code that the library knows, and a
/// CRC in its last two bytes (low byte first) that matches the CRC of the
/// bytes before them. The record then repeats the frame's address, function
/// code and CRC, and names the function code.
pub proof fn lemma_accepted_frame(t: Seq<u8>)
    requires
        spec_process(t) is Some,
    ensures
        valid_frame(t),
        4 <= t.len() <= 256,
        1 <= t[0] <= 247,
        has_request_fields(t[1]) || is_header_only_code(t[1]) || is_unfiltered_code(t[1]),
        received_crc(t) == crc16(crc_covered(t)),
        spec_process(t).unwrap().slave_address == t[0],
        spec_process(t).unwrap().function_code == t[1],
        spec_process(t).unwrap().function_name == function_name_of(t[1]),
        spec_process(t).unwrap().crc_calculated == received_crc(t),
        spec_process(t).unwrap().function_name != "Unknown Function"@,
{
    lemma_known_codes_named(t[1]);
}

/// A "Write Multiple Coils" (15) or "Write Multiple Registers" (16) frame
/// is accepted exactly when it is 10 to 246 bytes long and its byte count
/// (byte 6) counts the bytes between it and the CRC, an even number for
/// registers. The record then holds the start address, the quantity and the
/// byte count, and the statistics of the data: the coil bytes, or the
/// big-endian register words.
pub proof fn lemma_write_multiple_record(t: Seq<u8>)
    requires
        valid_frame(t),
        t[1] == 15 || t[1] == 16,
    ensures
        spec_process(t) is Some <==> (10 <= t.len() <= 246 && t.len() == 9 + t[6] && (t[1] == 16
            ==> t[6] % 2 == 0)),
        spec_process(t) matches Some(p) ==> {
            &&& p.address_unit_1 == Some(as_signed(word_at(t, 2)))
            &&& p.quantity_unit_1 == Some(as_signed(word_at(t, 4)))
            &&& p.count_unit_1 == Some(t[6] as i16)
            &&& p.register_units == units_of(
                if t[1] == 15 {
                    coil_values(t)
                } else {
                    register_values(t, 7, t[6] as int / 2)
                },
            )
            &&& p.address_unit_2 == Some(-1i16)
            &&& p.quantity_unit_2 == Some(-1i16)
        },
{
}

/// A "Read Write Multiple Registers" (23) frame is accepted exactly when it
/// is at least 13 bytes long, its read quantity is at most 125, its byte
/// count (byte 10) is twice its write quantity and counts the bytes between
/// it and the CRC. The record then holds the read address and quantity, the
/// write address and quantity, the byte count, and the statistics of the
/// written register words.
pub proof fn lemma_read_write_multiple_record(t: Seq<u8>)
    requires
        valid_frame(t),
        t[1] == 23,
    ensures
        spec_process(t) is Some <==> (13 <= t.len() && as_signed(word_at(t, 4)) <= 125 && 2
            * as_signed(word_at(t, 8)) == t[10] && t.len() == 13 + t[10]),
        spec_process(t) matches Some(p) ==> {
            &&& p.address_unit_1 == Some(as_signed(word_at(t, 2)))
            &&& p.quantity_unit_1 == Some(as_signed(word_at(t, 4)))
            &&& p.address_unit_2 == Some(as_signed(word_at(t, 6)))
            &&& p.quantity_unit_2 == Some(as_signed(word_at(t, 8)))
            &&& p.count_unit_1 == Some(t[10] as i16)
            &&& p.register_units == units_of(register_values(t, 11, t[10] as int / 2))
        },
{
}

/// A frame whose function code the library does not know is rejected.
pub proof fn lemma_unknown_code_rejected(t: Seq<u8>)
    requires
        t.len() >= 2,
        !has_request_fields(t[1]),
        !is_header_only_code(t[1]),
        !is_unfiltered_code(t[1]),
    ensures
        spec_process(t) is None,
{
}

/// A frame whose carried CRC differs from the CRC of the bytes before it is
/// rejected.
pub proof fn lemma_corrupted_crc_rejected(t: Seq<u8>)
    requires
        t.len() >= 2,
        received_crc(t) != crc16(crc_covered(t)),
    ensures
        spec_process(t) is None,
{
}

/// `body` followed by its CRC, low byte first.
pub open spec fn sealed(body: Seq<u8>) -> Seq<u8> {
    let c = crc16(body);
    body + seq![(c % 256) as u8, (c / 256) as u8]
}

/// Sealing a message with its CRC (low byte first) gives a frame whose CRC
/// check passes; with 2 to 254 bytes, a slave address in 1..=247 and a
/// function code in 1..=24 the frame is valid. A frame of a function code
/// that is not filtered is then accepted with that CRC and no feature.
pub proof fn lemma_sealed_frame_accepted(body: Seq<u8>)
    requires
        2 <= body.len() <= 254,
        1 <= body[0] <= 247,
        1 <= body[1] <= 24,
    ensures
        received_crc(sealed(body)) == crc16(body),
        crc_covered(sealed(body)) == body,
        valid_frame(sealed(body)),
        is_unfiltered_code(body[1]) ==> spec_process(sealed(body)) == Some(
            header_view(sealed(body)),
        ),
        is_unfiltered_code(body[1]) ==> spec_process(sealed(body)).unwrap().crc_calculated
            == crc16(body),
{
    let f = sealed(body);
    let c = crc16(body);
    assert(crc_covered(f) =~= body);
    assert(f[f.len() - 2] == (c % 256) as u8);
    assert(f[f.len() - 1] == (c / 256) as u8);
    assert(received_crc(f) == c);
}

/// The statistics of a single register are the register itself, with its
/// zero bits; they are what the general statistics give for one value.
pub proof fn lemma_single_register_units(w: u16)
    ensures
        units_of(seq![w]) == single_register_units(w),
{
    let s = seq![w];
    lemma_sorted_values(s);
    assert(is_sorted(s));
    lemma_sorted_unique(sorted_values(s), s);
    assert(s.drop_last() =~= Seq::<u16>::empty());
    assert(sum_values(s.drop_last()) == 0);
    assert(total_zero_bits(s.drop_last()) == 0);
    assert(s.last() == w);
    assert(sum_values(s) == w);
    assert(total_zero_bits(s) == zero_bits(w));
    assert(sorted_values(s) == s);
    assert(median_of_sorted(s) == w);
}

} // verus!
