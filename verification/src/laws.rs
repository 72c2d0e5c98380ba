//! Laws of frame processing, stated over the raw bytes of a frame: what an
//! accepted frame looks like and what its record holds, field by field.

use vstd::prelude::*;
use crate::crc::crc16;
use crate::frame::valid_frame;
use crate::names::function_name_of;
use crate::registers::{lemma_units_bounds, lemma_zero_bits_below_bound, sum_values, units_of, zero_bits, RegisterUnits};
use crate::traces::{lemma_single_register_units, spec_process};

verus! {

/// The unsigned value of the byte pair at `i`, `i + 1`, high byte first.
pub open spec fn pair_value(t: Seq<u8>, i: int) -> int {
    t[i] as int * 256 + t[i + 1] as int
}

/// The byte pair at `i`, `i + 1` read as a two's complement 16-bit integer.
pub open spec fn pair_signed(t: Seq<u8>, i: int) -> int {
    if pair_value(t, i) < 32768 {
        pair_value(t, i)
    } else {
        pair_value(t, i) - 65536
    }
}

/// A Modbus RTU request frame: 4 to 256 bytes, slave address 1 to 247,
/// function code 1 to 24, and the CRC-16/MODBUS of all bytes but the last
/// two in those two bytes, low byte first.
pub open spec fn well_formed(t: Seq<u8>) -> bool {
    &&& 4 <= t.len() <= 256
    &&& 1 <= t[0] <= 247
    &&& 1 <= t[1] <= 24
    &&& t[t.len() - 2] as int + 256 * t[t.len() - 1] as int == crc16(t.take(t.len() - 2)) as int
}

/// A record field that holds `Some(v)` with `v` equal to `x`.
pub open spec fn field_is(f: Option<i16>, x: int) -> bool {
    f matches Some(v) && v as int == x
}

/// A statistic that holds `Some(v)` with `v` equal to `x`.
pub open spec fn stat_is(f: Option<i64>, x: int) -> bool {
    f matches Some(v) && v as int == x
}

/// A record of statistics that all read "not applicable".
pub open spec fn no_statistics(u: RegisterUnits) -> bool {
    &&& stat_is(u.mininum_value_register, -1)
    &&& stat_is(u.maximum_value_register, -1)
    &&& stat_is(u.median_value_register, -1)
    &&& stat_is(u.total_value_register, -1)
    &&& stat_is(u.zeros_count_register, -1)
}

/// Validation accepts exactly the well-formed frames; in particular the CRC
/// is carried low byte first.
pub proof fn lemma_validation_is_well_formedness(t: Seq<u8>)
    ensures
        valid_frame(t) <==> well_formed(t),
{
}

/// Any record repeats the frame's slave address and function code and the
/// CRC it carries (low byte first), and only well-formed frames give one.
pub proof fn lemma_record_header(t: Seq<u8>)
    requires
        spec_process(t) is Some,
    ensures
        well_formed(t),
        spec_process(t).unwrap().slave_address == t[0],
        spec_process(t).unwrap().function_code == t[1],
        spec_process(t).unwrap().function_name == function_name_of(t[1]),
        spec_process(t).unwrap().crc_calculated as int == t[t.len() - 2] as int + 256 * t[t.len()
            - 1] as int,
{
}

/// A well-formed read or single-coil request (function codes 1 to 5) of at
/// least 6 bytes is accepted whatever its address and quantity; its record
/// holds the address (bytes 2, 3) and the quantity or output value (bytes 4,
/// 5) as signed 16-bit fields, and no other feature.
pub proof fn lemma_read_request_record(t: Seq<u8>)
    requires
        well_formed(t),
        1 <= t[1] <= 5,
        t.len() >= 6,
    ensures
        spec_process(t) is Some,
        field_is(spec_process(t).unwrap().address_unit_1, pair_signed(t, 2)),
        field_is(spec_process(t).unwrap().quantity_unit_1, pair_signed(t, 4)),
        field_is(spec_process(t).unwrap().count_unit_1, -1),
        field_is(spec_process(t).unwrap().address_unit_2, -1),
        field_is(spec_process(t).unwrap().quantity_unit_2, -1),
        no_statistics(spec_process(t).unwrap().register_units),
{
}

/// A well-formed "Write Single Register" request (6) is accepted exactly
/// when it is 8 bytes long. Its record holds the register address (bytes 2,
/// 3) as a signed field, no quantity, and statistics of the one written
/// value, the unsigned word of bytes 4, 5: minimum, maximum, median and total
/// are that value, the zero-bit count is its number of zero bits, as for any
/// one-value sequence.
pub proof fn lemma_single_register_record(t: Seq<u8>, w: u16)
    requires
        well_formed(t),
        t[1] == 6,
        w as int == pair_value(t, 4),
    ensures
        spec_process(t) is Some <==> t.len() == 8,
        spec_process(t) matches Some(p) ==> {
            &&& field_is(p.address_unit_1, pair_signed(t, 2))
            &&& field_is(p.quantity_unit_1, -1)
            &&& field_is(p.count_unit_1, -1)
            &&& stat_is(p.register_units.mininum_value_register, pair_value(t, 4))
            &&& stat_is(p.register_units.maximum_value_register, pair_value(t, 4))
            &&& stat_is(p.register_units.median_value_register, pair_value(t, 4))
            &&& stat_is(p.register_units.total_value_register, pair_value(t, 4))
            &&& stat_is(p.register_units.zeros_count_register, zero_bits(w) as int)
            &&& p.register_units == units_of(seq![w])
        },
{
    if t.len() >= 6 {
        assert(crate::frame::word_at(t, 4) == w);
        lemma_single_register_units(w);
        if spec_process(t) is Some {
            let p = spec_process(t).unwrap();
            assert(field_is(p.address_unit_1, pair_signed(t, 2)));
            assert(stat_is(p.register_units.mininum_value_register, pair_value(t, 4)));
            lemma_zero_bits_below_bound(w, 16);
        }
    }
}

/// A well-formed "Write Multiple Coils" request (15) is accepted exactly
/// when it is 10 to 246 bytes long and its byte count (byte 6) counts the
/// bytes between it and the CRC. Its record holds address, quantity and
/// byte count, and the statistics of the coil bytes.
pub proof fn lemma_coils_record(t: Seq<u8>, s: Seq<u16>)
    requires
        well_formed(t),
        t[1] == 15,
        s.len() == t.len() - 9,
        forall|i: int| 0 <= i < s.len() ==> #[trigger] s[i] as int == t[7 + i] as int,
    ensures
        spec_process(t) is Some <==> (10 <= t.len() <= 246 && t.len() == 9 + t[6] as int),
        spec_process(t) matches Some(p) ==> {
            &&& field_is(p.address_unit_1, pair_signed(t, 2))
            &&& field_is(p.quantity_unit_1, pair_signed(t, 4))
            &&& field_is(p.count_unit_1, t[6] as int)
            &&& field_is(p.address_unit_2, -1)
            &&& field_is(p.quantity_unit_2, -1)
            &&& p.register_units == units_of(s)
            &&& stat_is(p.register_units.total_value_register, sum_values(s))
        },
{
    if spec_process(t) is Some {
        assert(s =~= crate::traces::coil_values(t));
        lemma_units_bounds(s);
    }
}

/// A well-formed "Write Multiple Registers" request (16) is accepted exactly
/// when it is 10 to 246 bytes long and its byte count (byte 6) is even and
/// counts the bytes between it and the CRC. Its record holds address,
/// quantity and byte count, and the statistics of the written registers:
/// the big-endian words of the byte pairs from byte 7 on. Its total is their
/// sum, its maximum the largest of them.
pub proof fn lemma_registers_record(t: Seq<u8>, s: Seq<u16>)
    requires
        well_formed(t),
        t[1] == 16,
        s.len() == (t.len() - 9) / 2,
        forall|i: int| 0 <= i < s.len() ==> #[trigger] s[i] as int == pair_value(t, 7 + 2 * i),
    ensures
        spec_process(t) is Some <==> (10 <= t.len() <= 246 && t.len() == 9 + t[6] as int && t[6]
            % 2 == 0),
        spec_process(t) matches Some(p) ==> {
            &&& field_is(p.address_unit_1, pair_signed(t, 2))
            &&& field_is(p.quantity_unit_1, pair_signed(t, 4))
            &&& field_is(p.count_unit_1, t[6] as int)
            &&& field_is(p.address_unit_2, -1)
            &&& field_is(p.quantity_unit_2, -1)
            &&& p.register_units == units_of(s)
            &&& stat_is(p.register_units.total_value_register, sum_values(s))
            &&& forall|i: int|
                0 <= i < s.len() ==> p.register_units.maximum_value_register.unwrap() >= #[trigger] s[i]
        },
{
    if spec_process(t) is Some {
        assert(s =~= crate::traces::register_values(t, 7, t[6] as int / 2));
        lemma_units_bounds(s);
    }
}

/// A well-formed "Read Write Multiple Registers" request (23) is accepted
/// exactly when it is at least 13 bytes long, its read quantity (bytes 4, 5)
/// is at most 125, its byte count (byte 10) is twice its write quantity
/// (bytes 8, 9) and counts the bytes between it and the CRC. Its record holds
/// read address and quantity, write address and quantity, the byte count,
/// and the statistics of the written registers: the big-endian words of the
/// byte pairs from byte 11 on (none at all when the write quantity is 0,
/// and then no statistics).
pub proof fn lemma_read_write_registers_record(t: Seq<u8>, s: Seq<u16>)
    requires
        well_formed(t),
        t[1] == 23,
        t.len() >= 13,
        s.len() == (t.len() - 13) / 2,
        forall|i: int| 0 <= i < s.len() ==> #[trigger] s[i] as int == pair_value(t, 11 + 2 * i),
    ensures
        spec_process(t) is Some <==> (pair_signed(t, 4) <= 125 && 2 * pair_signed(t, 8) == t[10]
            as int && t.len() == 13 + t[10] as int),
        spec_process(t) matches Some(p) ==> {
            &&& field_is(p.address_unit_1, pair_signed(t, 2))
            &&& field_is(p.quantity_unit_1, pair_signed(t, 4))
            &&& field_is(p.address_unit_2, pair_signed(t, 6))
            &&& field_is(p.quantity_unit_2, pair_signed(t, 8))
            &&& field_is(p.count_unit_1, t[10] as int)
            &&& p.register_units == units_of(s)
            &&& s.len() > 0 ==> stat_is(p.register_units.total_value_register, sum_values(s))
            &&& s.len() > 0 ==> forall|i: int|
                0 <= i < s.len() ==> p.register_units.maximum_value_register.unwrap() >= #[trigger] s[i]
            &&& s.len() == 0 ==> no_statistics(p.register_units)
        },
{
    if spec_process(t) is Some {
        assert(s =~= crate::traces::register_values(t, 11, t[10] as int / 2));
        if s.len() > 0 {
            lemma_units_bounds(s);
        }
    }
}

/// A request of function code 7, 11 or 12 is the bare header and CRC: it
/// is accepted exactly when it is well formed and 4 bytes long, with no
/// feature in its record.
pub proof fn lemma_header_only_record(t: Seq<u8>)
    requires
        t.len() >= 2,
        t[1] == 7 || t[1] == 11 || t[1] == 12,
    ensures
        spec_process(t) is Some <==> (well_formed(t) && t.len() == 4),
        spec_process(t) matches Some(p) ==> {
            &&& field_is(p.address_unit_1, -1)
            &&& field_is(p.quantity_unit_1, -1)
            &&& field_is(p.count_unit_1, -1)
            &&& no_statistics(p.register_units)
        },
{
}

/// A request of function code 8, 17, 20, 21, 22 or 24 is accepted whenever
/// it is well formed, whatever its length, with no feature in its record.
pub proof fn lemma_unfiltered_record(t: Seq<u8>)
    requires
        t.len() >= 2,
        t[1] == 8 || t[1] == 17 || t[1] == 20 || t[1] == 21 || t[1] == 22 || t[1] == 24,
    ensures
        spec_process(t) is Some <==> well_formed(t),
        spec_process(t) matches Some(p) ==> {
            &&& field_is(p.address_unit_1, -1)
            &&& field_is(p.quantity_unit_1, -1)
            &&& field_is(p.count_unit_1, -1)
            &&& field_is(p.address_unit_2, -1)
            &&& field_is(p.quantity_unit_2, -1)
            &&& no_statistics(p.register_units)
        },
{
}

} // verus!
