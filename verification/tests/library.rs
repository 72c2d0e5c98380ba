use lib::crc::calculate_crc;
use lib::frame::{bytes_to_u16, trace_validation};
use lib::registers::{calculate_register_units, count_zero_bits, sort_values};
use lib::{get_modbus_function_name, ProcessedTraces, RawTraces, RegisterUnits};

fn seal(body: &[u8]) -> Vec<u8> {
    let crc = calculate_crc(body);
    let mut frame = body.to_vec();
    frame.push((crc & 0xFF) as u8);
    frame.push((crc >> 8) as u8);
    frame
}

fn process(bytes: Vec<u8>) -> Option<ProcessedTraces> {
    RawTraces { traces: bytes }.process()
}

fn units(min: i64, max: i64, median: i64, total: i64, zeros: i64) -> RegisterUnits {
    RegisterUnits {
        mininum_value_register: Some(min),
        maximum_value_register: Some(max),
        median_value_register: Some(median),
        total_value_register: Some(total),
        zeros_count_register: Some(zeros),
    }
}

#[test]
fn crc_of_known_messages() {
    assert_eq!(calculate_crc(&[0x01, 0x07]), 0xE241);
    assert_eq!(calculate_crc(&[0x01, 0x01, 0x00, 0x19, 0x00, 0x03]), 0xCCAD);
    assert_eq!(calculate_crc(&[]), 0xFFFF);
}

#[test]
fn crc_check_value() {
    // The standard check value of CRC-16/MODBUS over the ASCII digits 1 to 9.
    assert_eq!(calculate_crc(b"123456789"), 0x4B37);
}

#[test]
fn bytes_to_u16_reads_big_endian() {
    assert_eq!(bytes_to_u16(&[0x12, 0x34]), Some(0x1234));
    assert_eq!(bytes_to_u16(&[0xFF, 0x00]), Some(0xFF00));
    assert_eq!(bytes_to_u16(&[0x12]), None);
    assert_eq!(bytes_to_u16(&[0x12, 0x34, 0x56]), None);
}

#[test]
fn zero_bits_match_count_zeros() {
    for x in [0u16, 1, 0x06DD, 0x8000, 0xFF00, 0xFFFF, 12345] {
        assert_eq!(count_zero_bits(x), x.count_zeros());
    }
    assert_eq!(count_zero_bits(0), 16);
    assert_eq!(count_zero_bits(0xFFFF), 0);
}

#[test]
fn sorting_values() {
    assert_eq!(sort_values(&vec![5, 1, 3, 1, 65535, 0]), vec![0, 1, 1, 3, 5, 65535]);
    assert_eq!(sort_values(&vec![]), Vec::<u16>::new());
}

#[test]
fn register_units_of_no_values_are_not_applicable() {
    assert_eq!(calculate_register_units(&vec![]), RegisterUnits::default());
    assert_eq!(RegisterUnits::default(), units(-1, -1, -1, -1, -1));
}

#[test]
fn register_units_odd_count() {
    let zeros = (5u16.count_zeros() + 1u16.count_zeros() + 3u16.count_zeros()) as i64;
    assert_eq!(calculate_register_units(&vec![5, 1, 3]), units(1, 5, 3, 9, zeros));
}

#[test]
fn register_units_even_count_rounds_median_down() {
    let zeros = (4u16.count_zeros() + 1u16.count_zeros() + 3u16.count_zeros()
        + 2u16.count_zeros()) as i64;
    assert_eq!(calculate_register_units(&vec![4, 1, 3, 2]), units(1, 4, 2, 10, zeros));
}

#[test]
fn register_units_do_not_depend_on_order() {
    let a = calculate_register_units(&vec![7, 300, 2, 65535, 2]);
    let b = calculate_register_units(&vec![2, 2, 65535, 300, 7]);
    assert_eq!(a, b);
    assert_eq!(a.median_value_register, Some(7));
    assert_eq!(a.total_value_register, Some(7 + 300 + 2 + 65535 + 2));
}

#[test]
fn register_units_bounds() {
    let u = calculate_register_units(&vec![9, 4, 100, 4]);
    let (min, med, max) = (
        u.mininum_value_register.unwrap(),
        u.median_value_register.unwrap(),
        u.maximum_value_register.unwrap(),
    );
    assert!(min <= med && med <= max);
    assert_eq!((min, med, max), (4, 6, 100));
}

#[test]
fn function_names() {
    assert_eq!(get_modbus_function_name(1), "Read Coils");
    assert_eq!(get_modbus_function_name(23), "Read Write Multiple Registers");
    assert_eq!(get_modbus_function_name(24), "Read FIFO Queue");
    assert_eq!(get_modbus_function_name(9), "Unknown Function");
    assert_eq!(get_modbus_function_name(0), "Unknown Function");
    assert_eq!(get_modbus_function_name(255), "Unknown Function");
}

#[test]
fn default_record() {
    let d = ProcessedTraces::default();
    assert_eq!(d.slave_address, 1);
    assert_eq!(d.function_code, 1);
    assert_eq!(d.function_name, "Read Coils");
    assert_eq!(d.address_unit_1, Some(-1));
    assert_eq!(d.quantity_unit_1, Some(-1));
    assert_eq!(d.count_unit_1, Some(-1));
    assert_eq!(d.address_unit_2, Some(-1));
    assert_eq!(d.quantity_unit_2, Some(-1));
    assert_eq!(d.register_units, RegisterUnits::default());
    assert_eq!(d.crc_calculated, 0);
}

#[test]
fn validation_header_fields() {
    let frame = vec![0x01, 0x07, 0x41, 0xE2];
    let m = trace_validation(&frame).unwrap();
    assert_eq!((m.slave_address, m.function_code, m.crc), (1, 7, 0xE241));
}

#[test]
fn rejects_empty_and_short_frames() {
    assert_eq!(process(vec![]), None);
    assert_eq!(process(vec![0x01, 0x07, 0x41]), None);
}

#[test]
fn rejects_too_long_frame() {
    let mut body = vec![0x01, 0x08];
    body.resize(255, 0);
    assert_eq!(process(seal(&body)), None);
    let mut body = vec![0x01, 0x08];
    body.resize(254, 0);
    assert!(process(seal(&body)).is_some());
}

#[test]
fn rejects_bad_slave_address() {
    assert_eq!(process(seal(&[0x00, 0x07])), None);
    assert_eq!(process(seal(&[248, 0x07])), None);
    assert!(process(seal(&[247, 0x07])).is_some());
}

#[test]
fn rejects_bad_function_code() {
    assert_eq!(process(seal(&[0x01, 0x00])), None);
    assert_eq!(process(seal(&[0x01, 25])), None);
    for code in [9u8, 10, 13, 14, 18, 19] {
        assert_eq!(process(seal(&[0x01, code, 0x00, 0x00])), None);
    }
}

#[test]
fn rejects_wrong_crc() {
    assert_eq!(process(vec![0x01, 0x07, 0xE2, 0x41]), None);
    assert_eq!(process(vec![0x01, 0x01, 0x00, 0x19, 0x00, 0x03, 0xAD, 0xCD]), None);
}

#[test]
fn header_only_codes_need_exact_length() {
    assert_eq!(process(seal(&[0x01, 0x07, 0x00, 0x00])), None);
    assert_eq!(process(seal(&[0x01, 0x0C, 0x00])), None);
    let p = process(seal(&[0x01, 0x0C])).unwrap();
    assert_eq!(p.function_name, "Get Comm Event Log");
}

#[test]
fn unfiltered_codes_accept_any_length() {
    for code in [8u8, 17, 20, 21, 22, 24] {
        let body = [0x05, code, 1, 2, 3, 4, 5, 6, 7];
        let frame = seal(&body);
        let crc = calculate_crc(&body);
        let p = process(frame).unwrap();
        assert_eq!(
            p,
            ProcessedTraces {
                slave_address: 5,
                function_code: code,
                function_name: get_modbus_function_name(code).into(),
                crc_calculated: crc,
                ..Default::default()
            }
        );
    }
}

#[test]
fn sealed_frame_roundtrip() {
    let body = [0x11, 0x16, 0xAB, 0xCD];
    let frame = seal(&body);
    let p = process(frame).unwrap();
    assert_eq!(p.crc_calculated, calculate_crc(&body));
}

#[test]
fn addresses_read_as_signed() {
    let p = process(seal(&[0x01, 0x03, 0x80, 0x00, 0xFF, 0xFF])).unwrap();
    assert_eq!(p.address_unit_1, Some(-32768));
    assert_eq!(p.quantity_unit_1, Some(-1));
}

#[test]
fn single_register_needs_eight_bytes() {
    assert_eq!(process(seal(&[0x01, 0x06, 0x00, 0x01, 0x00, 0x02, 0x00, 0x00])), None);
    assert_eq!(process(seal(&[0x01, 0x06, 0x00, 0x01])), None);
    let p = process(seal(&[0x01, 0x06, 0x00, 0x01, 0x00, 0x00])).unwrap();
    assert_eq!(p.register_units, units(0, 0, 0, 0, 16));
    assert_eq!(p.quantity_unit_1, Some(-1));
    assert_eq!(p.address_unit_1, Some(1));
}

#[test]
fn single_register_matches_general_statistics() {
    let p = process(seal(&[0x01, 0x06, 0x00, 0x01, 0x12, 0x34])).unwrap();
    assert_eq!(p.register_units, calculate_register_units(&vec![0x1234]));
}

#[test]
fn write_multiple_coils_length_checks() {
    // byte count says 3, but only 2 data bytes follow
    assert_eq!(process(seal(&[0x01, 0x0F, 0x00, 0x0A, 0x00, 0x0C, 0x03, 0xFF, 0x07])), None);
    // shorter than 10 bytes
    assert_eq!(process(seal(&[0x01, 0x0F, 0x00, 0x0A, 0x00, 0x0C, 0x00])), None);
    // byte count 0 in a 10-byte frame
    assert_eq!(process(seal(&[0x01, 0x0F, 0x00, 0x0A, 0x00, 0x0C, 0x00, 0x00])), None);
    // one data byte
    let p = process(seal(&[0x01, 0x0F, 0x00, 0x0A, 0x00, 0x01, 0x01, 0x01])).unwrap();
    assert_eq!(p.count_unit_1, Some(1));
    assert_eq!(p.register_units, units(1, 1, 1, 1, 15));
}

#[test]
fn write_multiple_registers_odd_byte_count() {
    let frame = seal(&[0x01, 0x10, 0x00, 0x0A, 0x00, 0x01, 0x03, 0x00, 0x01, 0x02]);
    assert_eq!(process(frame), None);
}

#[test]
fn read_write_multiple_registers() {
    let body = [
        0x01, 0x17, 0x00, 0x03, 0x00, 0x06, 0x00, 0x0E, 0x00, 0x03, 0x06, 0x00, 0xFF, 0x00, 0xFF,
        0x00, 0xFF,
    ];
    let p = process(seal(&body)).unwrap();
    assert_eq!(
        p,
        ProcessedTraces {
            slave_address: 1,
            function_code: 23,
            function_name: get_modbus_function_name(23).into(),
            address_unit_1: Some(3),
            quantity_unit_1: Some(6),
            count_unit_1: Some(6),
            register_units: units(255, 255, 255, 765, 24),
            address_unit_2: Some(14),
            quantity_unit_2: Some(3),
            crc_calculated: calculate_crc(&body),
        }
    );
}

#[test]
fn read_write_multiple_registers_rejections() {
    // read quantity above 125
    let body = [
        0x01, 0x17, 0x00, 0x03, 0x00, 0x7E, 0x00, 0x0E, 0x00, 0x01, 0x02, 0x00, 0x01,
    ];
    assert_eq!(process(seal(&body)), None);
    // byte count is not twice the write quantity
    let body = [
        0x01, 0x17, 0x00, 0x03, 0x00, 0x01, 0x00, 0x0E, 0x00, 0x02, 0x02, 0x00, 0x01,
    ];
    assert_eq!(process(seal(&body)), None);
    // length does not match the byte count
    let body = [
        0x01, 0x17, 0x00, 0x03, 0x00, 0x01, 0x00, 0x0E, 0x00, 0x01, 0x02, 0x00, 0x01, 0x00,
    ];
    assert_eq!(process(seal(&body)), None);
    // shorter than 13 bytes
    let body = [0x01, 0x17, 0x00, 0x03, 0x00, 0x01, 0x00, 0x0E, 0x00, 0x00];
    assert_eq!(process(seal(&body)), None);
}

#[test]
fn read_write_multiple_registers_negative_read_quantity_passes() {
    let body = [
        0x01, 0x17, 0x00, 0x03, 0xFF, 0xFF, 0x00, 0x0E, 0x00, 0x00, 0x00,
    ];
    let p = process(seal(&body)).unwrap();
    assert_eq!(p.quantity_unit_1, Some(-1));
    assert_eq!(p.count_unit_1, Some(0));
    assert_eq!(p.quantity_unit_2, Some(0));
    assert_eq!(p.register_units, RegisterUnits::default());
}

#[test]
fn processable_frames() {
    // a short frame of a function code with a quantity field
    assert!(!RawTraces { traces: seal(&[0x01, 0x03]) }.is_processable());
    assert!(!RawTraces { traces: seal(&[0x01, 0x10, 0x00]) }.is_processable());
    // function code 6 has no quantity field to read
    assert!(RawTraces { traces: seal(&[0x01, 0x06]) }.is_processable());
    // a write quantity whose double leaves the 16-bit range
    let body = [0x01, 0x17, 0x00, 0x03, 0x00, 0x01, 0x00, 0x0E, 0x40, 0x00, 0x00];
    assert!(!RawTraces { traces: seal(&body) }.is_processable());
    // the same frame with a read quantity above 125 is rejected before the doubling
    let body = [0x01, 0x17, 0x00, 0x03, 0x00, 0x7E, 0x00, 0x0E, 0x40, 0x00, 0x00];
    let raw = RawTraces { traces: seal(&body) };
    assert!(raw.is_processable());
    assert_eq!(raw.process(), None);
    // ordinary and invalid frames
    assert!(RawTraces { traces: vec![0x01, 0x07, 0x41, 0xE2] }.is_processable());
    assert!(RawTraces { traces: vec![0x01, 0x03, 0x00] }.is_processable());
    assert!(RawTraces { traces: vec![] }.is_processable());
}
