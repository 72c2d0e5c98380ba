# Modbus RTU trace processing

A library that validates captured Modbus RTU request frames and turns each
accepted frame into a feature record (addresses, quantities, byte counts and
statistics over the written register values) for training a traffic
firewall. Every function is verified with Verus against a specification of
the frame format.

- `src/crc.rs` — CRC-16/MODBUS, specified bit by bit.
- `src/frame.rs` — frame validation: length, slave address, function code, CRC.
- `src/names.rs` — names of the function codes.
- `src/registers.rs` — minimum, maximum, median, sum and zero-bit count of register values.
- `src/traces.rs` — `RawTraces::process`, its specification `spec_process`, and the laws of the library.
