//! Processing of Modbus RTU request frames into feature records for
//! supervised and unsupervised training of a Modbus traffic firewall.

pub mod crc;
pub mod frame;
pub mod laws;
pub mod names;
pub mod registers;
pub mod traces;

pub use crc::calculate_crc;
pub use names::get_modbus_function_name;
pub use registers::RegisterUnits;
pub use traces::{ProcessedTraces, RawTraces};
