//! Human-readable names of the Modbus function codes.

use vstd::prelude::*;

verus! {

/// The name that the Modbus application protocol gives to a function code,
/// or "Unknown Function" for a code it does not name.
pub open spec fn function_name_of(function_code: u8) -> Seq<char> {
    match function_code {
        1 => "Read Coils"@,
        2 => "Read Discrete Inputs"@,
        3 => "Read Holding Registers"@,
        4 => "Read Input Registers"@,
        5 => "Write Single Coil"@,
        6 => "Write Single Register"@,
        7 => "Read Exception Status"@,
        8 => "Diagnostics"@,
        11 => "Get Comm Event Counter"@,
        12 => "Get Comm Event Log"@,
        15 => "Write Multiple Coils"@,
        16 => "Write Multiple Registers"@,
        17 => "Report Server ID"@,
        20 => "Read File Record"@,
        21 => "Write File Record"@,
        22 => "Mask Write Register"@,
        23 => "Read Write Multiple Registers"@,
        24 => "Read FIFO Queue"@,
        _ => "Unknown Function"@,
    }
}

/// Returns the name of a Modbus function code.
pub fn get_modbus_function_name(function_code: u8) -> (name: &'static str)
    ensures
        name@ == function_name_of(function_code),
{
    match function_code {
        1 => "Read Coils",
        2 => "Read Discrete Inputs",
        3 => "Read Holding Registers",
        4 => "Read Input Registers",
        5 => "Write Single Coil",
        6 => "Write Single Register",
        7 => "Read Exception Status",
        8 => "Diagnostics",
        11 => "Get Comm Event Counter",
        12 => "Get Comm Event Log",
        15 => "Write Multiple Coils",
        16 => "Write Multiple Registers",
        17 => "Report Server ID",
        20 => "Read File Record",
        21 => "Write File Record",
        22 => "Mask Write Register",
        23 => "Read Write Multiple Registers",
        24 => "Read FIFO Queue",
        _ => "Unknown Function",
    }
}

/// Returns the name of a Modbus function code as an owned `String`.
pub fn function_name_string(function_code: u8) -> (name: String)
    ensures
        name@ == function_name_of(function_code),
{
    let s = get_modbus_function_name(function_code);
    s.to_string()
}

/// Every function code in 1..=24 but 9, 10, 13, 14, 18 and 19 has a name
/// of its own, not "Unknown Function".
pub proof fn lemma_known_codes_named(function_code: u8)
    requires
        1 <= function_code <= 24,
        function_code != 9,
        function_code != 10,
        function_code != 13,
        function_code != 14,
        function_code != 18,
        function_code != 19,
    ensures
        function_name_of(function_code) != "Unknown Function"@,
{
    reveal_strlit("Unknown Function");
    reveal_strlit("Read Coils");
    reveal_strlit("Read Discrete Inputs");
    reveal_strlit("Read Holding Registers");
    reveal_strlit("Read Input Registers");
    reveal_strlit("Write Single Coil");
    reveal_strlit("Write Single Register");
    reveal_strlit("Read Exception Status");
    reveal_strlit("Diagnostics");
    reveal_strlit("Get Comm Event Counter");
    reveal_strlit("Get Comm Event Log");
    reveal_strlit("Write Multiple Coils");
    reveal_strlit("Write Multiple Registers");
    reveal_strlit("Report Server ID");
    reveal_strlit("Read File Record");
    reveal_strlit("Write File Record");
    reveal_strlit("Mask Write Register");
    reveal_strlit("Read Write Multiple Registers");
    reveal_strlit("Read FIFO Queue");
    let unknown = "Unknown Function"@;
    let name = function_name_of(function_code);
    if name.len() == unknown.len() {
        assert(name[0] != unknown[0]);
    }
}

/// The function codes that have a name of their own.
pub open spec fn is_named_code(c: u8) -> bool {
    c == 1 || c == 2 || c == 3 || c == 4 || c == 5 || c == 6 || c == 7 || c == 8 || c == 11 || c == 12 || c == 15 || c == 16 || c == 17 || c == 20 || c == 21 || c == 22 || c == 23 || c == 24
}

/// Distinct named function codes have distinct names.
pub proof fn lemma_names_distinct(a: u8, b: u8)
    requires
        is_named_code(a),
        is_named_code(b),
        a != b,
    ensures
        function_name_of(a) != function_name_of(b),
{
    reveal_strlit("Read Coils");
    reveal_strlit("Read Discrete Inputs");
    reveal_strlit("Read Holding Registers");
    reveal_strlit("Read Input Registers");
    reveal_strlit("Write Single Coil");
    reveal_strlit("Write Single Register");
    reveal_strlit("Read Exception Status");
    reveal_strlit("Diagnostics");
    reveal_strlit("Get Comm Event Counter");
    reveal_strlit("Get Comm Event Log");
    reveal_strlit("Write Multiple Coils");
    reveal_strlit("Write Multiple Registers");
    reveal_strlit("Report Server ID");
    reveal_strlit("Read File Record");
    reveal_strlit("Write File Record");
    reveal_strlit("Mask Write Register");
    reveal_strlit("Read Write Multiple Registers");
    reveal_strlit("Read FIFO Queue");
    let x = function_name_of(a);
    let y = function_name_of(b);
    if x == y {
        assert(x.len() == y.len());
        assert(x[0] == y[0]);
        assert(x[2] == y[2]);
        assert(x[5] == y[5]);
        assert(x[6] == y[6]);
        assert(false);
    }
}

} // verus!
