//! The register table: one row of name and value for each general register.

use vstd::prelude::*;
use vstd::string::*;

use crate::chip8::text::{hex, push_hex};
use crate::chip8::state::State;

verus! {

/// Number of rows in the table.
pub const ROW_COUNT: usize = 16;

/// The name of register `register`: `V` and its number as one upper-case
/// hexadecimal digit.
pub open spec fn register_name(register: int) -> Seq<char> {
    "V"@ + hex(register as nat, 1, true)
}

/// A register value as shown: `0x` and two upper-case hexadecimal digits.
pub open spec fn register_value(value: u8) -> Seq<char> {
    "0x"@ + hex(value as nat, 2, true)
}

/// The register view.
pub struct Registers {
    /// Whether the view is shown.
    pub open: bool,
}

impl Registers {
    /// A view that is not shown yet.
    pub fn new() -> (view: Self)
        ensures
            !view.open,
    {
        Self { open: false }
    }

    /// The two cells of row `register` of the table of `state`: the name of
    /// the register and its value. Nothing where there is no such register.
    pub fn row(&self, state: &State, register: usize) -> (cells: Option<(String, String)>)
        ensures
            cells is Some <==> register < ROW_COUNT,
            cells matches Some((name, value)) ==> {
                &&& name@ == register_name(register as int)
                &&& value@ == register_value(state@.v[register as int])
            },
    {
        if register >= ROW_COUNT {
            return None;
        }
        let v = state.registers();
        let mut name = String::from_str("V");
        push_hex(&mut name, register as u16, 1, true);
        let mut value = String::from_str("0x");
        push_hex(&mut value, v[register] as u16, 2, true);
        Some((name, value))
    }
}

} // verus!
