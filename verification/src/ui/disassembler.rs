//! The disassembly listing: one line for every two bytes of memory from the
//! start of the program region on.

use vstd::prelude::*;
use vstd::string::*;

use crate::chip8::op::Op;
use crate::chip8::text::{hex, left_aligned, push_hex};
use crate::chip8::state::State;

verus! {

/// Address of the instruction on the first line of the listing.
pub const FIRST_ADDRESS: usize = 0x200;

/// Number of lines in the listing.
pub const LINE_COUNT: usize = 1792;

/// How a line of the listing stands out.
#[derive(Debug, Clone, Copy, PartialEq, Eq, Structural)]
pub enum Emphasis {
    /// Two zero bytes: shown greyed out.
    Dimmed,
    /// The line at the program counter.
    Highlighted,
    /// Any other line.
    Plain,
}

/// One line of the listing.
#[derive(Debug)]
pub struct Line {
    /// The address and the two bytes in hexadecimal, as in `0200: a123 `.
    pub label: String,
    /// The mnemonic column; empty where the bytes are no instruction.
    pub instruction: String,
    /// The operand column; empty where the bytes are no instruction.
    pub args: String,
    /// How the line is shown.
    pub emphasis: Emphasis,
}

/// The address of the instruction on line `row`.
pub open spec fn line_address(row: int) -> int {
    FIRST_ADDRESS + 2 * row
}

/// The label of a line: the address in four hexadecimal digits, a colon and
/// a space, the two bytes in two digits each, and a space.
pub open spec fn line_label(address: int, byte1: u8, byte2: u8) -> Seq<char> {
    hex(address as nat, 4, false) + ": "@ + hex(byte1 as nat, 2, false) + hex(
        byte2 as nat,
        2,
        false,
    ) + " "@
}

/// The mnemonic column for two bytes.
pub open spec fn line_instruction(byte1: u8, byte2: u8) -> Seq<char> {
    match Op::decode(byte1, byte2) {
        Ok(op) => left_aligned(op.mnemonic(), 10) + seq![' '],
        Err(_) => Seq::empty(),
    }
}

/// The operand column for two bytes.
pub open spec fn line_args(byte1: u8, byte2: u8) -> Seq<char> {
    match Op::decode(byte1, byte2) {
        Ok(op) => op.operands(),
        Err(_) => Seq::empty(),
    }
}

/// How a line is shown: zero bytes are dimmed, whether or not the program
/// counter is there; of the others, the one at the program counter is
/// highlighted.
pub open spec fn line_emphasis(byte1: u8, byte2: u8, at_pc: bool) -> Emphasis {
    if byte1 == 0 && byte2 == 0 {
        Emphasis::Dimmed
    } else if at_pc {
        Emphasis::Highlighted
    } else {
        Emphasis::Plain
    }
}

/// The disassembly view.
pub struct Disassembler {
    /// Whether the view is shown.
    pub open: bool,
}

impl Disassembler {
    /// A view that is not shown yet.
    pub fn new() -> (view: Self)
        ensures
            !view.open,
    {
        Self { open: false }
    }

    /// Line `row` of the listing of `state`, or nothing where the listing
    /// has no such line.
    pub fn line(&self, state: &State, row: usize) -> (line: Option<Line>)
        ensures
            line is Some <==> row < LINE_COUNT,
            line matches Some(l) ==> {
                let address = line_address(row as int);
                let byte1 = state@.memory[address];
                let byte2 = state@.memory[address + 1];
                &&& l.label@ == line_label(address, byte1, byte2)
                &&& l.instruction@ == line_instruction(byte1, byte2)
                &&& l.args@ == line_args(byte1, byte2)
                &&& l.emphasis == line_emphasis(byte1, byte2, state@.pc == address)
            },
    {
        if row >= LINE_COUNT {
            return None;
        }
        let list_pc: usize = FIRST_ADDRESS + row * 2;
        let memory = state.memory();
        let byte1: u8 = memory[list_pc];
        let byte2: u8 = memory[list_pc + 1];
        let highlighted = state.pc() as usize == list_pc;

        let (instruction, args) = match Op::new(byte1, byte2) {
            Ok(op) => op.disassemble(),
            Err(_) => (String::new(), String::new()),
        };
        // if both are zeros, the line is greyed out
        let emphasis = if byte1 == 0 && byte2 == 0 {
            Emphasis::Dimmed
        } else if highlighted {
            Emphasis::Highlighted
        } else {
            Emphasis::Plain
        };

        let mut label = String::new();
        push_hex(&mut label, list_pc as u16, 4, false);
        label.append(": ");
        push_hex(&mut label, byte1 as u16, 2, false);
        push_hex(&mut label, byte2 as u16, 2, false);
        label.append(" ");
        Some(Line { label, instruction, args, emphasis })
    }
}

} // verus!
