//! What the diagnostic views show: the text of the disassembly listing and
//! of the register table. Putting it on a screen is left to the caller.

pub mod disassembler;
pub mod registers;

pub use disassembler::Disassembler;
pub use registers::Registers;
