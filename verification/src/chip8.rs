//! The virtual machine: font table, instruction set and machine state.

pub mod font;
pub mod laws;
pub mod machine;
pub mod op;
pub mod screen;
pub mod state;
pub mod text;

pub use font::Font;
pub use machine::{ExecutionError, Machine, MachineFault};
pub use op::{DecodeError, Op};
pub use state::State;
