//! A CHIP-8 virtual machine core: the opcode decoder and disassembler, and
//! the engine that runs a loaded program one instruction at a time against
//! simulated memory, registers, stack, timers, keypad and display.
//!
//! The machine is driven from outside: the caller loads a program, sets the
//! keypad, steps the machine and ticks its delay timer at whatever pace it
//! likes, and reads the display back. Nothing here sleeps, draws or makes a
//! sound.
//!
//! Every operation is defined on every state. Where the classic semantics
//! are silent, the machine reports a fault and changes nothing:
//!
//! - a return on an empty call stack, or a seventeenth nested call;
//! - an instruction fetch, or a sprite, digit or register transfer, that
//!   reaches past the last byte of memory;
//! - a key test on a register value above fifteen.
//!
//! A program that does not fit between `0x200` and the end of memory is cut
//! off there when it is loaded.
//!
//! What the machine does is stated once, over a mathematical model
//! ([`chip8::Machine`]), and the executable machine ([`chip8::State`]) is
//! proved to do exactly that.

pub mod chip8;
pub mod ui;
