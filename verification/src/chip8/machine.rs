//! The mathematical model of the machine: what a state is, and what one
//! instruction makes of it.

use vstd::prelude::*;

use crate::chip8::font::{font_byte, FONT_BYTES};
use crate::chip8::op::{DecodeError, Op};
use crate::chip8::screen::{clear_screen, draw_sprite, SCREEN_START};

verus! {

/// Number of addressable bytes.
pub const MEMORY_SIZE: usize = 4096;

/// Address at which a program is loaded and starts to run.
pub const ROM_START: u16 = 0x200;

/// Address of the first font byte.
pub const FONT_START: u16 = 0x000;

/// Greatest number of return addresses on the call stack.
pub const STACK_DEPTH: usize = 16;

/// A condition that stops a step before it changes anything.
#[derive(Debug, Clone, Copy, PartialEq, Eq, Structural)]
pub enum MachineFault {
    /// A call with sixteen return addresses already on the stack.
    StackOverflow,
    /// A return with no return address on the stack.
    StackUnderflow,
    /// An instruction fetch or a memory operand that reaches past the last
    /// byte of memory.
    MemoryOutOfRange,
    /// A key test on a register value that names no key.
    KeyOutOfRange,
}

/// Why a step did not execute.
#[derive(Debug, Clone, Copy, PartialEq, Eq, Structural)]
pub enum ExecutionError {
    /// The two bytes at the program counter are no instruction.
    Decode(DecodeError),
    /// The instruction cannot be carried out on this state.
    Fault(MachineFault),
}

/// A machine state as a mathematical value.
#[verifier::ext_equal]
pub struct Machine {
    /// Whether a program has been loaded.
    pub rom_loaded: bool,
    /// The general registers `V0` to `VF`.
    pub v: Seq<u8>,
    /// The index register `I`.
    pub i: u16,
    /// The program counter.
    pub pc: u16,
    /// The delay timer.
    pub delay: u8,
    /// The sound timer.
    pub sound: u8,
    /// All of memory, font and framebuffer included.
    pub memory: Seq<u8>,
    /// The return addresses of the calls in progress, oldest first.
    pub stack: Seq<u16>,
    /// Which of the sixteen keys are held down.
    pub keyboard: Seq<bool>,
}

/// The lowest pressed key at or above `from`, if there is one.
pub open spec fn first_pressed(keyboard: Seq<bool>, from: int) -> Option<int>
    decreases keyboard.len() - from,
{
    if from < 0 || from >= keyboard.len() {
        None
    } else if keyboard[from] {
        Some(from)
    } else {
        first_pressed(keyboard, from + 1)
    }
}

/// The carry flag of the unsigned sum `a + b`: 1 where the sum does not fit
/// in eight bits, else 0.
pub open spec fn carry_flag(a: u8, b: u8) -> u8 {
    flag(a + b > 255)
}

/// The no-borrow flag of the unsigned difference `a - b`: 1 where nothing
/// had to be borrowed, 0 where `a < b`.
pub open spec fn no_borrow_flag(a: u8, b: u8) -> u8 {
    flag(a >= b)
}

/// `a + b` reduced to eight bits.
pub open spec fn sum8(a: u8, b: u8) -> u8 {
    ((a + b) % 256) as u8
}

/// `a - b` reduced to eight bits.
pub open spec fn difference8(a: u8, b: u8) -> u8 {
    ((a - b) % 256) as u8
}

/// `memory` with the first `count` bytes of the font table at its bottom.
pub open spec fn with_font(memory: Seq<u8>, count: int) -> Seq<u8> {
    Seq::new(
        memory.len(),
        |address: int|
            if address < count {
                font_byte(address)
            } else {
                memory[address]
            },
    )
}

/// `memory` with the first `count` bytes of `rom` from the start of the
/// program region on, as far as memory reaches.
pub open spec fn with_program(memory: Seq<u8>, rom: Seq<u8>, count: int) -> Seq<u8> {
    Seq::new(
        memory.len(),
        |address: int|
            if ROM_START <= address < ROM_START + count {
                rom[address - ROM_START]
            } else {
                memory[address]
            },
    )
}

/// `memory` with the three decimal digits of `value` at `index`, hundreds
/// first.
pub open spec fn with_digits(memory: Seq<u8>, index: int, value: u8) -> Seq<u8> {
    memory.update(index, value / 100).update(index + 1, (value / 10) % 10).update(
        index + 2,
        value % 10,
    )
}

/// `memory` with the first `count` registers of `v` at `index`.
pub open spec fn with_registers(memory: Seq<u8>, index: int, v: Seq<u8>, count: int) -> Seq<u8> {
    Seq::new(
        memory.len(),
        |address: int|
            if index <= address < index + count {
                v[address - index]
            } else {
                memory[address]
            },
    )
}

/// The registers `v` with the first `count` of them taken from `memory` at
/// `index`.
pub open spec fn registers_from(v: Seq<u8>, memory: Seq<u8>, index: int, count: int) -> Seq<u8> {
    Seq::new(
        v.len(),
        |r: int|
            if r < count {
                memory[index + r]
            } else {
                v[r]
            },
    )
}

/// A condition as a flag value: 1 where it holds, 0 where it does not.
pub open spec fn flag(condition: bool) -> u8 {
    if condition {
        1
    } else {
        0
    }
}

impl Machine {
    /// Every component has its fixed size, and the stack is within its
    /// depth.
    pub open spec fn wf(self) -> bool {
        &&& self.v.len() == 16
        &&& self.memory.len() == MEMORY_SIZE
        &&& self.stack.len() <= STACK_DEPTH
        &&& self.keyboard.len() == 16
    }

    /// The state of a machine that has just been switched on: everything
    /// zero, nothing loaded, the program counter at the start of the program
    /// region.
    pub open spec fn power_on() -> Machine {
        Machine {
            rom_loaded: false,
            v: Seq::new(16, |r: int| 0u8),
            i: 0,
            pc: ROM_START,
            delay: 0,
            sound: 0,
            memory: Seq::new(MEMORY_SIZE as nat, |address: int| 0u8),
            stack: Seq::empty(),
            keyboard: Seq::new(16, |key: int| false),
        }
    }

    /// The memory of a machine that has just loaded `rom`: the font at the
    /// bottom, the program from `0x200` on, cut off at the end of memory,
    /// and zero everywhere else.
    pub open spec fn loaded_memory(rom: Seq<u8>) -> Seq<u8> {
        with_program(with_font(Self::power_on().memory, FONT_BYTES as int), rom, rom.len() as int)
    }

    /// The state of a machine that has just loaded `rom`.
    pub open spec fn loaded(rom: Seq<u8>) -> Machine {
        Machine { rom_loaded: true, memory: Self::loaded_memory(rom), ..Self::power_on() }
    }

    /// The state one timer tick later: the delay timer counts down and stops
    /// at zero.
    pub open spec fn tick(self) -> Machine {
        Machine { delay: if self.delay > 0 { (self.delay - 1) as u8 } else { 0 }, ..self }
    }

    /// The instruction at the program counter.
    pub open spec fn fetch(self) -> Result<Op, ExecutionError> {
        if self.pc + 1 >= MEMORY_SIZE {
            Err(ExecutionError::Fault(MachineFault::MemoryOutOfRange))
        } else {
            match Op::decode(self.memory[self.pc as int], self.memory[self.pc + 1]) {
                Ok(op) => Ok(op),
                Err(error) => Err(ExecutionError::Decode(error)),
            }
        }
    }

    /// The state with the program counter moved on by `bytes`.
    pub open spec fn advance(self, bytes: int) -> Machine {
        Machine { pc: (self.pc + bytes) as u16, ..self }
    }

    /// The state with register `r` set to `value`.
    pub open spec fn set_register(self, r: u8, value: u8) -> Machine {
        Machine { v: self.v.update(r as int, value), ..self }
    }

    /// The state with register `r` set to `value` and then `VF` to `flag`:
    /// where `r` is `VF` itself, the flag is what stays.
    pub open spec fn set_register_and_flag(self, r: u8, value: u8, flag: u8) -> Machine {
        Machine { v: self.v.update(r as int, value).update(0xf, flag), ..self }
    }

    /// The state after a conditional skip: four bytes on where the condition
    /// holds, two where it does not.
    pub open spec fn skip_if(self, condition: bool) -> Machine {
        self.advance(
            if condition {
                4
            } else {
                2
            },
        )
    }

    /// The fault, if any, that keeps `op` from being carried out.
    pub open spec fn fault(self, op: Op) -> Option<MachineFault> {
        match op {
            Op::Rts => if self.stack.len() == 0 {
                Some(MachineFault::StackUnderflow)
            } else {
                None
            },
            Op::Call(_) => if self.stack.len() >= STACK_DEPTH {
                Some(MachineFault::StackOverflow)
            } else {
                None
            },
            Op::Draw { lit, .. } => if lit > 0 && self.i + lit > MEMORY_SIZE {
                Some(MachineFault::MemoryOutOfRange)
            } else {
                None
            },
            Op::SkipKey(v) | Op::SkipNoKey(v) => if self.v[v as int] >= 16 {
                Some(MachineFault::KeyOutOfRange)
            } else {
                None
            },
            Op::MovBcd(_) => if self.i + 2 >= MEMORY_SIZE {
                Some(MachineFault::MemoryOutOfRange)
            } else {
                None
            },
            Op::RegDump(v) | Op::RegLoad(v) => if self.i + v >= MEMORY_SIZE {
                Some(MachineFault::MemoryOutOfRange)
            } else {
                None
            },
            _ => None,
        }
    }

    /// Whether a step that finds `op` at the program counter looks at the
    /// byte at `address`: every step reads the two bytes of its instruction,
    /// a draw the rows of its sprite and the display, a register load the
    /// bytes at the index register that it names, and no other instruction
    /// reads memory.
    pub open spec fn may_read(self, op: Op, address: int) -> bool {
        ||| address == self.pc
        ||| address == self.pc + 1
        ||| match op {
            Op::Draw { lit, .. } => self.i <= address < self.i + lit || SCREEN_START
                <= address < MEMORY_SIZE,
            Op::RegLoad(v) => self.i <= address <= self.i + v,
            _ => false,
        }
    }

    /// Whether carrying out `op` may change the byte at `address`: the
    /// display instructions write to the framebuffer, the storing
    /// instructions to the bytes at the index register that they name, and
    /// no other instruction writes to memory.
    pub open spec fn may_write(self, op: Op, address: int) -> bool {
        match op {
            Op::Cls | Op::Draw { .. } => SCREEN_START <= address < MEMORY_SIZE,
            Op::MovBcd(_) => self.i <= address <= self.i + 2,
            Op::RegDump(v) => self.i <= address <= self.i + v,
            _ => false,
        }
    }

    /// The state that `op` leads to where no fault keeps it from being
    /// carried out. `random_byte` is the byte that the random source gives;
    /// only `Rand` looks at it.
    pub open spec fn apply(self, op: Op, random_byte: u8) -> Machine {
        match op {
            Op::Cls => Machine { memory: clear_screen(self.memory), ..self }.advance(2),
            Op::Rts => Machine { pc: self.stack.last(), stack: self.stack.drop_last(), ..self },
            Op::Jump(address) => Machine { pc: address, ..self },
            Op::Call(address) => Machine {
                pc: address,
                stack: self.stack.push((self.pc + 2) as u16),
                ..self
            },
            Op::SkipEqLit { v, lit } => self.skip_if(self.v[v as int] == lit),
            Op::SkipNeLit { v, lit } => self.skip_if(self.v[v as int] != lit),
            Op::SkipEq { v, v2 } => self.skip_if(self.v[v as int] == self.v[v2 as int]),
            Op::MviLit { v, lit } => self.set_register(v, lit).advance(2),
            Op::AdiLit { v, lit } => self.set_register(v, sum8(self.v[v as int], lit)).advance(2),
            Op::Mov { v, v2 } => self.set_register(v, self.v[v2 as int]).advance(2),
            Op::Or { v, v2 } => self.set_register(v, self.v[v as int] | self.v[v2 as int]).advance(
                2,
            ),
            Op::And { v, v2 } => self.set_register(
                v,
                self.v[v as int] & self.v[v2 as int],
            ).advance(2),
            Op::Xor { v, v2 } => self.set_register(
                v,
                self.v[v as int] ^ self.v[v2 as int],
            ).advance(2),
            Op::Add { v, v2 } => {
                let a = self.v[v as int];
                let b = self.v[v2 as int];
                self.set_register_and_flag(v, sum8(a, b), carry_flag(a, b)).advance(2)
            },
            Op::Sub { v, v2 } => {
                let a = self.v[v as int];
                let b = self.v[v2 as int];
                self.set_register_and_flag(v, difference8(a, b), no_borrow_flag(a, b)).advance(2)
            },
            Op::Shr(v) => {
                let a = self.v[v as int];
                self.set_register_and_flag(v, a / 2, a % 2).advance(2)
            },
            Op::Subb { v, v2 } => {
                let a = self.v[v as int];
                let b = self.v[v2 as int];
                self.set_register_and_flag(v, difference8(b, a), no_borrow_flag(b, a)).advance(2)
            },
            Op::Shl(v) => {
                let a = self.v[v as int];
                self.set_register_and_flag(v, ((a * 2) % 256) as u8, a / 128).advance(2)
            },
            Op::SkipNe { v, v2 } => self.skip_if(self.v[v as int] != self.v[v2 as int]),
            Op::SetI(address) => Machine { i: address, ..self }.advance(2),
            Op::JumpPlusV0(address) => Machine { pc: (address + self.v[0]) as u16, ..self },
            Op::Rand { v, lit } => self.set_register(v, lit & random_byte).advance(2),
            Op::Draw { v, v2, lit } => {
                let drawn = draw_sprite(
                    self.memory,
                    self.i as int,
                    self.v[v as int] as int,
                    self.v[v2 as int] as int,
                    lit as nat,
                );
                Machine { memory: drawn.0, ..self }.set_register(0xf, flag(drawn.1)).advance(2)
            },
            Op::SkipKey(v) => self.skip_if(self.keyboard[self.v[v as int] as int]),
            Op::SkipNoKey(v) => self.skip_if(!self.keyboard[self.v[v as int] as int]),
            Op::GetDelay(v) => self.set_register(v, self.delay).advance(2),
            Op::GetKey(v) => match first_pressed(self.keyboard, 0) {
                Some(key) => self.set_register(v, key as u8).advance(2),
                None => self,
            },
            Op::Delay(v) => Machine { delay: self.v[v as int], ..self }.advance(2),
            Op::Sound(v) => Machine { sound: self.v[v as int], ..self }.advance(2),
            Op::AddI(v) => Machine {
                i: ((self.i + self.v[v as int]) % 0x10000) as u16,
                ..self
            }.advance(2),
            Op::SpriteChar(v) => Machine {
                i: (FONT_START + self.v[v as int] * 5) as u16,
                ..self
            }.advance(2),
            Op::MovBcd(v) => Machine {
                memory: with_digits(self.memory, self.i as int, self.v[v as int]),
                ..self
            }.advance(2),
            Op::RegDump(v) => Machine {
                memory: with_registers(self.memory, self.i as int, self.v, v + 1),
                ..self
            }.advance(2),
            Op::RegLoad(v) => Machine {
                v: registers_from(self.v, self.memory, self.i as int, v + 1),
                ..self
            }.advance(2),
        }
    }

    /// What carrying out `op` makes of the state, and what it reports: the
    /// fault and the state untouched where there is one, the next state
    /// where there is none.
    pub open spec fn execute(self, op: Op, random_byte: u8) -> (
        Machine,
        Result<(), ExecutionError>,
    ) {
        match self.fault(op) {
            Some(fault) => (self, Err(ExecutionError::Fault(fault))),
            None => (self.apply(op, random_byte), Ok(())),
        }
    }

    /// What one step makes of the state, and what it reports: the
    /// instruction at the program counter is fetched, decoded and carried
    /// out. A step that reports an error leaves the state as it was.
    pub open spec fn step(self, random_byte: u8) -> (Machine, Result<(), ExecutionError>) {
        match self.fetch() {
            Ok(op) => self.execute(op, random_byte),
            Err(error) => (self, Err(error)),
        }
    }

    /// The state after one step for each byte of `random_bytes`, the `k`-th
    /// step drawing the `k`-th byte. A step that reports an error leaves the
    /// state as it was.
    pub open spec fn run(self, random_bytes: Seq<u8>) -> Machine
        decreases random_bytes.len(),
    {
        if random_bytes.len() == 0 {
            self
        } else {
            self.run(random_bytes.drop_last()).step(random_bytes.last()).0
        }
    }
}

} // verus!
