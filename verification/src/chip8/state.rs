//! The machine itself: registers, memory, stack, timers and keypad, and the
//! operations that load a program and run it one instruction at a time.

use vstd::prelude::*;
use vstd::slice::slice_subrange;

use crate::chip8::font::{font_byte, glyph, Font, FONT_BYTES};
use crate::chip8::machine::{
    difference8, first_pressed, flag, registers_from, sum8, with_digits, with_font,
    with_program, with_registers, ExecutionError, Machine, MachineFault, FONT_START,
    MEMORY_SIZE, ROM_START, STACK_DEPTH,
};
use crate::chip8::op::Op;
use crate::chip8::screen::{
    clear_screen, draw_row, draw_sprite, grayscale, xor_pixel, zeroed, HEIGHT, SCREEN_START,
    WIDTH,
};

verus! {

/// A CHIP-8 machine.
pub struct State {
    rom_loaded: bool,
    v: [u8; 16],
    i: u16,
    sp: u8,
    pc: u16,
    delay: u8,
    sound: u8,
    memory: [u8; 4096],
    stack: [u16; 16],
    keyboard: [bool; 16],
}

impl View for State {
    type V = Machine;

    /// The machine as a mathematical value. Of the stack, only the entries
    /// below the stack pointer count.
    closed spec fn view(&self) -> Machine {
        Machine {
            rom_loaded: self.rom_loaded,
            v: self.v@,
            i: self.i,
            pc: self.pc,
            delay: self.delay,
            sound: self.sound,
            memory: self.memory@,
            stack: self.stack@.take(self.sp as int),
            keyboard: self.keyboard@,
        }
    }
}

impl State {
    /// The stack pointer never leaves the stack.
    #[verifier::type_invariant]
    spec fn stack_pointer_in_range(self) -> bool {
        self.sp <= 16
    }

    /// A machine that has just been switched on.
    pub fn new() -> (state: Self)
        ensures
            state@ == Machine::power_on(),
            state@.wf(),
    {
        let state = State {
            rom_loaded: false,
            v: [0x00;16],
            i: 0x00,
            sp: 0x00,
            pc: ROM_START,
            delay: 0x00,
            sound: 0x00,
            memory: [0x00;4096],
            stack: [0x00;16],
            keyboard: [false;16],
        };
        state
    }

    /// Copies the font table to the bottom of memory.
    fn load_font(&mut self, font: Font)
        requires
            forall|digit: int| 0 <= digit < 16 ==> #[trigger] font.rows(digit) == glyph(digit),
        ensures
            final(self)@ == (Machine {
                memory: with_font(old(self)@.memory, FONT_BYTES as int),
                ..old(self)@
            }),
    {
        let ghost before = self@;
        let mut mem_index: usize = FONT_START as usize;
        let mut digit: usize = 0;
        while digit < 16
            invariant
                digit <= 16,
                mem_index == 5 * digit,
                forall|d: int| 0 <= d < 16 ==> #[trigger] font.rows(d) == glyph(d),
                self@ == (Machine { memory: with_font(before.memory, mem_index as int), ..before }),
            decreases 16 - digit,
        {
            let mut line: usize = 0;
            while line < 5
                invariant
                    digit < 16,
                    line <= 5,
                    mem_index == 5 * digit + line,
                    forall|d: int| 0 <= d < 16 ==> #[trigger] font.rows(d) == glyph(d),
                    self@ == (Machine {
                        memory: with_font(before.memory, mem_index as int),
                        ..before
                    }),
                decreases 5 - line,
            {
                proof {
                    use_type_invariant(&*self);
                }
                let row: u8 = font.0[digit][line];
                assert(row == font_byte(mem_index as int)) by {
                    assert(font.rows(digit as int) == glyph(digit as int));
                }
                self.memory[mem_index] = row;
                mem_index += 1;
                line += 1;
            }
            digit += 1;
        }
    }

    /// Resets the machine and loads a program.
    ///
    /// Everything is cleared, the font is put back at the bottom of memory,
    /// and `rom` is copied to memory from address `0x200` on. A program
    /// longer than the 3584 bytes between `0x200` and the end of memory is
    /// cut off there.
    pub fn load_rom(&mut self, rom: &[u8])
        ensures
            final(self)@ == Machine::loaded(rom@),
            final(self)@.wf(),
    {
        proof {
            use_type_invariant(&*self);
        }
        *self = Self::new();
        self.load_font(Font::new());

        let ghost start = self@;
        let room: usize = MEMORY_SIZE - ROM_START as usize;
        let count: usize = if rom.len() < room { rom.len() } else { room };
        let mut i: usize = 0;
        while i < count
            invariant
                i <= count <= rom@.len(),
                count <= MEMORY_SIZE - ROM_START,
                self@ == (Machine { memory: with_program(start.memory, rom@, i as int), ..start }),
            decreases count - i,
        {
            proof {
                use_type_invariant(&*self);
            }
            self.memory[ROM_START as usize + i] = rom[i];
            i += 1;
        }
        proof {
            use_type_invariant(&*self);
        }
        self.rom_loaded = true;
    }

    /// Executes one instruction.
    ///
    /// The two bytes at the program counter are decoded and carried out.
    /// Where they are no instruction, or where the instruction would leave
    /// memory, the stack or the keypad, the error says so and the machine
    /// is left as it was.
    ///
    /// A random-number instruction draws its byte from the random source;
    /// every other instruction does what [`State::emulate_with`] does with
    /// any byte.
    pub fn emulate(&mut self) -> (result: Result<(), ExecutionError>)
        ensures
            exists|random_byte: u8|
                (final(self)@, result) == #[trigger] old(self)@.step(random_byte),
            !(old(self)@.fetch() matches Ok(Op::Rand { .. })) ==> (final(self)@, result) == old(
                self,
            )@.step(0),
            final(self)@.wf(),
    {
        proof {
            use_type_invariant(&*self);
        }
        match self.fetch() {
            Ok(op) => {
                let drawn: u8 = match op {
                    Op::Rand { .. } => random_byte(),
                    _ => 0,
                };
                let result = self.execute(op, drawn);
                proof {
                    use_type_invariant(&*self);
                    assert((self@, result) == old(self)@.step(drawn));
                }
                result
            },
            Err(error) => {
                assert((self@, Err::<(), ExecutionError>(error)) == old(self)@.step(0));
                Err(error)
            },
        }
    }

    /// Executes one instruction, with `random_byte` standing in for the
    /// byte that a random-number instruction would draw.
    ///
    /// The two bytes at the program counter are decoded and carried out.
    /// Where they are no instruction, or where the instruction would leave
    /// memory, the stack or the keypad, the error says so and the machine
    /// is left as it was.
    pub fn emulate_with(&mut self, random_byte: u8) -> (result: Result<(), ExecutionError>)
        ensures
            (final(self)@, result) == old(self)@.step(random_byte),
            final(self)@.wf(),
    {
        let result = match self.fetch() {
            Ok(op) => self.execute(op, random_byte),
            Err(error) => Err(error),
        };
        proof {
            use_type_invariant(&*self);
        }
        result
    }

    /// Counts the delay timer down by one, stopping at zero.
    pub fn tick_delay_timer(&mut self)
        ensures
            final(self)@ == old(self)@.tick(),
            final(self)@.wf(),
    {
        proof {
            use_type_invariant(&*self);
        }
        self.delay = self.delay.saturating_sub(1);
    }

    /// Replaces the state of all sixteen keys.
    pub fn set_keypad(&mut self, keys: [bool; 16])
        ensures
            final(self)@ == (Machine { keyboard: keys@, ..old(self)@ }),
            final(self)@.wf(),
    {
        proof {
            use_type_invariant(&*self);
        }
        self.keyboard = keys;
    }

    /// The program counter.
    pub fn pc(&self) -> (pc: u16)
        ensures
            pc == self@.pc,
    {
        self.pc
    }

    /// The index register `I`.
    pub fn i(&self) -> (i: u16)
        ensures
            i == self@.i,
    {
        self.i
    }

    /// The general registers `V0` to `VF`.
    pub fn registers(&self) -> (v: &[u8; 16])
        ensures
            v@ == self@.v,
    {
        &self.v
    }

    /// All of memory.
    pub fn memory(&self) -> (memory: &[u8; 4096])
        ensures
            memory@ == self@.memory,
    {
        &self.memory
    }

    /// The framebuffer: the last 256 bytes of memory, eight pixels to the
    /// byte, row by row, the leftmost pixel in the most significant bit.
    pub fn framebuffer(&self) -> (bytes: &[u8])
        ensures
            bytes@ == self@.memory.subrange(SCREEN_START as int, MEMORY_SIZE as int),
    {
        slice_subrange(self.memory.as_slice(), SCREEN_START, MEMORY_SIZE)
    }

    /// The display as one byte per pixel, row by row from the top left:
    /// `0xff` for a lit pixel, `0x00` for a dark one.
    pub fn frame_grayscale(&self) -> (frame: Vec<u8>)
        ensures
            frame@ == grayscale(self@.memory),
    {
        let mut frame: Vec<u8> = Vec::new();
        let mut i: usize = 0;
        while i < WIDTH * HEIGHT
            invariant
                i <= WIDTH * HEIGHT,
                frame@ == grayscale(self@.memory).take(i as int),
            decreases WIDTH * HEIGHT - i,
        {
            let byte: usize = SCREEN_START + i / 8;
            let bit_offset: usize = i % 8;
            let screen_bit: u8 = self.memory[byte] & (0b1000_0000u8 >> (bit_offset as u8));

            if screen_bit != 0 {
                // draw white
                frame.push(0xff);
            } else {
                // draw black
                frame.push(0x00);
            }
            i += 1;
        }
        frame
    }

    /// The number of return addresses on the call stack, at most sixteen.
    pub fn sp(&self) -> (sp: u8)
        ensures
            sp == self@.stack.len(),
            sp <= STACK_DEPTH,
    {
        proof {
            use_type_invariant(self);
        }
        self.sp
    }

    /// The return addresses on the call stack, oldest first.
    pub fn stack(&self) -> (stack: Vec<u16>)
        ensures
            stack@ == self@.stack,
    {
        proof {
            use_type_invariant(self);
        }
        let mut stack: Vec<u16> = Vec::new();
        let mut depth: u8 = 0;
        while depth < self.sp
            invariant
                depth <= self.sp <= 16,
                stack@ == self.stack@.take(depth as int),
            decreases self.sp - depth,
        {
            stack.push(self.stack[depth as usize]);
            depth += 1;
        }
        stack
    }

    /// The delay timer.
    pub fn delay(&self) -> (delay: u8)
        ensures
            delay == self@.delay,
    {
        self.delay
    }

    /// The sound timer.
    pub fn sound(&self) -> (sound: u8)
        ensures
            sound == self@.sound,
    {
        self.sound
    }

    /// Which of the sixteen keys are held down.
    pub fn keyboard(&self) -> (keys: &[bool; 16])
        ensures
            keys@ == self@.keyboard,
    {
        &self.keyboard
    }

    /// Whether a program has been loaded.
    pub fn rom_loaded(&self) -> (loaded: bool)
        ensures
            loaded == self@.rom_loaded,
    {
        self.rom_loaded
    }

    /// The instruction at the program counter.
    fn fetch(&self) -> (fetched: Result<Op, ExecutionError>)
        ensures
            fetched == self@.fetch(),
            fetched matches Ok(op) ==> op.wf(),
    {
        if self.pc as usize + 1 >= MEMORY_SIZE {
            return Err(ExecutionError::Fault(MachineFault::MemoryOutOfRange));
        }
        let op_byte1: u8 = self.memory[self.pc as usize];
        let op_byte2: u8 = self.memory[self.pc as usize + 1];
        match Op::new(op_byte1, op_byte2) {
            Ok(op) => Ok(op),
            Err(error) => Err(ExecutionError::Decode(error)),
        }
    }

    /// Carries out one decoded instruction.
    fn execute(&mut self, op: Op, random_byte: u8) -> (result: Result<(), ExecutionError>)
        requires
            op.wf(),
            old(self)@.pc + 1 < MEMORY_SIZE,
        ensures
            (final(self)@, result) == old(self)@.execute(op, random_byte),
    {
        match op {
            Op::Rts
            | Op::Jump(_)
            | Op::Call(_)
            | Op::SkipEqLit { .. }
            | Op::SkipNeLit { .. }
            | Op::SkipEq { .. }
            | Op::SkipNe { .. }
            | Op::JumpPlusV0(_) => self.execute_control(op),
            Op::MviLit { .. }
            | Op::AdiLit { .. }
            | Op::Mov { .. }
            | Op::Or { .. }
            | Op::And { .. }
            | Op::Xor { .. }
            | Op::Add { .. }
            | Op::Sub { .. }
            | Op::Shr(_)
            | Op::Subb { .. }
            | Op::Shl(_)
            | Op::Rand { .. } => self.execute_arithmetic(op, random_byte),
            Op::Cls
            | Op::SetI(_)
            | Op::Draw { .. }
            | Op::AddI(_)
            | Op::SpriteChar(_)
            | Op::MovBcd(_)
            | Op::RegDump(_)
            | Op::RegLoad(_) => self.execute_memory(op),
            Op::SkipKey(_)
            | Op::SkipNoKey(_)
            | Op::GetDelay(_)
            | Op::GetKey(_)
            | Op::Delay(_)
            | Op::Sound(_) => self.execute_input(op),
        }
    }

    /// Carries out a jump, call, return or comparing skip.
    fn execute_control(&mut self, op: Op) -> (result: Result<(), ExecutionError>)
        requires
            op.wf(),
            op.is_control(),
            old(self)@.pc + 1 < MEMORY_SIZE,
        ensures
            (final(self)@, result) == old(self)@.execute(op, 0),
    {
        match op {
            Op::Rts => {
                return self.pop_pc();
            },
            Op::Jump(address) => {
                self.jump(address);
            },
            Op::Call(address) => {
                return self.call(address);
            },
            Op::SkipEqLit { v, lit } => {
                let taken = self.v[v as usize] == lit;
                self.skip_if(taken);
            },
            Op::SkipNeLit { v, lit } => {
                let taken = self.v[v as usize] != lit;
                self.skip_if(taken);
            },
            Op::SkipEq { v, v2 } => {
                let taken = self.v[v as usize] == self.v[v2 as usize];
                self.skip_if(taken);
            },
            Op::SkipNe { v, v2 } => {
                let taken = self.v[v as usize] != self.v[v2 as usize];
                self.skip_if(taken);
            },
            Op::JumpPlusV0(address) => {
                let offset: u16 = self.v[0x0] as u16;
                self.jump(address + offset);
            },
            // no other instruction belongs to this family
            _ => {},
        }
        Ok(())
    }

    /// Carries out an instruction that computes a register.
    fn execute_arithmetic(&mut self, op: Op, random_byte: u8) -> (result: Result<
        (),
        ExecutionError,
    >)
        requires
            op.wf(),
            op.is_arithmetic(),
            old(self)@.pc + 1 < MEMORY_SIZE,
        ensures
            (final(self)@, result) == old(self)@.execute(op, random_byte),
    {
        match op {
            Op::MviLit { v, lit } => {
                self.set_register(v, lit);
            },
            Op::AdiLit { v, lit } => {
                let value: u8 = self.v[v as usize];
                let (result, _) = overflowing_add(value, lit);
                self.set_register(v, result);
            },
            Op::Mov { v, v2 } => {
                let value2: u8 = self.v[v2 as usize];
                self.set_register(v, value2);
            },
            Op::Or { v, v2 } => {
                let value: u8 = self.v[v as usize];
                let value2: u8 = self.v[v2 as usize];
                self.set_register(v, value | value2);
            },
            Op::And { v, v2 } => {
                let value: u8 = self.v[v as usize];
                let value2: u8 = self.v[v2 as usize];
                self.set_register(v, value & value2);
            },
            Op::Xor { v, v2 } => {
                let value: u8 = self.v[v as usize];
                let value2: u8 = self.v[v2 as usize];
                self.set_register(v, value ^ value2);
            },
            Op::Add { v, v2 } => {
                let value: u8 = self.v[v as usize];
                let value2: u8 = self.v[v2 as usize];
                let (result, overflow) = overflowing_add(value, value2);
                self.set_register_and_flag(v, result, flag_of(overflow));
            },
            Op::Sub { v, v2 } => {
                let value: u8 = self.v[v as usize];
                let value2: u8 = self.v[v2 as usize];
                let (result, underflow) = overflowing_sub(value, value2);
                self.set_register_and_flag(v, result, flag_of(!underflow));
            },
            Op::Shr(v) => {
                let value: u8 = self.v[v as usize];
                let (result, out) = shift_right(value);
                self.set_register_and_flag(v, result, out);
            },
            Op::Subb { v, v2 } => {
                let value: u8 = self.v[v as usize];
                let value2: u8 = self.v[v2 as usize];
                let (result, underflow) = overflowing_sub(value2, value);
                self.set_register_and_flag(v, result, flag_of(!underflow));
            },
            Op::Shl(v) => {
                let value: u8 = self.v[v as usize];
                let (result, out) = shift_left(value);
                self.set_register_and_flag(v, result, out);
            },
            Op::Rand { v, lit } => {
                self.set_register(v, lit & random_byte);
            },
            // no other instruction belongs to this family
            _ => {},
        }
        self.advance(2);
        Ok(())
    }

    /// Carries out an instruction on memory, the display or the index
    /// register.
    fn execute_memory(&mut self, op: Op) -> (result: Result<(), ExecutionError>)
        requires
            op.wf(),
            op.is_memory(),
            old(self)@.pc + 1 < MEMORY_SIZE,
        ensures
            (final(self)@, result) == old(self)@.execute(op, 0),
    {
        match op {
            Op::Cls => {
                self.clear();
            },
            Op::SetI(address) => {
                self.set_index(address);
            },
            Op::Draw { v, v2, lit } => {
                if lit > 0 && self.i as usize + lit as usize > MEMORY_SIZE {
                    return Err(ExecutionError::Fault(MachineFault::MemoryOutOfRange));
                }
                let x: u8 = self.v[v as usize];
                let y: u8 = self.v[v2 as usize];
                let flipped = self.draw(x, y, lit);
                self.set_register(0xF, flag_of(flipped));
            },
            Op::AddI(v) => {
                let value: u16 = self.v[v as usize] as u16;
                self.set_index(self.i.wrapping_add(value));
            },
            Op::SpriteChar(v) => {
                // every glyph takes five bytes
                self.set_index(FONT_START + (self.v[v as usize] as u16) * 5);
            },
            Op::MovBcd(v) => {
                if self.i as usize + 2 >= MEMORY_SIZE {
                    return Err(ExecutionError::Fault(MachineFault::MemoryOutOfRange));
                }
                self.store_bcd(self.v[v as usize]);
            },
            Op::RegDump(vx) => {
                if self.i as usize + vx as usize >= MEMORY_SIZE {
                    return Err(ExecutionError::Fault(MachineFault::MemoryOutOfRange));
                }
                self.dump_registers(vx);
            },
            Op::RegLoad(vx) => {
                if self.i as usize + vx as usize >= MEMORY_SIZE {
                    return Err(ExecutionError::Fault(MachineFault::MemoryOutOfRange));
                }
                self.load_registers(vx);
            },
            // no other instruction belongs to this family
            _ => {},
        }
        self.advance(2);
        Ok(())
    }

    /// Carries out an instruction on the keypad or the timers.
    fn execute_input(&mut self, op: Op) -> (result: Result<(), ExecutionError>)
        requires
            op.wf(),
            op.is_input(),
            old(self)@.pc + 1 < MEMORY_SIZE,
        ensures
            (final(self)@, result) == old(self)@.execute(op, 0),
    {
        match op {
            Op::SkipKey(v) => {
                let key: u8 = self.v[v as usize];
                if key >= 16 {
                    return Err(ExecutionError::Fault(MachineFault::KeyOutOfRange));
                }
                let taken = self.keyboard[key as usize];
                self.skip_if(taken);
            },
            Op::SkipNoKey(v) => {
                let key: u8 = self.v[v as usize];
                if key >= 16 {
                    return Err(ExecutionError::Fault(MachineFault::KeyOutOfRange));
                }
                let taken = !self.keyboard[key as usize];
                self.skip_if(taken);
            },
            Op::GetDelay(v) => {
                let delay: u8 = self.delay;
                self.set_register(v, delay);
                self.advance(2);
            },
            Op::GetKey(v) => {
                // with no key down the instruction is run again next time
                match self.pressed_key() {
                    Some(key) => {
                        self.set_register(v, key);
                        self.advance(2);
                    },
                    None => {},
                }
            },
            Op::Delay(v) => {
                self.set_delay(self.v[v as usize]);
                self.advance(2);
            },
            Op::Sound(v) => {
                self.set_sound(self.v[v as usize]);
                self.advance(2);
            },
            // no other instruction belongs to this family
            _ => {},
        }
        Ok(())
    }

    /// Moves the program counter on by `bytes`.
    fn advance(&mut self, bytes: u16)
        requires
            old(self)@.pc + bytes <= u16::MAX,
        ensures
            final(self)@ == old(self)@.advance(bytes as int),
    {
        proof {
            use_type_invariant(&*self);
        }
        self.pc = self.pc + bytes;
    }

    /// Moves the program counter past the next instruction where `taken`
    /// holds, and to it where it does not.
    fn skip_if(&mut self, taken: bool)
        requires
            old(self)@.pc + 4 <= u16::MAX,
        ensures
            final(self)@ == old(self)@.skip_if(taken),
    {
        if taken {
            self.advance(2);
        }
        self.advance(2);
    }

    /// Sets the program counter.
    fn jump(&mut self, address: u16)
        ensures
            final(self)@ == (Machine { pc: address, ..old(self)@ }),
    {
        proof {
            use_type_invariant(&*self);
        }
        self.pc = address;
    }

    /// Pushes the address of the next instruction and jumps to `address`.
    fn call(&mut self, address: u16) -> (result: Result<(), ExecutionError>)
        requires
            old(self)@.pc + 2 <= u16::MAX,
        ensures
            (final(self)@, result) == old(self)@.execute(Op::Call(address), 0),
    {
        proof {
            use_type_invariant(&*self);
        }
        if self.sp as usize >= STACK_DEPTH {
            return Err(ExecutionError::Fault(MachineFault::StackOverflow));
        }
        self.stack[self.sp as usize] = self.pc + 2;
        self.sp = self.sp + 1;
        self.pc = address;
        Ok(())
    }

    /// Pops the newest return address into the program counter.
    fn pop_pc(&mut self) -> (result: Result<(), ExecutionError>)
        ensures
            (final(self)@, result) == old(self)@.execute(Op::Rts, 0),
    {
        proof {
            use_type_invariant(&*self);
        }
        if self.sp == 0 {
            return Err(ExecutionError::Fault(MachineFault::StackUnderflow));
        }
        self.sp = self.sp - 1;
        self.pc = self.stack[self.sp as usize];
        Ok(())
    }

    /// Sets register `r`.
    fn set_register(&mut self, r: u8, value: u8)
        requires
            r < 16,
        ensures
            final(self)@ == old(self)@.set_register(r, value),
    {
        proof {
            use_type_invariant(&*self);
        }
        self.v[r as usize] = value;
    }

    /// Sets register `r`, and then the flag register.
    fn set_register_and_flag(&mut self, r: u8, value: u8, flag: u8)
        requires
            r < 16,
        ensures
            final(self)@ == old(self)@.set_register_and_flag(r, value, flag),
    {
        proof {
            use_type_invariant(&*self);
        }
        self.v[r as usize] = value;
        self.v[0xF] = flag;
    }

    /// Sets the index register.
    fn set_index(&mut self, address: u16)
        ensures
            final(self)@ == (Machine { i: address, ..old(self)@ }),
    {
        proof {
            use_type_invariant(&*self);
        }
        self.i = address;
    }

    /// Sets the delay timer.
    fn set_delay(&mut self, value: u8)
        ensures
            final(self)@ == (Machine { delay: value, ..old(self)@ }),
    {
        proof {
            use_type_invariant(&*self);
        }
        self.delay = value;
    }

    /// Sets the sound timer.
    fn set_sound(&mut self, value: u8)
        ensures
            final(self)@ == (Machine { sound: value, ..old(self)@ }),
    {
        proof {
            use_type_invariant(&*self);
        }
        self.sound = value;
    }

    /// The lowest key that is held down, if any is.
    fn pressed_key(&self) -> (key: Option<u8>)
        ensures
            match first_pressed(self@.keyboard, 0) {
                Some(lowest) => key == Some(lowest as u8) && 0 <= lowest < 16,
                None => key is None,
            },
    {
        let mut key: u8 = 0;
        while key < 16
            invariant
                key <= 16,
                first_pressed(self@.keyboard, 0) == first_pressed(self@.keyboard, key as int),
            decreases 16 - key,
        {
            if self.keyboard[key as usize] {
                return Some(key);
            }
            key += 1;
        }
        None
    }

    /// Writes the three decimal digits of `value` to memory at the index
    /// register, hundreds first.
    fn store_bcd(&mut self, value: u8)
        requires
            old(self)@.i + 2 < MEMORY_SIZE,
        ensures
            final(self)@ == (Machine {
                memory: with_digits(old(self)@.memory, old(self)@.i as int, value),
                ..old(self)@
            }),
    {
        proof {
            use_type_invariant(&*self);
        }
        let ones: u8 = value % 10;
        let tens: u8 = value / 10 % 10;
        let hundreds: u8 = value / 10 / 10 % 10;

        self.memory[self.i as usize] = hundreds;
        self.memory[self.i as usize + 1] = tens;
        self.memory[self.i as usize + 2] = ones;
    }

    /// Copies the registers `V0` to `V[last]` to memory at the index
    /// register.
    fn dump_registers(&mut self, last: u8)
        requires
            last < 16,
            old(self)@.i + last < MEMORY_SIZE,
        ensures
            final(self)@ == (Machine {
                memory: with_registers(
                    old(self)@.memory,
                    old(self)@.i as int,
                    old(self)@.v,
                    last + 1,
                ),
                ..old(self)@
            }),
    {
        let ghost before = self@;
        let mut r: u8 = 0;
        while r <= last
            invariant
                r <= last + 1,
                last < 16,
                before.i + last < MEMORY_SIZE,
                self@ == (Machine {
                    memory: with_registers(before.memory, before.i as int, before.v, r as int),
                    ..before
                }),
            decreases last + 1 - r,
        {
            proof {
                use_type_invariant(&*self);
            }
            self.memory[self.i as usize + r as usize] = self.v[r as usize];
            r += 1;
        }
    }

    /// Fills the registers `V0` to `V[last]` from memory at the index
    /// register.
    fn load_registers(&mut self, last: u8)
        requires
            last < 16,
            old(self)@.i + last < MEMORY_SIZE,
        ensures
            final(self)@ == (Machine {
                v: registers_from(
                    old(self)@.v,
                    old(self)@.memory,
                    old(self)@.i as int,
                    last + 1,
                ),
                ..old(self)@
            }),
    {
        let ghost before = self@;
        let mut r: u8 = 0;
        while r <= last
            invariant
                r <= last + 1,
                last < 16,
                before.i + last < MEMORY_SIZE,
                self@ == (Machine {
                    v: registers_from(before.v, before.memory, before.i as int, r as int),
                    ..before
                }),
            decreases last + 1 - r,
        {
            proof {
                use_type_invariant(&*self);
            }
            self.v[r as usize] = self.memory[self.i as usize + r as usize];
            r += 1;
        }
    }

    /// Puts out every pixel of the display.
    fn clear(&mut self)
        ensures
            final(self)@ == (Machine { memory: clear_screen(old(self)@.memory), ..old(self)@ }),
    {
        let ghost before = self@;
        let mut address: usize = SCREEN_START;
        while address < MEMORY_SIZE
            invariant
                SCREEN_START <= address <= MEMORY_SIZE,
                self@ == (Machine {
                    memory: zeroed(before.memory, SCREEN_START as int, address as int),
                    ..before
                }),
            decreases MEMORY_SIZE - address,
        {
            proof {
                use_type_invariant(&*self);
            }
            self.memory[address] = 0x00;
            address += 1;
        }
    }

    /// Flips the pixel at `(x mod 64, y mod 32)` and tells whether it was
    /// lit before.
    fn xor_pixel(&mut self, x: usize, y: usize) -> (flipped: bool)
        ensures
            final(self)@ == (Machine {
                memory: xor_pixel(old(self)@.memory, x as int, y as int).0,
                ..old(self)@
            }),
            flipped == xor_pixel(old(self)@.memory, x as int, y as int).1,
    {
        proof {
            use_type_invariant(&*self);
        }
        // wrap around the edges of the display
        let px: usize = x % 64;
        let py: usize = y % 32;

        // the byte that holds the pixel, and the pixel's place in it
        let address: usize = SCREEN_START + ((py * 64) + px) / 8;
        let pixel_bit_offset: usize = ((py * 64) + px) % 8;
        let mask: u8 = 0b1000_0000u8 >> (pixel_bit_offset as u8);
        let pixel_byte: u8 = self.memory[address];

        let flipped = pixel_byte & mask != 0;
        self.memory[address] = pixel_byte ^ mask;
        flipped
    }

    /// Plots the eight pixels of one sprite row with its left end at
    /// `(x, y)`, and tells whether a lit pixel was put out.
    fn draw_row(&mut self, line: u8, x: usize, y: usize) -> (flipped: bool)
        requires
            x <= 0xff,
        ensures
            final(self)@ == (Machine {
                memory: draw_row(old(self)@.memory, line, x as int, y as int, 8).0,
                ..old(self)@
            }),
            flipped == draw_row(old(self)@.memory, line, x as int, y as int, 8).1,
    {
        let ghost before = self@;
        let mut flipped = false;
        let mut column: usize = 0;
        while column < 8
            invariant
                column <= 8,
                x <= 0xff,
                self@ == (Machine {
                    memory: draw_row(before.memory, line, x as int, y as int, column as nat).0,
                    ..before
                }),
                flipped == draw_row(before.memory, line, x as int, y as int, column as nat).1,
            decreases 8 - column,
        {
            let pixel: u8 = line & (0b1000_0000u8 >> (column as u8));
            if pixel != 0 {
                if self.xor_pixel(x + column, y) {
                    flipped = true;
                }
            }
            column += 1;
        }
        flipped
    }

    /// Plots the `rows` rows of the sprite at the index register with its
    /// top left corner at `(x, y)`, and tells whether a lit pixel was put
    /// out.
    fn draw(&mut self, x: u8, y: u8, rows: u8) -> (flipped: bool)
        requires
            rows > 0 ==> old(self)@.i + rows <= MEMORY_SIZE,
        ensures
            final(self)@ == (Machine {
                memory: draw_sprite(
                    old(self)@.memory,
                    old(self)@.i as int,
                    x as int,
                    y as int,
                    rows as nat,
                ).0,
                ..old(self)@
            }),
            flipped == draw_sprite(
                old(self)@.memory,
                old(self)@.i as int,
                x as int,
                y as int,
                rows as nat,
            ).1,
    {
        let ghost before = self@;
        let mut flipped = false;
        let mut row: u8 = 0;
        while row < rows
            invariant
                row <= rows,
                rows > 0 ==> before.i + rows <= MEMORY_SIZE,
                self@ == (Machine {
                    memory: draw_sprite(
                        before.memory,
                        before.i as int,
                        x as int,
                        y as int,
                        row as nat,
                    ).0,
                    ..before
                }),
                flipped == draw_sprite(
                    before.memory,
                    before.i as int,
                    x as int,
                    y as int,
                    row as nat,
                ).1,
            decreases rows - row,
        {
            let line: u8 = self.memory[self.i as usize + row as usize];
            if self.draw_row(line, x as usize, y as usize + row as usize) {
                flipped = true;
            }
            row += 1;
        }
        flipped
    }
}

/// The sum of two bytes cut to eight bits, and whether it was cut.
fn overflowing_add(a: u8, b: u8) -> (sum: (u8, bool))
    ensures
        sum.0 == sum8(a, b),
        sum.1 == (a + b > 255),
{
    (a.wrapping_add(b), b > 0xff - a)
}

/// The difference of two bytes cut to eight bits, and whether it had to
/// borrow.
fn overflowing_sub(a: u8, b: u8) -> (difference: (u8, bool))
    ensures
        difference.0 == difference8(a, b),
        difference.1 == (a < b),
{
    (a.wrapping_sub(b), a < b)
}

/// A byte shifted right by one, and the bit that left it.
fn shift_right(value: u8) -> (shifted: (u8, u8))
    ensures
        shifted.0 == value / 2,
        shifted.1 == value % 2,
{
    assert(value >> 1 == value / 2 && value & 0b0000_0001 == value % 2) by (bit_vector);
    (value >> 1, value & 0b0000_0001)
}

/// A byte shifted left by one, and the bit that left it.
fn shift_left(value: u8) -> (shifted: (u8, u8))
    ensures
        shifted.0 == (value * 2) % 256,
        shifted.1 == value / 128,
{
    assert(value << 1 == (value * 2) % 256 && (value & 0b1000_0000) >> 7 == value / 128)
        by (bit_vector);
    (value << 1, (value & 0b1000_0000) >> 7)
}

/// A condition as a flag value: 1 where it holds, 0 where it does not.
fn flag_of(condition: bool) -> (value: u8)
    ensures
        value == flag(condition),
{
    if condition {
        1
    } else {
        0
    }
}

/// A byte from the thread-local random number generator of the `rand` crate,
/// as `rand::random::<u8>()` gives it. Nothing is claimed of its value.
#[verifier::external_body]
fn random_byte() -> u8 {
    rand::random::<u8>()
}

} // verus!
