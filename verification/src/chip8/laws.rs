//! What holds of the machine on every state: the laws that the instruction
//! semantics obey, proved over the model.

use vstd::prelude::*;

use crate::chip8::machine::{first_pressed, ExecutionError, Machine, MEMORY_SIZE};
use crate::chip8::op::Op;
use crate::chip8::screen::{
    lemma_draw_solid_twice, lemma_draw_sprite_frame, lemma_draw_sprite_reads, lemma_draw_twice,
    pixel_under, same_display, sprite_meets_any, sprite_row, SCREEN_START,
};

verus! {

/// The key that a waiting instruction picks is pressed, and no key below it
/// is; it picks none only where no key at or above `from` is pressed.
pub proof fn lemma_first_pressed(keyboard: Seq<bool>, from: int)
    requires
        0 <= from,
    ensures
        match first_pressed(keyboard, from) {
            Some(key) => {
                &&& from <= key < keyboard.len()
                &&& keyboard[key]
                &&& forall|lower: int| from <= lower < key ==> !keyboard[lower]
            },
            None => forall|key: int| from <= key < keyboard.len() ==> !keyboard[key],
        },
    decreases keyboard.len() - from,
{
    if from < keyboard.len() && !keyboard[from] {
        lemma_first_pressed(keyboard, from + 1);
    }
}

/// Carrying out an instruction keeps every part of the machine at its size
/// and the stack within its depth.
pub proof fn lemma_execute_keeps_wf(machine: Machine, op: Op, random_byte: u8)
    requires
        machine.wf(),
        op.wf(),
    ensures
        machine.execute(op, random_byte).0.wf(),
{
    match op {
        Op::Draw { v, v2, lit } => {
            lemma_draw_sprite_frame(
                machine.memory,
                machine.i as int,
                machine.v[v as int] as int,
                machine.v[v2 as int] as int,
                lit as nat,
            );
        },
        _ => {},
    }
}

/// An instruction changes memory only where it is meant to write, and that
/// is inside memory: where it reports no fault, every byte that it may
/// write has an address from `0x000` to `0xfff`, and every other byte is
/// after it what it was before.
pub proof fn lemma_writes_stay_in_place(machine: Machine, op: Op, random_byte: u8)
    requires
        machine.wf(),
        op.wf(),
    ensures
        forall|address: int|
            0 <= address < MEMORY_SIZE && !machine.may_write(op, address) ==> machine.execute(
                op,
                random_byte,
            ).0.memory[address] == machine.memory[address],
        machine.execute(op, random_byte).1 is Ok ==> forall|address: int| #[trigger]
            machine.may_write(op, address) ==> 0 <= address < MEMORY_SIZE,
{
    match op {
        Op::Draw { v, v2, lit } => {
            lemma_draw_sprite_frame(
                machine.memory,
                machine.i as int,
                machine.v[v as int] as int,
                machine.v[v2 as int] as int,
                lit as nat,
            );
        },
        _ => {},
    }
}

/// A step looks at memory only where its instruction is meant to read, and
/// that is inside memory. Take two machines that differ in memory alone and
/// agree in every byte that the step of the first may read: then both steps
/// report the same and end in the same registers, counters, timers and
/// stack; and where they report no error, they have written the same bytes,
/// and every byte that the step may read has an address from `0x000` to
/// `0xfff`.
pub proof fn lemma_reads_stay_in_place(a: Machine, b: Machine, op: Op, random_byte: u8)
    requires
        a.wf(),
        b.wf(),
        a.fetch() == Ok::<Op, ExecutionError>(op),
        b == (Machine { memory: b.memory, ..a }),
        forall|address: int|
            0 <= address < MEMORY_SIZE && #[trigger] a.may_read(op, address) ==> a.memory[address]
                == b.memory[address],
    ensures
        a.step(random_byte).1 == b.step(random_byte).1,
        b.step(random_byte).0 == (Machine {
            memory: b.step(random_byte).0.memory,
            ..a.step(random_byte).0
        }),
        a.step(random_byte).1 is Ok ==> forall|address: int|
            0 <= address < MEMORY_SIZE && a.may_write(op, address) ==> a.step(
                random_byte,
            ).0.memory[address] == b.step(random_byte).0.memory[address],
        a.step(random_byte).1 is Ok ==> forall|address: int| #[trigger]
            a.may_read(op, address) ==> 0 <= address < MEMORY_SIZE,
{
    assert(a.may_read(op, a.pc as int) && a.may_read(op, a.pc + 1));
    assert(b.fetch() == a.fetch());
    Op::lemma_decode_wf(a.memory[a.pc as int], a.memory[a.pc + 1]);
    match op {
        Op::Draw { v, v2, lit } => {
            if a.fault(op) is None {
                let (x, y) = (a.v[v as int] as int, a.v[v2 as int] as int);
                assert forall|row: int| 0 <= row < lit implies #[trigger] sprite_row(
                    a.memory,
                    a.i as int,
                    row,
                ) == sprite_row(b.memory, a.i as int, row) by {
                    assert(a.may_read(op, a.i + row));
                }
                assert(same_display(a.memory, b.memory)) by {
                    assert forall|address: int|
                        SCREEN_START <= address < 4096 implies a.memory[address]
                        == b.memory[address] by {
                        assert(a.may_read(op, address));
                    }
                }
                lemma_draw_sprite_reads(a.memory, b.memory, a.i as int, x, y, lit as nat);
                lemma_draw_sprite_frame(a.memory, a.i as int, x, y, lit as nat);
                lemma_draw_sprite_frame(b.memory, a.i as int, x, y, lit as nat);
            }
        },
        Op::RegLoad(v) => {
            if a.fault(op) is None {
                assert forall|r: int| 0 <= r <= v implies #[trigger] sprite_row(
                    a.memory,
                    a.i as int,
                    r,
                ) == sprite_row(b.memory, a.i as int, r) by {
                    assert(a.may_read(op, a.i + r));
                }
                assert forall|r: int| 0 <= r < 16 implies a.apply(op, random_byte).v[r]
                    == b.apply(op, random_byte).v[r] by {
                    if r <= v {
                        assert(sprite_row(a.memory, a.i as int, r) == sprite_row(
                            b.memory,
                            a.i as int,
                            r,
                        ));
                    }
                }
                assert(a.apply(op, random_byte).v =~= b.apply(op, random_byte).v);
            }
        },
        _ => {},
    }
}

/// A step keeps every part of the machine at its size and the stack within
/// its depth, whether it reports an error or not.
pub proof fn lemma_step_keeps_wf(machine: Machine, random_byte: u8)
    requires
        machine.wf(),
    ensures
        machine.step(random_byte).0.wf(),
{
    match machine.fetch() {
        Ok(op) => {
            lemma_execute_keeps_wf(machine, op, random_byte);
        },
        Err(_) => {},
    }
}

/// However many steps are run on a freshly loaded program, and whatever the
/// random source gives, the machine stays well formed: memory is the 4096
/// bytes from `0x000` to `0xfff` and nothing else, and the stack holds at
/// most sixteen return addresses.
pub proof fn lemma_run_keeps_wf(rom: Seq<u8>, random_bytes: Seq<u8>)
    ensures
        Machine::loaded(rom).run(random_bytes).wf(),
    decreases random_bytes.len(),
{
    if random_bytes.len() > 0 {
        lemma_run_keeps_wf(rom, random_bytes.drop_last());
        lemma_step_keeps_wf(
            Machine::loaded(rom).run(random_bytes.drop_last()),
            random_bytes.last(),
        );
    }
}

/// Only a random-number instruction looks at the random byte.
pub proof fn lemma_random_byte_unused(machine: Machine, a: u8, b: u8)
    requires
        !(machine.fetch() matches Ok(Op::Rand { .. })),
    ensures
        machine.step(a) == machine.step(b),
{
}

/// A faulting or undecodable step changes nothing.
pub proof fn lemma_error_changes_nothing(machine: Machine, random_byte: u8)
    requires
        machine.step(random_byte).1 is Err,
    ensures
        machine.step(random_byte).0 == machine,
{
}

/// A waiting instruction holds the machine still while no key is down: the
/// step succeeds and changes nothing, the program counter included, so that
/// the next step finds the same instruction again. With a key down it puts
/// the number of the lowest such key into its register and moves on.
pub proof fn lemma_get_key_waits(machine: Machine, x: u8, random_byte: u8)
    requires
        machine.wf(),
        x < 16,
    ensures
        ({
            let after = machine.execute(Op::GetKey(x), random_byte);
            &&& after.1 is Ok
            &&& (forall|key: int| 0 <= key < 16 ==> !machine.keyboard[key]) ==> after.0 == machine
            &&& forall|key: int|
                0 <= key < 16 && machine.keyboard[key] && (forall|lower: int|
                    0 <= lower < key ==> !machine.keyboard[lower]) ==> after.0
                    == machine.set_register(x, key as u8).advance(2)
        }),
{
    lemma_first_pressed(machine.keyboard, 0);
}

/// A call pushes the address of the instruction after it and jumps; the
/// return that answers it comes back to that address and leaves the stack
/// as it was before the call, wherever the subroutine has moved the program
/// counter in between.
pub proof fn lemma_call_then_return(machine: Machine, address: u16, pc_in_subroutine: u16)
    requires
        machine.wf(),
        machine.stack.len() < 16,
        machine.pc + 2 <= u16::MAX,
    ensures
        ({
            let called = machine.execute(Op::Call(address), 0);
            let inside = Machine { pc: pc_in_subroutine, ..called.0 };
            let returned = inside.execute(Op::Rts, 0);
            &&& called.1 is Ok
            &&& called.0.pc == address
            &&& called.0.stack == machine.stack.push((machine.pc + 2) as u16)
            &&& returned.1 is Ok
            &&& returned.0.pc == machine.pc + 2
            &&& returned.0.stack == machine.stack
        }),
{
    let called = machine.execute(Op::Call(address), 0);
}

/// `Add` leaves in `VF` the carry of the unsigned sum: 1 where the sum is
/// over 255, else 0. Unless `x` is `VF` itself, `Vx` holds the sum reduced
/// to eight bits.
pub proof fn lemma_add_sets_carry(machine: Machine, x: u8, y: u8, random_byte: u8)
    requires
        machine.wf(),
        x < 16,
        y < 16,
    ensures
        ({
            let after = machine.execute(Op::Add { v: x, v2: y }, random_byte);
            let sum = machine.v[x as int] + machine.v[y as int];
            &&& after.1 is Ok
            &&& after.0.v[0xf] == (if sum > 255 { 1int } else { 0int })
            &&& x != 0xf ==> after.0.v[x as int] == (if sum > 255 { sum - 256 } else { sum })
        }),
{
}

/// `Sub` leaves in `VF` 1 where `Vx >= Vy`, so that nothing was borrowed,
/// else 0. Unless `x` is `VF` itself, `Vx` holds `Vx - Vy` reduced to eight
/// bits.
pub proof fn lemma_sub_sets_no_borrow(machine: Machine, x: u8, y: u8, random_byte: u8)
    requires
        machine.wf(),
        x < 16,
        y < 16,
    ensures
        ({
            let after = machine.execute(Op::Sub { v: x, v2: y }, random_byte);
            let a = machine.v[x as int];
            let b = machine.v[y as int];
            &&& after.1 is Ok
            &&& after.0.v[0xf] == (if a >= b { 1int } else { 0int })
            &&& x != 0xf ==> after.0.v[x as int] == (if a >= b { a - b } else { a - b + 256 })
        }),
{
}

/// `Subb` leaves in `VF` 1 where `Vy >= Vx`, so that nothing was borrowed,
/// else 0. Unless `x` is `VF` itself, `Vx` holds `Vy - Vx` reduced to eight
/// bits.
pub proof fn lemma_subb_sets_no_borrow(machine: Machine, x: u8, y: u8, random_byte: u8)
    requires
        machine.wf(),
        x < 16,
        y < 16,
    ensures
        ({
            let after = machine.execute(Op::Subb { v: x, v2: y }, random_byte);
            let a = machine.v[x as int];
            let b = machine.v[y as int];
            &&& after.1 is Ok
            &&& after.0.v[0xf] == (if b >= a { 1int } else { 0int })
            &&& x != 0xf ==> after.0.v[x as int] == (if b >= a { b - a } else { b - a + 256 })
        }),
{
}

/// `Shr` leaves in `VF` the bit that is shifted out, the lowest. Unless `x`
/// is `VF` itself, `Vx` holds the value shifted right by one.
pub proof fn lemma_shr_keeps_low_bit(machine: Machine, x: u8, random_byte: u8)
    requires
        machine.wf(),
        x < 16,
    ensures
        ({
            let after = machine.execute(Op::Shr(x), random_byte);
            let a = machine.v[x as int];
            &&& after.1 is Ok
            &&& after.0.v[0xf] == a & 1
            &&& x != 0xf ==> after.0.v[x as int] == a >> 1
        }),
{
    let a = machine.v[x as int];
    assert(a >> 1 == a / 2 && a & 1 == a % 2) by (bit_vector);
}

/// `Shl` leaves in `VF` the bit that is shifted out, the highest. Unless
/// `x` is `VF` itself, `Vx` holds the value shifted left by one, cut to
/// eight bits.
pub proof fn lemma_shl_keeps_high_bit(machine: Machine, x: u8, random_byte: u8)
    requires
        machine.wf(),
        x < 16,
    ensures
        ({
            let after = machine.execute(Op::Shl(x), random_byte);
            let a = machine.v[x as int];
            &&& after.1 is Ok
            &&& after.0.v[0xf] == a >> 7
            &&& x != 0xf ==> after.0.v[x as int] == a << 1
        }),
{
    let a = machine.v[x as int];
    assert(a << 1 == (a * 2) % 256 && a >> 7 == a / 128) by (bit_vector);
}

/// Drawing the same sprite twice at the same place leaves memory, display
/// included, as it was before the first draw. After the first draw `VF`
/// tells whether a set bit of the sprite fell on a lit pixel, after the
/// second whether one fell on a pixel that was dark at the start.
///
/// The sprite lies below the framebuffer, and neither coordinate is taken
/// from `VF`, which the first draw overwrites.
pub proof fn lemma_draw_twice_restores(machine: Machine, x: u8, y: u8, rows: u8)
    requires
        machine.wf(),
        x < 15,
        y < 15,
        rows < 16,
        machine.i + rows <= SCREEN_START,
    ensures
        ({
            let op = Op::Draw { v: x, v2: y, lit: rows };
            let first = machine.execute(op, 0);
            let second = first.0.execute(op, 0);
            let (col, row) = (machine.v[x as int] as int, machine.v[y as int] as int);
            &&& first.1 is Ok
            &&& second.1 is Ok
            &&& second.0.memory == machine.memory
            &&& first.0.v[0xf] == 1 <==> sprite_meets_any(
                machine.memory,
                machine.i as int,
                col,
                row,
                rows as nat,
                true,
            )
            &&& second.0.v[0xf] == 1 <==> sprite_meets_any(
                machine.memory,
                machine.i as int,
                col,
                row,
                rows as nat,
                false,
            )
        }),
{
    lemma_draw_twice(
        machine.memory,
        machine.i as int,
        machine.v[x as int] as int,
        machine.v[y as int] as int,
        rows as nat,
    );
}

/// Drawing a sprite whose rows are all set over dark pixels, twice at the
/// same place: the first draw leaves `VF` at 0, the second sets it to 1,
/// and memory, display included, is back as it was.
pub proof fn lemma_draw_solid_twice_collides_once(machine: Machine, x: u8, y: u8, rows: u8)
    requires
        machine.wf(),
        x < 15,
        y < 15,
        1 <= rows < 16,
        machine.i + rows <= SCREEN_START,
        forall|row: int|
            0 <= row < rows ==> #[trigger] sprite_row(machine.memory, machine.i as int, row)
                == 0xff,
        forall|row: int, column: int|
            0 <= row < rows && 0 <= column < 8 ==> !#[trigger] pixel_under(
                machine.memory,
                machine.v[x as int] as int,
                machine.v[y as int] as int,
                row,
                column,
            ),
    ensures
        ({
            let op = Op::Draw { v: x, v2: y, lit: rows };
            let first = machine.execute(op, 0);
            let second = first.0.execute(op, 0);
            &&& first.1 is Ok
            &&& second.1 is Ok
            &&& first.0.v[0xf] == 0
            &&& second.0.v[0xf] == 1
            &&& second.0.memory == machine.memory
        }),
{
    lemma_draw_solid_twice(
        machine.memory,
        machine.i as int,
        machine.v[x as int] as int,
        machine.v[y as int] as int,
        rows as nat,
    );
}

} // verus!
