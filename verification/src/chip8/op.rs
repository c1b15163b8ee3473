//! The instruction set: decoding two bytes into an instruction, and rendering
//! an instruction as assembly text.

use vstd::prelude::*;
use vstd::string::*;

use crate::chip8::text::{hex, left_aligned, pad_right, push_hex};

verus! {

/// One decoded instruction.
///
/// `v` and `v2` are register numbers, `lit` is an immediate value, and the
/// bare `u16` of the address forms is a 12-bit memory address.
#[derive(Debug, Clone, Copy, PartialEq, Eq, Structural)]
pub enum Op {
    /// Clears the display.
    Cls,
    /// Returns from a subroutine.
    Rts,
    /// Jumps to an address.
    Jump(u16),
    /// Calls the subroutine at an address.
    Call(u16),
    /// Skips the next instruction if `Vv == lit`.
    SkipEqLit { v: u8, lit: u8 },
    /// Skips the next instruction if `Vv != lit`.
    SkipNeLit { v: u8, lit: u8 },
    /// Skips the next instruction if `Vv == Vv2`.
    SkipEq { v: u8, v2: u8 },
    /// `Vv = lit`.
    MviLit { v: u8, lit: u8 },
    /// `Vv += lit`, wrapping, without touching the flag.
    AdiLit { v: u8, lit: u8 },
    /// `Vv = Vv2`.
    Mov { v: u8, v2: u8 },
    /// `Vv |= Vv2`.
    Or { v: u8, v2: u8 },
    /// `Vv &= Vv2`.
    And { v: u8, v2: u8 },
    /// `Vv ^= Vv2`.
    Xor { v: u8, v2: u8 },
    /// `Vv += Vv2`; `VF` is the carry.
    Add { v: u8, v2: u8 },
    /// `Vv -= Vv2`; `VF` is 1 unless a borrow was needed.
    Sub { v: u8, v2: u8 },
    /// `Vv >>= 1`; `VF` is the bit shifted out.
    Shr(u8),
    /// `Vv = Vv2 - Vv`; `VF` is 1 unless a borrow was needed.
    Subb { v: u8, v2: u8 },
    /// `Vv <<= 1`; `VF` is the bit shifted out.
    Shl(u8),
    /// Skips the next instruction if `Vv != Vv2`.
    SkipNe { v: u8, v2: u8 },
    /// `I = address`.
    SetI(u16),
    /// Jumps to an address plus `V0`.
    JumpPlusV0(u16),
    /// `Vv = lit & r` for a random byte `r`.
    Rand { v: u8, lit: u8 },
    /// Draws the sprite of `lit` rows at `I` with its top left corner at
    /// `(Vv, Vv2)`; `VF` tells whether a lit pixel was put out.
    Draw { v: u8, v2: u8, lit: u8 },
    /// Skips the next instruction if the key named by `Vv` is down.
    SkipKey(u8),
    /// Skips the next instruction if the key named by `Vv` is up.
    SkipNoKey(u8),
    /// `Vv = delay timer`.
    GetDelay(u8),
    /// Waits for a key and puts its number into `Vv`.
    GetKey(u8),
    /// `delay timer = Vv`.
    Delay(u8),
    /// `sound timer = Vv`.
    Sound(u8),
    /// `I += Vv`, wrapping.
    AddI(u8),
    /// `I` = address of the glyph for the digit in `Vv`.
    SpriteChar(u8),
    /// Stores the three decimal digits of `Vv` at `I`.
    MovBcd(u8),
    /// Stores `V0` to `Vv` at `I`.
    RegDump(u8),
    /// Loads `V0` to `Vv` from `I`.
    RegLoad(u8),
}

/// Two bytes that are not an instruction.
#[derive(Debug, Clone, Copy, PartialEq, Eq, Structural)]
pub struct DecodeError {
    pub byte1: u8,
    pub byte2: u8,
}

impl DecodeError {
    /// The text of the error: the two bytes in hexadecimal, as in
    /// `bad instruction: e0 00`.
    pub open spec fn text(self) -> Seq<char> {
        "bad instruction: "@ + hex(self.byte1 as nat, 2, false) + " "@ + hex(
            self.byte2 as nat,
            2,
            false,
        )
    }

    /// A message that names the two offending bytes.
    pub fn message(&self) -> (message: String)
        ensures
            message@ == self.text(),
    {
        let mut message = String::from_str("bad instruction: ");
        push_hex(&mut message, self.byte1 as u16, 2, false);
        message.append(" ");
        push_hex(&mut message, self.byte2 as u16, 2, false);
        message
    }
}

/// The upper four bits of a byte.
pub open spec fn high_nibble(byte: u8) -> u8 {
    (byte / 16) as u8
}

/// The lower four bits of a byte.
pub open spec fn low_nibble(byte: u8) -> u8 {
    (byte % 16) as u8
}

/// The 12-bit address formed by the low nibble of `byte1` followed by all of
/// `byte2`.
pub open spec fn address_of(byte1: u8, byte2: u8) -> u16 {
    (low_nibble(byte1) * 256 + byte2) as u16
}

/// The address operand of an opcode: `0x*X 0xYY` gives `0x0XYY`.
fn addr_from_opcode(byte1: u8, byte2: u8) -> (addr: u16)
    ensures
        addr == address_of(byte1, byte2),
{
    let addr_high: u16 = (byte1 as u16) & 0x0f;
    let addr_low: u16 = byte2 as u16;
    assert((((byte1 as u16) & 0x0f) << 8) | (byte2 as u16) == ((byte1 % 16) as u16) * 256
        + byte2 as u16) by (bit_vector);
    (addr_high << 8) | addr_low
}

/// The first register operand of an opcode: `0x*X 0x**` gives `0x0X`.
fn reg1_from_opcode(byte1: u8, _byte2: u8) -> (reg: u8)
    ensures
        reg == low_nibble(byte1),
{
    assert(byte1 & 0x0f == byte1 % 16) by (bit_vector);
    byte1 & 0x0f
}

/// The second register operand of an opcode: `0x** 0xY*` gives `0x0Y`.
fn reg2_from_opcode(_byte1: u8, byte2: u8) -> (reg: u8)
    ensures
        reg == high_nibble(byte2),
{
    assert(byte2 >> 4 == byte2 / 16) by (bit_vector);
    byte2 >> 4
}

impl Op {
    /// The instruction that the two bytes `byte1 byte2` encode.
    ///
    /// The high nibble of `byte1` selects the class. Classes `0`, `E` and `F`
    /// are told apart by the whole of `byte2`, class `8` by its low nibble,
    /// and class `5` demands a zero low nibble. Class `0` does not look at
    /// the low nibble of `byte1`, nor class `9` at that of `byte2`.
    /// Everything else is an error that carries the two bytes.
    pub open spec fn decode(byte1: u8, byte2: u8) -> Result<Op, DecodeError> {
        let class = high_nibble(byte1);
        let x = low_nibble(byte1);
        let y = high_nibble(byte2);
        let n = low_nibble(byte2);
        let nnn = address_of(byte1, byte2);
        let bad = Err::<Op, DecodeError>(DecodeError { byte1, byte2 });
        if class == 0x0 {
            if byte2 == 0xe0 {
                Ok(Op::Cls)
            } else if byte2 == 0xee {
                Ok(Op::Rts)
            } else {
                bad
            }
        } else if class == 0x1 {
            Ok(Op::Jump(nnn))
        } else if class == 0x2 {
            Ok(Op::Call(nnn))
        } else if class == 0x3 {
            Ok(Op::SkipEqLit { v: x, lit: byte2 })
        } else if class == 0x4 {
            Ok(Op::SkipNeLit { v: x, lit: byte2 })
        } else if class == 0x5 {
            if n == 0x0 {
                Ok(Op::SkipEq { v: x, v2: y })
            } else {
                bad
            }
        } else if class == 0x6 {
            Ok(Op::MviLit { v: x, lit: byte2 })
        } else if class == 0x7 {
            Ok(Op::AdiLit { v: x, lit: byte2 })
        } else if class == 0x8 {
            if n == 0x0 {
                Ok(Op::Mov { v: x, v2: y })
            } else if n == 0x1 {
                Ok(Op::Or { v: x, v2: y })
            } else if n == 0x2 {
                Ok(Op::And { v: x, v2: y })
            } else if n == 0x3 {
                Ok(Op::Xor { v: x, v2: y })
            } else if n == 0x4 {
                Ok(Op::Add { v: x, v2: y })
            } else if n == 0x5 {
                Ok(Op::Sub { v: x, v2: y })
            } else if n == 0x6 {
                Ok(Op::Shr(x))
            } else if n == 0x7 {
                Ok(Op::Subb { v: x, v2: y })
            } else if n == 0xe {
                Ok(Op::Shl(x))
            } else {
                bad
            }
        } else if class == 0x9 {
            Ok(Op::SkipNe { v: x, v2: y })
        } else if class == 0xa {
            Ok(Op::SetI(nnn))
        } else if class == 0xb {
            Ok(Op::JumpPlusV0(nnn))
        } else if class == 0xc {
            Ok(Op::Rand { v: x, lit: byte2 })
        } else if class == 0xd {
            Ok(Op::Draw { v: x, v2: y, lit: n })
        } else if class == 0xe {
            if byte2 == 0x9e {
                Ok(Op::SkipKey(x))
            } else if byte2 == 0xa1 {
                Ok(Op::SkipNoKey(x))
            } else {
                bad
            }
        } else {
            if byte2 == 0x07 {
                Ok(Op::GetDelay(x))
            } else if byte2 == 0x0a {
                Ok(Op::GetKey(x))
            } else if byte2 == 0x15 {
                Ok(Op::Delay(x))
            } else if byte2 == 0x18 {
                Ok(Op::Sound(x))
            } else if byte2 == 0x1e {
                Ok(Op::AddI(x))
            } else if byte2 == 0x29 {
                Ok(Op::SpriteChar(x))
            } else if byte2 == 0x33 {
                Ok(Op::MovBcd(x))
            } else if byte2 == 0x55 {
                Ok(Op::RegDump(x))
            } else if byte2 == 0x65 {
                Ok(Op::RegLoad(x))
            } else {
                bad
            }
        }
    }

    /// Whether every operand fits the field it is encoded in: registers and
    /// the sprite height in four bits, addresses in twelve.
    pub open spec fn wf(self) -> bool {
        match self {
            Op::Cls | Op::Rts => true,
            Op::Jump(address) | Op::Call(address) | Op::SetI(address) | Op::JumpPlusV0(
                address,
            ) => address < 0x1000,
            Op::SkipEqLit { v, .. }
            | Op::SkipNeLit { v, .. }
            | Op::MviLit { v, .. }
            | Op::AdiLit { v, .. }
            | Op::Rand { v, .. } => v < 16,
            Op::SkipEq { v, v2 }
            | Op::Mov { v, v2 }
            | Op::Or { v, v2 }
            | Op::And { v, v2 }
            | Op::Xor { v, v2 }
            | Op::Add { v, v2 }
            | Op::Sub { v, v2 }
            | Op::Subb { v, v2 }
            | Op::SkipNe { v, v2 } => v < 16 && v2 < 16,
            Op::Draw { v, v2, lit } => v < 16 && v2 < 16 && lit < 16,
            Op::Shr(v)
            | Op::Shl(v)
            | Op::SkipKey(v)
            | Op::SkipNoKey(v)
            | Op::GetDelay(v)
            | Op::GetKey(v)
            | Op::Delay(v)
            | Op::Sound(v)
            | Op::AddI(v)
            | Op::SpriteChar(v)
            | Op::MovBcd(v)
            | Op::RegDump(v)
            | Op::RegLoad(v) => v < 16,
        }
    }

    /// Whether the instruction only moves the program counter: jumps, calls,
    /// returns and the skips that compare registers.
    pub open spec fn is_control(self) -> bool {
        match self {
            Op::Rts
            | Op::Jump(_)
            | Op::Call(_)
            | Op::SkipEqLit { .. }
            | Op::SkipNeLit { .. }
            | Op::SkipEq { .. }
            | Op::SkipNe { .. }
            | Op::JumpPlusV0(_) => true,
            _ => false,
        }
    }

    /// Whether the instruction computes a register from registers, a literal
    /// or the random source.
    pub open spec fn is_arithmetic(self) -> bool {
        match self {
            Op::MviLit { .. }
            | Op::AdiLit { .. }
            | Op::Mov { .. }
            | Op::Or { .. }
            | Op::And { .. }
            | Op::Xor { .. }
            | Op::Add { .. }
            | Op::Sub { .. }
            | Op::Shr(_)
            | Op::Subb { .. }
            | Op::Shl(_)
            | Op::Rand { .. } => true,
            _ => false,
        }
    }

    /// Whether the instruction works on memory, the display or the index
    /// register.
    pub open spec fn is_memory(self) -> bool {
        match self {
            Op::Cls
            | Op::SetI(_)
            | Op::Draw { .. }
            | Op::AddI(_)
            | Op::SpriteChar(_)
            | Op::MovBcd(_)
            | Op::RegDump(_)
            | Op::RegLoad(_) => true,
            _ => false,
        }
    }

    /// Whether the instruction reads the keypad or reads or sets a timer.
    pub open spec fn is_input(self) -> bool {
        match self {
            Op::SkipKey(_)
            | Op::SkipNoKey(_)
            | Op::GetDelay(_)
            | Op::GetKey(_)
            | Op::Delay(_)
            | Op::Sound(_) => true,
            _ => false,
        }
    }

    /// The two bytes that the instruction is written as in a program.
    pub open spec fn encoding(self) -> (u8, u8) {
        match self {
            Op::Cls => (0x00, 0xe0),
            Op::Rts => (0x00, 0xee),
            Op::Jump(address) => ((0x10 + address / 256) as u8, (address % 256) as u8),
            Op::Call(address) => ((0x20 + address / 256) as u8, (address % 256) as u8),
            Op::SkipEqLit { v, lit } => ((0x30 + v) as u8, lit),
            Op::SkipNeLit { v, lit } => ((0x40 + v) as u8, lit),
            Op::SkipEq { v, v2 } => ((0x50 + v) as u8, (v2 * 16) as u8),
            Op::MviLit { v, lit } => ((0x60 + v) as u8, lit),
            Op::AdiLit { v, lit } => ((0x70 + v) as u8, lit),
            Op::Mov { v, v2 } => ((0x80 + v) as u8, (v2 * 16 + 0x0) as u8),
            Op::Or { v, v2 } => ((0x80 + v) as u8, (v2 * 16 + 0x1) as u8),
            Op::And { v, v2 } => ((0x80 + v) as u8, (v2 * 16 + 0x2) as u8),
            Op::Xor { v, v2 } => ((0x80 + v) as u8, (v2 * 16 + 0x3) as u8),
            Op::Add { v, v2 } => ((0x80 + v) as u8, (v2 * 16 + 0x4) as u8),
            Op::Sub { v, v2 } => ((0x80 + v) as u8, (v2 * 16 + 0x5) as u8),
            Op::Shr(v) => ((0x80 + v) as u8, 0x06),
            Op::Subb { v, v2 } => ((0x80 + v) as u8, (v2 * 16 + 0x7) as u8),
            Op::Shl(v) => ((0x80 + v) as u8, 0x0e),
            Op::SkipNe { v, v2 } => ((0x90 + v) as u8, (v2 * 16) as u8),
            Op::SetI(address) => ((0xa0 + address / 256) as u8, (address % 256) as u8),
            Op::JumpPlusV0(address) => ((0xb0 + address / 256) as u8, (address % 256) as u8),
            Op::Rand { v, lit } => ((0xc0 + v) as u8, lit),
            Op::Draw { v, v2, lit } => ((0xd0 + v) as u8, (v2 * 16 + lit) as u8),
            Op::SkipKey(v) => ((0xe0 + v) as u8, 0x9e),
            Op::SkipNoKey(v) => ((0xe0 + v) as u8, 0xa1),
            Op::GetDelay(v) => ((0xf0 + v) as u8, 0x07),
            Op::GetKey(v) => ((0xf0 + v) as u8, 0x0a),
            Op::Delay(v) => ((0xf0 + v) as u8, 0x15),
            Op::Sound(v) => ((0xf0 + v) as u8, 0x18),
            Op::AddI(v) => ((0xf0 + v) as u8, 0x1e),
            Op::SpriteChar(v) => ((0xf0 + v) as u8, 0x29),
            Op::MovBcd(v) => ((0xf0 + v) as u8, 0x33),
            Op::RegDump(v) => ((0xf0 + v) as u8, 0x55),
            Op::RegLoad(v) => ((0xf0 + v) as u8, 0x65),
        }
    }

    /// Every instruction whose operands fit their fields is what its own
    /// two bytes decode to: the decoder knows the whole instruction set and
    /// loses no operand.
    pub proof fn lemma_decode_encoding(op: Op)
        requires
            op.wf(),
        ensures
            Op::decode(op.encoding().0, op.encoding().1) == Ok::<Op, DecodeError>(op),
    {
    }

    /// Every instruction that decoding gives has operands that fit their
    /// fields.
    pub proof fn lemma_decode_wf(byte1: u8, byte2: u8)
        ensures
            Op::decode(byte1, byte2) matches Ok(op) ==> op.wf(),
    {
    }

    /// Decodes the two bytes of an instruction.
    ///
    /// Any two bytes are accepted; those that are no instruction come back
    /// in the error.
    pub fn new(byte1: u8, byte2: u8) -> (res: Result<Self, DecodeError>)
        ensures
            res == Op::decode(byte1, byte2),
            res matches Ok(op) ==> op.wf(),
    {
        let bad_instruction_error = Err(DecodeError { byte1, byte2 });

        let first_nibble: u8 = byte1 >> 4;
        let last_nibble: u8 = byte2 & 0x0f;
        assert(byte1 >> 4 == byte1 / 16) by (bit_vector);
        assert(byte2 & 0x0f == byte2 % 16) by (bit_vector);
        match first_nibble {
            0x0 => match byte2 {
                0xE0 => Ok(Op::Cls),
                0xEE => Ok(Op::Rts),
                _ => bad_instruction_error,
            },
            0x1 => Ok(Op::Jump(addr_from_opcode(byte1, byte2))),
            0x2 => Ok(Op::Call(addr_from_opcode(byte1, byte2))),
            0x3 => Ok(Op::SkipEqLit { v: reg1_from_opcode(byte1, byte2), lit: byte2 }),
            0x4 => Ok(Op::SkipNeLit { v: reg1_from_opcode(byte1, byte2), lit: byte2 }),
            0x5 => match last_nibble {
                0x0 => Ok(
                    Op::SkipEq {
                        v: reg1_from_opcode(byte1, byte2),
                        v2: reg2_from_opcode(byte1, byte2),
                    },
                ),
                _ => bad_instruction_error,
            },
            0x6 => Ok(Op::MviLit { v: reg1_from_opcode(byte1, byte2), lit: byte2 }),
            0x7 => Ok(Op::AdiLit { v: reg1_from_opcode(byte1, byte2), lit: byte2 }),
            0x8 => {
                let v: u8 = reg1_from_opcode(byte1, byte2);
                let v2: u8 = reg2_from_opcode(byte1, byte2);
                match last_nibble {
                    0x0 => Ok(Op::Mov { v, v2 }),
                    0x1 => Ok(Op::Or { v, v2 }),
                    0x2 => Ok(Op::And { v, v2 }),
                    0x3 => Ok(Op::Xor { v, v2 }),
                    0x4 => Ok(Op::Add { v, v2 }),
                    0x5 => Ok(Op::Sub { v, v2 }),
                    0x6 => Ok(Op::Shr(v)),
                    0x7 => Ok(Op::Subb { v, v2 }),
                    0xe => Ok(Op::Shl(v)),
                    _ => bad_instruction_error,
                }
            },
            0x9 => Ok(
                Op::SkipNe {
                    v: reg1_from_opcode(byte1, byte2),
                    v2: reg2_from_opcode(byte1, byte2),
                },
            ),
            0xa => Ok(Op::SetI(addr_from_opcode(byte1, byte2))),
            0xb => Ok(Op::JumpPlusV0(addr_from_opcode(byte1, byte2))),
            0xc => Ok(Op::Rand { v: reg1_from_opcode(byte1, byte2), lit: byte2 }),
            0xd => Ok(
                Op::Draw {
                    v: reg1_from_opcode(byte1, byte2),
                    v2: reg2_from_opcode(byte1, byte2),
                    lit: last_nibble,
                },
            ),
            0xe => match byte2 {
                0x9e => Ok(Op::SkipKey(reg1_from_opcode(byte1, byte2))),
                0xa1 => Ok(Op::SkipNoKey(reg1_from_opcode(byte1, byte2))),
                _ => bad_instruction_error,
            },
            _ => match byte2 {
                0x07 => Ok(Op::GetDelay(reg1_from_opcode(byte1, byte2))),
                0x0A => Ok(Op::GetKey(reg1_from_opcode(byte1, byte2))),
                0x15 => Ok(Op::Delay(reg1_from_opcode(byte1, byte2))),
                0x18 => Ok(Op::Sound(reg1_from_opcode(byte1, byte2))),
                0x1e => Ok(Op::AddI(reg1_from_opcode(byte1, byte2))),
                0x29 => Ok(Op::SpriteChar(reg1_from_opcode(byte1, byte2))),
                0x33 => Ok(Op::MovBcd(reg1_from_opcode(byte1, byte2))),
                0x55 => Ok(Op::RegDump(reg1_from_opcode(byte1, byte2))),
                0x65 => Ok(Op::RegLoad(reg1_from_opcode(byte1, byte2))),
                _ => bad_instruction_error,
            },
        }
    }

    /// The assembly mnemonic of the instruction.
    pub open spec fn mnemonic(self) -> Seq<char> {
        match self {
            Op::Cls => "CLS"@,
            Op::Rts => "RTS"@,
            Op::Jump(_) | Op::JumpPlusV0(_) => "JUMP"@,
            Op::Call(_) => "CALL"@,
            Op::Shr(_) => "SHR."@,
            Op::Shl(_) => "SHL."@,
            Op::SetI(_) | Op::MviLit { .. } => "MVI"@,
            Op::SkipKey(_) => "SKIP.KEY"@,
            Op::SkipNoKey(_) => "SKIP.NOKEY"@,
            Op::GetDelay(_) | Op::Delay(_) | Op::Sound(_) | Op::Mov { .. } => "MOV"@,
            Op::GetKey(_) => "WAITKEY"@,
            Op::AddI(_) => "ADD"@,
            Op::SpriteChar(_) => "SPRITECHAR"@,
            Op::MovBcd(_) => "MOVBCD"@,
            Op::RegDump(_) | Op::RegLoad(_) => "MOVM"@,
            Op::Or { .. } => "OR"@,
            Op::And { .. } => "AND"@,
            Op::Xor { .. } => "XOR"@,
            Op::Add { .. } => "ADD."@,
            Op::Sub { .. } => "SUB."@,
            Op::Subb { .. } => "SUBB."@,
            Op::SkipNe { .. } | Op::SkipNeLit { .. } => "SKIP.NE"@,
            Op::SkipEqLit { .. } | Op::SkipEq { .. } => "SKIP.EQ"@,
            Op::AdiLit { .. } => "ADI"@,
            Op::Rand { .. } => "RNDMSK"@,
            Op::Draw { .. } => "SPRITE"@,
        }
    }

    /// The operand text of the instruction: registers as `V` and a hex
    /// digit, literals after `#$`, addresses after `$`, memory at the index
    /// register as `(I)`.
    pub open spec fn operands(self) -> Seq<char> {
        match self {
            Op::Cls | Op::Rts => Seq::empty(),
            Op::Jump(address) | Op::Call(address) => "$"@ + hex(address as nat, 3, false),
            Op::SkipEqLit { v, lit }
            | Op::SkipNeLit { v, lit }
            | Op::MviLit { v, lit }
            | Op::AdiLit { v, lit }
            | Op::Rand { v, lit } => "V"@ + hex(v as nat, 1, false) + ", #$"@ + hex(
                lit as nat,
                2,
                false,
            ),
            Op::SkipEq { v, v2 }
            | Op::Mov { v, v2 }
            | Op::Or { v, v2 }
            | Op::And { v, v2 }
            | Op::Xor { v, v2 }
            | Op::Add { v, v2 }
            | Op::Sub { v, v2 }
            | Op::Subb { v, v2 }
            | Op::SkipNe { v, v2 } => "V"@ + hex(v as nat, 1, false) + ", V"@ + hex(
                v2 as nat,
                1,
                false,
            ),
            Op::Shr(v)
            | Op::Shl(v)
            | Op::SkipKey(v)
            | Op::SkipNoKey(v)
            | Op::GetKey(v)
            | Op::SpriteChar(v)
            | Op::MovBcd(v) => "V"@ + hex(v as nat, 1, false),
            Op::GetDelay(v) => "V"@ + hex(v as nat, 1, false) + ", DELAY"@,
            Op::Delay(v) => "DELAY, V"@ + hex(v as nat, 1, false),
            Op::Sound(v) => "SOUND, V"@ + hex(v as nat, 1, false),
            Op::AddI(v) => "I, V"@ + hex(v as nat, 1, false),
            Op::RegDump(v) => "(I), V0-V"@ + hex(v as nat, 1, false),
            Op::RegLoad(v) => "V0-V"@ + hex(v as nat, 1, false) + ", (I)"@,
            Op::SetI(address) => "I, #$"@ + hex(address as nat, 3, false),
            Op::JumpPlusV0(address) => "#$"@ + hex(address as nat, 3, false) + "(V0)"@,
            Op::Draw { v, v2, lit } => "V"@ + hex(v as nat, 1, false) + ", V"@ + hex(
                v2 as nat,
                1,
                false,
            ) + ", #$"@ + hex(lit as nat, 1, false),
        }
    }

    /// The mnemonic of the instruction.
    pub fn instruction(&self) -> (name: &'static str)
        ensures
            name@ == self.mnemonic(),
    {
        match self {
            Op::Cls => "CLS",
            Op::Rts => "RTS",
            Op::Jump(_) | Op::JumpPlusV0(_) => "JUMP",
            Op::Call(_) => "CALL",
            Op::Shr(_) => "SHR.",
            Op::Shl(_) => "SHL.",
            Op::SetI(_) | Op::MviLit { .. } => "MVI",
            Op::SkipKey(_) => "SKIP.KEY",
            Op::SkipNoKey(_) => "SKIP.NOKEY",
            Op::GetDelay(_) | Op::Delay(_) | Op::Sound(_) | Op::Mov { .. } => "MOV",
            Op::GetKey(_) => "WAITKEY",
            Op::AddI(_) => "ADD",
            Op::SpriteChar(_) => "SPRITECHAR",
            Op::MovBcd(_) => "MOVBCD",
            Op::RegDump(_) | Op::RegLoad(_) => "MOVM",
            Op::Or { .. } => "OR",
            Op::And { .. } => "AND",
            Op::Xor { .. } => "XOR",
            Op::Add { .. } => "ADD.",
            Op::Sub { .. } => "SUB.",
            Op::Subb { .. } => "SUBB.",
            Op::SkipNe { .. } | Op::SkipNeLit { .. } => "SKIP.NE",
            Op::SkipEqLit { .. } | Op::SkipEq { .. } => "SKIP.EQ",
            Op::AdiLit { .. } => "ADI",
            Op::Rand { .. } => "RNDMSK",
            Op::Draw { .. } => "SPRITE",
        }
    }

    /// Renders the instruction as two columns of assembly text: the mnemonic,
    /// left-aligned in ten characters and followed by one space, and the
    /// operands.
    pub fn disassemble(self) -> (text: (String, String))
        ensures
            text.0@ == left_aligned(self.mnemonic(), 10) + seq![' '],
            text.1@ == self.operands(),
    {
        let instruction = self.instruction();
        let mut args = String::new();
        match self {
            Op::Cls | Op::Rts => {},
            Op::Jump(address) | Op::Call(address) => {
                args.append("$");
                push_hex(&mut args, address, 3, false);
            },
            Op::SkipEqLit { v, lit }
            | Op::SkipNeLit { v, lit }
            | Op::MviLit { v, lit }
            | Op::AdiLit { v, lit }
            | Op::Rand { v, lit } => {
                args.append("V");
                push_hex(&mut args, v as u16, 1, false);
                args.append(", #$");
                push_hex(&mut args, lit as u16, 2, false);
            },
            Op::SkipEq { v, v2 }
            | Op::Mov { v, v2 }
            | Op::Or { v, v2 }
            | Op::And { v, v2 }
            | Op::Xor { v, v2 }
            | Op::Add { v, v2 }
            | Op::Sub { v, v2 }
            | Op::Subb { v, v2 }
            | Op::SkipNe { v, v2 } => {
                args.append("V");
                push_hex(&mut args, v as u16, 1, false);
                args.append(", V");
                push_hex(&mut args, v2 as u16, 1, false);
            },
            Op::Shr(v)
            | Op::Shl(v)
            | Op::SkipKey(v)
            | Op::SkipNoKey(v)
            | Op::GetKey(v)
            | Op::SpriteChar(v)
            | Op::MovBcd(v) => {
                args.append("V");
                push_hex(&mut args, v as u16, 1, false);
            },
            Op::GetDelay(v) => {
                args.append("V");
                push_hex(&mut args, v as u16, 1, false);
                args.append(", DELAY");
            },
            Op::Delay(v) => {
                args.append("DELAY, V");
                push_hex(&mut args, v as u16, 1, false);
            },
            Op::Sound(v) => {
                args.append("SOUND, V");
                push_hex(&mut args, v as u16, 1, false);
            },
            Op::AddI(v) => {
                args.append("I, V");
                push_hex(&mut args, v as u16, 1, false);
            },
            Op::RegDump(v) => {
                args.append("(I), V0-V");
                push_hex(&mut args, v as u16, 1, false);
            },
            Op::RegLoad(v) => {
                args.append("V0-V");
                push_hex(&mut args, v as u16, 1, false);
                args.append(", (I)");
            },
            Op::SetI(address) => {
                args.append("I, #$");
                push_hex(&mut args, address, 3, false);
            },
            Op::JumpPlusV0(address) => {
                args.append("#$");
                push_hex(&mut args, address, 3, false);
                args.append("(V0)");
            },
            Op::Draw { v, v2, lit } => {
                args.append("V");
                push_hex(&mut args, v as u16, 1, false);
                args.append(", V");
                push_hex(&mut args, v2 as u16, 1, false);
                args.append(", #$");
                push_hex(&mut args, lit as u16, 1, false);
            },
        }
        let mut column = pad_right(instruction, 10);
        column.append(" ");
        proof {
            reveal_strlit(" ");
        }
        (column, args)
    }
}

} // verus!
