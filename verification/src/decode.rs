//! The opcode decoder: two pure, total functions from a `u8` opcode to the
//! decoded instruction, one for the plain table and one for the 0xCB-prefixed
//! table. The unprefixed table is driven by the canonical field split
//! `x = bits 7..6`, `y = bits 5..3`, `z = bits 2..0`, `p = y >> 1`, `q = y & 1`.
use vstd::prelude::*;

use crate::instruction::Cond;
use crate::instruction::Inst;
use crate::instruction::Operand;
use crate::instruction::Reg16;
use crate::instruction::Reg8;
use crate::instruction::Rotation;
use crate::instruction::ShiftType;

verus! {

/// The operand selected by a 3-bit field: `B,C,D,E,H,L,(HL),A`.
pub open spec fn spec_operand(code: u8) -> Operand {
    if code == 0 {
        Operand::R8(Reg8::B)
    } else if code == 1 {
        Operand::R8(Reg8::C)
    } else if code == 2 {
        Operand::R8(Reg8::D)
    } else if code == 3 {
        Operand::R8(Reg8::E)
    } else if code == 4 {
        Operand::R8(Reg8::H)
    } else if code == 5 {
        Operand::R8(Reg8::L)
    } else if code == 6 {
        Operand::IndR16(Reg16::Hl)
    } else {
        Operand::R8(Reg8::A)
    }
}

/// The register pair selected by a 2-bit field in the `rp` column:
/// `BC,DE,HL,SP`.
pub open spec fn spec_rp_table(code: u8) -> Reg16 {
    if code == 0 {
        Reg16::Bc
    } else if code == 1 {
        Reg16::De
    } else if code == 2 {
        Reg16::Hl
    } else {
        Reg16::Sp
    }
}

/// The register pair selected by a 2-bit field in the `rp2` column (push and
/// pop): `BC,DE,HL,AF`.
pub open spec fn spec_rp2_table(code: u8) -> Reg16 {
    if code == 0 {
        Reg16::Bc
    } else if code == 1 {
        Reg16::De
    } else if code == 2 {
        Reg16::Hl
    } else {
        Reg16::Af
    }
}

/// The jump condition selected by a 2-bit field: `NZ,Z,NC,C`.
pub open spec fn spec_cond(code: u8) -> Cond {
    if code == 0 {
        Cond::NotZero
    } else if code == 1 {
        Cond::Zero
    } else if code == 2 {
        Cond::NotCarry
    } else {
        Cond::Carry
    }
}

/// The accumulator operation selected by the `y` field of the `x = 2` block
/// and of the `x = 3, z = 6` immediate column.
pub open spec fn spec_arithmetic_logic(y: u8, operand: Operand) -> Inst {
    if y == 0 {
        Inst::Add(operand)
    } else if y == 1 {
        Inst::Adc(operand)
    } else if y == 2 {
        Inst::Sub(operand)
    } else if y == 3 {
        Inst::Sbc(operand)
    } else if y == 4 {
        Inst::And(operand)
    } else if y == 5 {
        Inst::Xor(operand)
    } else if y == 6 {
        Inst::Or(operand)
    } else {
        Inst::Cp(operand)
    }
}

/// The canonical unprefixed LR35902 table, total on all 256 opcodes.
pub open spec fn spec_decode_unprefixed(opcode: u8) -> Inst {
    let x = opcode >> 6;
    let y = (opcode & 0x38) >> 3;
    let z = opcode & 0x07;
    let p = y >> 1;
    let q = y & 1;
    if x == 0 {
        if z == 0 {
            if y == 0 {
                Inst::NoOp
            } else if y == 1 {
                Inst::Ld16(Operand::A16, Operand::R16(Reg16::Sp))
            } else if y == 2 {
                Inst::Stop
            } else if y == 3 {
                Inst::JumpRelative(Cond::Always)
            } else {
                Inst::JumpRelative(spec_cond((y - 4) as u8))
            }
        } else if z == 1 {
            if q == 0 {
                Inst::Ld16(Operand::R16(spec_rp_table(p)), Operand::D16)
            } else {
                Inst::AddHl(spec_rp_table(p))
            }
        } else if z == 2 {
            if y == 0 {
                Inst::Ld8(Operand::IndR16(Reg16::Bc), Operand::R8(Reg8::A))
            } else if y == 1 {
                Inst::Ld8(Operand::R8(Reg8::A), Operand::IndR16(Reg16::Bc))
            } else if y == 2 {
                Inst::Ld8(Operand::IndR16(Reg16::De), Operand::R8(Reg8::A))
            } else if y == 3 {
                Inst::Ld8(Operand::R8(Reg8::A), Operand::IndR16(Reg16::De))
            } else if y == 4 {
                Inst::Ld8(Operand::IndR16(Reg16::HlIncr), Operand::R8(Reg8::A))
            } else if y == 5 {
                Inst::Ld8(Operand::R8(Reg8::A), Operand::IndR16(Reg16::HlIncr))
            } else if y == 6 {
                Inst::Ld8(Operand::IndR16(Reg16::HlDecr), Operand::R8(Reg8::A))
            } else {
                Inst::Ld8(Operand::R8(Reg8::A), Operand::IndR16(Reg16::HlDecr))
            }
        } else if z == 3 {
            if q == 0 {
                Inst::Inc16(spec_rp_table(p))
            } else {
                Inst::Dec16(spec_rp_table(p))
            }
        } else if z == 4 {
            Inst::Inc8(spec_operand(y))
        } else if z == 5 {
            Inst::Dec8(spec_operand(y))
        } else if z == 6 {
            Inst::Ld8(spec_operand(y), Operand::D8)
        } else {
            if y == 0 {
                Inst::Rotate(Rotation::LeftCircular, Operand::R8(Reg8::A), false)
            } else if y == 1 {
                Inst::Rotate(Rotation::RightCircular, Operand::R8(Reg8::A), false)
            } else if y == 2 {
                Inst::Rotate(Rotation::LeftThroughCarry, Operand::R8(Reg8::A), false)
            } else if y == 3 {
                Inst::Rotate(Rotation::RightThroughCarry, Operand::R8(Reg8::A), false)
            } else if y == 4 {
                Inst::DecimalAdjustA
            } else if y == 5 {
                Inst::ComplementA
            } else if y == 6 {
                Inst::SetCarryFlag
            } else {
                Inst::ComplementCarryFlag
            }
        }
    } else if x == 1 {
        if y == 6 && z == 6 {
            Inst::Halt
        } else {
            Inst::Ld8(spec_operand(y), spec_operand(z))
        }
    } else if x == 2 {
        spec_arithmetic_logic(y, spec_operand(z))
    } else {
        if z == 0 {
            if y <= 3 {
                Inst::Ret(spec_cond(y))
            } else if y == 4 {
                Inst::Ld8(Operand::A8, Operand::R8(Reg8::A))
            } else if y == 5 {
                Inst::AddSp
            } else if y == 6 {
                Inst::Ld8(Operand::R8(Reg8::A), Operand::A8)
            } else {
                Inst::LdHlSp
            }
        } else if z == 1 {
            if q == 0 {
                Inst::Pop(spec_rp2_table(p))
            } else if p == 0 {
                Inst::Ret(Cond::Always)
            } else if p == 1 {
                Inst::Reti
            } else if p == 2 {
                Inst::JumpHl
            } else {
                Inst::Ld16(Operand::R16(Reg16::Sp), Operand::R16(Reg16::Hl))
            }
        } else if z == 2 {
            if y <= 3 {
                Inst::JumpAddr(spec_cond(y))
            } else if y == 4 {
                Inst::Ld8(Operand::IndHighPlusC, Operand::R8(Reg8::A))
            } else if y == 5 {
                Inst::Ld8(Operand::A16, Operand::R8(Reg8::A))
            } else if y == 6 {
                Inst::Ld8(Operand::R8(Reg8::A), Operand::IndHighPlusC)
            } else {
                Inst::Ld8(Operand::R8(Reg8::A), Operand::A16)
            }
        } else if z == 3 {
            if y == 0 {
                Inst::JumpAddr(Cond::Always)
            } else if y == 1 {
                Inst::Prefix
            } else if y <= 5 {
                Inst::NoOp
            } else if y == 6 {
                Inst::Di
            } else {
                Inst::Ei
            }
        } else if z == 4 {
            if y <= 3 {
                Inst::Call(spec_cond(y))
            } else {
                Inst::NoOp
            }
        } else if z == 5 {
            if q == 0 {
                Inst::Push(spec_rp2_table(p))
            } else if p == 0 {
                Inst::Call(Cond::Always)
            } else {
                Inst::NoOp
            }
        } else if z == 6 {
            spec_arithmetic_logic(y, Operand::D8)
        } else {
            Inst::Rst((y * 8) as u8)
        }
    }
}

/// The CB-prefixed table: eight rotate/shift/swap groups of eight, then
/// `BIT`, `RES` and `SET` over the operand column.
pub open spec fn spec_decode_prefixed(opcode: u8) -> Inst {
    let y = (opcode & 0x38) >> 3;
    let z = opcode & 0x07;
    let operand = spec_operand(z);
    if opcode < 0x08 {
        Inst::Rotate(Rotation::LeftCircular, operand, true)
    } else if opcode < 0x10 {
        Inst::Rotate(Rotation::RightCircular, operand, true)
    } else if opcode < 0x18 {
        Inst::Rotate(Rotation::LeftThroughCarry, operand, true)
    } else if opcode < 0x20 {
        Inst::Rotate(Rotation::RightThroughCarry, operand, true)
    } else if opcode < 0x28 {
        Inst::Shift(ShiftType::LeftArithmetic, operand)
    } else if opcode < 0x30 {
        Inst::Shift(ShiftType::RightArithmetic, operand)
    } else if opcode < 0x38 {
        Inst::Swap(operand)
    } else if opcode < 0x40 {
        Inst::Shift(ShiftType::RightLogic, operand)
    } else if opcode < 0x80 {
        Inst::TestBit(y, operand)
    } else if opcode < 0xC0 {
        Inst::ResetBit(y, operand)
    } else {
        Inst::SetBit(y, operand)
    }
}

fn operand(code: u8) -> (r: Operand)
    requires
        code < 8,
    ensures
        r == spec_operand(code),
{
    match code {
        0 => Operand::R8(Reg8::B),
        1 => Operand::R8(Reg8::C),
        2 => Operand::R8(Reg8::D),
        3 => Operand::R8(Reg8::E),
        4 => Operand::R8(Reg8::H),
        5 => Operand::R8(Reg8::L),
        6 => Operand::IndR16(Reg16::Hl),
        _ => Operand::R8(Reg8::A),
    }
}

fn rp_table(code: u8) -> (r: Reg16)
    requires
        code < 4,
    ensures
        r == spec_rp_table(code),
{
    match code {
        0 => Reg16::Bc,
        1 => Reg16::De,
        2 => Reg16::Hl,
        _ => Reg16::Sp,
    }
}

fn rp2_table(code: u8) -> (r: Reg16)
    requires
        code < 4,
    ensures
        r == spec_rp2_table(code),
{
    match code {
        0 => Reg16::Bc,
        1 => Reg16::De,
        2 => Reg16::Hl,
        _ => Reg16::Af,
    }
}

fn cond(code: u8) -> (r: Cond)
    requires
        code < 4,
    ensures
        r == spec_cond(code),
{
    match code {
        0 => Cond::NotZero,
        1 => Cond::Zero,
        2 => Cond::NotCarry,
        _ => Cond::Carry,
    }
}

fn arithmetic_logic(y: u8, z: u8, immediate: bool) -> (r: Inst)
    requires
        y < 8,
        z < 8,
    ensures
        r == spec_arithmetic_logic(y, if immediate {
            Operand::D8
        } else {
            spec_operand(z)
        }),
{
    let operand = if immediate {
        Operand::D8
    } else {
        operand(z)
    };
    match y {
        0 => Inst::Add(operand),
        1 => Inst::Adc(operand),
        2 => Inst::Sub(operand),
        3 => Inst::Sbc(operand),
        4 => Inst::And(operand),
        5 => Inst::Xor(operand),
        6 => Inst::Or(operand),
        _ => Inst::Cp(operand),
    }
}

/// Decodes one unprefixed opcode; total on `u8`, with no side effects.
/// Opcode 0xCB decodes to the sentinel `Prefix`.
pub fn decode_unprefixed(opcode: u8) -> (r: Inst)
    ensures
        r == spec_decode_unprefixed(opcode),
{
    let x = opcode >> 6;
    let y = (opcode & 0x38) >> 3;
    let z = opcode & 0x07;
    let p = y >> 1;
    let q = y & 1;
    proof {
        assert(x < 4 && y < 8 && z < 8 && p < 4 && q < 2) by (bit_vector)
            requires
                x == opcode >> 6 && y == (opcode & 0x38) >> 3 && z == (opcode & 0x07) && p == y
                    >> 1 && q == y & 1,
        ;
    }
    match x {
        0 => match z {
            0 => match y {
                0 => Inst::NoOp,
                1 => Inst::Ld16(Operand::A16, Operand::R16(Reg16::Sp)),
                2 => Inst::Stop,
                3 => Inst::JumpRelative(Cond::Always),
                _ => Inst::JumpRelative(cond(y - 4)),
            },
            1 => if q == 0 {
                Inst::Ld16(Operand::R16(rp_table(p)), Operand::D16)
            } else {
                Inst::AddHl(rp_table(p))
            },
            2 => match y {
                0 => Inst::Ld8(Operand::IndR16(Reg16::Bc), Operand::R8(Reg8::A)),
                1 => Inst::Ld8(Operand::R8(Reg8::A), Operand::IndR16(Reg16::Bc)),
                2 => Inst::Ld8(Operand::IndR16(Reg16::De), Operand::R8(Reg8::A)),
                3 => Inst::Ld8(Operand::R8(Reg8::A), Operand::IndR16(Reg16::De)),
                4 => Inst::Ld8(Operand::IndR16(Reg16::HlIncr), Operand::R8(Reg8::A)),
                5 => Inst::Ld8(Operand::R8(Reg8::A), Operand::IndR16(Reg16::HlIncr)),
                6 => Inst::Ld8(Operand::IndR16(Reg16::HlDecr), Operand::R8(Reg8::A)),
                _ => Inst::Ld8(Operand::R8(Reg8::A), Operand::IndR16(Reg16::HlDecr)),
            },
            3 => if q == 0 {
                Inst::Inc16(rp_table(p))
            } else {
                Inst::Dec16(rp_table(p))
            },
            4 => Inst::Inc8(operand(y)),
            5 => Inst::Dec8(operand(y)),
            6 => Inst::Ld8(operand(y), Operand::D8),
            _ => match y {
                0 => Inst::Rotate(Rotation::LeftCircular, Operand::R8(Reg8::A), false),
                1 => Inst::Rotate(Rotation::RightCircular, Operand::R8(Reg8::A), false),
                2 => Inst::Rotate(Rotation::LeftThroughCarry, Operand::R8(Reg8::A), false),
                3 => Inst::Rotate(Rotation::RightThroughCarry, Operand::R8(Reg8::A), false),
                4 => Inst::DecimalAdjustA,
                5 => Inst::ComplementA,
                6 => Inst::SetCarryFlag,
                _ => Inst::ComplementCarryFlag,
            },
        },
        1 => if y == 6 && z == 6 {
            Inst::Halt
        } else {
            Inst::Ld8(operand(y), operand(z))
        },
        2 => arithmetic_logic(y, z, false),
        _ => match z {
            0 => match y {
                0 | 1 | 2 | 3 => Inst::Ret(cond(y)),
                4 => Inst::Ld8(Operand::A8, Operand::R8(Reg8::A)),
                5 => Inst::AddSp,
                6 => Inst::Ld8(Operand::R8(Reg8::A), Operand::A8),
                _ => Inst::LdHlSp,
            },
            1 => if q == 0 {
                Inst::Pop(rp2_table(p))
            } else {
                match p {
                    0 => Inst::Ret(Cond::Always),
                    1 => Inst::Reti,
                    2 => Inst::JumpHl,
                    _ => Inst::Ld16(Operand::R16(Reg16::Sp), Operand::R16(Reg16::Hl)),
                }
            },
            2 => match y {
                0 | 1 | 2 | 3 => Inst::JumpAddr(cond(y)),
                4 => Inst::Ld8(Operand::IndHighPlusC, Operand::R8(Reg8::A)),
                5 => Inst::Ld8(Operand::A16, Operand::R8(Reg8::A)),
                6 => Inst::Ld8(Operand::R8(Reg8::A), Operand::IndHighPlusC),
                _ => Inst::Ld8(Operand::R8(Reg8::A), Operand::A16),
            },
            3 => match y {
                0 => Inst::JumpAddr(Cond::Always),
                1 => Inst::Prefix,
                2 | 3 | 4 | 5 => Inst::NoOp,
                6 => Inst::Di,
                _ => Inst::Ei,
            },
            4 => match y {
                0 | 1 | 2 | 3 => Inst::Call(cond(y)),
                _ => Inst::NoOp,
            },
            5 => if q == 0 {
                Inst::Push(rp2_table(p))
            } else if p == 0 {
                Inst::Call(Cond::Always)
            } else {
                Inst::NoOp
            },
            6 => arithmetic_logic(y, z, true),
            _ => Inst::Rst(y * 8),
        },
    }
}

/// Decodes one CB-prefixed opcode; total on `u8`, with no side effects.
pub fn decode_prefixed(opcode: u8) -> (r: Inst)
    ensures
        r == spec_decode_prefixed(opcode),
{
    let y = (opcode & 0x38) >> 3;
    let z = opcode & 0x07;
    proof {
        assert(y < 8 && z < 8) by (bit_vector)
            requires
                y == (opcode & 0x38) >> 3 && z == (opcode & 0x07),
        ;
    }
    let operand = operand(z);
    match opcode {
        0x00..=0x07 => Inst::Rotate(Rotation::LeftCircular, operand, true),
        0x08..=0x0F => Inst::Rotate(Rotation::RightCircular, operand, true),
        0x10..=0x17 => Inst::Rotate(Rotation::LeftThroughCarry, operand, true),
        0x18..=0x1F => Inst::Rotate(Rotation::RightThroughCarry, operand, true),
        0x20..=0x27 => Inst::Shift(ShiftType::LeftArithmetic, operand),
        0x28..=0x2F => Inst::Shift(ShiftType::RightArithmetic, operand),
        0x30..=0x37 => Inst::Swap(operand),
        0x38..=0x3F => Inst::Shift(ShiftType::RightLogic, operand),
        0x40..=0x7F => Inst::TestBit(y, operand),
        0x80..=0xBF => Inst::ResetBit(y, operand),
        _ => Inst::SetBit(y, operand),
    }
}

/// The decoder's fixed points that callers depend on: 0xCB marks the prefix,
/// 0x76 (which the load block would otherwise claim) is `HALT`, and prefixed
/// 0x62 is `BIT 4, D`.
pub proof fn lemma_decoder_known_points()
    ensures
        spec_decode_unprefixed(0xCB) == Inst::Prefix,
        spec_decode_unprefixed(0x76) == Inst::Halt,
        spec_decode_prefixed(0x62) == Inst::TestBit(4, Operand::R8(Reg8::D)),
{
    assert(0xCBu8 >> 6 == 3 && (0xCBu8 & 0x38) >> 3 == 1 && (0xCBu8 & 0x07) == 3 && 0x76u8 >> 6
        == 1 && (0x76u8 & 0x38) >> 3 == 6 && (0x76u8 & 0x07) == 6 && (0x62u8 & 0x38) >> 3 == 4 && (
    0x62u8 & 0x07) == 2) by (bit_vector);
}

} // verus!
