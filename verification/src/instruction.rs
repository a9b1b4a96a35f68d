//! The decoded instruction model: a closed tagged variant for every LR35902
//! instruction, with operand-shape enumerations for the operand positions.
use vstd::prelude::*;

verus! {

/// A decoded instruction.
#[derive(PartialEq, Eq, Structural, Debug, Clone, Copy)]
pub enum Inst {
    /// 0xCB, the prefix of the two-byte bit-manipulation instructions.
    Prefix,
    // Control
    NoOp,
    Halt,
    Stop,
    /// Disable interrupts.
    Di,
    /// Enable interrupts.
    Ei,
    // Load and stack operations
    Ld8(Operand, Operand),
    Ld16(Operand, Operand),
    /// `LD HL, SP + d8` with a signed 8-bit offset.
    LdHlSp,
    Push(Reg16),
    Pop(Reg16),
    // Jumps
    /// Absolute jump.
    JumpAddr(Cond),
    /// Jump to the address stored in HL.
    JumpHl,
    /// Relative jump with an 8-bit signed offset.
    JumpRelative(Cond),
    Call(Cond),
    Ret(Cond),
    /// Return and enable interrupts.
    Reti,
    /// Shorthand call to one of eight fixed locations.
    Rst(u8),
    // Arithmetic
    Add(Operand),
    AddHl(Reg16),
    /// Add an immediate 8-bit signed value to SP.
    AddSp,
    Adc(Operand),
    Sub(Operand),
    Sbc(Operand),
    And(Operand),
    Xor(Operand),
    Or(Operand),
    /// Compare: subtract without writing the result back.
    Cp(Operand),
    Inc8(Operand),
    Inc16(Reg16),
    Dec8(Operand),
    Dec16(Reg16),
    // Rotations and shifts
    /// The flag says whether the zero flag is computed (the CB-prefixed
    /// forms) or forced clear (the A-only forms).
    Rotate(Rotation, Operand, bool),
    Shift(ShiftType, Operand),
    /// Swap the two nibbles of the operand.
    Swap(Operand),
    TestBit(u8, Operand),
    ResetBit(u8, Operand),
    SetBit(u8, Operand),
    // Assorted operations on the accumulator or the flags
    DecimalAdjustA,
    ComplementA,
    SetCarryFlag,
    ComplementCarryFlag,
}

/// Where an instruction finds or stores a value.
#[derive(PartialEq, Eq, Structural, Debug, Clone, Copy)]
pub enum Operand {
    /// Immediate 8-bit data.
    D8,
    /// Immediate 16-bit data.
    D16,
    /// Immediate 8-bit address with an implied 0xFF high byte.
    A8,
    /// Immediate 16-bit address.
    A16,
    /// An 8-bit register.
    R8(Reg8),
    /// A 16-bit register.
    R16(Reg16),
    /// The address stored in a 16-bit register.
    IndR16(Reg16),
    /// The value at address 0xFF00 + register C.
    IndHighPlusC,
}

#[derive(PartialEq, Eq, Structural, Debug, Clone, Copy)]
pub enum Rotation {
    LeftThroughCarry,
    LeftCircular,
    RightThroughCarry,
    RightCircular,
}

#[derive(PartialEq, Eq, Structural, Debug, Clone, Copy)]
pub enum ShiftType {
    LeftArithmetic,
    RightArithmetic,
    RightLogic,
}

#[derive(PartialEq, Eq, Structural, Debug, Clone, Copy)]
pub enum Cond {
    Always,
    NotZero,
    Zero,
    NotCarry,
    Carry,
}

#[derive(PartialEq, Eq, Structural, Debug, Clone, Copy)]
pub enum Reg8 {
    A,
    B,
    C,
    D,
    E,
    H,
    L,
}

#[derive(PartialEq, Eq, Structural, Debug, Clone, Copy)]
pub enum Reg16 {
    Af,
    Bc,
    De,
    Hl,
    /// HL with post-increment: reads return HL and then advance it.
    HlIncr,
    /// HL with post-decrement: reads return HL and then decrement it.
    HlDecr,
    Sp,
    Pc,
}

} // verus!
