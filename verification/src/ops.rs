//! The vocabulary of the processor: registers, operand locations,
//! status flags, jump conditions, and the decoded instructions.

use vstd::prelude::*;

verus! {

/// One of the sixteen 8-bit registers: the primary bank A, F, B, C, D,
/// E, H, L and the shadow bank AP through LP ("A-prime" and so on).
/// The shadow bank is stored but never swapped in.
#[allow(non_camel_case_types)]
#[derive(Clone, Copy, PartialEq, Eq, Structural, Debug)]
pub enum Reg8 {
    A,
    F,
    B,
    C,
    D,
    E,
    H,
    L,
    AP,
    FP,
    BP,
    CP,
    DP,
    EP,
    HP,
    LP,
}

/// A 16-bit register: a pair of 8-bit registers read as one word with
/// the first-named register as the high byte (AF is A over F), or the
/// stack pointer, which is an independent 16-bit register.
#[allow(non_camel_case_types)]
#[derive(Clone, Copy, PartialEq, Eq, Structural, Debug)]
pub enum Reg16 {
    AF,
    BC,
    DE,
    HL,
    AFP,
    BCP,
    DEP,
    HLP,
    SP,
}

/// Where an 8-bit operand lives: a register, the memory cell a register
/// pair points at, an immediate byte, or the memory cell an immediate
/// address points at. Writing to `Immediate` is a programming error and
/// is excluded before execution.
#[derive(Clone, Copy, PartialEq, Eq, Structural, Debug)]
pub enum Location8 {
    Reg(Reg8),
    RegIndirect(Reg16),
    Immediate(u8),
    ImmediateIndirect(u16),
}

/// Where a 16-bit operand lives; word-sized memory accesses are
/// little-endian.
#[derive(Clone, Copy, PartialEq, Eq, Structural, Debug)]
pub enum Location16 {
    Reg(Reg16),
    RegIndirect(Reg16),
    Immediate(u16),
    ImmediateIndirect(u16),
}

/// The six defined bits of the flag register F.
#[derive(Clone, Copy, PartialEq, Eq, Structural, Debug)]
pub enum StatusFlag {
    Carry,
    AddSubtract,
    ParityOverflow,
    HalfCarry,
    Zero,
    Sign,
}

/// A condition under which a jump, call or return is taken, evaluated
/// against the current flags.
#[derive(Clone, Copy, PartialEq, Eq, Structural, Debug)]
pub enum JumpConditional {
    Unconditional,
    Carry,
    NoCarry,
    Zero,
    NonZero,
    ParityEven,
    ParityOdd,
    SignNegative,
    SignPositive,
}

/// A decoded instruction, as a fetch/decode front-end hands it over.
/// DAA is listed so a decoder can produce it, but it is not
/// implemented: executing it is excluded up front.
#[allow(non_camel_case_types)]
#[derive(Clone, Copy, PartialEq, Eq, Structural, Debug)]
pub enum Op {
    LD8(Location8, Location8),
    LD16(Location16, Location16),
    PUSH(Location16),
    POP(Location16),
    ADD8(Location8, Location8),
    ADC(Location8, Location8),
    INC(Location8),
    SUB8(Location8, Location8),
    SBC(Location8, Location8),
    DEC(Location8),
    CP(Location8),
    AND(Location8),
    OR(Location8),
    XOR(Location8),
    CPL,
    NEG,
    DAA,
    CCF,
    SCF,
    NOP,
    HALT,
    RLCA,
    RLA,
    RRCA,
    RRA,
    RLC(Location8),
    RL(Location8),
    RRC(Location8),
    RR(Location8),
    SLA(Location8),
    SRA(Location8),
    SRL(Location8),
    RLD,
    RRD,
    BIT(u8, Location8),
    SET(u8, Location8),
    RES(u8, Location8),
    IN(Location8, Location8),
    OUT(Location8, Location8),
    JP(JumpConditional, Location16),
    JR(JumpConditional, i8),
    DJNZ(i8),
    CALL(JumpConditional, u16),
    RET(JumpConditional),
}

} // verus!
