//! The mathematical model of the processor: the machine state as a
//! ghost record, reading and writing of operand locations, the flag
//! rules of each instruction family, and `z80_step`, the function that
//! gives the meaning of one instruction as a state transformer plus an
//! optional next program counter.

use vstd::prelude::*;

use crate::mem::{addr_index, spec_read_word, spec_write_word, MEMORY_SIZE};
use crate::ops::{JumpConditional, Location16, Location8, Op, Reg16, Reg8, StatusFlag};
use crate::regs::Registers;

verus! {

/// The machine state the executor acts on: the register file, the
/// memory contents, and the halt latch. Peripheral devices stand
/// outside: an input device only injects a byte, an output device only
/// receives one.
pub struct State {
    pub regs: Registers,
    pub mem: Seq<u8>,
    pub halted: bool,
}

impl State {
    /// The memory has exactly `MEMORY_SIZE` cells.
    pub open spec fn wf(self) -> bool {
        self.mem.len() == MEMORY_SIZE
    }
}

/// The byte an 8-bit location denotes: an immediate byte, a register,
/// or a memory cell addressed by a register pair or an immediate
/// address.
pub open spec fn read_loc8(s: State, loc: Location8) -> u8 {
    match loc {
        Location8::Immediate(v) => v,
        Location8::Reg(n) => s.regs.spec_reg8(n),
        Location8::RegIndirect(p) => s.mem[addr_index(s.regs.spec_reg16(p))],
        Location8::ImmediateIndirect(a) => s.mem[addr_index(a)],
    }
}

/// The state after writing a byte to an 8-bit location. Writing to an
/// immediate is a programming error and is excluded before execution;
/// here it leaves the state unchanged.
pub open spec fn write_loc8(s: State, loc: Location8, v: u8) -> State {
    match loc {
        Location8::Immediate(_) => s,
        Location8::Reg(n) => State { regs: s.regs.with_reg8(n, v), ..s },
        Location8::RegIndirect(p) => State {
            mem: s.mem.update(addr_index(s.regs.spec_reg16(p)), v),
            ..s
        },
        Location8::ImmediateIndirect(a) => State { mem: s.mem.update(addr_index(a), v), ..s },
    }
}

/// The word a 16-bit location denotes; memory words are little-endian.
pub open spec fn read_loc16(s: State, loc: Location16) -> u16 {
    match loc {
        Location16::Immediate(v) => v,
        Location16::Reg(p) => s.regs.spec_reg16(p),
        Location16::RegIndirect(p) => spec_read_word(s.mem, s.regs.spec_reg16(p)),
        Location16::ImmediateIndirect(a) => spec_read_word(s.mem, a),
    }
}

/// The state after writing a word to a 16-bit location.
pub open spec fn write_loc16(s: State, loc: Location16, v: u16) -> State {
    match loc {
        Location16::Immediate(_) => s,
        Location16::Reg(p) => State { regs: s.regs.with_reg16(p, v), ..s },
        Location16::RegIndirect(p) => State {
            mem: spec_write_word(s.mem, s.regs.spec_reg16(p), v),
            ..s
        },
        Location16::ImmediateIndirect(a) => State { mem: spec_write_word(s.mem, a, v), ..s },
    }
}

/// An 8-bit location an instruction may write to: anything but an
/// immediate.
pub open spec fn writable8(loc: Location8) -> bool {
    !(loc matches Location8::Immediate(_))
}

/// A 16-bit location an instruction may write to: anything but an
/// immediate.
pub open spec fn writable16(loc: Location16) -> bool {
    !(loc matches Location16::Immediate(_))
}

/// Whether a jump condition holds under the current flags.
pub open spec fn cond_holds(r: Registers, cond: JumpConditional) -> bool {
    match cond {
        JumpConditional::Unconditional => true,
        JumpConditional::Carry => r.spec_flag(StatusFlag::Carry),
        JumpConditional::NoCarry => !r.spec_flag(StatusFlag::Carry),
        JumpConditional::Zero => r.spec_flag(StatusFlag::Zero),
        JumpConditional::NonZero => !r.spec_flag(StatusFlag::Zero),
        JumpConditional::ParityEven => r.spec_flag(StatusFlag::ParityOverflow),
        JumpConditional::ParityOdd => !r.spec_flag(StatusFlag::ParityOverflow),
        JumpConditional::SignNegative => r.spec_flag(StatusFlag::Sign),
        JumpConditional::SignPositive => !r.spec_flag(StatusFlag::Sign),
    }
}

/// Even parity: the number of one bits is even.
pub open spec fn parity8(v: u8) -> bool {
    ((v & 1) + ((v >> 1) & 1) + ((v >> 2) & 1) + ((v >> 3) & 1) + ((v >> 4) & 1) + ((v >> 5) & 1)
        + ((v >> 6) & 1) + ((v >> 7) & 1)) % 2 == 0
}

/// Bit 7 of a byte, the sign of its two's-complement reading.
pub open spec fn bit7(v: u8) -> bool {
    v >= 0x80
}

/// Bit 0 of a byte.
pub open spec fn bit0(v: u8) -> bool {
    v % 2 == 1
}

/// Sixteen-bit addition, wrapping around the address space.
pub open spec fn wrap_add16(a: u16, d: u16) -> u16 {
    ((a + d) % 0x10000) as u16
}

/// Sixteen-bit subtraction, wrapping around the address space.
pub open spec fn wrap_sub16(a: u16, d: u16) -> u16 {
    ((a - d) % 0x10000) as u16
}

/// The target of a relative jump: the program counter plus two (the
/// length of the instruction) plus the signed offset, wrapping.
pub open spec fn pc_rel(pc: u16, offset: i8) -> u16 {
    ((pc + 2 + offset) % 0x10000) as u16
}

/// A byte decremented by one, wrapping.
pub open spec fn dec8(v: u8) -> u8 {
    if v == 0 {
        255
    } else {
        (v - 1) as u8
    }
}

/// The flag updates every ADD, ADC and INC performs, written
/// over the wide (unwrapped) sum so that carry and half-carry are the
/// true carries out of bits 7 and 3. INC leaves the carry flag alone.
pub open spec fn spec_add(
    s: State,
    dst: Location8,
    src: Location8,
    include_carry: bool,
    set_carry: bool,
) -> State {
    let v1 = read_loc8(s, dst);
    let v2 = read_loc8(s, src);
    let cin: int = if include_carry && s.regs.spec_flag(StatusFlag::Carry) {
        1
    } else {
        0
    };
    let result = ((v1 + v2 + cin) % 256) as u8;
    let s1 = write_loc8(s, dst, result);
    let r1 = if set_carry {
        s1.regs.with_flag(StatusFlag::Carry, v1 + v2 + cin > 0xFF)
    } else {
        s1.regs
    };
    let r2 = r1.with_flag(StatusFlag::AddSubtract, false);
    let r3 = r2.with_flag(
        StatusFlag::ParityOverflow,
        bit7(v1) == bit7(v2) && bit7(result) != bit7(v1),
    );
    let r4 = r3.with_flag(StatusFlag::HalfCarry, v1 % 16 + v2 % 16 + cin > 0xF);
    let r5 = r4.with_flag(StatusFlag::Zero, result == 0);
    let r6 = r5.with_flag(StatusFlag::Sign, bit7(result));
    State { regs: r6, ..s1 }
}

/// The flag updates every SUB, SBC, DEC and CP performs: carry is the
/// true unsigned borrow, half-carry the borrow out of bit 3, and
/// parity/overflow the two's-complement overflow. CP discards the
/// result; DEC leaves the carry flag alone.
pub open spec fn spec_sub(
    s: State,
    dst: Location8,
    src: Location8,
    include_carry: bool,
    store_result: bool,
    set_carry: bool,
) -> State {
    let v1 = read_loc8(s, dst);
    let v2 = read_loc8(s, src);
    let bin: int = if include_carry && s.regs.spec_flag(StatusFlag::Carry) {
        1
    } else {
        0
    };
    let result = ((v1 - v2 - bin) % 256) as u8;
    let s1 = if store_result {
        write_loc8(s, dst, result)
    } else {
        s
    };
    let r1 = if set_carry {
        s1.regs.with_flag(StatusFlag::Carry, v1 < v2 + bin)
    } else {
        s1.regs
    };
    let r2 = r1.with_flag(StatusFlag::AddSubtract, true);
    let r3 = r2.with_flag(
        StatusFlag::ParityOverflow,
        bit7(v1) != bit7(v2) && bit7(result) != bit7(v1),
    );
    let r4 = r3.with_flag(StatusFlag::HalfCarry, v1 % 16 < v2 % 16 + bin);
    let r5 = r4.with_flag(StatusFlag::Zero, result == 0);
    let r6 = r5.with_flag(StatusFlag::Sign, bit7(result));
    State { regs: r6, ..s1 }
}

/// The sign, zero and parity updates shared by the logical, rotate and
/// nibble-rotate families: P/V becomes the even parity of the result.
pub open spec fn spec_szp(r: Registers, v: u8) -> Registers {
    r.with_flag(StatusFlag::ParityOverflow, parity8(v)).with_flag(
        StatusFlag::Zero,
        v == 0,
    ).with_flag(StatusFlag::Sign, bit7(v))
}

/// The state after a logical operation: the result is written to the
/// accumulator; carry and add/subtract clear, half-carry as the family
/// dictates (set after AND, clear after OR and XOR), and sign, zero and
/// parity from the result.
pub open spec fn spec_logic(s: State, result: u8, half: bool) -> State {
    let s1 = write_loc8(s, Location8::Reg(Reg8::A), result);
    let r1 = s1.regs.with_flag(StatusFlag::Carry, false);
    let r2 = r1.with_flag(StatusFlag::AddSubtract, false);
    let r3 = r2.with_flag(StatusFlag::HalfCarry, half);
    let r4 = spec_szp(r3, result);
    State { regs: r4, ..s1 }
}

/// AND of the accumulator with a source byte.
pub open spec fn spec_and(s: State, src: Location8) -> State {
    spec_logic(s, read_loc8(s, Location8::Reg(Reg8::A)) & read_loc8(s, src), true)
}

/// OR of the accumulator with a source byte.
pub open spec fn spec_or(s: State, src: Location8) -> State {
    spec_logic(s, read_loc8(s, Location8::Reg(Reg8::A)) | read_loc8(s, src), false)
}

/// XOR of the accumulator with a source byte.
pub open spec fn spec_xor(s: State, src: Location8) -> State {
    spec_logic(s, read_loc8(s, Location8::Reg(Reg8::A)) ^ read_loc8(s, src), false)
}

/// CPL: the accumulator is complemented; half-carry and add/subtract
/// are set and no other flag changes.
pub open spec fn spec_cpl(s: State) -> State {
    let s1 = State { regs: s.regs.with_reg8(Reg8::A, !s.regs.a), ..s };
    let r1 = s1.regs.with_flag(StatusFlag::HalfCarry, true);
    let r2 = r1.with_flag(StatusFlag::AddSubtract, true);
    State { regs: r2, ..s1 }
}

/// NEG: the accumulator becomes its two's-complement negation.
/// Parity/overflow is set exactly when A was 0x80, carry exactly when A
/// was non-zero.
pub open spec fn spec_neg(s: State) -> State {
    let a = s.regs.a;
    let result = ((0 - a) % 256) as u8;
    let s1 = State { regs: s.regs.with_reg8(Reg8::A, result), ..s };
    let r1 = s1.regs.with_flag(StatusFlag::Sign, bit7(result));
    let r2 = r1.with_flag(StatusFlag::Zero, result == 0);
    let r3 = r2.with_flag(StatusFlag::HalfCarry, a % 16 != 0);
    let r4 = r3.with_flag(StatusFlag::ParityOverflow, a == 0x80);
    let r5 = r4.with_flag(StatusFlag::AddSubtract, true);
    let r6 = r5.with_flag(StatusFlag::Carry, a != 0);
    State { regs: r6, ..s1 }
}

/// CCF: carry is inverted, half-carry receives the previous carry,
/// add/subtract clears.
pub open spec fn spec_ccf(s: State) -> State {
    let c = s.regs.spec_flag(StatusFlag::Carry);
    let r1 = s.regs.with_flag(StatusFlag::Carry, !c);
    let r2 = r1.with_flag(StatusFlag::HalfCarry, c);
    let r3 = r2.with_flag(StatusFlag::AddSubtract, false);
    State { regs: r3, ..s }
}

/// SCF: carry is set, add/subtract and half-carry clear.
pub open spec fn spec_scf(s: State) -> State {
    let r1 = s.regs.with_flag(StatusFlag::Carry, true);
    let r2 = r1.with_flag(StatusFlag::AddSubtract, false);
    let r3 = r2.with_flag(StatusFlag::HalfCarry, false);
    State { regs: r3, ..s }
}

/// A byte rotated left one bit: bit 7 moves to bit 0.
pub open spec fn rlc_val(v: u8) -> u8 {
    ((v % 128) * 2 + v / 128) as u8
}

/// A byte rotated right one bit: bit 0 moves to bit 7.
pub open spec fn rrc_val(v: u8) -> u8 {
    ((v % 2) * 128 + v / 2) as u8
}

/// A byte shifted left one bit with the old carry entering bit 0.
pub open spec fn rl_val(v: u8, carry: bool) -> u8 {
    ((v % 128) * 2 + if carry {
        1int
    } else {
        0int
    }) as u8
}

/// A byte shifted right one bit with the old carry entering bit 7.
pub open spec fn rr_val(v: u8, carry: bool) -> u8 {
    (v / 2 + if carry {
        128int
    } else {
        0int
    }) as u8
}

/// A byte shifted left one bit, zero entering bit 0.
pub open spec fn sla_val(v: u8) -> u8 {
    ((v % 128) * 2) as u8
}

/// A byte shifted right one bit, zero entering bit 7.
pub open spec fn srl_val(v: u8) -> u8 {
    v / 2
}

/// A byte shifted right one bit arithmetically: bit 7 is preserved.
pub open spec fn sra_val(v: u8) -> u8 {
    (v / 2 + if bit7(v) {
        128int
    } else {
        0int
    }) as u8
}

/// The state shared by every rotate and shift: the result is written
/// back, carry receives the bit that left the byte, half-carry and
/// add/subtract clear. The general forms also set sign, zero and
/// parity from the result; the accumulator-only forms leave them.
pub open spec fn spec_rotate_apply(
    s: State,
    loc: Location8,
    result: u8,
    carry_out: bool,
    set_parity: bool,
) -> State {
    let s1 = write_loc8(s, loc, result);
    let r1 = s1.regs.with_flag(StatusFlag::Carry, carry_out);
    let r2 = r1.with_flag(StatusFlag::HalfCarry, false);
    let r3 = r2.with_flag(StatusFlag::AddSubtract, false);
    let r4 = if set_parity {
        spec_szp(r3, result)
    } else {
        r3
    };
    State { regs: r4, ..s1 }
}

/// RLC and RLCA: rotate left circular; carry receives old bit 7.
pub open spec fn spec_rlc(s: State, loc: Location8, set_parity: bool) -> State {
    let v = read_loc8(s, loc);
    spec_rotate_apply(s, loc, rlc_val(v), bit7(v), set_parity)
}

/// RRC and RRCA: rotate right circular; carry receives old bit 0.
pub open spec fn spec_rrc(s: State, loc: Location8, set_parity: bool) -> State {
    let v = read_loc8(s, loc);
    spec_rotate_apply(s, loc, rrc_val(v), bit0(v), set_parity)
}

/// RL and RLA: rotate left through carry.
pub open spec fn spec_rl(s: State, loc: Location8, set_parity: bool) -> State {
    let v = read_loc8(s, loc);
    spec_rotate_apply(
        s,
        loc,
        rl_val(v, s.regs.spec_flag(StatusFlag::Carry)),
        bit7(v),
        set_parity,
    )
}

/// RR and RRA: rotate right through carry.
pub open spec fn spec_rr(s: State, loc: Location8, set_parity: bool) -> State {
    let v = read_loc8(s, loc);
    spec_rotate_apply(
        s,
        loc,
        rr_val(v, s.regs.spec_flag(StatusFlag::Carry)),
        bit0(v),
        set_parity,
    )
}

/// SLA: shift left arithmetic.
pub open spec fn spec_sla(s: State, loc: Location8) -> State {
    let v = read_loc8(s, loc);
    spec_rotate_apply(s, loc, sla_val(v), bit7(v), true)
}

/// SRA: shift right arithmetic, sign preserved.
pub open spec fn spec_sra(s: State, loc: Location8) -> State {
    let v = read_loc8(s, loc);
    spec_rotate_apply(s, loc, sra_val(v), bit0(v), true)
}

/// SRL: shift right logical.
pub open spec fn spec_srl(s: State, loc: Location8) -> State {
    let v = read_loc8(s, loc);
    spec_rotate_apply(s, loc, srl_val(v), bit0(v), true)
}

/// The accumulator after RLD: its high nibble stays, its low nibble
/// receives the high nibble of the memory byte.
pub open spec fn rld_acc(a: u8, m: u8) -> u8 {
    ((a / 16) * 16 + m / 16) as u8
}

/// The memory byte after RLD: its low nibble moves up, the low nibble
/// of the accumulator enters below.
pub open spec fn rld_mem(a: u8, m: u8) -> u8 {
    ((m % 16) * 16 + a % 16) as u8
}

/// The accumulator after RRD: its high nibble stays, its low nibble
/// receives the low nibble of the memory byte.
pub open spec fn rrd_acc(a: u8, m: u8) -> u8 {
    ((a / 16) * 16 + m % 16) as u8
}

/// The memory byte after RRD: its high nibble moves down, the low
/// nibble of the accumulator enters above.
pub open spec fn rrd_mem(a: u8, m: u8) -> u8 {
    ((a % 16) * 16 + m / 16) as u8
}

/// The state shared by RLD and RRD: the accumulator and the byte at
/// (HL) are replaced, half-carry and add/subtract clear, and sign,
/// zero and parity come from the new accumulator.
pub open spec fn spec_nibble_apply(s: State, new_a: u8, new_m: u8) -> State {
    let s1 = write_loc8(s, Location8::Reg(Reg8::A), new_a);
    let s2 = write_loc8(s1, Location8::RegIndirect(Reg16::HL), new_m);
    let r1 = s2.regs.with_flag(StatusFlag::HalfCarry, false);
    let r2 = r1.with_flag(StatusFlag::AddSubtract, false);
    let r3 = spec_szp(r2, new_a);
    State { regs: r3, ..s2 }
}

/// RLD: the three nibbles A-low, (HL)-high, (HL)-low rotate leftward.
pub open spec fn spec_rld(s: State) -> State {
    let a = read_loc8(s, Location8::Reg(Reg8::A));
    let m = read_loc8(s, Location8::RegIndirect(Reg16::HL));
    spec_nibble_apply(s, rld_acc(a, m), rld_mem(a, m))
}

/// RRD: the three nibbles A-low, (HL)-high, (HL)-low rotate rightward.
pub open spec fn spec_rrd(s: State) -> State {
    let a = read_loc8(s, Location8::Reg(Reg8::A));
    let m = read_loc8(s, Location8::RegIndirect(Reg16::HL));
    spec_nibble_apply(s, rrd_acc(a, m), rrd_mem(a, m))
}

/// BIT: zero is set exactly when the tested bit is clear; half-carry
/// sets, add/subtract clears, and the operand is untouched.
pub open spec fn spec_bit_test(s: State, bit: u8, loc: Location8) -> State {
    let v = read_loc8(s, loc);
    let r1 = s.regs.with_flag(StatusFlag::Zero, v & (1u8 << bit) == 0);
    let r2 = r1.with_flag(StatusFlag::HalfCarry, true);
    let r3 = r2.with_flag(StatusFlag::AddSubtract, false);
    State { regs: r3, ..s }
}

/// SET: the chosen bit is set; no flag changes.
pub open spec fn spec_bit_set(s: State, bit: u8, loc: Location8) -> State {
    write_loc8(s, loc, read_loc8(s, loc) | (1u8 << bit))
}

/// RES: the chosen bit is cleared; no flag changes.
pub open spec fn spec_bit_res(s: State, bit: u8, loc: Location8) -> State {
    write_loc8(s, loc, read_loc8(s, loc) & !(1u8 << bit))
}

/// LD: the source byte is copied to the destination; no flag changes.
pub open spec fn spec_ld8(s: State, dst: Location8, src: Location8) -> State {
    write_loc8(s, dst, read_loc8(s, src))
}

/// LD, 16-bit: the source word is copied to the destination.
pub open spec fn spec_ld16(s: State, dst: Location16, src: Location16) -> State {
    write_loc16(s, dst, read_loc16(s, src))
}

/// The stack push: SP moves down two, then the word is stored at the
/// new SP.
pub open spec fn spec_push_val(s: State, v: u16) -> State {
    let sp2 = wrap_sub16(s.regs.sp, 2);
    let s1 = State { regs: s.regs.with_reg16(Reg16::SP, sp2), ..s };
    write_loc16(s1, Location16::RegIndirect(Reg16::SP), v)
}

/// PUSH: the source word, read before SP moves, is pushed.
pub open spec fn spec_push(s: State, src: Location16) -> State {
    spec_push_val(s, read_loc16(s, src))
}

/// The stack pop: the word at SP is read, then SP moves up two.
pub open spec fn spec_pop_val(s: State) -> (State, u16) {
    let v = read_loc16(s, Location16::RegIndirect(Reg16::SP));
    let sp2 = wrap_add16(s.regs.sp, 2);
    (State { regs: s.regs.with_reg16(Reg16::SP, sp2), ..s }, v)
}

/// POP: the word popped from the stack goes to the destination, which
/// is written after SP has moved.
pub open spec fn spec_pop(s: State, dst: Location16) -> State {
    let (s1, v) = spec_pop_val(s);
    write_loc16(s1, dst, v)
}

/// DJNZ: B is decremented; while it has not reached zero the jump is
/// taken, two plus the offset past the instruction's own address.
pub open spec fn spec_djnz(s: State, offset: i8) -> (State, Option<u16>) {
    let b2 = dec8(s.regs.b);
    let s1 = State { regs: s.regs.with_reg8(Reg8::B, b2), ..s };
    (
        s1,
        if b2 != 0 {
            Some(pc_rel(s.regs.pc, offset))
        } else {
            None
        },
    )
}

/// CALL: when the condition holds, the address of the following
/// instruction (PC plus three, the length of CALL) is pushed and the
/// target returned.
pub open spec fn spec_call(s: State, cond: JumpConditional, addr: u16) -> (State, Option<u16>) {
    if cond_holds(s.regs, cond) {
        (spec_push_val(s, wrap_add16(s.regs.pc, 3)), Some(addr))
    } else {
        (s, None)
    }
}

/// RET: when the condition holds, the return address is popped and
/// returned.
pub open spec fn spec_ret(s: State, cond: JumpConditional) -> (State, Option<u16>) {
    if cond_holds(s.regs, cond) {
        let (s1, v) = spec_pop_val(s);
        (s1, Some(v))
    } else {
        (s, None)
    }
}

/// Whether the executor accepts an instruction in a state: DAA is not
/// implemented; a written operand must not be an immediate; a bit index
/// must be below eight; and the port an IN or OUT addresses must have a
/// device installed. `in_ports` and `out_ports` are the installed port
/// numbers of the two device tables.
pub open spec fn can_exec(s: State, op: Op, in_ports: Set<u8>, out_ports: Set<u8>) -> bool {
    match op {
        Op::LD8(dst, _) => writable8(dst),
        Op::LD16(dst, _) => writable16(dst),
        Op::PUSH(_) => true,
        Op::POP(dst) => writable16(dst),
        Op::ADD8(dst, _) => writable8(dst),
        Op::ADC(dst, _) => writable8(dst),
        Op::INC(dst) => writable8(dst),
        Op::SUB8(dst, _) => writable8(dst),
        Op::SBC(dst, _) => writable8(dst),
        Op::DEC(dst) => writable8(dst),
        Op::CP(_) => true,
        Op::AND(_) => true,
        Op::OR(_) => true,
        Op::XOR(_) => true,
        Op::CPL => true,
        Op::NEG => true,
        Op::DAA => false,
        Op::CCF => true,
        Op::SCF => true,
        Op::NOP => true,
        Op::HALT => true,
        Op::RLCA => true,
        Op::RLA => true,
        Op::RRCA => true,
        Op::RRA => true,
        Op::RLC(loc) => writable8(loc),
        Op::RL(loc) => writable8(loc),
        Op::RRC(loc) => writable8(loc),
        Op::RR(loc) => writable8(loc),
        Op::SLA(loc) => writable8(loc),
        Op::SRA(loc) => writable8(loc),
        Op::SRL(loc) => writable8(loc),
        Op::RLD => true,
        Op::RRD => true,
        Op::BIT(b, _) => b < 8,
        Op::SET(b, loc) => b < 8 && writable8(loc),
        Op::RES(b, loc) => b < 8 && writable8(loc),
        Op::IN(dst, port) => writable8(dst) && in_ports.contains(read_loc8(s, port)),
        Op::OUT(_, port) => out_ports.contains(read_loc8(s, port)),
        Op::JP(_, _) => true,
        Op::JR(_, _) => true,
        Op::DJNZ(_) => true,
        Op::CALL(_, _) => true,
        Op::RET(_) => true,
    }
}

/// The meaning of one instruction: the state after it and the next
/// program counter when a jump is taken (`None` tells the driver to
/// advance PC by the instruction length). IN and OUT act through a
/// device and stand outside this function: the executor's contract
/// states their effect separately. DAA is never executed; its arm is
/// the identity.
pub open spec fn z80_step(s: State, op: Op) -> (State, Option<u16>) {
    match op {
        Op::LD8(dst, src) => (spec_ld8(s, dst, src), None),
        Op::LD16(dst, src) => (spec_ld16(s, dst, src), None),
        Op::PUSH(src) => (spec_push(s, src), None),
        Op::POP(dst) => (spec_pop(s, dst), None),
        Op::ADD8(dst, src) => (spec_add(s, dst, src, false, true), None),
        Op::ADC(dst, src) => (spec_add(s, dst, src, true, true), None),
        Op::INC(dst) => (spec_add(s, dst, Location8::Immediate(1), false, false), None),
        Op::SUB8(dst, src) => (spec_sub(s, dst, src, false, true, true), None),
        Op::SBC(dst, src) => (spec_sub(s, dst, src, true, true, true), None),
        Op::DEC(dst) => (spec_sub(s, dst, Location8::Immediate(1), false, true, false), None),
        Op::CP(src) => (spec_sub(s, Location8::Reg(Reg8::A), src, false, false, true), None),
        Op::AND(src) => (spec_and(s, src), None),
        Op::OR(src) => (spec_or(s, src), None),
        Op::XOR(src) => (spec_xor(s, src), None),
        Op::CPL => (spec_cpl(s), None),
        Op::NEG => (spec_neg(s), None),
        Op::DAA => (s, None),
        Op::CCF => (spec_ccf(s), None),
        Op::SCF => (spec_scf(s), None),
        Op::NOP => (s, None),
        Op::HALT => (State { halted: true, ..s }, None),
        Op::RLCA => (spec_rlc(s, Location8::Reg(Reg8::A), false), None),
        Op::RLA => (spec_rl(s, Location8::Reg(Reg8::A), false), None),
        Op::RRCA => (spec_rrc(s, Location8::Reg(Reg8::A), false), None),
        Op::RRA => (spec_rr(s, Location8::Reg(Reg8::A), false), None),
        Op::RLC(loc) => (spec_rlc(s, loc, true), None),
        Op::RL(loc) => (spec_rl(s, loc, true), None),
        Op::RRC(loc) => (spec_rrc(s, loc, true), None),
        Op::RR(loc) => (spec_rr(s, loc, true), None),
        Op::SLA(loc) => (spec_sla(s, loc), None),
        Op::SRA(loc) => (spec_sra(s, loc), None),
        Op::SRL(loc) => (spec_srl(s, loc), None),
        Op::RLD => (spec_rld(s), None),
        Op::RRD => (spec_rrd(s), None),
        Op::BIT(b, loc) => (spec_bit_test(s, b, loc), None),
        Op::SET(b, loc) => (spec_bit_set(s, b, loc), None),
        Op::RES(b, loc) => (spec_bit_res(s, b, loc), None),
        Op::IN(_, _) => (s, None),
        Op::OUT(_, _) => (s, None),
        Op::JP(cond, loc) => (
            s,
            if cond_holds(s.regs, cond) {
                Some(read_loc16(s, loc))
            } else {
                None
            },
        ),
        Op::JR(cond, offset) => (
            s,
            if cond_holds(s.regs, cond) {
                Some(pc_rel(s.regs.pc, offset))
            } else {
                None
            },
        ),
        Op::DJNZ(offset) => spec_djnz(s, offset),
        Op::CALL(cond, addr) => spec_call(s, cond, addr),
        Op::RET(cond) => spec_ret(s, cond),
    }
}

} // verus!
