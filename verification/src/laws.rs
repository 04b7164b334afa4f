//! The library's general laws, each proved once and for all inputs:
//! register and register-pair round-trips, the flag bit positions, the
//! parity rule shared by the logical and rotate families, what INC,
//! DEC and CPL leave alone, the symmetry of the shifts, the stack
//! round-trip, and the executor's jump-return contract.

use vstd::prelude::*;

use vstd::arithmetic::div_mod::{
    lemma_add_mod_noop, lemma_fundamental_div_mod, lemma_fundamental_div_mod_converse_mod,
    lemma_mod_division_less_than_divisor, lemma_multiply_divide_lt, lemma_small_mod,
};

use crate::mem::{word_hi, word_lo};
use crate::ops::{Location16, Location8, Op, Reg16, Reg8, StatusFlag};
use crate::regs::{flag_mask, Registers};
use crate::sem::{
    cond_holds, dec8, parity8, pc_rel, read_loc16, read_loc8, rl_val, rlc_val, rld_acc, rr_val,
    write_loc8,
    rrc_val, rrd_acc, sla_val, spec_szp, sra_val, srl_val, wrap_add16, wrap_sub16, z80_step, State,
};

verus! {

/// Setting a bit by mask makes it one; clearing makes it zero.
proof fn lemma_mask_set(f: u8, m: u8)
    by (bit_vector)
    ensures
        (f | m) & m == m,
        (f & !m) & m == 0,
{
}

/// Setting or clearing one mask leaves the bits of a disjoint mask
/// unchanged.
proof fn lemma_mask_indep(f: u8, m: u8, m2: u8)
    by (bit_vector)
    requires
        m & m2 == 0,
    ensures
        (f | m) & m2 == f & m2,
        (f & !m) & m2 == f & m2,
{
}

/// Two distinct one-bit flag masks are disjoint.
proof fn lemma_one_bit_masks_disjoint(m: u8, m2: u8)
    by (bit_vector)
    requires
        m == 1 || m == 2 || m == 4 || m == 0x10 || m == 0x40 || m == 0x80,
        m2 == 1 || m2 == 2 || m2 == 4 || m2 == 0x10 || m2 == 0x40 || m2 == 0x80,
        m != m2,
    ensures
        m & m2 == 0,
{
}

/// Each flag's mask is one of the six one-bit masks.
proof fn lemma_flag_mask_cases(fl: StatusFlag)
    ensures
        flag_mask(fl) == 1 || flag_mask(fl) == 2 || flag_mask(fl) == 4 || flag_mask(fl) == 0x10
            || flag_mask(fl) == 0x40 || flag_mask(fl) == 0x80,
{
}

/// Distinct flags live in distinct bits of F.
proof fn lemma_flag_masks_disjoint(f1: StatusFlag, f2: StatusFlag)
    requires
        f1 != f2,
    ensures
        flag_mask(f1) & flag_mask(f2) == 0,
{
    lemma_flag_mask_cases(f1);
    lemma_flag_mask_cases(f2);
    lemma_one_bit_masks_disjoint(flag_mask(f1), flag_mask(f2));
}

/// Writing one flag changes exactly its own bit: reading it back gives
/// the written value, and every other flag keeps its bit.
pub proof fn lemma_with_flag(r: Registers, fl: StatusFlag, b: bool, other: StatusFlag)
    requires
        other != fl,
    ensures
        r.with_flag(fl, b).spec_flag(fl) == b,
        r.with_flag(fl, b).spec_flag(other) == r.spec_flag(other),
        r.with_flag(fl, b).f & flag_mask(other) == r.f & flag_mask(other),
{
    lemma_mask_set(r.f, flag_mask(fl));
    lemma_flag_mask_cases(fl);
    lemma_flag_masks_disjoint(fl, other);
    lemma_mask_indep(r.f, flag_mask(fl), flag_mask(other));
}

/// Flag bit positions: setting a flag yields an F with exactly the
/// documented bit set among the defined bits, clearing yields zero in
/// that bit, and unrelated bits are unchanged.
pub proof fn lemma_flag_bit_positions(r: Registers, fl: StatusFlag)
    ensures
        r.with_flag(fl, true).spec_flag(fl),
        !r.with_flag(fl, false).spec_flag(fl),
        r.with_flag(fl, true).f & flag_mask(fl) == flag_mask(fl),
        r.with_flag(fl, false).f & flag_mask(fl) == 0,
        forall|other: StatusFlag, b: bool|
            other != fl ==> #[trigger] (r.with_flag(fl, b).f & flag_mask(other)) == r.f
                & flag_mask(other),
{
    lemma_mask_set(r.f, flag_mask(fl));
    lemma_flag_mask_cases(fl);
    assert forall|other: StatusFlag, b: bool| other != fl implies #[trigger] (r.with_flag(
        fl,
        b,
    ).f & flag_mask(other)) == r.f & flag_mask(other) by {
        lemma_with_flag(r, fl, b, other);
    }
}

/// Load/store round-trip for the 8-bit registers: what is written is
/// what is read back.
pub proof fn lemma_reg8_round_trip(r: Registers, n: Reg8, v: u8)
    ensures
        r.with_reg8(n, v).spec_reg8(n) == v,
{
}

/// Load/store round-trip for the 16-bit registers.
pub proof fn lemma_reg16_round_trip(r: Registers, p: Reg16, v: u16)
    ensures
        r.with_reg16(p, v).spec_reg16(p) == v,
{
    lemma_fundamental_div_mod(v as int, 256);
    lemma_mod_division_less_than_divisor(v as int, 256);
    lemma_multiply_divide_lt(v as int, 256, 256);
}

/// The high-byte register of a pair; SP has no byte registers and is
/// excluded where this is used.
pub open spec fn pair_hi(p: Reg16) -> Reg8 {
    match p {
        Reg16::AF => Reg8::A,
        Reg16::BC => Reg8::B,
        Reg16::DE => Reg8::D,
        Reg16::HL => Reg8::H,
        Reg16::AFP => Reg8::AP,
        Reg16::BCP => Reg8::BP,
        Reg16::DEP => Reg8::DP,
        Reg16::HLP => Reg8::HP,
        Reg16::SP => Reg8::A,
    }
}

/// The low-byte register of a pair.
pub open spec fn pair_lo(p: Reg16) -> Reg8 {
    match p {
        Reg16::AF => Reg8::F,
        Reg16::BC => Reg8::C,
        Reg16::DE => Reg8::E,
        Reg16::HL => Reg8::L,
        Reg16::AFP => Reg8::FP,
        Reg16::BCP => Reg8::CP,
        Reg16::DEP => Reg8::EP,
        Reg16::HLP => Reg8::LP,
        Reg16::SP => Reg8::F,
    }
}

/// Writing a pair, then reading its two halves, yields the word's high
/// and low bytes: big-endian within the pair.
pub proof fn lemma_reg16_halves(r: Registers, p: Reg16, v: u16)
    requires
        p != Reg16::SP,
    ensures
        r.with_reg16(p, v).spec_reg8(pair_hi(p)) == word_hi(v),
        r.with_reg16(p, v).spec_reg8(pair_lo(p)) == word_lo(v),
{
    lemma_mod_division_less_than_divisor(v as int, 256);
    lemma_multiply_divide_lt(v as int, 256, 256);
}

/// The parity rule: after AND, OR, XOR, the general rotates and shifts
/// (RLC, RL, RRC, RR, SLA, SRA, SRL), and the nibble rotates RLD and
/// RRD, the parity/overflow flag is the even parity of the result
/// byte.
pub proof fn lemma_parity_flag(s: State, op: Op)
    ensures
        op matches Op::AND(src) ==> z80_step(s, op).0.regs.spec_flag(StatusFlag::ParityOverflow)
            == parity8(read_loc8(s, Location8::Reg(Reg8::A)) & read_loc8(s, src)),
        op matches Op::OR(src) ==> z80_step(s, op).0.regs.spec_flag(StatusFlag::ParityOverflow)
            == parity8(read_loc8(s, Location8::Reg(Reg8::A)) | read_loc8(s, src)),
        op matches Op::XOR(src) ==> z80_step(s, op).0.regs.spec_flag(StatusFlag::ParityOverflow)
            == parity8(read_loc8(s, Location8::Reg(Reg8::A)) ^ read_loc8(s, src)),
        op matches Op::RLC(loc) ==> z80_step(s, op).0.regs.spec_flag(StatusFlag::ParityOverflow)
            == parity8(rlc_val(read_loc8(s, loc))),
        op matches Op::RL(loc) ==> z80_step(s, op).0.regs.spec_flag(StatusFlag::ParityOverflow)
            == parity8(rl_val(read_loc8(s, loc), s.regs.spec_flag(StatusFlag::Carry))),
        op matches Op::RRC(loc) ==> z80_step(s, op).0.regs.spec_flag(StatusFlag::ParityOverflow)
            == parity8(rrc_val(read_loc8(s, loc))),
        op matches Op::RR(loc) ==> z80_step(s, op).0.regs.spec_flag(StatusFlag::ParityOverflow)
            == parity8(rr_val(read_loc8(s, loc), s.regs.spec_flag(StatusFlag::Carry))),
        op matches Op::SLA(loc) ==> z80_step(s, op).0.regs.spec_flag(StatusFlag::ParityOverflow)
            == parity8(sla_val(read_loc8(s, loc))),
        op matches Op::SRA(loc) ==> z80_step(s, op).0.regs.spec_flag(StatusFlag::ParityOverflow)
            == parity8(sra_val(read_loc8(s, loc))),
        op matches Op::SRL(loc) ==> z80_step(s, op).0.regs.spec_flag(StatusFlag::ParityOverflow)
            == parity8(srl_val(read_loc8(s, loc))),
        op matches Op::RLD ==> z80_step(s, op).0.regs.spec_flag(StatusFlag::ParityOverflow)
            == parity8(
            rld_acc(read_loc8(s, Location8::Reg(Reg8::A)), read_loc8(s, Location8::RegIndirect(Reg16::HL))),
        ),
        op matches Op::RRD ==> z80_step(s, op).0.regs.spec_flag(StatusFlag::ParityOverflow)
            == parity8(
            rrd_acc(read_loc8(s, Location8::Reg(Reg8::A)), read_loc8(s, Location8::RegIndirect(Reg16::HL))),
        ),
{
    let pv = StatusFlag::ParityOverflow;
    assert forall|r: Registers, v: u8| #[trigger] spec_szp(r, v).spec_flag(pv) == parity8(v) by {
        let r1 = r.with_flag(pv, parity8(v));
        lemma_with_flag(r, pv, parity8(v), StatusFlag::Zero);
        lemma_with_flag(r1, StatusFlag::Zero, v == 0, pv);
        lemma_with_flag(r1.with_flag(StatusFlag::Zero, v == 0), StatusFlag::Sign, v >= 0x80, pv);
    }
}

/// INC and DEC do not affect the carry flag. The one operand left out
/// is the flag register itself as a plain destination, whose rewrite
/// is the written result, not a flag update.
pub proof fn lemma_inc_dec_preserve_carry(s: State, op: Op)
    requires
        op matches Op::INC(_) || op matches Op::DEC(_),
        op matches Op::INC(dst) ==> dst != Location8::Reg(Reg8::F),
        op matches Op::DEC(dst) ==> dst != Location8::Reg(Reg8::F),
    ensures
        z80_step(s, op).0.regs.spec_flag(StatusFlag::Carry) == s.regs.spec_flag(StatusFlag::Carry),
{
    let c = StatusFlag::Carry;
    assert forall|r: Registers, fl: StatusFlag, b: bool| fl != c implies #[trigger] r.with_flag(
        fl,
        b,
    ).spec_flag(c) == r.spec_flag(c) by {
        lemma_with_flag(r, fl, b, c);
    }
}

/// CPL changes only the accumulator and the H and N flags; carry,
/// zero, sign and parity/overflow are untouched.
pub proof fn lemma_cpl_preserves(s: State)
    ensures
        z80_step(s, Op::CPL).0.regs.a == !s.regs.a,
        z80_step(s, Op::CPL).0.regs.spec_flag(StatusFlag::HalfCarry),
        z80_step(s, Op::CPL).0.regs.spec_flag(StatusFlag::AddSubtract),
        z80_step(s, Op::CPL).0.regs.spec_flag(StatusFlag::Carry) == s.regs.spec_flag(
            StatusFlag::Carry,
        ),
        z80_step(s, Op::CPL).0.regs.spec_flag(StatusFlag::Zero) == s.regs.spec_flag(
            StatusFlag::Zero,
        ),
        z80_step(s, Op::CPL).0.regs.spec_flag(StatusFlag::Sign) == s.regs.spec_flag(
            StatusFlag::Sign,
        ),
        z80_step(s, Op::CPL).0.regs.spec_flag(StatusFlag::ParityOverflow) == s.regs.spec_flag(
            StatusFlag::ParityOverflow,
        ),
        z80_step(s, Op::CPL).0.mem == s.mem,
{
    assert forall|r: Registers, fl: StatusFlag, b: bool, other: StatusFlag|
        fl != other implies #[trigger] r.with_flag(fl, b).spec_flag(other) == r.spec_flag(
        other,
    ) by {
        lemma_with_flag(r, fl, b, other);
    }
    let r0 = s.regs.with_reg8(Reg8::A, !s.regs.a);
    lemma_with_flag(r0, StatusFlag::HalfCarry, true, StatusFlag::AddSubtract);
    lemma_with_flag(r0.with_flag(StatusFlag::HalfCarry, true), StatusFlag::AddSubtract, true, StatusFlag::HalfCarry);
}

/// Shift symmetry: for a byte with bit 0 clear, shifting left then
/// right logically returns the original byte exactly when bit 7 was
/// clear.
pub proof fn lemma_shift_symmetry(v: u8)
    requires
        v % 2 == 0,
    ensures
        (srl_val(sla_val(v)) == v) <==> v < 0x80,
{
    vstd::arithmetic::div_mod::lemma_div_multiples_vanish(v as int % 128, 2);
    if v < 0x80 {
        lemma_small_mod(v as nat, 128);
    } else {
        lemma_fundamental_div_mod_converse_mod(v as int, 128, 1, v - 128);
    }
}

/// Unwrapping then rewrapping the stack pointer: subtracting and then
/// adding the same distance, both wrapping, is the identity.
pub proof fn lemma_wrap_sub_add(a: u16, d: u16)
    ensures
        wrap_add16(wrap_sub16(a, d), d) == a,
{
    crate::mem::lemma_mod_bounds(a - d, 0x10000);
    lemma_add_mod_noop(a - d, d as int, 0x10000);
    lemma_small_mod(d as nat, 0x10000);
    lemma_small_mod(a as nat, 0x10000);
}

/// PUSH/POP round-trip: set a pair to a value, push it, zero the pair,
/// pop it; the pair holds the value again and SP is back where it
/// started. SP itself is no pair and is excluded.
#[verifier::rlimit(100)]
pub proof fn lemma_push_pop_round_trip(s: State, p: Reg16, v: u16)
    requires
        s.wf(),
        p != Reg16::SP,
    ensures
        ({
            let s0 = State { regs: s.regs.with_reg16(p, v), ..s };
            let s1 = z80_step(s0, Op::PUSH(Location16::Reg(p))).0;
            let s2 = State { regs: s1.regs.with_reg16(p, 0), ..s1 };
            let s3 = z80_step(s2, Op::POP(Location16::Reg(p))).0;
            s3.regs.spec_reg16(p) == v && s3.regs.sp == s.regs.sp
        }),
{
    let s0 = State { regs: s.regs.with_reg16(p, v), ..s };
    lemma_reg16_round_trip(s.regs, p, v);
    assert(read_loc16(s0, Location16::Reg(p)) == v);
    assert(s0.regs.sp == s.regs.sp);
    let sp2 = wrap_sub16(s.regs.sp, 2);
    let s1 = z80_step(s0, Op::PUSH(Location16::Reg(p))).0;
    assert(s1.mem == crate::mem::spec_write_word(s.mem, sp2, v));
    assert(s1.regs.sp == sp2);
    let s2 = State { regs: s1.regs.with_reg16(p, 0), ..s1 };
    assert(s2.regs.sp == sp2);
    assert(s2.mem == s1.mem);
    crate::mem::lemma_word_round_trip(s.mem, sp2, v);
    assert(read_loc16(s2, Location16::RegIndirect(Reg16::SP)) == v);
    let s3 = z80_step(s2, Op::POP(Location16::Reg(p))).0;
    lemma_wrap_sub_add(s.regs.sp, 2);
    assert(s3.regs == s2.regs.with_reg16(Reg16::SP, wrap_add16(sp2, 2)).with_reg16(p, v));
    lemma_reg16_round_trip(s2.regs.with_reg16(Reg16::SP, wrap_add16(sp2, 2)), p, v);
}

/// The executor never writes the program counter: every instruction
/// leaves PC as it was, and so does the byte an IN instruction stores.
/// A taken jump only returns the next PC for the driver to install.
pub proof fn lemma_pc_never_written(s: State, op: Op)
    ensures
        z80_step(s, op).0.regs.pc == s.regs.pc,
        forall|loc: Location8, v: u8| #[trigger] write_loc8(s, loc, v).regs.pc == s.regs.pc,
{
}

/// The only state machine is the halt latch: it is set by HALT, by
/// nothing else, and never cleared by the executor (the driver clears
/// it on reset or interrupt).
pub proof fn lemma_halt_latch(s: State, op: Op)
    ensures
        z80_step(s, op).0.halted == (s.halted || op matches Op::HALT),
        forall|loc: Location8, v: u8| #[trigger] write_loc8(s, loc, v).halted == s.halted,
{
}

/// An instruction that is not a jump, call or return.
pub open spec fn is_control(op: Op) -> bool {
    ||| op matches Op::JP(_, _)
    ||| op matches Op::JR(_, _)
    ||| op matches Op::DJNZ(_)
    ||| op matches Op::CALL(_, _)
    ||| op matches Op::RET(_)
}

/// The jump-return contract: a non-control instruction yields no next
/// PC; each control instruction yields exactly the documented target
/// when its condition holds and none otherwise.
pub proof fn lemma_jump_returns(s: State, op: Op)
    ensures
        !is_control(op) ==> z80_step(s, op).1 == None::<u16>,
        op matches Op::JP(cond, loc) ==> z80_step(s, op).1 == (if cond_holds(s.regs, cond) {
            Some(read_loc16(s, loc))
        } else {
            None::<u16>
        }),
        op matches Op::JR(cond, offset) ==> z80_step(s, op).1 == (if cond_holds(s.regs, cond) {
            Some(pc_rel(s.regs.pc, offset))
        } else {
            None::<u16>
        }),
        op matches Op::DJNZ(offset) ==> z80_step(s, op).1 == (if dec8(s.regs.b) != 0 {
            Some(pc_rel(s.regs.pc, offset))
        } else {
            None::<u16>
        }),
        op matches Op::CALL(cond, addr) ==> z80_step(s, op).1 == (if cond_holds(s.regs, cond) {
            Some(addr)
        } else {
            None::<u16>
        }),
        op matches Op::RET(cond) ==> z80_step(s, op).1 == (if cond_holds(s.regs, cond) {
            Some(read_loc16(s, Location16::RegIndirect(Reg16::SP)))
        } else {
            None::<u16>
        }),
{
}

} // verus!
