//! The processor itself: the register file, the memory, the halt
//! latch and the two port-mapped device tables, together with the
//! executor for decoded instructions. Every instruction's effect is
//! proved equal to `z80_step`, the specification-level interpreter.

use std::collections::HashMap;

use vstd::prelude::*;

use crate::io::{InputDevice, OutputDevice};
use crate::mem::{Memory, MEMORY_SIZE};
use crate::ops::{JumpConditional, Location16, Location8, Op, Reg16, Reg8, StatusFlag};
use crate::regs::Registers;
use crate::sem::{
    can_exec, cond_holds, parity8, pc_rel, read_loc16, read_loc8, spec_add, spec_and,
    spec_bit_res, spec_bit_set, spec_bit_test, spec_ccf, spec_cpl, spec_neg, spec_or, spec_pop,
    spec_pop_val, spec_push, spec_push_val, spec_rl, spec_rlc, spec_rld, spec_rr, spec_rrc,
    spec_rrd, spec_scf, spec_sla, spec_sra, spec_srl, spec_sub, spec_szp, spec_xor, wrap_add16,
    wrap_sub16, writable16, writable8, z80_step, State,
};

verus! {

broadcast use vstd::std_specs::hash::group_hash_axioms;

/// The emulated processor. The register file and the memory are plain
/// fields so that a host can load a program and inspect results; the
/// device tables map a port number to the peripheral installed there.
/// `I` and `O` are the host's input and output device types.
pub struct Z80<I, O> {
    pub registers: Registers,
    pub memory: Memory,
    is_halted: bool,
    input_devices: HashMap<u8, I>,
    output_devices: HashMap<u8, O>,
}

impl<I, O> View for Z80<I, O> {
    type V = State;

    /// The machine state the instruction semantics speak about.
    closed spec fn view(&self) -> State {
        State { regs: self.registers, mem: self.memory@, halted: self.is_halted }
    }
}

impl<I, O> Z80<I, O> {
    /// The installed input devices, by port.
    pub closed spec fn in_map(&self) -> Map<u8, I> {
        self.input_devices@
    }

    /// The installed output devices, by port.
    pub closed spec fn out_map(&self) -> Map<u8, O> {
        self.output_devices@
    }

    /// The ports that have an input device.
    pub open spec fn in_ports(&self) -> Set<u8> {
        self.in_map().dom()
    }

    /// The ports that have an output device.
    pub open spec fn out_ports(&self) -> Set<u8> {
        self.out_map().dom()
    }

    /// Install an input device on a port, replacing any device there.
    pub fn install_input(&mut self, port: u8, device: I)
        ensures
            final(self)@ == old(self)@,
            final(self).in_map() == old(self).in_map().insert(port, device),
            final(self).out_map() == old(self).out_map(),
    {
        self.input_devices.insert(port, device);
    }

    /// Install an output device on a port, replacing any device there.
    pub fn install_output(&mut self, port: u8, device: O)
        ensures
            final(self)@ == old(self)@,
            final(self).out_map() == old(self).out_map().insert(port, device),
            final(self).in_map() == old(self).in_map(),
    {
        self.output_devices.insert(port, device);
    }

    /// Whether a HALT has been executed; the driver observes this and
    /// stops issuing instructions.
    pub fn is_halted(&self) -> (b: bool)
        ensures
            b == self@.halted,
    {
        self.is_halted
    }

    /// Read the byte an 8-bit location denotes.
    pub fn get_loc8(&self, loc: Location8) -> (v: u8)
        requires
            self@.wf(),
        ensures
            v == read_loc8(self@, loc),
    {
        match loc {
            Location8::Immediate(v) => v,
            Location8::Reg(n) => self.registers.get_reg8(n),
            Location8::RegIndirect(p) => {
                let addr = self.registers.get_reg16(p);
                self.memory.read(addr)
            },
            Location8::ImmediateIndirect(addr) => self.memory.read(addr),
        }
    }

    /// Write the byte an 8-bit location denotes. An immediate is no
    /// destination; such a write is excluded up front.
    pub fn set_loc8(&mut self, loc: Location8, v: u8)
        requires
            old(self)@.wf(),
            writable8(loc),
        ensures
            final(self)@.wf(),
            final(self)@ == crate::sem::write_loc8(old(self)@, loc, v),
            final(self).in_map() == old(self).in_map(),
            final(self).out_map() == old(self).out_map(),
    {
        match loc {
            Location8::Immediate(_) => {},
            Location8::Reg(n) => self.registers.set_reg8(n, v),
            Location8::RegIndirect(p) => {
                let addr = self.registers.get_reg16(p);
                self.memory.write(addr, v);
            },
            Location8::ImmediateIndirect(addr) => self.memory.write(addr, v),
        }
    }

    /// Read the word a 16-bit location denotes, little-endian for
    /// memory words.
    pub fn get_loc16(&self, loc: Location16) -> (v: u16)
        requires
            self@.wf(),
        ensures
            v == read_loc16(self@, loc),
    {
        match loc {
            Location16::Immediate(v) => v,
            Location16::Reg(p) => self.registers.get_reg16(p),
            Location16::RegIndirect(p) => {
                let addr = self.registers.get_reg16(p);
                self.memory.read_word(addr)
            },
            Location16::ImmediateIndirect(addr) => self.memory.read_word(addr),
        }
    }

    /// Write the word a 16-bit location denotes.
    pub fn set_loc16(&mut self, loc: Location16, v: u16)
        requires
            old(self)@.wf(),
            writable16(loc),
        ensures
            final(self)@.wf(),
            final(self)@ == crate::sem::write_loc16(old(self)@, loc, v),
            final(self).in_map() == old(self).in_map(),
            final(self).out_map() == old(self).out_map(),
    {
        match loc {
            Location16::Immediate(_) => {},
            Location16::Reg(p) => self.registers.set_reg16(p, v),
            Location16::RegIndirect(p) => {
                let addr = self.registers.get_reg16(p);
                self.memory.write_word(addr, v);
            },
            Location16::ImmediateIndirect(addr) => self.memory.write_word(addr, v),
        }
    }
}

impl<I, O> Z80<I, O> {
    /// Set the parity/overflow, zero and sign flags from a result
    /// byte: the tail shared by the logical, rotate and nibble-rotate
    /// families.
    fn parity_flags(&mut self, val: u8)
        ensures
            final(self)@ == (State { regs: spec_szp(old(self)@.regs, val), ..old(self)@ }),
            final(self).in_map() == old(self).in_map(),
            final(self).out_map() == old(self).out_map(),
    {
        let p = parity_of(val);
        self.registers.set_flag(StatusFlag::ParityOverflow, p);
        self.registers.set_flag(StatusFlag::Zero, val == 0);
        self.registers.set_flag(StatusFlag::Sign, val >= 0x80);
    }

    /// ADD, ADC and INC: the destination receives the wrapped sum; the
    /// flags come from the wide sum, and INC leaves carry alone.
    fn add(&mut self, dst: Location8, src: Location8, include_carry: bool, set_carry: bool)
        requires
            old(self)@.wf(),
            writable8(dst),
        ensures
            final(self)@.wf(),
            final(self)@ == spec_add(old(self)@, dst, src, include_carry, set_carry),
            final(self).in_map() == old(self).in_map(),
            final(self).out_map() == old(self).out_map(),
    {
        let v1 = self.get_loc8(dst);
        let v2 = self.get_loc8(src);
        let cin: u16 = if include_carry && self.registers.get_flag(StatusFlag::Carry) {
            1
        } else {
            0
        };
        let total: u16 = v1 as u16 + v2 as u16 + cin;
        let result: u8 = (total % 256) as u8;
        self.set_loc8(dst, result);
        if set_carry {
            self.registers.set_flag(StatusFlag::Carry, total > 0xFF);
        }
        self.registers.set_flag(StatusFlag::AddSubtract, false);
        self.registers.set_flag(
            StatusFlag::ParityOverflow,
            (v1 >= 0x80) == (v2 >= 0x80) && (result >= 0x80) != (v1 >= 0x80),
        );
        self.registers.set_flag(
            StatusFlag::HalfCarry,
            (v1 % 16) as u16 + (v2 % 16) as u16 + cin > 0xF,
        );
        self.registers.set_flag(StatusFlag::Zero, result == 0);
        self.registers.set_flag(StatusFlag::Sign, result >= 0x80);
    }

    /// SUB, SBC, DEC and CP: the flags come from the wide difference;
    /// CP stores nothing and DEC leaves carry alone.
    fn subtract(
        &mut self,
        dst: Location8,
        src: Location8,
        include_carry: bool,
        store_result: bool,
        set_carry: bool,
    )
        requires
            old(self)@.wf(),
            store_result ==> writable8(dst),
        ensures
            final(self)@.wf(),
            final(self)@ == spec_sub(
                old(self)@,
                dst,
                src,
                include_carry,
                store_result,
                set_carry,
            ),
            final(self).in_map() == old(self).in_map(),
            final(self).out_map() == old(self).out_map(),
    {
        let v1 = self.get_loc8(dst);
        let v2 = self.get_loc8(src);
        let bin: u16 = if include_carry && self.registers.get_flag(StatusFlag::Carry) {
            1
        } else {
            0
        };
        let total: u16 = 256 + v1 as u16 - v2 as u16 - bin;
        let result: u8 = (total % 256) as u8;
        proof {
            vstd::arithmetic::div_mod::lemma_mod_add_multiples_vanish(
                v1 - v2 - bin,
                256,
            );
        }
        if store_result {
            self.set_loc8(dst, result);
        }
        if set_carry {
            self.registers.set_flag(StatusFlag::Carry, (v1 as u16) < v2 as u16 + bin);
        }
        self.registers.set_flag(StatusFlag::AddSubtract, true);
        self.registers.set_flag(
            StatusFlag::ParityOverflow,
            (v1 >= 0x80) != (v2 >= 0x80) && (result >= 0x80) != (v1 >= 0x80),
        );
        self.registers.set_flag(
            StatusFlag::HalfCarry,
            ((v1 % 16) as u16) < (v2 % 16) as u16 + bin,
        );
        self.registers.set_flag(StatusFlag::Zero, result == 0);
        self.registers.set_flag(StatusFlag::Sign, result >= 0x80);
    }

    /// The tail of AND, OR and XOR: the result goes to the accumulator;
    /// carry and add/subtract clear, half-carry as the family dictates,
    /// sign, zero and parity from the result.
    fn logic_epilogue(&mut self, result: u8, half: bool)
        requires
            old(self)@.wf(),
        ensures
            final(self)@.wf(),
            final(self)@ == crate::sem::spec_logic(old(self)@, result, half),
            final(self).in_map() == old(self).in_map(),
            final(self).out_map() == old(self).out_map(),
    {
        self.set_loc8(Location8::Reg(Reg8::A), result);
        self.registers.set_flag(StatusFlag::Carry, false);
        self.registers.set_flag(StatusFlag::AddSubtract, false);
        self.registers.set_flag(StatusFlag::HalfCarry, half);
        self.parity_flags(result);
    }

    /// AND: accumulator and source; half-carry sets.
    fn and_op(&mut self, src: Location8)
        requires
            old(self)@.wf(),
        ensures
            final(self)@.wf(),
            final(self)@ == spec_and(old(self)@, src),
            final(self).in_map() == old(self).in_map(),
            final(self).out_map() == old(self).out_map(),
    {
        let v1 = self.get_loc8(Location8::Reg(Reg8::A));
        let v2 = self.get_loc8(src);
        self.logic_epilogue(v1 & v2, true);
    }

    /// OR: accumulator or source; half-carry clears.
    fn or_op(&mut self, src: Location8)
        requires
            old(self)@.wf(),
        ensures
            final(self)@.wf(),
            final(self)@ == spec_or(old(self)@, src),
            final(self).in_map() == old(self).in_map(),
            final(self).out_map() == old(self).out_map(),
    {
        let v1 = self.get_loc8(Location8::Reg(Reg8::A));
        let v2 = self.get_loc8(src);
        self.logic_epilogue(v1 | v2, false);
    }

    /// XOR: accumulator exclusive-or source; half-carry clears.
    fn xor_op(&mut self, src: Location8)
        requires
            old(self)@.wf(),
        ensures
            final(self)@.wf(),
            final(self)@ == spec_xor(old(self)@, src),
            final(self).in_map() == old(self).in_map(),
            final(self).out_map() == old(self).out_map(),
    {
        let v1 = self.get_loc8(Location8::Reg(Reg8::A));
        let v2 = self.get_loc8(src);
        self.logic_epilogue(v1 ^ v2, false);
    }

    /// CPL: complement the accumulator; only H and N change.
    fn complement(&mut self)
        ensures
            final(self)@ == spec_cpl(old(self)@),
            final(self).in_map() == old(self).in_map(),
            final(self).out_map() == old(self).out_map(),
    {
        let a = self.registers.get_reg8(Reg8::A);
        self.registers.set_reg8(Reg8::A, !a);
        self.registers.set_flag(StatusFlag::HalfCarry, true);
        self.registers.set_flag(StatusFlag::AddSubtract, true);
    }

    /// NEG: the accumulator becomes its two's-complement negation.
    fn negate(&mut self)
        ensures
            final(self)@ == spec_neg(old(self)@),
            final(self).in_map() == old(self).in_map(),
            final(self).out_map() == old(self).out_map(),
    {
        let a = self.registers.get_reg8(Reg8::A);
        let total: u16 = 256 - a as u16;
        let result: u8 = (total % 256) as u8;
        proof {
            vstd::arithmetic::div_mod::lemma_mod_add_multiples_vanish(0 - a, 256);
        }
        self.registers.set_reg8(Reg8::A, result);
        self.registers.set_flag(StatusFlag::Sign, result >= 0x80);
        self.registers.set_flag(StatusFlag::Zero, result == 0);
        self.registers.set_flag(StatusFlag::HalfCarry, a % 16 != 0);
        self.registers.set_flag(StatusFlag::ParityOverflow, a == 0x80);
        self.registers.set_flag(StatusFlag::AddSubtract, true);
        self.registers.set_flag(StatusFlag::Carry, a != 0);
    }

    /// CCF: invert carry; half-carry receives the old carry.
    fn toggle_carry(&mut self)
        ensures
            final(self)@ == spec_ccf(old(self)@),
            final(self).in_map() == old(self).in_map(),
            final(self).out_map() == old(self).out_map(),
    {
        let carry = self.registers.get_flag(StatusFlag::Carry);
        self.registers.set_flag(StatusFlag::Carry, !carry);
        self.registers.set_flag(StatusFlag::HalfCarry, carry);
        self.registers.set_flag(StatusFlag::AddSubtract, false);
    }

    /// SCF: set carry; add/subtract and half-carry clear.
    fn set_carry(&mut self)
        ensures
            final(self)@ == spec_scf(old(self)@),
            final(self).in_map() == old(self).in_map(),
            final(self).out_map() == old(self).out_map(),
    {
        self.registers.set_flag(StatusFlag::Carry, true);
        self.registers.set_flag(StatusFlag::AddSubtract, false);
        self.registers.set_flag(StatusFlag::HalfCarry, false);
    }

    /// RLC and RLCA: rotate left circular; carry receives old bit 7.
    fn rotate_left(&mut self, loc: Location8, set_parity: bool)
        requires
            old(self)@.wf(),
            writable8(loc),
        ensures
            final(self)@.wf(),
            final(self)@ == spec_rlc(old(self)@, loc, set_parity),
            final(self).in_map() == old(self).in_map(),
            final(self).out_map() == old(self).out_map(),
    {
        let val = self.get_loc8(loc);
        let result: u8 = (val % 128) * 2 + val / 128;
        self.set_loc8(loc, result);
        self.registers.set_flag(StatusFlag::Carry, val >= 0x80);
        self.registers.set_flag(StatusFlag::HalfCarry, false);
        self.registers.set_flag(StatusFlag::AddSubtract, false);
        if set_parity {
            self.parity_flags(result);
        }
    }

    /// RL and RLA: rotate left through carry; carry receives old bit 7.
    fn rotate_left_thru_acc(&mut self, loc: Location8, set_parity: bool)
        requires
            old(self)@.wf(),
            writable8(loc),
        ensures
            final(self)@.wf(),
            final(self)@ == spec_rl(old(self)@, loc, set_parity),
            final(self).in_map() == old(self).in_map(),
            final(self).out_map() == old(self).out_map(),
    {
        let val = self.get_loc8(loc);
        let carry = self.registers.get_flag(StatusFlag::Carry);
        let result: u8 = (val % 128) * 2 + if carry {
            1
        } else {
            0
        };
        self.set_loc8(loc, result);
        self.registers.set_flag(StatusFlag::Carry, val >= 0x80);
        self.registers.set_flag(StatusFlag::HalfCarry, false);
        self.registers.set_flag(StatusFlag::AddSubtract, false);
        if set_parity {
            self.parity_flags(result);
        }
    }

    /// RRC and RRCA: rotate right circular; carry receives old bit 0.
    fn rotate_right(&mut self, loc: Location8, set_parity: bool)
        requires
            old(self)@.wf(),
            writable8(loc),
        ensures
            final(self)@.wf(),
            final(self)@ == spec_rrc(old(self)@, loc, set_parity),
            final(self).in_map() == old(self).in_map(),
            final(self).out_map() == old(self).out_map(),
    {
        let val = self.get_loc8(loc);
        let result: u8 = (val % 2) * 128 + val / 2;
        self.set_loc8(loc, result);
        self.registers.set_flag(StatusFlag::Carry, val % 2 == 1);
        self.registers.set_flag(StatusFlag::HalfCarry, false);
        self.registers.set_flag(StatusFlag::AddSubtract, false);
        if set_parity {
            self.parity_flags(result);
        }
    }

    /// RR and RRA: rotate right through carry; carry receives old
    /// bit 0.
    fn rotate_right_thru_acc(&mut self, loc: Location8, set_parity: bool)
        requires
            old(self)@.wf(),
            writable8(loc),
        ensures
            final(self)@.wf(),
            final(self)@ == spec_rr(old(self)@, loc, set_parity),
            final(self).in_map() == old(self).in_map(),
            final(self).out_map() == old(self).out_map(),
    {
        let val = self.get_loc8(loc);
        let carry = self.registers.get_flag(StatusFlag::Carry);
        let result: u8 = val / 2 + if carry {
            128
        } else {
            0
        };
        self.set_loc8(loc, result);
        self.registers.set_flag(StatusFlag::Carry, val % 2 == 1);
        self.registers.set_flag(StatusFlag::HalfCarry, false);
        self.registers.set_flag(StatusFlag::AddSubtract, false);
        if set_parity {
            self.parity_flags(result);
        }
    }

    /// SLA: shift left, zero entering bit 0; carry receives old bit 7.
    fn shift_left(&mut self, loc: Location8)
        requires
            old(self)@.wf(),
            writable8(loc),
        ensures
            final(self)@.wf(),
            final(self)@ == spec_sla(old(self)@, loc),
            final(self).in_map() == old(self).in_map(),
            final(self).out_map() == old(self).out_map(),
    {
        let val = self.get_loc8(loc);
        let result: u8 = (val % 128) * 2;
        self.set_loc8(loc, result);
        self.registers.set_flag(StatusFlag::Carry, val >= 0x80);
        self.registers.set_flag(StatusFlag::HalfCarry, false);
        self.registers.set_flag(StatusFlag::AddSubtract, false);
        self.parity_flags(result);
    }

    /// SRL and SRA: shift right; with `preserve_sign` bit 7 is kept
    /// (arithmetic shift). Carry receives old bit 0.
    fn shift_right(&mut self, loc: Location8, preserve_sign: bool)
        requires
            old(self)@.wf(),
            writable8(loc),
        ensures
            final(self)@.wf(),
            final(self)@ == if preserve_sign {
                spec_sra(old(self)@, loc)
            } else {
                spec_srl(old(self)@, loc)
            },
            final(self).in_map() == old(self).in_map(),
            final(self).out_map() == old(self).out_map(),
    {
        let val = self.get_loc8(loc);
        let result: u8 = val / 2 + if preserve_sign && val >= 0x80 {
            128
        } else {
            0
        };
        self.set_loc8(loc, result);
        self.registers.set_flag(StatusFlag::Carry, val % 2 == 1);
        self.registers.set_flag(StatusFlag::HalfCarry, false);
        self.registers.set_flag(StatusFlag::AddSubtract, false);
        self.parity_flags(result);
    }

    /// RLD: the accumulator's low nibble and the two nibbles of the
    /// byte at (HL) rotate leftward.
    fn rotate_nibble_left(&mut self)
        requires
            old(self)@.wf(),
        ensures
            final(self)@.wf(),
            final(self)@ == spec_rld(old(self)@),
            final(self).in_map() == old(self).in_map(),
            final(self).out_map() == old(self).out_map(),
    {
        let acc = self.get_loc8(Location8::Reg(Reg8::A));
        let m = self.get_loc8(Location8::RegIndirect(Reg16::HL));
        let acc2: u8 = (acc / 16) * 16 + m / 16;
        let m2: u8 = (m % 16) * 16 + acc % 16;
        self.set_loc8(Location8::Reg(Reg8::A), acc2);
        self.set_loc8(Location8::RegIndirect(Reg16::HL), m2);
        self.registers.set_flag(StatusFlag::HalfCarry, false);
        self.registers.set_flag(StatusFlag::AddSubtract, false);
        self.parity_flags(acc2);
    }

    /// RRD: the accumulator's low nibble and the two nibbles of the
    /// byte at (HL) rotate rightward.
    fn rotate_nibble_right(&mut self)
        requires
            old(self)@.wf(),
        ensures
            final(self)@.wf(),
            final(self)@ == spec_rrd(old(self)@),
            final(self).in_map() == old(self).in_map(),
            final(self).out_map() == old(self).out_map(),
    {
        let acc = self.get_loc8(Location8::Reg(Reg8::A));
        let m = self.get_loc8(Location8::RegIndirect(Reg16::HL));
        let acc2: u8 = (acc / 16) * 16 + m % 16;
        let m2: u8 = (acc % 16) * 16 + m / 16;
        self.set_loc8(Location8::Reg(Reg8::A), acc2);
        self.set_loc8(Location8::RegIndirect(Reg16::HL), m2);
        self.registers.set_flag(StatusFlag::HalfCarry, false);
        self.registers.set_flag(StatusFlag::AddSubtract, false);
        self.parity_flags(acc2);
    }

    /// BIT: test one bit; zero is set exactly when the bit is clear.
    fn get_bit(&mut self, bit: u8, loc: Location8)
        requires
            old(self)@.wf(),
            bit < 8,
        ensures
            final(self)@.wf(),
            final(self)@ == spec_bit_test(old(self)@, bit, loc),
            final(self).in_map() == old(self).in_map(),
            final(self).out_map() == old(self).out_map(),
    {
        let val = self.get_loc8(loc);
        self.registers.set_flag(StatusFlag::Zero, val & (1u8 << bit) == 0);
        self.registers.set_flag(StatusFlag::HalfCarry, true);
        self.registers.set_flag(StatusFlag::AddSubtract, false);
    }

    /// SET: set one bit; no flag changes.
    fn set_bit(&mut self, bit: u8, loc: Location8)
        requires
            old(self)@.wf(),
            bit < 8,
            writable8(loc),
        ensures
            final(self)@.wf(),
            final(self)@ == spec_bit_set(old(self)@, bit, loc),
            final(self).in_map() == old(self).in_map(),
            final(self).out_map() == old(self).out_map(),
    {
        let val = self.get_loc8(loc);
        self.set_loc8(loc, val | (1u8 << bit));
    }

    /// RES: clear one bit; no flag changes.
    fn reset_bit(&mut self, bit: u8, loc: Location8)
        requires
            old(self)@.wf(),
            bit < 8,
            writable8(loc),
        ensures
            final(self)@.wf(),
            final(self)@ == spec_bit_res(old(self)@, bit, loc),
            final(self).in_map() == old(self).in_map(),
            final(self).out_map() == old(self).out_map(),
    {
        let val = self.get_loc8(loc);
        self.set_loc8(loc, val & !(1u8 << bit));
    }

    /// Whether a jump condition holds under the current flags.
    fn eval_cond(&self, cond: JumpConditional) -> (b: bool)
        ensures
            b == cond_holds(self@.regs, cond),
    {
        match cond {
            JumpConditional::Unconditional => true,
            JumpConditional::Carry => self.registers.get_flag(StatusFlag::Carry),
            JumpConditional::NoCarry => !self.registers.get_flag(StatusFlag::Carry),
            JumpConditional::Zero => self.registers.get_flag(StatusFlag::Zero),
            JumpConditional::NonZero => !self.registers.get_flag(StatusFlag::Zero),
            JumpConditional::ParityEven => self.registers.get_flag(StatusFlag::ParityOverflow),
            JumpConditional::ParityOdd => !self.registers.get_flag(StatusFlag::ParityOverflow),
            JumpConditional::SignNegative => self.registers.get_flag(StatusFlag::Sign),
            JumpConditional::SignPositive => !self.registers.get_flag(StatusFlag::Sign),
        }
    }

    /// JP: when the condition holds, the target word is the next PC.
    fn jump_cond(&self, cond: JumpConditional, loc: Location16) -> (r: Option<u16>)
        requires
            self@.wf(),
        ensures
            r == if cond_holds(self@.regs, cond) {
                Some(read_loc16(self@, loc))
            } else {
                None::<u16>
            },
    {
        if self.eval_cond(cond) {
            Some(self.get_loc16(loc))
        } else {
            None
        }
    }

    /// The target of a relative jump: PC plus two plus the offset,
    /// wrapping around the address space.
    fn pc_offset(&self, offset: i8) -> (r: u16)
        ensures
            r == pc_rel(self@.regs.pc, offset),
    {
        let t: i32 = self.registers.get_pc() as i32 + 2 + offset as i32;
        let r: i32 = if t < 0 {
            proof {
                vstd::arithmetic::div_mod::lemma_fundamental_div_mod_converse_mod(
                    self@.regs.pc + 2 + offset,
                    0x10000,
                    -1,
                    self@.regs.pc + 2 + offset + 0x10000,
                );
            }
            t + 0x10000
        } else if t >= 0x10000 {
            proof {
                vstd::arithmetic::div_mod::lemma_fundamental_div_mod_converse_mod(
                    self@.regs.pc + 2 + offset,
                    0x10000,
                    1,
                    self@.regs.pc + 2 + offset - 0x10000,
                );
            }
            t - 0x10000
        } else {
            proof {
                vstd::arithmetic::div_mod::lemma_small_mod(
                    (self@.regs.pc + 2 + offset) as nat,
                    0x10000,
                );
            }
            t
        };
        r as u16
    }

    /// JR: when the condition holds, jump relative to PC.
    fn jump_relative(&self, cond: JumpConditional, offset: i8) -> (r: Option<u16>)
        ensures
            r == if cond_holds(self@.regs, cond) {
                Some(pc_rel(self@.regs.pc, offset))
            } else {
                None::<u16>
            },
    {
        if self.eval_cond(cond) {
            Some(self.pc_offset(offset))
        } else {
            None
        }
    }

    /// DJNZ: decrement B; jump relative while B has not reached zero.
    fn decrement_jump(&mut self, offset: i8) -> (r: Option<u16>)
        ensures
            final(self)@ == crate::sem::spec_djnz(old(self)@, offset).0,
            r == crate::sem::spec_djnz(old(self)@, offset).1,
            final(self).in_map() == old(self).in_map(),
            final(self).out_map() == old(self).out_map(),
    {
        let b = self.registers.get_reg8(Reg8::B);
        let b2: u8 = if b == 0 {
            255
        } else {
            b - 1
        };
        self.registers.set_reg8(Reg8::B, b2);
        if b2 != 0 {
            Some(self.pc_offset(offset))
        } else {
            None
        }
    }

    /// Push a word: SP moves down two, then the word is stored at the
    /// new SP.
    fn push_val(&mut self, val: u16)
        requires
            old(self)@.wf(),
        ensures
            final(self)@.wf(),
            final(self)@ == spec_push_val(old(self)@, val),
            final(self).in_map() == old(self).in_map(),
            final(self).out_map() == old(self).out_map(),
    {
        let sp = self.registers.get_reg16(Reg16::SP);
        let sp2 = wrapping_sub16(sp, 2);
        self.registers.set_reg16(Reg16::SP, sp2);
        self.set_loc16(Location16::RegIndirect(Reg16::SP), val);
    }

    /// PUSH: the source word, read before SP moves, is pushed.
    fn push(&mut self, src: Location16)
        requires
            old(self)@.wf(),
        ensures
            final(self)@.wf(),
            final(self)@ == spec_push(old(self)@, src),
            final(self).in_map() == old(self).in_map(),
            final(self).out_map() == old(self).out_map(),
    {
        let v = self.get_loc16(src);
        self.push_val(v);
    }

    /// Pop a word: the word at SP is read, then SP moves up two.
    fn pop_val(&mut self) -> (v: u16)
        requires
            old(self)@.wf(),
        ensures
            final(self)@.wf(),
            final(self)@ == spec_pop_val(old(self)@).0,
            v == spec_pop_val(old(self)@).1,
            final(self).in_map() == old(self).in_map(),
            final(self).out_map() == old(self).out_map(),
    {
        let v = self.get_loc16(Location16::RegIndirect(Reg16::SP));
        let sp = self.registers.get_reg16(Reg16::SP);
        let sp2 = wrapping_add16(sp, 2);
        self.registers.set_reg16(Reg16::SP, sp2);
        v
    }

    /// POP: the popped word goes to the destination, written after SP
    /// has moved.
    fn pop(&mut self, dst: Location16)
        requires
            old(self)@.wf(),
            writable16(dst),
        ensures
            final(self)@.wf(),
            final(self)@ == spec_pop(old(self)@, dst),
            final(self).in_map() == old(self).in_map(),
            final(self).out_map() == old(self).out_map(),
    {
        let v = self.pop_val();
        self.set_loc16(dst, v);
    }

    /// CALL: when the condition holds, push the address after the
    /// three-byte CALL and return the target.
    fn call(&mut self, cond: JumpConditional, addr: u16) -> (r: Option<u16>)
        requires
            old(self)@.wf(),
        ensures
            final(self)@.wf(),
            final(self)@ == crate::sem::spec_call(old(self)@, cond, addr).0,
            r == crate::sem::spec_call(old(self)@, cond, addr).1,
            final(self).in_map() == old(self).in_map(),
            final(self).out_map() == old(self).out_map(),
    {
        if self.eval_cond(cond) {
            let pc = self.registers.get_pc();
            let ret = wrapping_add16(pc, 3);
            self.push_val(ret);
            Some(addr)
        } else {
            None
        }
    }

    /// RET: when the condition holds, pop the return address.
    fn return_(&mut self, cond: JumpConditional) -> (r: Option<u16>)
        requires
            old(self)@.wf(),
        ensures
            final(self)@.wf(),
            final(self)@ == crate::sem::spec_ret(old(self)@, cond).0,
            r == crate::sem::spec_ret(old(self)@, cond).1,
            final(self).in_map() == old(self).in_map(),
            final(self).out_map() == old(self).out_map(),
    {
        if self.eval_cond(cond) {
            Some(self.pop_val())
        } else {
            None
        }
    }
}

impl<I: InputDevice, O: OutputDevice> Z80<I, O> {
    /// IN: read a byte from the device installed on the addressed port
    /// into the destination. The byte is the device's to choose, so the
    /// state afterwards is the old state with the destination set to
    /// some byte.
    fn read_in(&mut self, port_loc: Location8, dst: Location8)
        requires
            old(self)@.wf(),
            writable8(dst),
            old(self).in_ports().contains(read_loc8(old(self)@, port_loc)),
        ensures
            final(self)@.wf(),
            exists|v: u8| final(self)@ == crate::sem::write_loc8(old(self)@, dst, v),
            final(self).in_ports() == old(self).in_ports(),
            final(self).out_map() == old(self).out_map(),
    {
        let p = self.get_loc8(port_loc);
        let v: u8;
        match self.input_devices.remove(&p) {
            Some(mut d) => {
                let x = d.input();
                self.input_devices.insert(p, d);
                v = x;
            },
            None => {
                proof {
                    assert(false);
                }
                v = 0;
            },
        }
        proof {
            assert(self.in_ports() =~= old(self).in_ports());
        }
        self.set_loc8(dst, v);
    }

    /// OUT: write the source byte to the device installed on the
    /// addressed port. Registers and memory are untouched.
    fn write_out(&mut self, port_loc: Location8, src: Location8)
        requires
            old(self)@.wf(),
            old(self).out_ports().contains(read_loc8(old(self)@, port_loc)),
        ensures
            final(self)@ == old(self)@,
            final(self).in_map() == old(self).in_map(),
            final(self).out_ports() == old(self).out_ports(),
    {
        let p = self.get_loc8(port_loc);
        let v = self.get_loc8(src);
        match self.output_devices.remove(&p) {
            Some(mut d) => {
                d.output(v);
                self.output_devices.insert(p, d);
            },
            None => {
                proof {
                    assert(false);
                }
            },
        }
        proof {
            assert(self.out_ports() =~= old(self).out_ports());
        }
    }

    /// Execute one decoded instruction. The returned value is the next
    /// program counter when a jump was taken; `None` tells the driver
    /// to advance PC by the instruction's length. PC itself is never
    /// written here. Every instruction's effect equals `z80_step`; for
    /// IN the written byte is whatever the device produced, and OUT
    /// touches only the device.
    pub fn exec(&mut self, op: Op) -> (r: Option<u16>)
        requires
            old(self)@.wf(),
            can_exec(old(self)@, op, old(self).in_ports(), old(self).out_ports()),
        ensures
            final(self)@.wf(),
            !(op matches Op::IN(_, _)) ==> final(self)@ == z80_step(old(self)@, op).0 && r
                == z80_step(old(self)@, op).1,
            op matches Op::IN(dst, _) ==> r == None::<u16> && (exists|v: u8|
                final(self)@ == crate::sem::write_loc8(old(self)@, dst, v)),
            final(self).in_ports() == old(self).in_ports(),
            final(self).out_ports() == old(self).out_ports(),
    {
        match op {
            Op::LD8(dst, src) => {
                let v = self.get_loc8(src);
                self.set_loc8(dst, v);
                None
            },
            Op::LD16(dst, src) => {
                let v = self.get_loc16(src);
                self.set_loc16(dst, v);
                None
            },
            Op::PUSH(src) => {
                self.push(src);
                None
            },
            Op::POP(dst) => {
                self.pop(dst);
                None
            },
            Op::ADD8(dst, src) => {
                self.add(dst, src, false, true);
                None
            },
            Op::ADC(dst, src) => {
                self.add(dst, src, true, true);
                None
            },
            Op::INC(dst) => {
                self.add(dst, Location8::Immediate(1), false, false);
                None
            },
            Op::SUB8(dst, src) => {
                self.subtract(dst, src, false, true, true);
                None
            },
            Op::SBC(dst, src) => {
                self.subtract(dst, src, true, true, true);
                None
            },
            Op::DEC(dst) => {
                self.subtract(dst, Location8::Immediate(1), false, true, false);
                None
            },
            Op::CP(src) => {
                self.subtract(Location8::Reg(Reg8::A), src, false, false, true);
                None
            },
            Op::AND(src) => {
                self.and_op(src);
                None
            },
            Op::OR(src) => {
                self.or_op(src);
                None
            },
            Op::XOR(src) => {
                self.xor_op(src);
                None
            },
            Op::CPL => {
                self.complement();
                None
            },
            Op::NEG => {
                self.negate();
                None
            },
            Op::DAA => {
                proof {
                    assert(false);
                }
                None
            },
            Op::CCF => {
                self.toggle_carry();
                None
            },
            Op::SCF => {
                self.set_carry();
                None
            },
            Op::NOP => None,
            Op::HALT => {
                self.is_halted = true;
                None
            },
            Op::RLCA => {
                self.rotate_left(Location8::Reg(Reg8::A), false);
                None
            },
            Op::RLA => {
                self.rotate_left_thru_acc(Location8::Reg(Reg8::A), false);
                None
            },
            Op::RRCA => {
                self.rotate_right(Location8::Reg(Reg8::A), false);
                None
            },
            Op::RRA => {
                self.rotate_right_thru_acc(Location8::Reg(Reg8::A), false);
                None
            },
            Op::RLC(loc) => {
                self.rotate_left(loc, true);
                None
            },
            Op::RL(loc) => {
                self.rotate_left_thru_acc(loc, true);
                None
            },
            Op::RRC(loc) => {
                self.rotate_right(loc, true);
                None
            },
            Op::RR(loc) => {
                self.rotate_right_thru_acc(loc, true);
                None
            },
            Op::SLA(loc) => {
                self.shift_left(loc);
                None
            },
            Op::SRA(loc) => {
                self.shift_right(loc, true);
                None
            },
            Op::SRL(loc) => {
                self.shift_right(loc, false);
                None
            },
            Op::RLD => {
                self.rotate_nibble_left();
                None
            },
            Op::RRD => {
                self.rotate_nibble_right();
                None
            },
            Op::BIT(b, loc) => {
                self.get_bit(b, loc);
                None
            },
            Op::SET(b, loc) => {
                self.set_bit(b, loc);
                None
            },
            Op::RES(b, loc) => {
                self.reset_bit(b, loc);
                None
            },
            Op::IN(dst, port) => {
                self.read_in(port, dst);
                None
            },
            Op::OUT(src, port) => {
                self.write_out(port, src);
                None
            },
            Op::JP(cond, loc) => self.jump_cond(cond, loc),
            Op::JR(cond, offset) => self.jump_relative(cond, offset),
            Op::DJNZ(offset) => self.decrement_jump(offset),
            Op::CALL(cond, addr) => self.call(cond, addr),
            Op::RET(cond) => self.return_(cond),
        }
    }
}

impl<I, O> Default for Z80<I, O> {
    /// A processor with every register and memory byte zero, except SP,
    /// which starts at the top of memory; not halted; no devices.
    fn default() -> (z: Z80<I, O>)
        ensures
            z@.wf(),
            z@.regs == Registers::zeroed().with_reg16(Reg16::SP, MEMORY_SIZE as u16),
            forall|i: int| 0 <= i < MEMORY_SIZE ==> z@.mem[i] == 0u8,
            !z@.halted,
            z.in_map() == Map::<u8, I>::empty(),
            z.out_map() == Map::<u8, O>::empty(),
    {
        let mut registers = Registers::default();
        registers.set_reg16(Reg16::SP, MEMORY_SIZE as u16);
        Z80 {
            registers,
            memory: Memory::default(),
            is_halted: false,
            input_devices: HashMap::new(),
            output_devices: HashMap::new(),
        }
    }
}

/// Sixteen-bit addition that wraps around the address space.
pub fn wrapping_add16(a: u16, d: u16) -> (r: u16)
    ensures
        r == wrap_add16(a, d),
{
    let t: u32 = a as u32 + d as u32;
    if t > 0xFFFF {
        proof {
            vstd::arithmetic::div_mod::lemma_fundamental_div_mod_converse_mod(
                a + d,
                0x10000,
                1,
                a + d - 0x10000,
            );
        }
        (t - 0x10000) as u16
    } else {
        proof {
            vstd::arithmetic::div_mod::lemma_small_mod((a + d) as nat, 0x10000);
        }
        t as u16
    }
}

/// Sixteen-bit subtraction that wraps around the address space.
pub fn wrapping_sub16(a: u16, d: u16) -> (r: u16)
    ensures
        r == wrap_sub16(a, d),
{
    if a >= d {
        proof {
            vstd::arithmetic::div_mod::lemma_small_mod((a - d) as nat, 0x10000);
        }
        a - d
    } else {
        proof {
            vstd::arithmetic::div_mod::lemma_fundamental_div_mod_converse_mod(
                a - d,
                0x10000,
                -1,
                a - d + 0x10000,
            );
        }
        ((a as u32 + 0x10000) - d as u32) as u16
    }
}

/// Even parity of a byte: the sum of its eight bits is even.
pub fn parity_of(v: u8) -> (r: bool)
    ensures
        r == parity8(v),
{
    proof {
        assert((v & 1) <= 1 && ((v >> 1) & 1) <= 1 && ((v >> 2) & 1) <= 1 && ((v >> 3) & 1) <= 1
            && ((v >> 4) & 1) <= 1 && ((v >> 5) & 1) <= 1 && ((v >> 6) & 1) <= 1 && ((v >> 7) & 1)
            <= 1) by (bit_vector);
    }
    let ones: u8 = (v & 1) + ((v >> 1) & 1) + ((v >> 2) & 1) + ((v >> 3) & 1) + ((v >> 4) & 1) + (
    (v >> 5) & 1) + ((v >> 6) & 1) + ((v >> 7) & 1);
    ones % 2 == 0
}

} // verus!
