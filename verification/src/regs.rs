//! The register file: two banks of eight 8-bit registers plus the
//! 16-bit program counter and stack pointer. The flag register F is a
//! packed byte, so that programs observe it directly (for instance
//! through PUSH AF); the accessors mask the documented bit of each flag.

use vstd::prelude::*;

use crate::ops::{Reg16, Reg8, StatusFlag};

verus! {

/// Bit of F that holds the carry flag C.
pub const FLAG_MASK_C: u8 = 0x01;

/// Bit of F that holds the add/subtract flag N.
pub const FLAG_MASK_N: u8 = 0x02;

/// Bit of F that holds the parity/overflow flag P/V.
pub const FLAG_MASK_PV: u8 = 0x04;

/// Bit of F that holds the half-carry flag H.
pub const FLAG_MASK_H: u8 = 0x10;

/// Bit of F that holds the zero flag Z.
pub const FLAG_MASK_Z: u8 = 0x40;

/// Bit of F that holds the sign flag S.
pub const FLAG_MASK_S: u8 = 0x80;

/// The documented bit of F for each flag. Bits 3 and 5 of F belong to
/// no flag and are left as they are by every flag update.
pub open spec fn flag_mask(fl: StatusFlag) -> u8 {
    match fl {
        StatusFlag::Carry => FLAG_MASK_C,
        StatusFlag::AddSubtract => FLAG_MASK_N,
        StatusFlag::ParityOverflow => FLAG_MASK_PV,
        StatusFlag::HalfCarry => FLAG_MASK_H,
        StatusFlag::Zero => FLAG_MASK_Z,
        StatusFlag::Sign => FLAG_MASK_S,
    }
}

/// The register file. All registers are plain fields so that a host can
/// load and inspect state directly; the methods give masked flag access
/// and the big-endian-within-pair view of the 16-bit pairs.
#[derive(Clone, Copy, PartialEq, Eq, Structural, Debug)]
pub struct Registers {
    pub a: u8,
    pub f: u8,
    pub b: u8,
    pub c: u8,
    pub d: u8,
    pub e: u8,
    pub h: u8,
    pub l: u8,
    pub a_p: u8,
    pub f_p: u8,
    pub b_p: u8,
    pub c_p: u8,
    pub d_p: u8,
    pub e_p: u8,
    pub h_p: u8,
    pub l_p: u8,
    pub pc: u16,
    pub sp: u16,
}

impl Registers {
    /// The register file with every register zero.
    pub open spec fn zeroed() -> Registers {
        Registers {
            a: 0,
            f: 0,
            b: 0,
            c: 0,
            d: 0,
            e: 0,
            h: 0,
            l: 0,
            a_p: 0,
            f_p: 0,
            b_p: 0,
            c_p: 0,
            d_p: 0,
            e_p: 0,
            h_p: 0,
            l_p: 0,
            pc: 0,
            sp: 0,
        }
    }

    /// The value of an 8-bit register.
    pub open spec fn spec_reg8(self, n: Reg8) -> u8 {
        match n {
            Reg8::A => self.a,
            Reg8::F => self.f,
            Reg8::B => self.b,
            Reg8::C => self.c,
            Reg8::D => self.d,
            Reg8::E => self.e,
            Reg8::H => self.h,
            Reg8::L => self.l,
            Reg8::AP => self.a_p,
            Reg8::FP => self.f_p,
            Reg8::BP => self.b_p,
            Reg8::CP => self.c_p,
            Reg8::DP => self.d_p,
            Reg8::EP => self.e_p,
            Reg8::HP => self.h_p,
            Reg8::LP => self.l_p,
        }
    }

    /// The register file after writing an 8-bit register.
    pub open spec fn with_reg8(self, n: Reg8, v: u8) -> Registers {
        match n {
            Reg8::A => Registers { a: v, ..self },
            Reg8::F => Registers { f: v, ..self },
            Reg8::B => Registers { b: v, ..self },
            Reg8::C => Registers { c: v, ..self },
            Reg8::D => Registers { d: v, ..self },
            Reg8::E => Registers { e: v, ..self },
            Reg8::H => Registers { h: v, ..self },
            Reg8::L => Registers { l: v, ..self },
            Reg8::AP => Registers { a_p: v, ..self },
            Reg8::FP => Registers { f_p: v, ..self },
            Reg8::BP => Registers { b_p: v, ..self },
            Reg8::CP => Registers { c_p: v, ..self },
            Reg8::DP => Registers { d_p: v, ..self },
            Reg8::EP => Registers { e_p: v, ..self },
            Reg8::HP => Registers { h_p: v, ..self },
            Reg8::LP => Registers { l_p: v, ..self },
        }
    }

    /// The value of a 16-bit register: the high-byte register times 256
    /// plus the low-byte register, or SP itself.
    pub open spec fn spec_reg16(self, p: Reg16) -> u16 {
        match p {
            Reg16::AF => (256 * (self.a as int) + (self.f as int)) as u16,
            Reg16::BC => (256 * (self.b as int) + (self.c as int)) as u16,
            Reg16::DE => (256 * (self.d as int) + (self.e as int)) as u16,
            Reg16::HL => (256 * (self.h as int) + (self.l as int)) as u16,
            Reg16::AFP => (256 * (self.a_p as int) + (self.f_p as int)) as u16,
            Reg16::BCP => (256 * (self.b_p as int) + (self.c_p as int)) as u16,
            Reg16::DEP => (256 * (self.d_p as int) + (self.e_p as int)) as u16,
            Reg16::HLP => (256 * (self.h_p as int) + (self.l_p as int)) as u16,
            Reg16::SP => self.sp,
        }
    }

    /// The register file after writing a 16-bit register: the high byte
    /// of `v` goes to the first-named register of the pair, the low
    /// byte to the second.
    pub open spec fn with_reg16(self, p: Reg16, v: u16) -> Registers {
        let hi = ((v as int) / 256) as u8;
        let lo = ((v as int) % 256) as u8;
        match p {
            Reg16::AF => Registers { a: hi, f: lo, ..self },
            Reg16::BC => Registers { b: hi, c: lo, ..self },
            Reg16::DE => Registers { d: hi, e: lo, ..self },
            Reg16::HL => Registers { h: hi, l: lo, ..self },
            Reg16::AFP => Registers { a_p: hi, f_p: lo, ..self },
            Reg16::BCP => Registers { b_p: hi, c_p: lo, ..self },
            Reg16::DEP => Registers { d_p: hi, e_p: lo, ..self },
            Reg16::HLP => Registers { h_p: hi, l_p: lo, ..self },
            Reg16::SP => Registers { sp: v, ..self },
        }
    }

    /// Whether a flag is set: the documented bit of F is one.
    pub open spec fn spec_flag(self, fl: StatusFlag) -> bool {
        self.f & flag_mask(fl) != 0
    }

    /// The register file after setting or clearing one flag; every
    /// other bit of F is unchanged.
    pub open spec fn with_flag(self, fl: StatusFlag, b: bool) -> Registers {
        Registers {
            f: if b {
                self.f | flag_mask(fl)
            } else {
                self.f & !flag_mask(fl)
            },
            ..self
        }
    }

    /// Read an 8-bit register.
    pub fn get_reg8(&self, n: Reg8) -> (v: u8)
        ensures
            v == self.spec_reg8(n),
    {
        match n {
            Reg8::A => self.a,
            Reg8::F => self.f,
            Reg8::B => self.b,
            Reg8::C => self.c,
            Reg8::D => self.d,
            Reg8::E => self.e,
            Reg8::H => self.h,
            Reg8::L => self.l,
            Reg8::AP => self.a_p,
            Reg8::FP => self.f_p,
            Reg8::BP => self.b_p,
            Reg8::CP => self.c_p,
            Reg8::DP => self.d_p,
            Reg8::EP => self.e_p,
            Reg8::HP => self.h_p,
            Reg8::LP => self.l_p,
        }
    }

    /// Write an 8-bit register.
    pub fn set_reg8(&mut self, n: Reg8, v: u8)
        ensures
            *final(self) == old(self).with_reg8(n, v),
    {
        match n {
            Reg8::A => self.a = v,
            Reg8::F => self.f = v,
            Reg8::B => self.b = v,
            Reg8::C => self.c = v,
            Reg8::D => self.d = v,
            Reg8::E => self.e = v,
            Reg8::H => self.h = v,
            Reg8::L => self.l = v,
            Reg8::AP => self.a_p = v,
            Reg8::FP => self.f_p = v,
            Reg8::BP => self.b_p = v,
            Reg8::CP => self.c_p = v,
            Reg8::DP => self.d_p = v,
            Reg8::EP => self.e_p = v,
            Reg8::HP => self.h_p = v,
            Reg8::LP => self.l_p = v,
        }
    }

    /// Read a 16-bit register.
    pub fn get_reg16(&self, p: Reg16) -> (v: u16)
        ensures
            v == self.spec_reg16(p),
    {
        match p {
            Reg16::AF => 256 * (self.a as u16) + (self.f as u16),
            Reg16::BC => 256 * (self.b as u16) + (self.c as u16),
            Reg16::DE => 256 * (self.d as u16) + (self.e as u16),
            Reg16::HL => 256 * (self.h as u16) + (self.l as u16),
            Reg16::AFP => 256 * (self.a_p as u16) + (self.f_p as u16),
            Reg16::BCP => 256 * (self.b_p as u16) + (self.c_p as u16),
            Reg16::DEP => 256 * (self.d_p as u16) + (self.e_p as u16),
            Reg16::HLP => 256 * (self.h_p as u16) + (self.l_p as u16),
            Reg16::SP => self.sp,
        }
    }

    /// Write a 16-bit register.
    pub fn set_reg16(&mut self, p: Reg16, v: u16)
        ensures
            *final(self) == old(self).with_reg16(p, v),
    {
        let hi = (v / 256) as u8;
        let lo = (v % 256) as u8;
        match p {
            Reg16::AF => {
                self.a = hi;
                self.f = lo;
            },
            Reg16::BC => {
                self.b = hi;
                self.c = lo;
            },
            Reg16::DE => {
                self.d = hi;
                self.e = lo;
            },
            Reg16::HL => {
                self.h = hi;
                self.l = lo;
            },
            Reg16::AFP => {
                self.a_p = hi;
                self.f_p = lo;
            },
            Reg16::BCP => {
                self.b_p = hi;
                self.c_p = lo;
            },
            Reg16::DEP => {
                self.d_p = hi;
                self.e_p = lo;
            },
            Reg16::HLP => {
                self.h_p = hi;
                self.l_p = lo;
            },
            Reg16::SP => {
                self.sp = v;
            },
        }
    }

    /// Read one flag.
    pub fn get_flag(&self, fl: StatusFlag) -> (b: bool)
        ensures
            b == self.spec_flag(fl),
    {
        let m = mask_of(fl);
        self.f & m != 0
    }

    /// Set or clear one flag, leaving every other bit of F unchanged.
    pub fn set_flag(&mut self, fl: StatusFlag, b: bool)
        ensures
            *final(self) == old(self).with_flag(fl, b),
    {
        let m = mask_of(fl);
        if b {
            self.f = self.f | m;
        } else {
            self.f = self.f & !m;
        }
    }

    /// Read the program counter.
    pub fn get_pc(&self) -> (v: u16)
        ensures
            v == self.pc,
    {
        self.pc
    }

    /// Write the program counter.
    pub fn set_pc(&mut self, v: u16)
        ensures
            *final(self) == (Registers { pc: v, ..*old(self) }),
    {
        self.pc = v;
    }
}

/// The documented bit of F for one flag, as a runtime value.
pub fn mask_of(fl: StatusFlag) -> (m: u8)
    ensures
        m == flag_mask(fl),
{
    match fl {
        StatusFlag::Carry => FLAG_MASK_C,
        StatusFlag::AddSubtract => FLAG_MASK_N,
        StatusFlag::ParityOverflow => FLAG_MASK_PV,
        StatusFlag::HalfCarry => FLAG_MASK_H,
        StatusFlag::Zero => FLAG_MASK_Z,
        StatusFlag::Sign => FLAG_MASK_S,
    }
}

impl Default for Registers {
    /// The register file with every register zero.
    fn default() -> (r: Registers)
        ensures
            r == Registers::zeroed(),
    {
        Registers {
            a: 0,
            f: 0,
            b: 0,
            c: 0,
            d: 0,
            e: 0,
            h: 0,
            l: 0,
            a_p: 0,
            f_p: 0,
            b_p: 0,
            c_p: 0,
            d_p: 0,
            e_p: 0,
            h_p: 0,
            l_p: 0,
            pc: 0,
            sp: 0,
        }
    }
}

} // verus!
