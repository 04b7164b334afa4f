use z80core::io::{InputDevice, OutputDevice};
use z80core::ops::{Location8, Op, Reg16, Reg8, StatusFlag};
use z80core::z80::Z80;

struct NoIn;

impl InputDevice for NoIn {
    fn input(&mut self) -> u8 {
        0
    }
}

struct NoOut;

impl OutputDevice for NoOut {
    fn output(&mut self, _value: u8) {}
}

type Cpu = Z80<NoIn, NoOut>;

fn assert_flags(c: &Cpu, s: bool, z: bool, h: bool, pv: bool, n: bool, carry: bool) {
    assert_eq!(c.registers.get_flag(StatusFlag::Sign), s, "S flag");
    assert_eq!(c.registers.get_flag(StatusFlag::Zero), z, "Z flag");
    assert_eq!(c.registers.get_flag(StatusFlag::HalfCarry), h, "H flag");
    assert_eq!(c.registers.get_flag(StatusFlag::ParityOverflow), pv, "P/V flag");
    assert_eq!(c.registers.get_flag(StatusFlag::AddSubtract), n, "N flag");
    assert_eq!(c.registers.get_flag(StatusFlag::Carry), carry, "C flag");
}

#[test]
fn add_with_half_carry() {
    let mut c = Cpu::default();
    c.registers.set_reg8(Reg8::A, 0x0F);
    c.registers.set_reg8(Reg8::B, 0x01);
    let r = c.exec(Op::ADD8(Location8::Reg(Reg8::A), Location8::Reg(Reg8::B)));
    assert_eq!(r, None);
    assert_eq!(c.registers.get_reg8(Reg8::A), 0x10);
    assert_flags(&c, false, false, true, false, false, false);
}

#[test]
fn add_carry_and_overflow_of_two_negatives() {
    let mut c = Cpu::default();
    c.registers.set_reg8(Reg8::A, 0x80);
    c.exec(Op::ADD8(Location8::Reg(Reg8::A), Location8::Immediate(0x80)));
    assert_eq!(c.registers.get_reg8(Reg8::A), 0x00);
    assert_flags(&c, false, true, false, true, false, true);
}

#[test]
fn add_signed_overflow_at_0x7f() {
    let mut c = Cpu::default();
    c.registers.set_reg8(Reg8::A, 0x7F);
    c.exec(Op::ADD8(Location8::Reg(Reg8::A), Location8::Immediate(0x01)));
    assert_eq!(c.registers.get_reg8(Reg8::A), 0x80);
    assert_flags(&c, true, false, true, true, false, false);
}

#[test]
fn adc_adds_carry_in() {
    let mut c = Cpu::default();
    c.registers.set_flag(StatusFlag::Carry, true);
    c.registers.set_reg8(Reg8::A, 0x01);
    c.registers.set_reg8(Reg8::B, 0x01);
    c.exec(Op::ADC(Location8::Reg(Reg8::A), Location8::Reg(Reg8::B)));
    assert_eq!(c.registers.get_reg8(Reg8::A), 0x03);
    assert_flags(&c, false, false, false, false, false, false);
}

#[test]
fn adc_carry_chain_wraps_to_zero() {
    let mut c = Cpu::default();
    c.registers.set_flag(StatusFlag::Carry, true);
    c.registers.set_reg8(Reg8::A, 0xFF);
    c.exec(Op::ADC(Location8::Reg(Reg8::A), Location8::Immediate(0x00)));
    assert_eq!(c.registers.get_reg8(Reg8::A), 0x00);
    assert_flags(&c, false, true, true, false, false, true);
}

#[test]
fn inc_does_not_affect_carry() {
    let mut c = Cpu::default();
    c.registers.set_flag(StatusFlag::Carry, true);
    c.registers.set_reg8(Reg8::B, 0x0F);
    c.exec(Op::INC(Location8::Reg(Reg8::B)));
    assert_eq!(c.registers.get_reg8(Reg8::B), 0x10);
    assert!(c.registers.get_flag(StatusFlag::Carry));
    assert!(c.registers.get_flag(StatusFlag::HalfCarry));

    c.registers.set_flag(StatusFlag::Carry, false);
    c.exec(Op::INC(Location8::Reg(Reg8::B)));
    assert_eq!(c.registers.get_reg8(Reg8::B), 0x11);
    assert!(!c.registers.get_flag(StatusFlag::Carry));
}

#[test]
fn inc_memory_cell_through_hl() {
    let mut c = Cpu::default();
    c.registers.set_reg16(Reg16::HL, 0x2000);
    c.memory.write(0x2000, 0x41);
    c.exec(Op::INC(Location8::RegIndirect(Reg16::HL)));
    assert_eq!(c.memory.read(0x2000), 0x42);
}

#[test]
fn sub_with_borrow() {
    let mut c = Cpu::default();
    c.registers.set_reg8(Reg8::A, 0x10);
    c.registers.set_reg8(Reg8::B, 0x20);
    let r = c.exec(Op::SUB8(Location8::Reg(Reg8::A), Location8::Reg(Reg8::B)));
    assert_eq!(r, None);
    assert_eq!(c.registers.get_reg8(Reg8::A), 0xF0);
    assert_flags(&c, true, false, false, false, true, true);
}

#[test]
fn sbc_includes_borrow_in() {
    let mut c = Cpu::default();
    c.registers.set_flag(StatusFlag::Carry, true);
    c.registers.set_reg8(Reg8::A, 0x10);
    c.exec(Op::SBC(Location8::Reg(Reg8::A), Location8::Immediate(0x0F)));
    assert_eq!(c.registers.get_reg8(Reg8::A), 0x00);
    assert_flags(&c, false, true, true, false, true, false);
}

#[test]
fn cp_sets_flags_without_storing() {
    let mut c = Cpu::default();
    c.registers.set_reg8(Reg8::A, 0x10);
    c.exec(Op::CP(Location8::Immediate(0x20)));
    assert_eq!(c.registers.get_reg8(Reg8::A), 0x10);
    assert_flags(&c, true, false, false, false, true, true);
}

#[test]
fn cp_equal_sets_zero() {
    let mut c = Cpu::default();
    c.registers.set_reg8(Reg8::A, 0x42);
    c.exec(Op::CP(Location8::Immediate(0x42)));
    assert_eq!(c.registers.get_reg8(Reg8::A), 0x42);
    assert_flags(&c, false, true, false, false, true, false);
}

#[test]
fn dec_does_not_affect_carry() {
    let mut c = Cpu::default();
    c.registers.set_flag(StatusFlag::Carry, true);
    c.registers.set_reg8(Reg8::D, 0x10);
    c.exec(Op::DEC(Location8::Reg(Reg8::D)));
    assert_eq!(c.registers.get_reg8(Reg8::D), 0x0F);
    assert!(c.registers.get_flag(StatusFlag::Carry));
    assert!(c.registers.get_flag(StatusFlag::HalfCarry));
    assert!(c.registers.get_flag(StatusFlag::AddSubtract));
}

#[test]
fn dec_wraps_zero_to_0xff() {
    let mut c = Cpu::default();
    c.exec(Op::DEC(Location8::Reg(Reg8::E)));
    assert_eq!(c.registers.get_reg8(Reg8::E), 0xFF);
    assert!(c.registers.get_flag(StatusFlag::Sign));
}

#[test]
fn neg_of_0x80_overflows() {
    let mut c = Cpu::default();
    c.registers.set_reg8(Reg8::A, 0x80);
    let r = c.exec(Op::NEG);
    assert_eq!(r, None);
    assert_eq!(c.registers.get_reg8(Reg8::A), 0x80);
    assert_flags(&c, true, false, false, true, true, true);
}

#[test]
fn neg_of_zero_clears_carry() {
    let mut c = Cpu::default();
    c.exec(Op::NEG);
    assert_eq!(c.registers.get_reg8(Reg8::A), 0x00);
    assert_flags(&c, false, true, false, false, true, false);
}

#[test]
fn neg_of_one() {
    let mut c = Cpu::default();
    c.registers.set_reg8(Reg8::A, 0x01);
    c.exec(Op::NEG);
    assert_eq!(c.registers.get_reg8(Reg8::A), 0xFF);
    assert_flags(&c, true, false, true, false, true, true);
}
