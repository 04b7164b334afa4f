use z80core::io::{InputDevice, OutputDevice};
use z80core::ops::{Location8, Op, Reg16, Reg8, StatusFlag};
use z80core::z80::Z80;

struct NoIn;

impl InputDevice for NoIn {
    fn input(&mut self) -> u8 {
        0
    }
}

struct NoOut;

impl OutputDevice for NoOut {
    fn output(&mut self, _value: u8) {}
}

type Cpu = Z80<NoIn, NoOut>;

#[test]
fn bit_test_set_bit() {
    let mut c = Cpu::default();
    c.registers.set_reg8(Reg8::H, 0b0010_0000);
    let r = c.exec(Op::BIT(5, Location8::Reg(Reg8::H)));
    assert_eq!(r, None);
    assert!(!c.registers.get_flag(StatusFlag::Zero));
    assert!(c.registers.get_flag(StatusFlag::HalfCarry));
    assert!(!c.registers.get_flag(StatusFlag::AddSubtract));
    assert_eq!(c.registers.get_reg8(Reg8::H), 0b0010_0000);
}

#[test]
fn bit_test_clear_bit() {
    let mut c = Cpu::default();
    c.exec(Op::BIT(0, Location8::Immediate(0xFE)));
    assert!(c.registers.get_flag(StatusFlag::Zero));
    assert!(c.registers.get_flag(StatusFlag::HalfCarry));
}

#[test]
fn bit_test_leaves_carry() {
    let mut c = Cpu::default();
    c.registers.set_flag(StatusFlag::Carry, true);
    c.exec(Op::BIT(7, Location8::Immediate(0x80)));
    assert!(!c.registers.get_flag(StatusFlag::Zero));
    assert!(c.registers.get_flag(StatusFlag::Carry));
}

#[test]
fn set_bit_in_register() {
    let mut c = Cpu::default();
    c.registers.set_reg8(Reg8::B, 0x00);
    c.exec(Op::SET(3, Location8::Reg(Reg8::B)));
    assert_eq!(c.registers.get_reg8(Reg8::B), 0x08);
}

#[test]
fn set_bit_keeps_flags() {
    let mut c = Cpu::default();
    c.registers.set_reg8(Reg8::F, 0xFF);
    c.exec(Op::SET(0, Location8::Reg(Reg8::B)));
    assert_eq!(c.registers.get_reg8(Reg8::F), 0xFF);
}

#[test]
fn set_bit_in_memory() {
    let mut c = Cpu::default();
    c.registers.set_reg16(Reg16::HL, 0x1800);
    c.memory.write(0x1800, 0x01);
    c.exec(Op::SET(7, Location8::RegIndirect(Reg16::HL)));
    assert_eq!(c.memory.read(0x1800), 0x81);
}

#[test]
fn res_bit_in_register() {
    let mut c = Cpu::default();
    c.registers.set_reg8(Reg8::C, 0xFF);
    c.exec(Op::RES(4, Location8::Reg(Reg8::C)));
    assert_eq!(c.registers.get_reg8(Reg8::C), 0xEF);
}

#[test]
fn res_bit_in_memory() {
    let mut c = Cpu::default();
    c.registers.set_reg16(Reg16::HL, 0x1801);
    c.memory.write(0x1801, 0x81);
    c.exec(Op::RES(0, Location8::RegIndirect(Reg16::HL)));
    assert_eq!(c.memory.read(0x1801), 0x80);
}

#[test]
fn set_already_set_bit_is_idempotent() {
    let mut c = Cpu::default();
    c.registers.set_reg8(Reg8::D, 0x10);
    c.exec(Op::SET(4, Location8::Reg(Reg8::D)));
    assert_eq!(c.registers.get_reg8(Reg8::D), 0x10);
}
