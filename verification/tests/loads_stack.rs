use z80core::io::{InputDevice, OutputDevice};
use z80core::ops::{Location16, Location8, Op, Reg16, Reg8};
use z80core::z80::Z80;

struct NoIn;

impl InputDevice for NoIn {
    fn input(&mut self) -> u8 {
        0
    }
}

struct NoOut;

impl OutputDevice for NoOut {
    fn output(&mut self, _value: u8) {}
}

type Cpu = Z80<NoIn, NoOut>;

#[test]
fn ld8_register_to_register() {
    let mut c = Cpu::default();
    c.registers.set_reg8(Reg8::B, 0x42);
    c.exec(Op::LD8(Location8::Reg(Reg8::A), Location8::Reg(Reg8::B)));
    assert_eq!(c.registers.get_reg8(Reg8::A), 0x42);
    assert_eq!(c.registers.get_reg8(Reg8::B), 0x42);
}

#[test]
fn ld8_immediate_to_register() {
    let mut c = Cpu::default();
    c.exec(Op::LD8(Location8::Reg(Reg8::E), Location8::Immediate(0x99)));
    assert_eq!(c.registers.get_reg8(Reg8::E), 0x99);
}

#[test]
fn ld8_through_hl() {
    let mut c = Cpu::default();
    c.registers.set_reg16(Reg16::HL, 0x1000);
    c.memory.write(0x1000, 0x7E);
    c.exec(Op::LD8(Location8::Reg(Reg8::A), Location8::RegIndirect(Reg16::HL)));
    assert_eq!(c.registers.get_reg8(Reg8::A), 0x7E);

    c.registers.set_reg8(Reg8::A, 0x5C);
    c.exec(Op::LD8(Location8::RegIndirect(Reg16::HL), Location8::Reg(Reg8::A)));
    assert_eq!(c.memory.read(0x1000), 0x5C);
}

#[test]
fn ld8_immediate_indirect() {
    let mut c = Cpu::default();
    c.registers.set_reg8(Reg8::A, 0xAB);
    c.exec(Op::LD8(Location8::ImmediateIndirect(0x2345), Location8::Reg(Reg8::A)));
    assert_eq!(c.memory.read(0x2345), 0xAB);
    c.exec(Op::LD8(Location8::Reg(Reg8::C), Location8::ImmediateIndirect(0x2345)));
    assert_eq!(c.registers.get_reg8(Reg8::C), 0xAB);
}

#[test]
fn ld8_keeps_flags() {
    let mut c = Cpu::default();
    c.registers.set_reg8(Reg8::F, 0xD7);
    c.exec(Op::LD8(Location8::Reg(Reg8::A), Location8::Immediate(0x00)));
    assert_eq!(c.registers.get_reg8(Reg8::F), 0xD7);
}

#[test]
fn ld16_immediate_to_pair() {
    let mut c = Cpu::default();
    c.exec(Op::LD16(Location16::Reg(Reg16::BC), Location16::Immediate(0xCAFE)));
    assert_eq!(c.registers.get_reg16(Reg16::BC), 0xCAFE);
    assert_eq!(c.registers.get_reg8(Reg8::B), 0xCA);
    assert_eq!(c.registers.get_reg8(Reg8::C), 0xFE);
}

#[test]
fn ld16_to_memory_is_little_endian() {
    let mut c = Cpu::default();
    c.registers.set_reg16(Reg16::DE, 0x1234);
    c.exec(Op::LD16(Location16::ImmediateIndirect(0x3000), Location16::Reg(Reg16::DE)));
    assert_eq!(c.memory.read(0x3000), 0x34);
    assert_eq!(c.memory.read(0x3001), 0x12);
}

#[test]
fn ld16_from_memory() {
    let mut c = Cpu::default();
    c.memory.write_word(0x3002, 0xFACE);
    c.exec(Op::LD16(Location16::Reg(Reg16::HL), Location16::ImmediateIndirect(0x3002)));
    assert_eq!(c.registers.get_reg16(Reg16::HL), 0xFACE);
}

#[test]
fn ld16_sp_round_trip() {
    let mut c = Cpu::default();
    c.exec(Op::LD16(Location16::Reg(Reg16::SP), Location16::Immediate(0x3F00)));
    assert_eq!(c.registers.get_reg16(Reg16::SP), 0x3F00);
}

#[test]
fn push_writes_little_endian_below_sp() {
    let mut c = Cpu::default();
    assert_eq!(c.registers.get_reg16(Reg16::SP), 0x4000);
    c.registers.set_reg16(Reg16::BC, 0xBEEF);
    c.exec(Op::PUSH(Location16::Reg(Reg16::BC)));
    assert_eq!(c.registers.get_reg16(Reg16::SP), 0x3FFE);
    assert_eq!(c.memory.read(0x3FFE), 0xEF);
    assert_eq!(c.memory.read(0x3FFF), 0xBE);
}

#[test]
fn push_pop_round_trip() {
    let mut c = Cpu::default();
    c.registers.set_reg16(Reg16::DE, 0x1357);
    c.exec(Op::PUSH(Location16::Reg(Reg16::DE)));
    c.registers.set_reg16(Reg16::DE, 0x0000);
    c.exec(Op::POP(Location16::Reg(Reg16::DE)));
    assert_eq!(c.registers.get_reg16(Reg16::DE), 0x1357);
    assert_eq!(c.registers.get_reg16(Reg16::SP), 0x4000);
}

#[test]
fn push_pop_through_af() {
    let mut c = Cpu::default();
    c.registers.set_reg16(Reg16::AF, 0x12D7);
    c.exec(Op::PUSH(Location16::Reg(Reg16::AF)));
    c.registers.set_reg16(Reg16::AF, 0x0000);
    c.exec(Op::POP(Location16::Reg(Reg16::AF)));
    assert_eq!(c.registers.get_reg8(Reg8::A), 0x12);
    assert_eq!(c.registers.get_reg8(Reg8::F), 0xD7);
}

#[test]
fn two_pushes_stack_downward() {
    let mut c = Cpu::default();
    c.exec(Op::PUSH(Location16::Immediate(0x1111)));
    c.exec(Op::PUSH(Location16::Immediate(0x2222)));
    assert_eq!(c.registers.get_reg16(Reg16::SP), 0x3FFC);
    c.exec(Op::POP(Location16::Reg(Reg16::HL)));
    assert_eq!(c.registers.get_reg16(Reg16::HL), 0x2222);
    c.exec(Op::POP(Location16::Reg(Reg16::HL)));
    assert_eq!(c.registers.get_reg16(Reg16::HL), 0x1111);
    assert_eq!(c.registers.get_reg16(Reg16::SP), 0x4000);
}
