use z80core::io::{InputDevice, OutputDevice};
use z80core::ops::{JumpConditional, Location16, Location8, Op, Reg16, Reg8, StatusFlag};
use z80core::z80::Z80;

struct NoIn;

impl InputDevice for NoIn {
    fn input(&mut self) -> u8 {
        0
    }
}

struct NoOut;

impl OutputDevice for NoOut {
    fn output(&mut self, _value: u8) {}
}

type Cpu = Z80<NoIn, NoOut>;

#[test]
fn jp_unconditional_returns_target() {
    let mut c = Cpu::default();
    let r = c.exec(Op::JP(JumpConditional::Unconditional, Location16::Immediate(0x1234)));
    assert_eq!(r, Some(0x1234));
}

#[test]
fn jp_through_hl() {
    let mut c = Cpu::default();
    c.registers.set_reg16(Reg16::HL, 0x0BCD);
    let r = c.exec(Op::JP(JumpConditional::Unconditional, Location16::Reg(Reg16::HL)));
    assert_eq!(r, Some(0x0BCD));
}

#[test]
fn jp_conditions_follow_flags() {
    let mut c = Cpu::default();
    let target = Location16::Immediate(0x0200);
    c.registers.set_flag(StatusFlag::Carry, true);
    assert_eq!(c.exec(Op::JP(JumpConditional::Carry, target)), Some(0x0200));
    assert_eq!(c.exec(Op::JP(JumpConditional::NoCarry, target)), None);

    c.registers.set_flag(StatusFlag::Zero, false);
    assert_eq!(c.exec(Op::JP(JumpConditional::Zero, target)), None);
    assert_eq!(c.exec(Op::JP(JumpConditional::NonZero, target)), Some(0x0200));

    c.registers.set_flag(StatusFlag::ParityOverflow, true);
    assert_eq!(c.exec(Op::JP(JumpConditional::ParityEven, target)), Some(0x0200));
    assert_eq!(c.exec(Op::JP(JumpConditional::ParityOdd, target)), None);

    c.registers.set_flag(StatusFlag::Sign, true);
    assert_eq!(c.exec(Op::JP(JumpConditional::SignNegative, target)), Some(0x0200));
    assert_eq!(c.exec(Op::JP(JumpConditional::SignPositive, target)), None);
}

#[test]
fn jr_adds_two_and_offset() {
    let mut c = Cpu::default();
    c.registers.set_pc(0x0100);
    assert_eq!(c.exec(Op::JR(JumpConditional::Unconditional, 5)), Some(0x0107));
    assert_eq!(c.exec(Op::JR(JumpConditional::Unconditional, -2)), Some(0x0100));
}

#[test]
fn jr_wraps_around_address_space() {
    let mut c = Cpu::default();
    c.registers.set_pc(0x0000);
    assert_eq!(c.exec(Op::JR(JumpConditional::Unconditional, -10)), Some(0xFFF8));
    c.registers.set_pc(0xFFFF);
    assert_eq!(c.exec(Op::JR(JumpConditional::Unconditional, 1)), Some(0x0002));
}

#[test]
fn jr_not_taken_returns_none() {
    let mut c = Cpu::default();
    c.registers.set_flag(StatusFlag::Zero, false);
    assert_eq!(c.exec(Op::JR(JumpConditional::Zero, 5)), None);
}

#[test]
fn djnz_loops_until_b_reaches_zero() {
    let mut c = Cpu::default();
    c.registers.set_reg8(Reg8::B, 3);
    c.registers.set_pc(0x0100);
    assert_eq!(c.exec(Op::DJNZ(5)), Some(0x0107));
    assert_eq!(c.registers.get_reg8(Reg8::B), 2);
    assert_eq!(c.exec(Op::DJNZ(5)), Some(0x0107));
    assert_eq!(c.registers.get_reg8(Reg8::B), 1);
    assert_eq!(c.exec(Op::DJNZ(5)), None);
    assert_eq!(c.registers.get_reg8(Reg8::B), 0);
}

#[test]
fn djnz_wraps_b_from_zero() {
    let mut c = Cpu::default();
    c.registers.set_reg8(Reg8::B, 0);
    c.registers.set_pc(0x0100);
    assert_eq!(c.exec(Op::DJNZ(1)), Some(0x0103));
    assert_eq!(c.registers.get_reg8(Reg8::B), 0xFF);
}

#[test]
fn call_then_ret() {
    let mut c = Cpu::default();
    c.registers.set_pc(0x0100);
    assert_eq!(c.registers.get_reg16(Reg16::SP), 0x4000);

    let r = c.exec(Op::CALL(JumpConditional::Unconditional, 0x0200));
    assert_eq!(r, Some(0x0200));
    assert_eq!(c.registers.get_reg16(Reg16::SP), 0x3FFE);
    assert_eq!(c.memory.read(0x3FFE), 0x03);
    assert_eq!(c.memory.read(0x3FFF), 0x01);

    // The driver installs the returned PC.
    c.registers.set_pc(0x0200);
    let r = c.exec(Op::RET(JumpConditional::Unconditional));
    assert_eq!(r, Some(0x0103));
    assert_eq!(c.registers.get_reg16(Reg16::SP), 0x4000);
}

#[test]
fn call_not_taken_pushes_nothing() {
    let mut c = Cpu::default();
    c.registers.set_pc(0x0100);
    c.registers.set_flag(StatusFlag::Carry, false);
    let r = c.exec(Op::CALL(JumpConditional::Carry, 0x0200));
    assert_eq!(r, None);
    assert_eq!(c.registers.get_reg16(Reg16::SP), 0x4000);
    assert_eq!(c.registers.get_pc(), 0x0100);
}

#[test]
fn ret_not_taken_leaves_stack() {
    let mut c = Cpu::default();
    c.exec(Op::PUSH(Location16::Immediate(0x0456)));
    c.registers.set_flag(StatusFlag::Zero, false);
    assert_eq!(c.exec(Op::RET(JumpConditional::Zero)), None);
    assert_eq!(c.registers.get_reg16(Reg16::SP), 0x3FFE);
}

#[test]
fn non_control_instructions_return_none() {
    let mut c = Cpu::default();
    assert_eq!(c.exec(Op::NOP), None);
    assert_eq!(c.exec(Op::SCF), None);
    assert_eq!(c.exec(Op::LD8(Location8::Reg(Reg8::A), Location8::Immediate(1))), None);
    assert_eq!(c.exec(Op::ADD8(Location8::Reg(Reg8::A), Location8::Immediate(1))), None);
    assert_eq!(c.exec(Op::PUSH(Location16::Reg(Reg16::BC))), None);
    assert_eq!(c.exec(Op::RLD), None);
    assert_eq!(c.exec(Op::BIT(0, Location8::Reg(Reg8::A))), None);
    assert_eq!(c.exec(Op::HALT), None);
}

#[test]
fn halt_sets_the_latch() {
    let mut c = Cpu::default();
    assert!(!c.is_halted());
    c.exec(Op::HALT);
    assert!(c.is_halted());
}

#[test]
fn nop_changes_nothing() {
    let mut c = Cpu::default();
    c.registers.set_reg8(Reg8::A, 0x42);
    c.registers.set_reg8(Reg8::F, 0x55);
    c.exec(Op::NOP);
    assert_eq!(c.registers.get_reg8(Reg8::A), 0x42);
    assert_eq!(c.registers.get_reg8(Reg8::F), 0x55);
    assert!(!c.is_halted());
}

#[test]
fn executor_never_writes_pc() {
    let mut c = Cpu::default();
    c.registers.set_pc(0x0100);
    c.exec(Op::JP(JumpConditional::Unconditional, Location16::Immediate(0x1234)));
    c.exec(Op::CALL(JumpConditional::Unconditional, 0x0200));
    c.exec(Op::DJNZ(5));
    assert_eq!(c.registers.get_pc(), 0x0100);
}
