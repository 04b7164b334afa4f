use std::cell::RefCell;
use std::rc::Rc;

use z80core::io::{InputDevice, OutputDevice};
use z80core::ops::{Location8, Op, Reg16, Reg8};
use z80core::z80::Z80;

struct ConstIn {
    value: u8,
}

impl InputDevice for ConstIn {
    fn input(&mut self) -> u8 {
        self.value
    }
}

struct CountingIn {
    next: u8,
}

impl InputDevice for CountingIn {
    fn input(&mut self) -> u8 {
        let v = self.next;
        self.next = self.next.wrapping_add(1);
        v
    }
}

struct SinkOut {
    seen: Rc<RefCell<Vec<u8>>>,
}

impl OutputDevice for SinkOut {
    fn output(&mut self, value: u8) {
        self.seen.borrow_mut().push(value);
    }
}

#[test]
fn in_reads_installed_device_into_register() {
    let mut c: Z80<ConstIn, SinkOut> = Z80::default();
    c.install_input(0x07, ConstIn { value: 0x42 });
    c.registers.set_reg8(Reg8::C, 0x07);
    let r = c.exec(Op::IN(Location8::Reg(Reg8::B), Location8::Reg(Reg8::C)));
    assert_eq!(r, None);
    assert_eq!(c.registers.get_reg8(Reg8::B), 0x42);
}

#[test]
fn in_writes_memory_destination() {
    let mut c: Z80<ConstIn, SinkOut> = Z80::default();
    c.install_input(0x01, ConstIn { value: 0x99 });
    c.registers.set_reg16(Reg16::HL, 0x1234);
    c.exec(Op::IN(Location8::RegIndirect(Reg16::HL), Location8::Immediate(0x01)));
    assert_eq!(c.memory.read(0x1234), 0x99);
}

#[test]
fn in_keeps_device_state_between_calls() {
    let mut c: Z80<CountingIn, SinkOut> = Z80::default();
    c.install_input(0x00, CountingIn { next: 10 });
    c.exec(Op::IN(Location8::Reg(Reg8::A), Location8::Immediate(0x00)));
    assert_eq!(c.registers.get_reg8(Reg8::A), 10);
    c.exec(Op::IN(Location8::Reg(Reg8::A), Location8::Immediate(0x00)));
    assert_eq!(c.registers.get_reg8(Reg8::A), 11);
}

#[test]
fn out_sends_source_byte_to_device() {
    let seen = Rc::new(RefCell::new(Vec::new()));
    let mut c: Z80<ConstIn, SinkOut> = Z80::default();
    c.install_output(0x20, SinkOut { seen: Rc::clone(&seen) });
    c.registers.set_reg8(Reg8::A, 0x5A);
    let r = c.exec(Op::OUT(Location8::Reg(Reg8::A), Location8::Immediate(0x20)));
    assert_eq!(r, None);
    assert_eq!(*seen.borrow(), vec![0x5A]);
    // Registers and memory are untouched.
    assert_eq!(c.registers.get_reg8(Reg8::A), 0x5A);
}

#[test]
fn out_port_can_come_from_register() {
    let seen = Rc::new(RefCell::new(Vec::new()));
    let mut c: Z80<ConstIn, SinkOut> = Z80::default();
    c.install_output(0x11, SinkOut { seen: Rc::clone(&seen) });
    c.registers.set_reg8(Reg8::C, 0x11);
    c.registers.set_reg8(Reg8::D, 0x77);
    c.exec(Op::OUT(Location8::Reg(Reg8::D), Location8::Reg(Reg8::C)));
    c.exec(Op::OUT(Location8::Immediate(0x01), Location8::Reg(Reg8::C)));
    assert_eq!(*seen.borrow(), vec![0x77, 0x01]);
}

#[test]
fn install_input_replaces_previous_device() {
    let mut c: Z80<ConstIn, SinkOut> = Z80::default();
    c.install_input(0x05, ConstIn { value: 1 });
    c.install_input(0x05, ConstIn { value: 2 });
    c.exec(Op::IN(Location8::Reg(Reg8::A), Location8::Immediate(0x05)));
    assert_eq!(c.registers.get_reg8(Reg8::A), 2);
}
