//! Arithmetic/logical unit tests: exact results and exact flags.
//!
//! Carry polarity on subtraction follows the real 8080: CY is set on a
//! borrow (minuend smaller than subtrahend), never on the inverted
//! convention a two's-complement addition trick would report.

use emulator::DefaultHandler;
use emulator::Emu8080;
use emulator::state::parity;

fn setup() -> Emu8080<DefaultHandler> {
    Emu8080::new(DefaultHandler)
}

#[test]
fn add() {
    let mut emu = setup();
    emu.state.a = 10;
    emu.add(25);
    assert_eq!(emu.state.a, 35);
    assert!(!emu.state.fl.cy);
    assert!(!emu.state.fl.z);
    assert!(!emu.state.fl.p);
    assert!(!emu.state.fl.s);
}

#[test]
fn add_signed_overflow() {
    let mut emu = setup();
    emu.state.a = 120;
    emu.add(10);
    assert_eq!(emu.state.a, 130);
    assert!(!emu.state.fl.cy);
    assert!(!emu.state.fl.z);
    assert!(emu.state.fl.p);
    assert!(emu.state.fl.s);
}

#[test]
fn sub() {
    let mut emu = setup();
    emu.state.a = 30;
    emu.sub(15);
    assert_eq!(emu.state.a, 15);
    assert!(!emu.state.fl.cy);
    assert!(!emu.state.fl.z);
    assert!(emu.state.fl.p);
    assert!(!emu.state.fl.s);
}

#[test]
fn sub_underflow() {
    let mut emu = setup();
    emu.state.a = 9;
    emu.sub(20);
    assert_eq!(emu.state.a, 245);
    assert!(emu.state.fl.cy);
    assert!(!emu.state.fl.z);
    assert!(emu.state.fl.p);
    assert!(emu.state.fl.s);
}

#[test]
fn sub_to_zero() {
    let mut emu = setup();
    emu.state.a = 50;
    emu.sub(50);
    assert_eq!(emu.state.a, 0);
    assert!(!emu.state.fl.cy);
    assert!(emu.state.fl.z);
    assert!(emu.state.fl.p);
    assert!(!emu.state.fl.s);
}

#[test]
fn adc_no_carry() {
    let mut emu = setup();
    emu.state.a = 0x3d;
    emu.adc(0x42);
    assert_eq!(emu.state.a, 0x7f);
    assert!(!emu.state.fl.cy);
    assert!(!emu.state.fl.z);
    assert!(!emu.state.fl.p);
    assert!(!emu.state.fl.s);
}

#[test]
fn adc_with_carry() {
    let mut emu = setup();
    emu.state.a = 0x3d;
    emu.state.fl.cy = true;
    emu.adc(0x42);
    assert_eq!(emu.state.a, 0x80);
    assert!(!emu.state.fl.cy);
    assert!(!emu.state.fl.z);
    assert!(!emu.state.fl.p);
    assert!(emu.state.fl.s);
}

#[test]
fn parity_test() {
    assert!(!parity(0x99, true));
}

#[test]
fn adc_wide_carry() {
    // 0xFF plus 0xFF plus the incoming carry: the full 9-bit sum carries.
    let mut emu = setup();
    emu.state.a = 0xff;
    emu.state.fl.cy = true;
    emu.adc(0xff);
    assert_eq!(emu.state.a, 0xff);
    assert!(emu.state.fl.cy);
    assert!(emu.state.fl.ac);
}

#[test]
fn add_carry_and_aux() {
    // 0x0F + 0x01: no full carry, but the low nibbles overflow.
    let mut emu = setup();
    emu.state.a = 0x0f;
    emu.add(0x01);
    assert_eq!(emu.state.a, 0x10);
    assert!(!emu.state.fl.cy);
    assert!(emu.state.fl.ac);
    // 0xF0 + 0x20: a full carry without an auxiliary one.
    emu.state.a = 0xf0;
    emu.add(0x20);
    assert_eq!(emu.state.a, 0x10);
    assert!(emu.state.fl.cy);
    assert!(!emu.state.fl.ac);
}

#[test]
fn sbb_borrows_carry() {
    let mut emu = setup();
    emu.state.a = 10;
    emu.state.fl.cy = true;
    emu.sbb(10);
    assert_eq!(emu.state.a, 255);
    assert!(emu.state.fl.cy);
}

#[test]
fn cmp_leaves_accumulator() {
    let mut emu = setup();
    emu.state.a = 5;
    emu.cmp(9);
    assert_eq!(emu.state.a, 5);
    assert!(emu.state.fl.cy);
    assert!(!emu.state.fl.z);
    emu.cmp(5);
    assert!(emu.state.fl.z);
    assert!(!emu.state.fl.cy);
}

#[test]
fn logic_ops_clear_carries() {
    let mut emu = setup();
    emu.state.a = 0b1100_1010;
    emu.state.fl.cy = true;
    emu.state.fl.ac = true;
    emu.and(0b1010_1100);
    assert_eq!(emu.state.a, 0b1000_1000);
    assert!(!emu.state.fl.cy);
    assert!(!emu.state.fl.ac);
    assert!(emu.state.fl.p);
    assert!(emu.state.fl.s);
    emu.state.fl.cy = true;
    emu.xor(0b1000_1000);
    assert_eq!(emu.state.a, 0);
    assert!(emu.state.fl.z);
    assert!(!emu.state.fl.cy);
    emu.or(0b0000_0111);
    assert_eq!(emu.state.a, 0b0000_0111);
    assert!(!emu.state.fl.cy);
    assert!(!emu.state.fl.p);
}
