//! Whole-program and data-movement tests: an end-to-end run to HLT, loads
//! and stores, 16-bit arithmetic, rotates, exchanges and the I/O port
//! bridge.

use emulator::DefaultHandler;
use emulator::Emu8080;
use emulator::InOutHandler;

fn setup() -> Emu8080<DefaultHandler> {
    let mut emu = Emu8080::new(DefaultHandler);
    emu.state.sp = 0x2400;
    emu
}

#[test]
fn end_to_end_add_then_halt() {
    // MVI A,5; MVI B,3; ADD B; HLT — run until the halt is signalled.
    let mut emu = setup();
    emu.load_at(&[0x3e, 0x05, 0x06, 0x03, 0x80, 0x76], 0);
    let mut total: usize = 0;
    loop {
        let t = emu.step();
        if t == 0 {
            break;
        }
        total += t;
    }
    assert_eq!(emu.state.a, 8);
    assert!(!emu.state.fl.z);
    assert!(!emu.state.fl.s);
    assert!(!emu.state.fl.p);
    assert!(!emu.state.fl.cy);
    assert_eq!(emu.state.pc, 6);
    assert_eq!(total, 7 + 7 + 4);
}

#[test]
fn end_to_end_loop_and_subroutine() {
    // MVI B,5; MVI A,0; then a counting loop ADD B; DCR B; JNZ back, a
    // CALL to a subroutine holding CMA; RET, and HLT. Checks the final
    // registers, flags, stack balance and the exact cumulative T-states.
    let mut emu = setup();
    emu.load_at(
        &[0x06, 0x05, 0x3e, 0x00, 0x80, 0x05, 0xc2, 0x04, 0x00, 0xcd, 0x00, 0x01, 0x76],
        0,
    );
    emu.load_at(&[0x2f, 0xc9], 0x100);
    let mut total: usize = 0;
    loop {
        let t = emu.step();
        if t == 0 {
            break;
        }
        total += t;
    }
    // 5+4+3+2+1 = 15, complemented to 0xF0.
    assert_eq!(emu.state.a, 0xf0);
    assert_eq!(emu.state.b, 0);
    assert!(!emu.state.fl.z);
    assert!(emu.state.fl.s);
    assert!(emu.state.fl.p);
    assert!(!emu.state.fl.cy);
    assert_eq!(emu.state.sp, 0x2400);
    assert_eq!(emu.state.pc, 13);
    // Two MVIs, five ADDs, five DCRs, five JNZs, CALL, CMA and RET.
    assert_eq!(total, 2 * 7 + 5 * 4 + 5 * 5 + 5 * 10 + 17 + 4 + 10);
}

#[test]
fn default_state_matches_power_on() {
    let st: emulator::state::State8080 = Default::default();
    assert_eq!(st.a, 0);
    assert_eq!(st.pc, 0);
    assert_eq!(st.sp, 0);
    assert_eq!(st.memory.len(), 0x10000);
    assert_eq!(st.memory[0x8000], 0xff);
    assert!(!st.int_enable);
}

#[test]
fn power_on_state() {
    let emu = Emu8080::new(DefaultHandler);
    assert_eq!(emu.state.a, 0);
    assert_eq!(emu.state.pc, 0);
    assert_eq!(emu.state.sp, 0);
    assert_eq!(emu.state.memory.len(), 0x10000);
    assert_eq!(emu.state.memory[0], 0xff);
    assert_eq!(emu.state.memory[0xffff], 0xff);
    assert!(!emu.state.int_enable);
    assert!(!emu.state.fl.z);
}

#[test]
fn load_at_copies_only_the_window() {
    let mut emu = setup();
    emu.load_at(&[1, 2, 3], 0x100);
    assert_eq!(emu.state.memory[0x0ff], 0xff);
    assert_eq!(emu.state.memory[0x100], 1);
    assert_eq!(emu.state.memory[0x101], 2);
    assert_eq!(emu.state.memory[0x102], 3);
    assert_eq!(emu.state.memory[0x103], 0xff);
}

#[test]
fn mov_and_memory_register() {
    let mut emu = setup();
    // MVI M,0x42 writes through to memory at HL; MOV A,M reads it back.
    emu.state.h = 0x20;
    emu.state.l = 0x10;
    emu.load_at(&[0x36, 0x42, 0x7e], 0);
    assert_eq!(emu.step(), 10);
    assert_eq!(emu.state.memory[0x2010], 0x42);
    assert_eq!(emu.step(), 7);
    assert_eq!(emu.state.a, 0x42);
    // MOV B,A is register-to-register at 5 T-states.
    emu.state.memory[3] = 0x47;
    assert_eq!(emu.step(), 5);
    assert_eq!(emu.state.b, 0x42);
}

#[test]
fn hlt_reports_zero_cycles_and_moves_nothing() {
    let mut emu = setup();
    emu.state.memory[0] = 0x76;
    assert_eq!(emu.step(), 0);
    assert_eq!(emu.state.pc, 1);
}

#[test]
fn lxi_loads_pairs() {
    let mut emu = setup();
    emu.load_at(&[0x01, 0x34, 0x12, 0x31, 0xcd, 0xab], 0);
    assert_eq!(emu.step(), 10);
    assert_eq!((emu.state.b, emu.state.c), (0x12, 0x34));
    emu.step();
    assert_eq!(emu.state.sp, 0xabcd);
}

#[test]
fn sta_lda_roundtrip() {
    let mut emu = setup();
    emu.state.a = 0x5a;
    emu.load_at(&[0x32, 0x00, 0x30, 0x3e, 0x00, 0x3a, 0x00, 0x30], 0);
    assert_eq!(emu.step(), 13);
    assert_eq!(emu.state.memory[0x3000], 0x5a);
    emu.step();
    assert_eq!(emu.state.a, 0);
    assert_eq!(emu.step(), 13);
    assert_eq!(emu.state.a, 0x5a);
}

#[test]
fn shld_lhld_roundtrip() {
    let mut emu = setup();
    emu.state.h = 0xde;
    emu.state.l = 0xad;
    emu.load_at(&[0x22, 0x00, 0x30, 0x21, 0x00, 0x00, 0x2a, 0x00, 0x30], 0);
    assert_eq!(emu.step(), 16);
    assert_eq!(emu.state.memory[0x3000], 0xad);
    assert_eq!(emu.state.memory[0x3001], 0xde);
    emu.step();
    assert_eq!((emu.state.h, emu.state.l), (0, 0));
    assert_eq!(emu.step(), 16);
    assert_eq!((emu.state.h, emu.state.l), (0xde, 0xad));
}

#[test]
fn stax_ldax_through_bc_and_de() {
    let mut emu = setup();
    emu.state.a = 0x77;
    emu.state.b = 0x20;
    emu.state.c = 0x00;
    emu.state.d = 0x20;
    emu.state.e = 0x01;
    emu.load_at(&[0x02, 0x3e, 0x00, 0x0a, 0x12, 0x1a], 0);
    assert_eq!(emu.step(), 7);
    assert_eq!(emu.state.memory[0x2000], 0x77);
    emu.step();
    assert_eq!(emu.step(), 7);
    assert_eq!(emu.state.a, 0x77);
    emu.step();
    assert_eq!(emu.state.memory[0x2001], 0x77);
    emu.state.a = 0;
    assert_eq!(emu.step(), 7);
    assert_eq!(emu.state.a, 0x77);
}

#[test]
fn inx_dcx_wrap() {
    let mut emu = setup();
    emu.state.h = 0xff;
    emu.state.l = 0xff;
    emu.load_at(&[0x23, 0x2b, 0x2b], 0);
    assert_eq!(emu.step(), 5);
    assert_eq!((emu.state.h, emu.state.l), (0, 0));
    assert_eq!(emu.step(), 5);
    assert_eq!((emu.state.h, emu.state.l), (0xff, 0xff));
    emu.step();
    assert_eq!((emu.state.h, emu.state.l), (0xff, 0xfe));
}

#[test]
fn inr_dcr_flags() {
    let mut emu = setup();
    emu.state.b = 0xff;
    emu.state.fl.cy = true;
    emu.load_at(&[0x04, 0x05], 0);
    assert_eq!(emu.step(), 5);
    assert_eq!(emu.state.b, 0);
    assert!(emu.state.fl.z);
    assert!(emu.state.fl.ac);
    // INR and DCR never touch CY.
    assert!(emu.state.fl.cy);
    assert_eq!(emu.step(), 5);
    assert_eq!(emu.state.b, 0xff);
    assert!(!emu.state.fl.z);
    assert!(emu.state.fl.s);
    assert!(emu.state.fl.cy);
}

#[test]
fn dad_sets_only_carry() {
    let mut emu = setup();
    emu.state.h = 0xff;
    emu.state.l = 0xff;
    emu.state.b = 0x00;
    emu.state.c = 0x02;
    emu.state.fl.z = true;
    emu.state.memory[0] = 0x09;
    assert_eq!(emu.step(), 10);
    assert_eq!((emu.state.h, emu.state.l), (0x00, 0x01));
    assert!(emu.state.fl.cy);
    assert!(emu.state.fl.z);
}

#[test]
fn rotates() {
    let mut emu = setup();
    // RLC: bit 7 moves to bit 0 and to CY.
    emu.state.a = 0b1000_0001;
    emu.state.memory[0] = 0x07;
    assert_eq!(emu.step(), 4);
    assert_eq!(emu.state.a, 0b0000_0011);
    assert!(emu.state.fl.cy);
    // RRC: bit 0 moves to bit 7 and to CY.
    emu.state.a = 0b0000_0011;
    emu.state.memory[1] = 0x0f;
    emu.step();
    assert_eq!(emu.state.a, 0b1000_0001);
    assert!(emu.state.fl.cy);
    // RAL: the old carry enters at bit 0; the old bit 7 leaves into CY.
    emu.state.a = 0b0100_0000;
    emu.state.fl.cy = true;
    emu.state.memory[2] = 0x17;
    emu.step();
    assert_eq!(emu.state.a, 0b1000_0001);
    assert!(!emu.state.fl.cy);
    // RAR: the old carry enters at bit 7; the old bit 0 leaves into CY.
    emu.state.a = 0b0000_0010;
    emu.state.fl.cy = true;
    emu.state.memory[3] = 0x1f;
    emu.step();
    assert_eq!(emu.state.a, 0b1000_0001);
    assert!(!emu.state.fl.cy);
}

#[test]
fn cma_stc_cmc() {
    let mut emu = setup();
    emu.state.a = 0b1010_1010;
    emu.load_at(&[0x2f, 0x37, 0x3f], 0);
    emu.step();
    assert_eq!(emu.state.a, 0b0101_0101);
    emu.step();
    assert!(emu.state.fl.cy);
    emu.step();
    assert!(!emu.state.fl.cy);
}

#[test]
fn xchg_swaps_de_hl() {
    let mut emu = setup();
    emu.state.d = 1;
    emu.state.e = 2;
    emu.state.h = 3;
    emu.state.l = 4;
    emu.state.memory[0] = 0xeb;
    assert_eq!(emu.step(), 5);
    assert_eq!((emu.state.d, emu.state.e, emu.state.h, emu.state.l), (3, 4, 1, 2));
}

#[test]
fn xthl_swaps_hl_with_stack_top() {
    let mut emu = setup();
    emu.push(0x1234);
    emu.state.h = 0xab;
    emu.state.l = 0xcd;
    emu.state.memory[0] = 0xe3;
    assert_eq!(emu.step(), 18);
    assert_eq!((emu.state.h, emu.state.l), (0x12, 0x34));
    assert_eq!(emu.pop(), 0xabcd);
}

#[test]
fn pchl_and_sphl() {
    let mut emu = setup();
    emu.state.h = 0x12;
    emu.state.l = 0x34;
    emu.state.memory[0] = 0xe9;
    assert_eq!(emu.step(), 5);
    assert_eq!(emu.state.pc, 0x1234);
    emu.state.memory[0x1234] = 0xf9;
    assert_eq!(emu.step(), 5);
    assert_eq!(emu.state.sp, 0x1234);
}

#[test]
fn immediate_alu_ops() {
    let mut emu = setup();
    emu.state.a = 0x10;
    emu.load_at(&[0xc6, 0x05, 0xd6, 0x20, 0xe6, 0x0f, 0xfe, 0x05], 0);
    assert_eq!(emu.step(), 7);
    assert_eq!(emu.state.a, 0x15);
    emu.step();
    assert_eq!(emu.state.a, 0xf5);
    assert!(emu.state.fl.cy);
    emu.step();
    assert_eq!(emu.state.a, 0x05);
    assert!(!emu.state.fl.cy);
    emu.step();
    assert!(emu.state.fl.z);
    assert_eq!(emu.state.a, 0x05);
}

struct RecordingPorts {
    read_value: u8,
    last_write: Option<(u8, u8)>,
}

impl InOutHandler for RecordingPorts {
    fn read(&mut self, _port: u8) -> u8 {
        self.read_value
    }

    fn write(&mut self, port: u8, val: u8) {
        self.last_write = Some((port, val));
    }
}

#[test]
fn in_and_out_use_the_port_handler() {
    let mut emu = Emu8080::new(RecordingPorts { read_value: 0x5e, last_write: None });
    emu.load_at(&[0xdb, 0x42, 0xd3, 0x07], 0);
    assert_eq!(emu.step(), 10);
    assert_eq!(emu.state.a, 0x5e);
    assert_eq!(emu.state.pc, 2);
    emu.state.a = 0x99;
    assert_eq!(emu.step(), 10);
    assert_eq!(emu.io.last_write, Some((0x07, 0x99)));
    assert_eq!(emu.state.pc, 4);
}

#[test]
fn default_handler_reads_zero() {
    let mut emu = setup();
    emu.state.a = 0x55;
    emu.load_at(&[0xdb, 0x01], 0);
    emu.step();
    assert_eq!(emu.state.a, 0);
}

#[test]
fn flags_clear_resets_to_zero_result() {
    let mut emu = setup();
    emu.state.fl.z = false;
    emu.state.fl.s = true;
    emu.state.fl.p = false;
    emu.state.fl.cy = true;
    emu.state.fl.ac = true;
    emu.state.fl.clear();
    assert!(emu.state.fl.z);
    assert!(!emu.state.fl.s);
    assert!(emu.state.fl.p);
    assert!(!emu.state.fl.cy);
    assert!(!emu.state.fl.ac);
}

#[test]
fn state_accessors() {
    let mut emu = setup();
    emu.state.b = 0x12;
    emu.state.c = 0x34;
    emu.state.d = 0x56;
    emu.state.e = 0x78;
    emu.state.h = 0x9a;
    emu.state.l = 0xbc;
    assert_eq!(emu.state.bc(), 0x1234);
    assert_eq!(emu.state.de(), 0x5678);
    assert_eq!(emu.state.hl(), 0x9abc);
    emu.state.memory[0x1234] = 0x11;
    emu.state.memory[0x5678] = 0x22;
    emu.state.memory[0x9abc] = 0x33;
    assert_eq!(emu.state.at_bc(), 0x11);
    assert_eq!(emu.state.at_de(), 0x22);
    assert_eq!(emu.state.at_hl(), 0x33);
    emu.state.pc = 0x100;
    emu.state.memory[0x100] = 0xcd;
    emu.state.memory[0x101] = 0xab;
    assert_eq!(emu.state.byte1(), 0xcd);
    assert_eq!(emu.state.byte2(), 0xab);
    assert_eq!(emu.state.word(), 0xabcd);
    assert_eq!(emu.state.word_at(0x100), 0xabcd);
    for reg in 0..8u8 {
        emu.state.set_register(reg, reg + 1);
    }
    for reg in 0..8u8 {
        assert_eq!(emu.state.get_register(reg), reg + 1);
    }
    assert_eq!(emu.state.get_long(0x00), emu.state.bc());
    emu.set_long(0x31, (0xfe, 0x23));
    assert_eq!(emu.state.sp, 0x23fe);
    emu.set_register(7, 0x99);
    assert_eq!(emu.state.a, 0x99);
}

#[test]
fn get_flag_conditions() {
    let mut emu = setup();
    emu.state.fl.z = true;
    emu.state.fl.cy = false;
    // Odd opcodes are unconditional.
    assert!(emu.state.get_flag(0xc3));
    // JZ (0xca) wants Z set, JNZ (0xc2) wants it clear.
    assert!(emu.state.get_flag(0xca));
    assert!(!emu.state.get_flag(0xc2));
    // JC (0xda) wants CY set, JNC (0xd2) wants it clear.
    assert!(!emu.state.get_flag(0xda));
    assert!(emu.state.get_flag(0xd2));
    // JPE (0xea) wants P set, JM (0xfa) wants S set.
    emu.state.fl.p = true;
    emu.state.fl.s = false;
    assert!(emu.state.get_flag(0xea));
    assert!(!emu.state.get_flag(0xfa));
}
