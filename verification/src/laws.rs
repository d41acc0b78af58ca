//! The laws of the interpreter: properties that relate several operations,
//! stated over the model's transitions and proved once for all inputs.

use vstd::prelude::*;

use crate::model::Cpu;
use crate::model::bit1;
use crate::model::cond;
use crate::model::even_parity;
use crate::model::fetched;
use crate::model::flags_eq;
use crate::model::get_rp;
use crate::model::hi8;
use crate::model::lemma_word_parts;
use crate::model::lo8;
use crate::model::mword;
use crate::model::psw_word;
use crate::model::rp_sel;
use crate::model::spec_add;
use crate::model::spec_call_instr;
use crate::model::spec_cmp;
use crate::model::spec_dad;
use crate::model::spec_dcr;
use crate::model::spec_dcx;
use crate::model::spec_inr;
use crate::model::spec_interrupt;
use crate::model::spec_inx;
use crate::model::spec_jmp_instr;
use crate::model::spec_ldax;
use crate::model::spec_logic;
use crate::model::spec_lxi;
use crate::model::spec_mov;
use crate::model::spec_mvi;
use crate::model::spec_pchl;
use crate::model::spec_pop_rp;
use crate::model::spec_push_rp;
use crate::model::spec_ret_instr;
use crate::model::spec_rot;
use crate::model::spec_rst;
use crate::model::spec_sphl;
use crate::model::spec_stax;
use crate::model::spec_step;
use crate::model::spec_sub;
use crate::model::spec_xchg;
use crate::model::spec_xthl;
use crate::model::wfm;

verus! {

/// The bit fields of the opcodes these laws mention.
proof fn lemma_ground_ops()
    by (bit_vector)
    ensures
        0xcdu8 & 0xf == 0xd,
        0xcdu8 & 1 == 1,
        0xc9u8 & 0xf == 9,
        (0xc9u8 >> 4) & 3 == 0,
        0xc9u8 & 1 == 1,
{
}

/// Every 8-bit result of a flag-affecting ALU operation — an addition, a
/// subtraction or a logical operation — leaves Z set iff the result is zero,
/// S set iff its bit 7 is set, and P set iff it has an even number of set
/// bits.
pub proof fn lemma_alu_flags(c: Cpu, val: u8, cin: int)
    ensures
        spec_add(c, val, cin).z == (spec_add(c, val, cin).a == 0),
        spec_add(c, val, cin).s == (spec_add(c, val, cin).a & 0x80 != 0),
        spec_add(c, val, cin).p == even_parity(spec_add(c, val, cin).a),
        spec_sub(c, val, cin).z == (spec_sub(c, val, cin).a == 0),
        spec_sub(c, val, cin).s == (spec_sub(c, val, cin).a & 0x80 != 0),
        spec_sub(c, val, cin).p == even_parity(spec_sub(c, val, cin).a),
        spec_logic(c, val).z == (val == 0),
        spec_logic(c, val).s == (val & 0x80 != 0),
        spec_logic(c, val).p == even_parity(val),
{
}

/// ADD sets CY iff the true operand sum exceeds 255, and AC iff the sum of
/// the operands' low nibbles exceeds 15.
pub proof fn lemma_add_carries(c: Cpu, val: u8)
    ensures
        spec_add(c, val, 0).cy == (c.a + val > 255),
        spec_add(c, val, 0).ac == ((c.a & 0xf) + (val & 0xf) > 15),
        spec_add(c, val, 0).a == lo8(c.a + val),
{
}

/// SUB, CMP and SBB set CY iff the unsigned subtraction borrows — the
/// minuend is smaller than the subtrahend (plus the incoming carry for SBB).
/// This is the polarity of the real 8080, the opposite of the carry an
/// equivalent two's-complement addition would report.
pub proof fn lemma_sub_borrow(c: Cpu, val: u8)
    ensures
        spec_sub(c, val, 0).cy == (c.a < val),
        spec_cmp(c, val).cy == (c.a < val),
        spec_cmp(c, val).a == c.a,
        spec_sub(c, val, bit1(c.cy)).cy == (c.a < val + bit1(c.cy)),
{
}

/// PUSH of a register pair followed by POP of the same pair code restores
/// the exact original 16-bit value, and SP returns to where it was.
pub proof fn lemma_push_pop_pair(c: Cpu, op_push: u8, op_pop: u8)
    requires
        wfm(c),
        2 <= c.sp <= 0x10000,
        op_push != 0xf5,
        op_pop != 0xf1,
        rp_sel(op_push) <= 2,
        rp_sel(op_pop) == rp_sel(op_push),
    ensures
        ({
            let c1 = spec_push_rp(c, op_push).0;
            let c2 = spec_pop_rp(c1, op_pop).0;
            get_rp(c2, op_push) == get_rp(c, op_push) && c2.sp == c.sp && c2.pc == c.pc
        }),
{
    let v = get_rp(c, op_push);
    let c1 = spec_push_rp(c, op_push).0;
    assert(0 <= v < 0x10000);
    lemma_word_parts(v);
    assert(mword(c1, c1.sp) == v);
}

/// PUSH PSW followed by POP PSW restores the accumulator and all five
/// flags exactly, and SP returns to where it was.
pub proof fn lemma_push_pop_psw(c: Cpu)
    requires
        wfm(c),
        2 <= c.sp <= 0x10000,
    ensures
        ({
            let c1 = spec_push_rp(c, 0xf5).0;
            let c2 = spec_pop_rp(c1, 0xf1).0;
            c2.a == c.a && c2.z == c.z && c2.s == c.s && c2.p == c.p && c2.cy == c.cy && c2.ac
                == c.ac && c2.sp == c.sp && c2.pc == c.pc
        }),
{
    let sb: u8 = if c.s {
        1
    } else {
        0
    };
    let zb: u8 = if c.z {
        1
    } else {
        0
    };
    let ab: u8 = if c.ac {
        1
    } else {
        0
    };
    let pb: u8 = if c.p {
        1
    } else {
        0
    };
    let cb: u8 = if c.cy {
        1
    } else {
        0
    };
    let bits: u8 = (sb * 0x80 + zb * 0x40 + ab * 0x10 + pb * 4 + cb) as u8;
    let v = psw_word(c);
    assert(v == c.a * 256 + bits);
    vstd::arithmetic::div_mod::lemma_fundamental_div_mod_converse(v, 256, c.a as int, bits as int);
    let c1 = spec_push_rp(c, 0xf5).0;
    lemma_word_parts(v);
    assert(mword(c1, c1.sp) == v);
    assert(lo8(v) == bits);
    assert(hi8(v) == c.a);
    assert((bits & 0x80 != 0) == (sb == 1) && (bits & 0x40 != 0) == (zb == 1) && (bits & 0x10 != 0)
        == (ab == 1) && (bits & 0x04 != 0) == (pb == 1) && (bits & 0x01 != 0) == (cb == 1))
        by (bit_vector)
        requires
            sb <= 1,
            zb <= 1,
            ab <= 1,
            pb <= 1,
            cb <= 1,
            bits == sb * 0x80 + zb * 0x40 + ab * 0x10 + pb * 4 + cb,
    ;
}

/// A 3-byte CALL whose target holds RET comes back: after the CALL step and
/// the RET step, PC sits on the instruction right after the CALL and SP is
/// back where it started.
pub proof fn lemma_call_then_ret(c: Cpu)
    requires
        wfm(c),
        0 <= c.pc,
        c.pc + 3 <= 0xffff,
        2 <= c.sp <= 0x10000,
        fetched(c) == 0xcd,
        fetched(spec_step(c).0) == 0xc9,
    ensures
        spec_step(spec_step(c).0).0.pc == c.pc + 3,
        spec_step(spec_step(c).0).0.sp == c.sp,
{
    lemma_ground_ops();
    let c1 = spec_step(c).0;
    lemma_word_parts(c.pc + 3);
    assert(mword(c1, c1.sp) == c.pc + 3);
}

/// Conditional control transfers cost the documented T-states: a CALL 17
/// taken and 11 not taken; a conditional RET 11 taken and 5 not taken (the
/// unconditional RET 10); a JMP 10 either way.
pub proof fn lemma_conditional_cycles(c: Cpu, op: u8)
    ensures
        spec_call_instr(c, op).1 == (if cond(c, op) {
            17int
        } else {
            11int
        }),
        spec_jmp_instr(c, op).1 == 10,
        op & 1 == 0 ==> spec_ret_instr(c, op).1 == (if cond(c, op) {
            11int
        } else {
            5int
        }),
        op & 1 == 1 ==> spec_ret_instr(c, op).1 == 10,
{
}

/// Data-transfer and control-transfer instructions never alter the flags:
/// moves, pair loads, loads and stores, pair increments and decrements,
/// jumps, calls, returns, pushes, pops (except POP PSW, which restores
/// them), restarts and exchanges all leave the five flags exactly as they
/// were.
pub proof fn lemma_transfers_preserve_flags(c: Cpu, op: u8)
    ensures
        flags_eq(spec_mov(c, op).0, c),
        flags_eq(spec_lxi(c, op).0, c),
        flags_eq(spec_stax(c, op).0, c),
        flags_eq(spec_ldax(c, op).0, c),
        flags_eq(spec_inx(c, op).0, c),
        flags_eq(spec_dcx(c, op).0, c),
        flags_eq(spec_mvi(c, op).0, c),
        flags_eq(spec_jmp_instr(c, op).0, c),
        flags_eq(spec_call_instr(c, op).0, c),
        flags_eq(spec_ret_instr(c, op).0, c),
        flags_eq(spec_push_rp(c, op).0, c),
        op != 0xf1 ==> flags_eq(spec_pop_rp(c, op).0, c),
        flags_eq(spec_rst(c, op).0, c),
        flags_eq(spec_xthl(c).0, c),
        flags_eq(spec_xchg(c).0, c),
        flags_eq(spec_pchl(c).0, c),
        flags_eq(spec_sphl(c).0, c),
{
}

/// The partial flag effects the opcode table documents: INR and DCR update
/// Z, S, P and AC but never CY; DAD updates only CY; the rotates update
/// only CY (and the accumulator).
pub proof fn lemma_partial_flag_effects(c: Cpu, op: u8)
    ensures
        spec_inr(c, op).0.cy == c.cy,
        spec_dcr(c, op).0.cy == c.cy,
        spec_dad(c, op).0.z == c.z && spec_dad(c, op).0.s == c.s && spec_dad(c, op).0.p == c.p
            && spec_dad(c, op).0.ac == c.ac,
        spec_rot(c, op).0.z == c.z && spec_rot(c, op).0.s == c.s && spec_rot(c, op).0.p == c.p
            && spec_rot(c, op).0.ac == c.ac,
{
}

/// A vectored interrupt taken with interrupt-enable set clears the enable
/// flag, leaves the old PC on top of the stack, and vectors to n*8; a
/// subsequent RET restores the old PC and SP.
pub proof fn lemma_interrupt_then_ret(c: Cpu, n: u8)
    requires
        wfm(c),
        c.int_enable,
        n <= 7,
        2 <= c.sp <= 0x10000,
        0 <= c.pc <= 0xffff,
    ensures
        !spec_interrupt(c, n).int_enable,
        spec_interrupt(c, n).pc == n * 8,
        mword(spec_interrupt(c, n), spec_interrupt(c, n).sp) == c.pc,
        spec_ret_instr(spec_interrupt(c, n), 0xc9).0.pc == c.pc,
        spec_ret_instr(spec_interrupt(c, n), 0xc9).0.sp == c.sp,
{
    lemma_ground_ops();
    lemma_word_parts(c.pc);
}

} // verus!
