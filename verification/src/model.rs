//! The mathematical model of the 8080: the machine state as a ghost value and
//! one transition function per instruction. The executable interpreter's
//! contracts state that each operation equals the corresponding transition.

use vstd::prelude::*;

verus! {

/// The architectural state of the processor together with its memory.
///
/// `sp` and `pc` are kept as unbounded integers: the interpreter lets them
/// leave the 16-bit range only transiently (a non-taken jump fetched at the
/// very top of memory), and the next fetch demands that they are back in
/// range.
#[verifier::ext_equal]
pub struct Cpu {
    pub a: u8,
    pub b: u8,
    pub c: u8,
    pub d: u8,
    pub e: u8,
    pub h: u8,
    pub l: u8,
    pub sp: int,
    pub pc: int,
    pub mem: Seq<u8>,
    pub z: bool,
    pub s: bool,
    pub p: bool,
    pub cy: bool,
    pub ac: bool,
    pub int_enable: bool,
}

/// Memory is a full 16-bit address space: exactly 65536 bytes.
pub open spec fn wfm(c: Cpu) -> bool {
    c.mem.len() == 0x10000
}

/// The 16-bit value formed by a high and a low byte.
pub open spec fn pair16(hi: u8, lo: u8) -> int {
    hi * 256 + lo
}

/// The low byte of an integer, i.e. the integer reduced mod 256.
pub open spec fn lo8(n: int) -> u8 {
    (n % 256) as u8
}

/// The high byte of a 16-bit value.
pub open spec fn hi8(n: int) -> u8 {
    ((n / 256) % 256) as u8
}

pub open spec fn bit1(b: bool) -> int {
    if b {
        1
    } else {
        0
    }
}

/// The number of set bits of a byte.
pub open spec fn popcnt(x: u8) -> int {
    (x & 1) + ((x >> 1) & 1) + ((x >> 2) & 1) + ((x >> 3) & 1) + ((x >> 4) & 1) + ((x >> 5) & 1)
        + ((x >> 6) & 1) + ((x >> 7) & 1)
}

/// The parity flag is set when the result has an even number of set bits.
pub open spec fn even_parity(x: u8) -> bool {
    popcnt(x) % 2 == 0
}

/// Z, S and P recomputed from an 8-bit result `r`, exactly as every
/// flag-affecting operation does: Z iff the result is zero, S iff bit 7 is
/// set, P iff the result has even parity.
pub open spec fn with_zsp(c: Cpu, r: u8) -> Cpu {
    Cpu { z: r == 0, s: r & 0x80 != 0, p: even_parity(r), ..c }
}

/// Addition into the accumulator with a carry-in of 0 or 1 (ADD/ADC and the
/// DAA correction steps). CY is set iff the full sum exceeds 0xFF, AC iff the
/// low-nibble sum exceeds 0xF.
pub open spec fn spec_add(c: Cpu, val: u8, cin: int) -> Cpu {
    let r = lo8(c.a + val + cin);
    Cpu {
        a: r,
        cy: c.a + val + cin > 0xff,
        ac: (c.a & 0xf) + (val & 0xf) + cin > 0xf,
        ..with_zsp(c, r)
    }
}

/// Subtraction from the accumulator with a borrow-in of 0 or 1 (SUB/SBB).
/// CY is set iff the unsigned subtraction borrows (minuend smaller than
/// subtrahend plus borrow), the polarity of the real 8080; AC is set iff the
/// low-nibble subtraction borrows.
pub open spec fn spec_sub(c: Cpu, val: u8, bin: int) -> Cpu {
    let r = lo8(c.a - val - bin);
    Cpu { a: r, cy: c.a < val + bin, ac: (c.a & 0xf) < (val & 0xf) + bin, ..with_zsp(c, r) }
}

/// CMP: the flags of a subtraction, with the accumulator left unchanged.
pub open spec fn spec_cmp(c: Cpu, val: u8) -> Cpu {
    Cpu { a: c.a, ..spec_sub(c, val, 0) }
}

/// ANA/XRA/ORA with result `r`: Z/S/P recomputed, CY and AC cleared.
pub open spec fn spec_logic(c: Cpu, r: u8) -> Cpu {
    Cpu { a: r, cy: false, ac: false, ..with_zsp(c, r) }
}

/// DAA, decimal adjustment: add 6 if the low nibble exceeds 9 or AC is set,
/// then add 0x60 if the (possibly updated) high nibble exceeds 9 or CY is
/// set; both corrections run through the ordinary addition flag path.
pub open spec fn spec_daa(c: Cpu) -> Cpu {
    let c1 = if c.a & 0xf > 9 || c.ac {
        spec_add(c, 0x06, 0)
    } else {
        c
    };
    if (c1.a >> 4) & 0xf > 9 || c1.cy {
        spec_add(c1, 0x60, 0)
    } else {
        c1
    }
}

/// The eight ALU operations, selected by bits 3..5 of the opcode:
/// ADD, ADC, SUB, SBB, ANA, XRA, ORA, CMP.
pub open spec fn alu_apply(c: Cpu, sel: u8, val: u8) -> Cpu {
    if sel == 0 {
        spec_add(c, val, 0)
    } else if sel == 1 {
        spec_add(c, val, bit1(c.cy))
    } else if sel == 2 {
        spec_sub(c, val, 0)
    } else if sel == 3 {
        spec_sub(c, val, bit1(c.cy))
    } else if sel == 4 {
        spec_logic(c, c.a & val)
    } else if sel == 5 {
        spec_logic(c, c.a ^ val)
    } else if sel == 6 {
        spec_logic(c, c.a | val)
    } else {
        spec_cmp(c, val)
    }
}

/// An 8-bit register selected by a 3-bit code: 0=B 1=C 2=D 3=E 4=H 5=L
/// 6=the byte in memory at address HL, 7=A.
pub open spec fn get_reg(c: Cpu, r: u8) -> u8 {
    if r == 0 {
        c.b
    } else if r == 1 {
        c.c
    } else if r == 2 {
        c.d
    } else if r == 3 {
        c.e
    } else if r == 4 {
        c.h
    } else if r == 5 {
        c.l
    } else if r == 6 {
        c.mem[pair16(c.h, c.l)]
    } else {
        c.a
    }
}

/// Writing an 8-bit register by its 3-bit code; code 6 writes through to the
/// memory byte at address HL, never to a register.
pub open spec fn set_reg(c: Cpu, r: u8, v: u8) -> Cpu {
    if r == 0 {
        Cpu { b: v, ..c }
    } else if r == 1 {
        Cpu { c: v, ..c }
    } else if r == 2 {
        Cpu { d: v, ..c }
    } else if r == 3 {
        Cpu { e: v, ..c }
    } else if r == 4 {
        Cpu { h: v, ..c }
    } else if r == 5 {
        Cpu { l: v, ..c }
    } else if r == 6 {
        Cpu { mem: c.mem.update(pair16(c.h, c.l), v), ..c }
    } else {
        Cpu { a: v, ..c }
    }
}

/// The 2-bit register-pair selector held in bits 4..5 of an opcode.
pub open spec fn rp_sel(op: u8) -> u8 {
    (op >> 4) & 3
}

/// A 16-bit register pair selected by the opcode: BC, DE, HL or SP.
pub open spec fn get_rp(c: Cpu, op: u8) -> int {
    if rp_sel(op) == 0 {
        pair16(c.b, c.c)
    } else if rp_sel(op) == 1 {
        pair16(c.d, c.e)
    } else if rp_sel(op) == 2 {
        pair16(c.h, c.l)
    } else {
        c.sp
    }
}

/// Writing a 16-bit register pair selected by the opcode.
pub open spec fn set_rp(c: Cpu, op: u8, lo: u8, hi: u8) -> Cpu {
    if rp_sel(op) == 0 {
        Cpu { b: hi, c: lo, ..c }
    } else if rp_sel(op) == 1 {
        Cpu { d: hi, e: lo, ..c }
    } else if rp_sel(op) == 2 {
        Cpu { h: hi, l: lo, ..c }
    } else {
        Cpu { sp: pair16(hi, lo), ..c }
    }
}

/// The condition encoded in a branch opcode: a set low bit means
/// "unconditional"; otherwise bits 4..5 select one of Z, CY, P, S and bit 3
/// selects the polarity (clear means the negated flag).
pub open spec fn cond(c: Cpu, op: u8) -> bool {
    if op & 1 == 1 {
        true
    } else {
        let v = if (op >> 4) & 3 == 0 {
            c.z
        } else if (op >> 4) & 3 == 1 {
            c.cy
        } else if (op >> 4) & 3 == 2 {
            c.p
        } else {
            c.s
        };
        ((op & 8) == 0) != v
    }
}

/// The little-endian 16-bit word held in memory at `addr`.
pub open spec fn mword(c: Cpu, addr: int) -> int {
    pair16(c.mem[addr + 1], c.mem[addr])
}

/// Pushing a 16-bit value: SP drops by 2, the low byte goes to the new SP,
/// the high byte right above it.
pub open spec fn spec_push(c: Cpu, v: int) -> Cpu {
    Cpu { sp: c.sp - 2, mem: c.mem.update(c.sp - 2, lo8(v)).update(c.sp - 1, hi8(v)), ..c }
}

/// LXI: load a register pair with the two immediate bytes.
pub open spec fn spec_lxi(c: Cpu, op: u8) -> (Cpu, int) {
    (Cpu { pc: c.pc + 2, ..set_rp(c, op, c.mem[c.pc], c.mem[c.pc + 1]) }, 10)
}

/// STAX B/D, SHLD and STA: stores of A or HL through a pair or an immediate
/// address.
pub open spec fn spec_stax(c: Cpu, op: u8) -> (Cpu, int) {
    if op == 0x22 {
        let w = mword(c, c.pc);
        (Cpu { pc: c.pc + 2, mem: c.mem.update(w, c.l).update(w + 1, c.h), ..c }, 16)
    } else if op == 0x32 {
        let w = mword(c, c.pc);
        (Cpu { pc: c.pc + 2, mem: c.mem.update(w, c.a), ..c }, 13)
    } else {
        (Cpu { mem: c.mem.update(get_rp(c, op), c.a), ..c }, 7)
    }
}

/// LDAX B/D, LHLD and LDA: loads of A or HL through a pair or an immediate
/// address.
pub open spec fn spec_ldax(c: Cpu, op: u8) -> (Cpu, int) {
    if op == 0x2a {
        let w = mword(c, c.pc);
        (Cpu { pc: c.pc + 2, l: c.mem[w], h: c.mem[w + 1], ..c }, 16)
    } else if op == 0x3a {
        let w = mword(c, c.pc);
        (Cpu { pc: c.pc + 2, a: c.mem[w], ..c }, 13)
    } else {
        (Cpu { a: c.mem[get_rp(c, op)], ..c }, 7)
    }
}

/// INX: a register pair incremented mod 0x10000; no flags change.
pub open spec fn spec_inx(c: Cpu, op: u8) -> (Cpu, int) {
    let v = (get_rp(c, op) + 1) % 0x10000;
    (set_rp(c, op, lo8(v), hi8(v)), 5)
}

/// DCX: a register pair decremented mod 0x10000; no flags change.
pub open spec fn spec_dcx(c: Cpu, op: u8) -> (Cpu, int) {
    let v = (get_rp(c, op) + 0xffff) % 0x10000;
    (set_rp(c, op, lo8(v), hi8(v)), 5)
}

/// DAD: HL plus a register pair, mod 0x10000; CY is the carry out of bit 15.
pub open spec fn spec_dad(c: Cpu, op: u8) -> (Cpu, int) {
    let v = pair16(c.h, c.l) + get_rp(c, op);
    let nv = v % 0x10000;
    (Cpu { h: hi8(nv), l: lo8(nv), cy: v > 0xffff, ..c }, 10)
}

/// INR: an 8-bit register incremented mod 256; Z/S/P from the result, AC set
/// iff the low nibble overflows, CY untouched.
pub open spec fn spec_inr(c: Cpu, op: u8) -> (Cpu, int) {
    let r = (op >> 3) & 7;
    let lhs = get_reg(c, r);
    let v = lo8(lhs + 1);
    (Cpu { ac: (lhs & 0xf) + 1 > 0xf, ..with_zsp(set_reg(c, r, v), v) }, 5)
}

/// DCR: an 8-bit register decremented mod 256; Z/S/P from the result, AC
/// computed as for INR, CY untouched.
pub open spec fn spec_dcr(c: Cpu, op: u8) -> (Cpu, int) {
    let r = (op >> 3) & 7;
    let lhs = get_reg(c, r);
    let v = lo8(lhs - 1);
    (Cpu { ac: (lhs & 0xf) + 1 > 0xf, ..with_zsp(set_reg(c, r, v), v) }, 5)
}

/// MVI: load an 8-bit register with the immediate byte.
pub open spec fn spec_mvi(c: Cpu, op: u8) -> (Cpu, int) {
    let r = (op >> 3) & 7;
    (
        Cpu { pc: c.pc + 1, ..set_reg(c, r, c.mem[c.pc]) },
        if r == 6 {
            10
        } else {
            7
        },
    )
}

/// The rotate group RLC/RRC/RAL/RAR, selected by bits 3..5 of the opcode.
/// Only A and CY change. RAL and RAR rotate through the carry; RAR moves the
/// old carry into bit 7.
pub open spec fn spec_rot(c: Cpu, op: u8) -> (Cpu, int) {
    let sel = op >> 3;
    if sel == 0 {
        let b7 = c.a >> 7;
        (Cpu { a: (c.a << 1) | b7, cy: b7 == 1, ..c }, 4)
    } else if sel == 1 {
        let b0 = c.a << 7;
        (Cpu { a: (c.a >> 1) | b0, cy: b0 > 0, ..c }, 4)
    } else if sel == 2 {
        let prev = if c.cy {
            1u8
        } else {
            0u8
        };
        (Cpu { a: (c.a << 1) | prev, cy: (c.a >> 7) == 1, ..c }, 4)
    } else {
        let prev = if c.cy {
            0x80u8
        } else {
            0u8
        };
        (Cpu { a: (c.a >> 1) | prev, cy: (c.a & 1) == 1, ..c }, 4)
    }
}

/// The flag-operation group DAA/CMA/STC/CMC, selected by bits 3..4.
pub open spec fn spec_flagop(c: Cpu, op: u8) -> (Cpu, int) {
    let sel = (op >> 3) & 3;
    if sel == 0 {
        (spec_daa(c), 4)
    } else if sel == 1 {
        let v = !c.a;
        (with_zsp(Cpu { a: v, ..c }, v), 4)
    } else if sel == 2 {
        (Cpu { cy: true, ..c }, 4)
    } else {
        (Cpu { cy: !c.cy, ..c }, 4)
    }
}

/// MOV dst,src over 3-bit register codes; the src==dst==6 encoding is HLT,
/// which changes nothing and reports 0 T-states to signal the halt.
pub open spec fn spec_mov(c: Cpu, op: u8) -> (Cpu, int) {
    if op == 0x76 {
        (c, 0)
    } else {
        let src = op & 7;
        let dst = (op >> 3) & 7;
        (
            set_reg(c, dst, get_reg(c, src)),
            if src == 6 || dst == 6 {
                7
            } else {
                5
            },
        )
    }
}

/// An ALU operation on a register operand, opcode range 0x80..=0xBF.
pub open spec fn spec_alu_reg(c: Cpu, op: u8) -> (Cpu, int) {
    let r = op & 7;
    (
        alu_apply(c, (op >> 3) & 7, get_reg(c, r)),
        if r == 6 {
            7
        } else {
            4
        },
    )
}

/// An ALU operation on the immediate byte (ADI/ACI/SUI/SBI/ANI/XRI/ORI/CPI).
pub open spec fn spec_immediate(c: Cpu, op: u8) -> (Cpu, int) {
    let c1 = alu_apply(c, (op >> 3) & 7, c.mem[c.pc]);
    (Cpu { pc: c.pc + 1, ..c1 }, 7)
}

/// Conditional (or unconditional) CALL: when taken, the address of the next
/// instruction is pushed and PC becomes the immediate word; 17 T-states
/// taken, 11 not taken.
pub open spec fn spec_call_instr(c: Cpu, op: u8) -> (Cpu, int) {
    if cond(c, op) {
        (Cpu { pc: mword(c, c.pc), ..spec_push(c, c.pc + 2) }, 17)
    } else {
        (Cpu { pc: c.pc + 2, ..c }, 11)
    }
}

/// Conditional (or unconditional) RET: when taken, PC is popped off the
/// stack; 10 T-states for the unconditional form, 11 for a taken conditional
/// one, 5 when not taken.
pub open spec fn spec_ret_instr(c: Cpu, op: u8) -> (Cpu, int) {
    if cond(c, op) {
        (
            Cpu { pc: mword(c, c.sp), sp: c.sp + 2, ..c },
            if op & 1 == 1 {
                10
            } else {
                11
            },
        )
    } else {
        (c, 5)
    }
}

/// Conditional (or unconditional) JMP: 10 T-states either way.
pub open spec fn spec_jmp_instr(c: Cpu, op: u8) -> (Cpu, int) {
    (
        if cond(c, op) {
            Cpu { pc: mword(c, c.pc), ..c }
        } else {
            Cpu { pc: c.pc + 2, ..c }
        },
        10,
    )
}

/// The accumulator and the five flags packed into the 16-bit PSW word:
/// A in the high byte; S, Z, AC, P, CY at bits 7, 6, 4, 2, 0 of the low one.
pub open spec fn psw_word(c: Cpu) -> int {
    c.a * 256 + bit1(c.s) * 0x80 + bit1(c.z) * 0x40 + bit1(c.ac) * 0x10 + bit1(c.p) * 4 + bit1(
        c.cy,
    )
}

/// POP into a register pair, or POP PSW (opcode 0xF1), which unpacks the
/// flags from the popped low byte.
pub open spec fn spec_pop_rp(c: Cpu, op: u8) -> (Cpu, int) {
    let v = mword(c, c.sp);
    if op == 0xf1 {
        let f = lo8(v);
        (
            Cpu {
                sp: c.sp + 2,
                a: hi8(v),
                s: f & 0x80 != 0,
                z: f & 0x40 != 0,
                ac: f & 0x10 != 0,
                p: f & 0x04 != 0,
                cy: f & 0x01 != 0,
                ..c
            },
            10,
        )
    } else {
        (Cpu { sp: c.sp + 2, ..set_rp(c, op, lo8(v), hi8(v)) }, 10)
    }
}

/// PUSH of a register pair, or PUSH PSW (opcode 0xF5).
pub open spec fn spec_push_rp(c: Cpu, op: u8) -> (Cpu, int) {
    let v = if op == 0xf5 {
        psw_word(c)
    } else {
        get_rp(c, op)
    };
    (spec_push(c, v), 11)
}

/// RST n: the current PC (reduced to its 16 bits) is pushed and execution
/// vectors to n*8, independently of the interrupt-enable flag.
pub open spec fn spec_rst(c: Cpu, op: u8) -> (Cpu, int) {
    (Cpu { pc: ((op >> 3) & 7) * 8, ..spec_push(c, c.pc % 0x10000) }, 11)
}

/// A vectored interrupt: when interrupt-enable is set it is cleared, PC is
/// pushed, and execution vectors to n*8; otherwise nothing happens.
pub open spec fn spec_interrupt(c: Cpu, n: u8) -> Cpu {
    if c.int_enable {
        Cpu { pc: n * 8, int_enable: false, ..spec_push(c, c.pc) }
    } else {
        c
    }
}

/// XTHL: HL and the top-of-stack word exchange places.
pub open spec fn spec_xthl(c: Cpu) -> (Cpu, int) {
    let v = mword(c, c.sp);
    (Cpu { h: hi8(v), l: lo8(v), mem: c.mem.update(c.sp, c.l).update(c.sp + 1, c.h), ..c }, 18)
}

/// XCHG: DE and HL exchange places.
pub open spec fn spec_xchg(c: Cpu) -> (Cpu, int) {
    (Cpu { d: c.h, e: c.l, h: c.d, l: c.e, ..c }, 5)
}

/// PCHL: PC is loaded from HL.
pub open spec fn spec_pchl(c: Cpu) -> (Cpu, int) {
    (Cpu { pc: pair16(c.h, c.l), ..c }, 5)
}

/// SPHL: SP is loaded from HL.
pub open spec fn spec_sphl(c: Cpu) -> (Cpu, int) {
    (Cpu { sp: pair16(c.h, c.l), ..c }, 5)
}

/// OUT: only PC advances past the port byte; the written byte goes to the
/// host's port handler, outside this model.
pub open spec fn spec_out_instr(c: Cpu) -> (Cpu, int) {
    (Cpu { pc: c.pc + 1, ..c }, 10)
}

/// IN with the byte `v` answered by the host's port handler.
pub open spec fn spec_in_instr(c: Cpu, v: u8) -> (Cpu, int) {
    (Cpu { a: v, pc: c.pc + 1, ..c }, 10)
}

/// The assignment class, opcodes 0x00..=0x3F, keyed by the low nibble.
pub open spec fn spec_assignment(c: Cpu, op: u8) -> (Cpu, int) {
    let n = op & 0xf;
    if n == 0 || n == 8 {
        (c, 4)
    } else if n == 1 {
        spec_lxi(c, op)
    } else if n == 2 {
        spec_stax(c, op)
    } else if n == 3 {
        spec_inx(c, op)
    } else if n == 4 || n == 0xc {
        spec_inr(c, op)
    } else if n == 5 || n == 0xd {
        spec_dcr(c, op)
    } else if n == 6 || n == 0xe {
        spec_mvi(c, op)
    } else if n == 7 || n == 0xf {
        if op & 0x20 != 0 {
            spec_flagop(c, op)
        } else {
            spec_rot(c, op)
        }
    } else if n == 9 {
        spec_dad(c, op)
    } else if n == 0xa {
        spec_ldax(c, op)
    } else {
        spec_dcx(c, op)
    }
}

/// The branch/stack/IO class, opcodes 0xC0..=0xFF, keyed by the low nibble
/// with a further 2-bit sub-selector. The IN opcode 0xDB is not covered
/// here: its result depends on the host's port handler.
pub open spec fn spec_branch(c: Cpu, op: u8) -> (Cpu, int) {
    let n = op & 0xf;
    let q = (op >> 4) & 3;
    if n == 0 || n == 8 {
        spec_ret_instr(c, op)
    } else if n == 1 {
        spec_pop_rp(c, op)
    } else if n == 2 || n == 0xa {
        spec_jmp_instr(c, op)
    } else if n == 3 {
        if q == 0 {
            spec_jmp_instr(c, op)
        } else if q == 1 {
            spec_out_instr(c)
        } else if q == 2 {
            spec_xthl(c)
        } else {
            (Cpu { int_enable: false, ..c }, 4)
        }
    } else if n == 4 || n == 0xc || n == 0xd {
        spec_call_instr(c, op)
    } else if n == 5 {
        spec_push_rp(c, op)
    } else if n == 6 || n == 0xe {
        spec_immediate(c, op)
    } else if n == 7 || n == 0xf {
        spec_rst(c, op)
    } else if n == 9 {
        if q == 0 {
            spec_ret_instr(c, op)
        } else if q == 1 {
            (c, 10)
        } else if q == 2 {
            spec_pchl(c)
        } else {
            spec_sphl(c)
        }
    } else {
        if q == 0 {
            (c, 10)
        } else if q == 2 {
            spec_xchg(c)
        } else if q == 3 {
            (Cpu { int_enable: true, ..c }, 4)
        } else {
            (c, 0)
        }
    }
}

/// The opcode byte the next step will fetch.
pub open spec fn fetched(c: Cpu) -> u8 {
    c.mem[c.pc]
}

/// One full interpreter step: fetch the opcode, advance PC past it, and
/// dispatch by the two high bits. Defined for every opcode except IN (0xDB),
/// whose result is host-supplied; see `spec_step_in`.
pub open spec fn spec_step(c: Cpu) -> (Cpu, int) {
    let op = fetched(c);
    let c1 = Cpu { pc: c.pc + 1, ..c };
    if op < 0x40 {
        spec_assignment(c1, op)
    } else if op < 0x80 {
        spec_mov(c1, op)
    } else if op < 0xc0 {
        spec_alu_reg(c1, op)
    } else {
        spec_branch(c1, op)
    }
}

/// One full interpreter step fetching the IN opcode, with `v` the byte the
/// host's port handler answered.
pub open spec fn spec_step_in(c: Cpu, v: u8) -> (Cpu, int) {
    spec_in_instr(Cpu { pc: c.pc + 1, ..c }, v)
}

/// The bounds an assignment-class opcode needs so that every memory access
/// of the instruction stays inside the 65536-byte memory; `c` is the state
/// after the opcode fetch. An access outside these bounds is a fatal error
/// of the program under interpretation.
pub open spec fn assignment_ok(c: Cpu, op: u8) -> bool {
    let n = op & 0xf;
    if n == 1 {
        c.pc + 2 <= 0x10000
    } else if n == 2 {
        if op == 0x22 {
            c.pc + 2 <= 0x10000 && mword(c, c.pc) < 0xffff
        } else if op == 0x32 {
            c.pc + 2 <= 0x10000
        } else {
            true
        }
    } else if n == 6 || n == 0xe {
        c.pc + 1 <= 0x10000
    } else if n == 0xa {
        if op == 0x2a {
            c.pc + 2 <= 0x10000 && mword(c, c.pc) + 1 < 0x10000
        } else if op == 0x3a {
            c.pc + 2 <= 0x10000
        } else {
            true
        }
    } else {
        true
    }
}

/// The bounds a branch-class opcode needs: stack accesses inside memory and,
/// for a taken CALL, room for the 16-bit return address; `c` is the state
/// after the opcode fetch.
pub open spec fn branch_ok(c: Cpu, op: u8) -> bool {
    let n = op & 0xf;
    let q = (op >> 4) & 3;
    if n == 0 || n == 8 {
        cond(c, op) ==> c.sp + 2 <= 0x10000
    } else if n == 1 {
        c.sp + 2 <= 0x10000
    } else if n == 2 || n == 0xa {
        cond(c, op) ==> c.pc + 2 <= 0x10000
    } else if n == 3 {
        if q == 0 {
            c.pc + 2 <= 0x10000
        } else if q == 1 {
            c.pc + 1 <= 0x10000
        } else if q == 2 {
            c.sp + 2 <= 0x10000
        } else {
            true
        }
    } else if n == 4 || n == 0xc || n == 0xd {
        cond(c, op) ==> (c.pc + 2 <= 0xffff && 2 <= c.sp <= 0x10000)
    } else if n == 5 {
        2 <= c.sp <= 0x10000
    } else if n == 6 || n == 0xe {
        c.pc + 1 <= 0x10000
    } else if n == 7 || n == 0xf {
        2 <= c.sp <= 0x10000
    } else if n == 9 {
        q == 0 ==> (cond(c, op) ==> c.sp + 2 <= 0x10000)
    } else {
        q == 1 ==> c.pc + 1 <= 0x10000
    }
}

/// Everything a step needs in order not to hit a fatal out-of-bounds access:
/// a full memory, PC inside it, and the per-class bounds for the opcode that
/// will be fetched.
pub open spec fn step_ok(c: Cpu) -> bool {
    wfm(c) && 0 <= c.pc < 0x10000 && 0 <= c.sp && {
        let op = fetched(c);
        let c1 = Cpu { pc: c.pc + 1, ..c };
        if op < 0x40 {
            assignment_ok(c1, op)
        } else if op < 0xc0 {
            true
        } else {
            branch_ok(c1, op)
        }
    }
}

/// Two states agree on all five status flags.
pub open spec fn flags_eq(c1: Cpu, c2: Cpu) -> bool {
    c1.z == c2.z && c1.s == c2.s && c1.p == c2.p && c1.cy == c2.cy && c1.ac == c2.ac
}

/// A 16-bit value splits back into the bytes it was formed from, and lies
/// inside the 16-bit range.
pub proof fn lemma_pair16_parts(hi: u8, lo: u8)
    ensures
        lo8(pair16(hi, lo)) == lo,
        hi8(pair16(hi, lo)) == hi,
        0 <= pair16(hi, lo) < 0x10000,
{
    vstd::arithmetic::div_mod::lemma_fundamental_div_mod_converse(
        pair16(hi, lo),
        256,
        hi as int,
        lo as int,
    );
}

/// A value inside the 16-bit range is recovered exactly from its high and
/// low bytes.
pub proof fn lemma_word_parts(v: int)
    requires
        0 <= v < 0x10000,
    ensures
        pair16(hi8(v), lo8(v)) == v,
{
    vstd::arithmetic::div_mod::lemma_fundamental_div_mod(v, 256);
    vstd::arithmetic::div_mod::lemma_small_mod((v / 256) as nat, 256);
}

/// The machine as it powers on: every register, flag and both pointers
/// cleared, interrupts disabled, and all 65536 memory bytes holding 0xFF,
/// the customary value for undriven bus lines.
pub open spec fn initial_cpu() -> Cpu {
    Cpu {
        a: 0,
        b: 0,
        c: 0,
        d: 0,
        e: 0,
        h: 0,
        l: 0,
        sp: 0,
        pc: 0,
        mem: Seq::new(0x10000, |i: int| 0xff),
        z: false,
        s: false,
        p: false,
        cy: false,
        ac: false,
        int_enable: false,
    }
}

} // verus!
