//! The opcode decode and dispatch: one handler per instruction family, the
//! two class dispatchers, and the public `step`. Every handler's contract
//! equates its effect with the corresponding transition of the model.

use vstd::prelude::*;

use crate::emu::Emu8080;
use crate::emu::InOutHandler;
use crate::model::Cpu;
use crate::model::assignment_ok;
use crate::model::branch_ok;
use crate::model::cond;
use crate::model::fetched;
use crate::model::mword;
use crate::model::rp_sel;
use crate::model::spec_alu_reg;
use crate::model::spec_assignment;
use crate::model::spec_branch;
use crate::model::spec_call_instr;
use crate::model::spec_dad;
use crate::model::spec_dcr;
use crate::model::spec_dcx;
use crate::model::spec_flagop;
use crate::model::spec_immediate;
use crate::model::spec_in_instr;
use crate::model::spec_inr;
use crate::model::spec_inx;
use crate::model::spec_jmp_instr;
use crate::model::spec_ldax;
use crate::model::spec_lxi;
use crate::model::spec_mov;
use crate::model::spec_mvi;
use crate::model::spec_pop_rp;
use crate::model::spec_push_rp;
use crate::model::spec_ret_instr;
use crate::model::spec_rot;
use crate::model::spec_rst;
use crate::model::spec_stax;
use crate::model::lemma_pair16_parts;
use crate::model::spec_step;
use crate::model::spec_step_in;
use crate::model::step_ok;
use vstd::arithmetic::div_mod::lemma_add_mod_noop_right;
use vstd::arithmetic::div_mod::lemma_fundamental_div_mod;
use vstd::arithmetic::div_mod::lemma_mod_multiples_vanish;
use vstd::pervasive::VecAdditionalExecFns;

verus! {

/// Bounds and values of the bit fields an opcode is decoded into.
proof fn lemma_opcode_fields(op: u8)
    by (bit_vector)
    ensures
        op & 7 <= 7,
        (op >> 3) & 7 <= 7,
        (op >> 4) & 3 <= 3,
        op & 0xf <= 0xf,
        (op < 0x40 && (op & 0xf == 7 || op & 0xf == 0xf) && op & 0x20 == 0) ==> op >> 3 <= 3,
        (op < 0x40 && op & 0xf == 0xa && op != 0x2a && op != 0x3a) ==> (op >> 4) & 3 != 3,
        (op < 0x40 && op & 0xf == 2 && op != 0x22 && op != 0x32) ==> (op >> 4) & 3 != 3,
        (0xc0 <= op && op & 0xf == 5 && op != 0xf5) ==> (op >> 4) & 3 != 3,
        (0xc0 <= op && op & 0xf == 1 && op != 0xf1) ==> (op >> 4) & 3 != 3,
        (0x20u8 >> 4) & 3 == 2,
        0xdbu8 & 0xf == 0xb,
        (0xdbu8 >> 4) & 3 == 1,
        0xd3u8 & 0xf == 3,
        (0xd3u8 >> 4) & 3 == 1,
        (0xc0 <= op && op & 0xf == 0xb && (op >> 4) & 3 == 1) ==> op == 0xdb,
        (0xc0 <= op && op & 0xf == 3 && (op >> 4) & 3 == 1) ==> op == 0xd3,
        0x80 <= op < 0x88 ==> (op >> 3) & 7 == 0,
        0x88 <= op < 0x90 ==> (op >> 3) & 7 == 1,
        0x90 <= op < 0x98 ==> (op >> 3) & 7 == 2,
        0x98 <= op < 0xa0 ==> (op >> 3) & 7 == 3,
        0xa0 <= op < 0xa8 ==> (op >> 3) & 7 == 4,
        0xa8 <= op < 0xb0 ==> (op >> 3) & 7 == 5,
        0xb0 <= op < 0xb8 ==> (op >> 3) & 7 == 6,
        0xb8 <= op < 0xc0 ==> (op >> 3) & 7 == 7,
{
}

/// The low nibble of a byte is at most 0xF.
proof fn lemma_nibble(x: u8)
    by (bit_vector)
    ensures
        x & 0xf <= 0xf,
{
}

impl<T: InOutHandler> Emu8080<T> {
    /// LXI: load a register pair with the two immediate bytes.
    fn lxi(&mut self, op: u8) -> (r: usize)
        requires
            old(self).wf(),
            old(self).state@.pc + 2 <= 0x10000,
        ensures
            (final(self).state@, r as int) == spec_lxi(old(self).state@, op),
            final(self).wf(),
            final(self).io == old(self).io,
    {
        let b1 = self.state.byte1();
        let b2 = self.state.byte2();
        self.state.set_long(op, (b1, b2));
        self.state.pc = self.state.pc + 2;
        10
    }

    /// STAX B/D, SHLD and STA: stores of A or HL through a pair or an
    /// immediate address.
    fn stax(&mut self, op: u8) -> (r: usize)
        requires
            old(self).wf(),
            op == 0x22 ==> old(self).state@.pc + 2 <= 0x10000 && mword(
                old(self).state@,
                old(self).state@.pc,
            ) < 0xffff,
            op == 0x32 ==> old(self).state@.pc + 2 <= 0x10000,
            op != 0x22 && op != 0x32 ==> rp_sel(op) != 3,
        ensures
            (final(self).state@, r as int) == spec_stax(old(self).state@, op),
            final(self).wf(),
            final(self).io == old(self).io,
    {
        if op == 0x22 {
            let addr = self.state.word() as usize;
            let lv = self.state.l;
            let hv = self.state.h;
            self.state.memory.set(addr, lv);
            self.state.memory.set(addr + 1, hv);
            self.state.pc = self.state.pc + 2;
            16
        } else if op == 0x32 {
            let addr = self.state.word() as usize;
            let av = self.state.a;
            self.state.memory.set(addr, av);
            self.state.pc = self.state.pc + 2;
            13
        } else {
            let addr = self.state.get_long(op);
            proof {
                lemma_opcode_fields(op);
                assert(addr < 0x10000);
            }
            let av = self.state.a;
            self.state.memory.set(addr, av);
            7
        }
    }

    /// LDAX B/D, LHLD and LDA: loads of A or HL through a pair or an
    /// immediate address.
    fn ldax(&mut self, op: u8) -> (r: usize)
        requires
            old(self).wf(),
            op == 0x2a ==> old(self).state@.pc + 2 <= 0x10000 && mword(
                old(self).state@,
                old(self).state@.pc,
            ) + 1 < 0x10000,
            op == 0x3a ==> old(self).state@.pc + 2 <= 0x10000,
            op != 0x2a && op != 0x3a ==> rp_sel(op) != 3,
        ensures
            (final(self).state@, r as int) == spec_ldax(old(self).state@, op),
            final(self).wf(),
            final(self).io == old(self).io,
    {
        if op == 0x2a {
            let addr = self.state.word() as usize;
            self.state.l = self.state.memory[addr];
            self.state.h = self.state.memory[addr + 1];
            self.state.pc = self.state.pc + 2;
            16
        } else if op == 0x3a {
            let addr = self.state.word() as usize;
            self.state.a = self.state.memory[addr];
            self.state.pc = self.state.pc + 2;
            13
        } else {
            let addr = self.state.get_long(op);
            proof {
                lemma_opcode_fields(op);
                assert(addr < 0x10000);
            }
            self.state.a = self.state.memory[addr];
            7
        }
    }

    /// INX: a register pair incremented mod 0x10000; no flags change.
    fn inx(&mut self, op: u8) -> (r: usize)
        ensures
            (final(self).state@, r as int) == spec_inx(old(self).state@, op),
            final(self).wf() == old(self).wf(),
            final(self).io == old(self).io,
    {
        let v0 = self.state.get_long(op);
        let nv = if v0 == usize::MAX {
            0
        } else {
            (v0 + 1) % 0x10000
        };
        proof {
            if v0 == usize::MAX {
                assert((v0 + 1) % 0x10000 == 0) by {
                    lemma_mod_multiples_vanish((v0 + 1) / 0x10000, 0, 0x10000);
                    assert(v0 + 1 == 0x10000 * ((v0 + 1) / 0x10000));
                };
            }
        }
        self.state.set_long(op, ((nv % 256) as u8, ((nv / 256) % 256) as u8));
        5
    }

    /// DCX: a register pair decremented mod 0x10000; no flags change.
    fn dcx(&mut self, op: u8) -> (r: usize)
        ensures
            (final(self).state@, r as int) == spec_dcx(old(self).state@, op),
            final(self).wf() == old(self).wf(),
            final(self).io == old(self).io,
    {
        let v0 = self.state.get_long(op);
        let nv = if v0 == 0 {
            0xffff
        } else {
            (v0 - 1) % 0x10000
        };
        proof {
            if v0 != 0 {
                lemma_mod_multiples_vanish(1, v0 - 1, 0x10000);
            }
        }
        self.state.set_long(op, ((nv % 256) as u8, ((nv / 256) % 256) as u8));
        5
    }

    /// DAD: HL plus a register pair, mod 0x10000; CY is the carry out of
    /// bit 15.
    fn dad(&mut self, op: u8) -> (r: usize)
        ensures
            (final(self).state@, r as int) == spec_dad(old(self).state@, op),
            final(self).wf() == old(self).wf(),
            final(self).io == old(self).io,
    {
        let hl = self.state.hl();
        let rp = self.state.get_long(op);
        let rpm = rp % 0x10000;
        let v = hl + rpm;
        let carry = rp > 0xffff || v > 0xffff;
        let nv = v % 0x10000;
        proof {
            lemma_add_mod_noop_right(hl as int, rp as int, 0x10000);
        }
        self.state.set_long(0x20, ((nv % 256) as u8, ((nv / 256) % 256) as u8));
        self.state.fl.cy = carry;
        proof {
            lemma_opcode_fields(op);
        }
        10
    }

    /// INR: an 8-bit register incremented mod 256; Z/S/P from the result,
    /// AC set iff the low nibble overflows, CY untouched.
    fn inr(&mut self, op: u8) -> (r: usize)
        requires
            old(self).wf(),
        ensures
            (final(self).state@, r as int) == spec_inr(old(self).state@, op),
            final(self).wf(),
            final(self).io == old(self).io,
    {
        proof {
            lemma_opcode_fields(op);
        }
        let reg = (op >> 3) & 7;
        let lhs = self.state.get_register(reg);
        let val = if lhs == 255 {
            0
        } else {
            lhs + 1
        };
        self.state.set_register(reg, val);
        self.state.set_r(val);
        proof {
            lemma_nibble(lhs);
        }
        self.state.fl.ac = (lhs & 0xf) + 1 > 0xf;
        5
    }

    /// DCR: an 8-bit register decremented mod 256; Z/S/P from the result,
    /// AC computed as for INR, CY untouched.
    fn dcr(&mut self, op: u8) -> (r: usize)
        requires
            old(self).wf(),
        ensures
            (final(self).state@, r as int) == spec_dcr(old(self).state@, op),
            final(self).wf(),
            final(self).io == old(self).io,
    {
        proof {
            lemma_opcode_fields(op);
        }
        let reg = (op >> 3) & 7;
        let lhs = self.state.get_register(reg);
        let val = if lhs == 0 {
            255
        } else {
            lhs - 1
        };
        self.state.set_register(reg, val);
        self.state.set_r(val);
        proof {
            lemma_nibble(lhs);
        }
        self.state.fl.ac = (lhs & 0xf) + 1 > 0xf;
        5
    }

    /// MVI: load an 8-bit register with the immediate byte.
    fn mvi(&mut self, op: u8) -> (r: usize)
        requires
            old(self).wf(),
            old(self).state@.pc + 1 <= 0x10000,
        ensures
            (final(self).state@, r as int) == spec_mvi(old(self).state@, op),
            final(self).wf(),
            final(self).io == old(self).io,
    {
        proof {
            lemma_opcode_fields(op);
        }
        let reg = (op >> 3) & 7;
        let b = self.state.byte1();
        self.state.set_register(reg, b);
        self.state.pc = self.state.pc + 1;
        if reg == 6 {
            10
        } else {
            7
        }
    }

    /// The rotate group RLC/RRC/RAL/RAR; only A and CY change.
    fn rot(&mut self, op: u8) -> (r: usize)
        requires
            op >> 3 <= 3,
        ensures
            (final(self).state@, r as int) == spec_rot(old(self).state@, op),
            final(self).wf() == old(self).wf(),
            final(self).io == old(self).io,
    {
        let sel = op >> 3;
        if sel == 0 {
            let bit = self.state.a >> 7;
            self.state.a = (self.state.a << 1) | bit;
            self.state.fl.cy = bit == 1;
        } else if sel == 1 {
            let bit = self.state.a << 7;
            self.state.a = (self.state.a >> 1) | bit;
            self.state.fl.cy = bit > 0;
        } else if sel == 2 {
            let prev: u8 = if self.state.fl.cy {
                1
            } else {
                0
            };
            self.state.fl.cy = (self.state.a >> 7) == 1;
            self.state.a = (self.state.a << 1) | prev;
        } else {
            let prev: u8 = if self.state.fl.cy {
                0x80
            } else {
                0
            };
            self.state.fl.cy = (self.state.a & 1) == 1;
            self.state.a = (self.state.a >> 1) | prev;
        }
        4
    }

    /// The flag-operation group DAA/CMA/STC/CMC.
    fn flagop(&mut self, op: u8) -> (r: usize)
        ensures
            (final(self).state@, r as int) == spec_flagop(old(self).state@, op),
            final(self).wf() == old(self).wf(),
            final(self).io == old(self).io,
    {
        let sel = (op >> 3) & 3;
        if sel == 0 {
            if self.state.a & 0xf > 9 || self.state.fl.ac {
                self.add(0x06);
            }
            if ((self.state.a >> 4) & 0xf) > 9 || self.state.fl.cy {
                self.add(0x60);
            }
        } else if sel == 1 {
            self.state.a = !self.state.a;
            let a = self.state.a;
            self.state.set_r(a);
        } else if sel == 2 {
            self.state.fl.cy = true;
        } else {
            self.state.fl.cy = !self.state.fl.cy;
        }
        4
    }

    /// The shared slot of the assignment class holding the rotates and the
    /// flag operations, split by bit 5.
    fn assignment_extra(&mut self, op: u8) -> (r: usize)
        requires
            old(self).wf(),
            op < 0x40,
            op & 0xf == 7 || op & 0xf == 0xf,
        ensures
            (final(self).state@, r as int) == (if op & 0x20 != 0 {
                spec_flagop(old(self).state@, op)
            } else {
                spec_rot(old(self).state@, op)
            }),
            final(self).wf(),
            final(self).io == old(self).io,
    {
        if op & 0x20 != 0 {
            self.flagop(op)
        } else {
            proof {
                lemma_opcode_fields(op);
            }
            self.rot(op)
        }
    }

    /// The assignment class, opcodes 0x00..=0x3F, keyed by the low nibble.
    fn assignment(&mut self, op: u8) -> (r: usize)
        requires
            old(self).wf(),
            op < 0x40,
            assignment_ok(old(self).state@, op),
        ensures
            (final(self).state@, r as int) == spec_assignment(old(self).state@, op),
            final(self).wf(),
            final(self).io == old(self).io,
    {
        let n = op & 0xf;
        if n == 0 || n == 8 {
            4
        } else if n == 1 {
            self.lxi(op)
        } else if n == 2 {
            proof {
                lemma_opcode_fields(op);
            }
            self.stax(op)
        } else if n == 3 {
            self.inx(op)
        } else if n == 4 || n == 0xc {
            self.inr(op)
        } else if n == 5 || n == 0xd {
            self.dcr(op)
        } else if n == 6 || n == 0xe {
            self.mvi(op)
        } else if n == 7 || n == 0xf {
            self.assignment_extra(op)
        } else if n == 9 {
            self.dad(op)
        } else if n == 0xa {
            proof {
                lemma_opcode_fields(op);
            }
            self.ldax(op)
        } else {
            self.dcx(op)
        }
    }

    /// MOV dst,src; the src==dst==6 encoding is HLT, which leaves the state
    /// untouched and reports 0 T-states to signal the halt.
    fn mov(&mut self, op: u8) -> (r: usize)
        requires
            old(self).wf(),
            0x40 <= op < 0x80,
        ensures
            (final(self).state@, r as int) == spec_mov(old(self).state@, op),
            final(self).wf(),
            final(self).io == old(self).io,
    {
        if op == 0x76 {
            return 0;
        }
        proof {
            lemma_opcode_fields(op);
        }
        let src = op & 0b111;
        let dst = (op >> 3) & 0b111;
        let val = self.state.get_register(src);
        self.state.set_register(dst, val);
        if src == 6 || dst == 6 {
            7
        } else {
            5
        }
    }

    /// ADD r.
    fn add_instr(&mut self, op: u8) -> (r: usize)
        requires
            old(self).wf(),
            0x80 <= op < 0x88,
        ensures
            (final(self).state@, r as int) == spec_alu_reg(old(self).state@, op),
            final(self).wf(),
            final(self).io == old(self).io,
    {
        proof {
            lemma_opcode_fields(op);
        }
        let reg = op & 0b111;
        let val = self.state.get_register(reg);
        self.add(val);
        if reg == 6 {
            7
        } else {
            4
        }
    }

    /// ADC r.
    fn adc_instr(&mut self, op: u8) -> (r: usize)
        requires
            old(self).wf(),
            0x88 <= op < 0x90,
        ensures
            (final(self).state@, r as int) == spec_alu_reg(old(self).state@, op),
            final(self).wf(),
            final(self).io == old(self).io,
    {
        proof {
            lemma_opcode_fields(op);
        }
        let reg = op & 0b111;
        let val = self.state.get_register(reg);
        self.adc(val);
        if reg == 6 {
            7
        } else {
            4
        }
    }

    /// SUB r.
    fn sub_instr(&mut self, op: u8) -> (r: usize)
        requires
            old(self).wf(),
            0x90 <= op < 0x98,
        ensures
            (final(self).state@, r as int) == spec_alu_reg(old(self).state@, op),
            final(self).wf(),
            final(self).io == old(self).io,
    {
        proof {
            lemma_opcode_fields(op);
        }
        let reg = op & 0b111;
        let val = self.state.get_register(reg);
        self.sub(val);
        if reg == 6 {
            7
        } else {
            4
        }
    }

    /// SBB r.
    fn sbb_instr(&mut self, op: u8) -> (r: usize)
        requires
            old(self).wf(),
            0x98 <= op < 0xa0,
        ensures
            (final(self).state@, r as int) == spec_alu_reg(old(self).state@, op),
            final(self).wf(),
            final(self).io == old(self).io,
    {
        proof {
            lemma_opcode_fields(op);
        }
        let reg = op & 0b111;
        let val = self.state.get_register(reg);
        self.sbb(val);
        if reg == 6 {
            7
        } else {
            4
        }
    }

    /// ANA r.
    fn and_instr(&mut self, op: u8) -> (r: usize)
        requires
            old(self).wf(),
            0xa0 <= op < 0xa8,
        ensures
            (final(self).state@, r as int) == spec_alu_reg(old(self).state@, op),
            final(self).wf(),
            final(self).io == old(self).io,
    {
        proof {
            lemma_opcode_fields(op);
        }
        let reg = op & 0b111;
        let val = self.state.get_register(reg);
        self.and(val);
        if reg == 6 {
            7
        } else {
            4
        }
    }

    /// XRA r.
    fn xor_instr(&mut self, op: u8) -> (r: usize)
        requires
            old(self).wf(),
            0xa8 <= op < 0xb0,
        ensures
            (final(self).state@, r as int) == spec_alu_reg(old(self).state@, op),
            final(self).wf(),
            final(self).io == old(self).io,
    {
        proof {
            lemma_opcode_fields(op);
        }
        let reg = op & 0b111;
        let val = self.state.get_register(reg);
        self.xor(val);
        if reg == 6 {
            7
        } else {
            4
        }
    }

    /// ORA r.
    fn or_instr(&mut self, op: u8) -> (r: usize)
        requires
            old(self).wf(),
            0xb0 <= op < 0xb8,
        ensures
            (final(self).state@, r as int) == spec_alu_reg(old(self).state@, op),
            final(self).wf(),
            final(self).io == old(self).io,
    {
        proof {
            lemma_opcode_fields(op);
        }
        let reg = op & 0b111;
        let val = self.state.get_register(reg);
        self.or(val);
        if reg == 6 {
            7
        } else {
            4
        }
    }

    /// CMP r.
    fn cmp_instr(&mut self, op: u8) -> (r: usize)
        requires
            old(self).wf(),
            0xb8 <= op < 0xc0,
        ensures
            (final(self).state@, r as int) == spec_alu_reg(old(self).state@, op),
            final(self).wf(),
            final(self).io == old(self).io,
    {
        proof {
            lemma_opcode_fields(op);
        }
        let reg = op & 0b111;
        let val = self.state.get_register(reg);
        self.cmp(val);
        if reg == 6 {
            7
        } else {
            4
        }
    }

    /// An ALU operation on the immediate byte.
    #[verifier::rlimit(50)]
    fn immediate(&mut self, op: u8) -> (r: usize)
        requires
            old(self).wf(),
            old(self).state@.pc + 1 <= 0x10000,
        ensures
            (final(self).state@, r as int) == spec_immediate(old(self).state@, op),
            final(self).wf(),
            final(self).io == old(self).io,
    {
        let val = self.state.byte1();
        let sel = (op >> 3) & 7;
        if sel == 0 {
            self.add(val);
        } else if sel == 1 {
            self.adc(val);
        } else if sel == 2 {
            self.sub(val);
        } else if sel == 3 {
            self.sbb(val);
        } else if sel == 4 {
            self.and(val);
        } else if sel == 5 {
            self.xor(val);
        } else if sel == 6 {
            self.or(val);
        } else {
            self.cmp(val);
        }
        self.state.pc = self.state.pc + 1;
        7
    }

    /// Conditional CALL: 17 T-states when taken, 11 when not.
    fn call_instr(&mut self, op: u8) -> (r: usize)
        requires
            old(self).wf(),
            old(self).state@.pc <= 0x10000,
            cond(old(self).state@, op) ==> old(self).state@.pc + 2 <= 0xffff,
            cond(old(self).state@, op) ==> 2 <= old(self).state@.sp <= 0x10000,
        ensures
            (final(self).state@, r as int) == spec_call_instr(old(self).state@, op),
            final(self).wf(),
            final(self).io == old(self).io,
    {
        if self.state.get_flag(op) {
            let w = self.state.word();
            self.call(w);
            17
        } else {
            self.state.pc = self.state.pc + 2;
            11
        }
    }

    /// Conditional RET: 10 T-states for the unconditional form, 11 for a
    /// taken conditional one, 5 when not taken.
    fn ret_instr(&mut self, op: u8) -> (r: usize)
        requires
            old(self).wf(),
            cond(old(self).state@, op) ==> old(self).state@.sp + 2 <= 0x10000,
        ensures
            (final(self).state@, r as int) == spec_ret_instr(old(self).state@, op),
            final(self).wf(),
            final(self).io == old(self).io,
    {
        if self.state.get_flag(op) {
            self.ret();
            if op & 0b1 == 1 {
                10
            } else {
                11
            }
        } else {
            5
        }
    }

    /// Conditional JMP: 10 T-states either way.
    fn jmp_instr(&mut self, op: u8) -> (r: usize)
        requires
            old(self).wf(),
            old(self).state@.pc <= 0x10000,
            cond(old(self).state@, op) ==> old(self).state@.pc + 2 <= 0x10000,
        ensures
            (final(self).state@, r as int) == spec_jmp_instr(old(self).state@, op),
            final(self).wf(),
            final(self).io == old(self).io,
    {
        if self.state.get_flag(op) {
            let w = self.state.word();
            self.state.pc = w as usize;
        } else {
            self.state.pc = self.state.pc + 2;
        }
        10
    }

    /// POP into a register pair, or POP PSW, which unpacks the flags from
    /// the popped low byte.
    fn pop_instr(&mut self, op: u8) -> (r: usize)
        requires
            old(self).wf(),
            old(self).state@.sp + 2 <= 0x10000,
            op == 0xf1 || rp_sel(op) != 3,
        ensures
            (final(self).state@, r as int) == spec_pop_rp(old(self).state@, op),
            final(self).wf(),
            final(self).io == old(self).io,
    {
        let val = self.pop();
        proof {
            lemma_opcode_fields(op);
            lemma_fundamental_div_mod(val as int, 256);
            assert(val / 256 < 256);
        }
        if op == 0xf1 {
            let f = (val % 256) as u8;
            self.state.a = (val / 256) as u8;
            self.state.fl.s = f & 0x80 != 0;
            self.state.fl.z = f & 0x40 != 0;
            self.state.fl.ac = f & 0x10 != 0;
            self.state.fl.p = f & 0x04 != 0;
            self.state.fl.cy = f & 0x01 != 0;
        } else {
            self.state.set_long(op, ((val % 256) as u8, (val / 256) as u8));
        }
        10
    }

    /// PUSH of a register pair, or PUSH PSW.
    fn push_instr(&mut self, op: u8) -> (r: usize)
        requires
            old(self).wf(),
            2 <= old(self).state@.sp <= 0x10000,
            0xc0 <= op,
            op & 0xf == 5,
        ensures
            (final(self).state@, r as int) == spec_push_rp(old(self).state@, op),
            final(self).wf(),
            final(self).io == old(self).io,
    {
        proof {
            lemma_opcode_fields(op);
        }
        let val: u16 = if op == 0xf5 {
            (self.state.a as u16) * 256 + (if self.state.fl.s {
                0x80
            } else {
                0
            }) + (if self.state.fl.z {
                0x40
            } else {
                0
            }) + (if self.state.fl.ac {
                0x10
            } else {
                0
            }) + (if self.state.fl.p {
                4
            } else {
                0
            }) + (if self.state.fl.cy {
                1
            } else {
                0
            })
        } else {
            let rp = self.state.get_long(op);
            rp as u16
        };
        self.push(val);
        11
    }

    /// RST n: the current PC, reduced to its 16 bits, is pushed and
    /// execution vectors to n*8, whatever the interrupt-enable flag holds.
    fn rst(&mut self, op: u8) -> (r: usize)
        requires
            old(self).wf(),
            2 <= old(self).state@.sp <= 0x10000,
        ensures
            (final(self).state@, r as int) == spec_rst(old(self).state@, op),
            final(self).wf(),
            final(self).io == old(self).io,
    {
        proof {
            lemma_opcode_fields(op);
        }
        let num = (op >> 3) & 0b111;
        let ret_addr: usize = self.state.pc % 0x10000;
        self.push(ret_addr as u16);
        self.state.pc = (num as usize) * 8;
        11
    }

    /// The branch/stack/IO class, opcodes 0xC0..=0xFF. For the IN opcode
    /// the accumulator receives whatever byte the host's port handler
    /// answers; everything else about the step is still exact.
    fn branch(&mut self, op: u8) -> (r: usize)
        requires
            old(self).wf(),
            0xc0 <= op,
            old(self).state@.pc <= 0x10000,
            branch_ok(old(self).state@, op),
        ensures
            op != 0xdb ==> (final(self).state@, r as int) == spec_branch(old(self).state@, op),
            op == 0xdb ==> exists|v: u8|
                (final(self).state@, r as int) == spec_in_instr(old(self).state@, v),
            final(self).wf(),
            op != 0xdb && op != 0xd3 ==> final(self).io == old(self).io,
    {
        proof {
            lemma_opcode_fields(op);
        }
        let n = op & 0xf;
        if n == 0 || n == 8 {
            self.ret_instr(op)
        } else if n == 1 {
            proof {
                lemma_opcode_fields(op);
            }
            self.pop_instr(op)
        } else if n == 2 || n == 0xa {
            self.jmp_instr(op)
        } else if n == 3 {
            let q = (op >> 4) & 3;
            if q == 0 {
                self.jmp_instr(op)
            } else if q == 1 {
                let port = self.state.byte1();
                let av = self.state.a;
                self.io.write(port, av);
                self.state.pc = self.state.pc + 1;
                10
            } else if q == 2 {
                let val = self.pop();
                let h0 = self.state.h;
                let l0 = self.state.l;
                self.push((h0 as u16) * 256 + (l0 as u16));
                proof {
                    lemma_pair16_parts(h0, l0);
                    lemma_fundamental_div_mod(val as int, 256);
                    assert(val / 256 < 256);
                }
                self.state.h = (val / 256) as u8;
                self.state.l = (val % 256) as u8;
                18
            } else {
                self.state.int_enable = false;
                4
            }
        } else if n == 4 || n == 0xc || n == 0xd {
            self.call_instr(op)
        } else if n == 5 {
            self.push_instr(op)
        } else if n == 6 || n == 0xe {
            self.immediate(op)
        } else if n == 7 || n == 0xf {
            self.rst(op)
        } else if n == 9 {
            let q = (op >> 4) & 3;
            if q == 0 {
                self.ret_instr(op)
            } else if q == 1 {
                10
            } else if q == 2 {
                let hl = self.state.hl();
                self.state.pc = hl;
                5
            } else {
                let hl = self.state.hl();
                self.state.sp = hl;
                5
            }
        } else {
            let q = (op >> 4) & 3;
            if q == 0 {
                10
            } else if q == 1 {
                let port = self.state.byte1();
                let v = self.io.read(port);
                self.state.a = v;
                self.state.pc = self.state.pc + 1;
                proof {
                    assert((self.state@, 10int) == spec_in_instr(old(self).state@, v));
                }
                10
            } else if q == 2 {
                let d0 = self.state.d;
                let e0 = self.state.e;
                self.state.d = self.state.h;
                self.state.e = self.state.l;
                self.state.h = d0;
                self.state.l = e0;
                5
            } else {
                self.state.int_enable = true;
                4
            }
        }
    }

    /// One interpreter step: fetch the opcode at PC, advance PC past it,
    /// dispatch by the two high bits, and report the instruction's T-state
    /// cost (0 signals HLT). The whole effect equals the model's transition
    /// for the fetched opcode; for IN the accumulator receives whatever
    /// byte the host answered, and everything else is still exact.
    pub fn step(&mut self) -> (r: usize)
        requires
            old(self).wf(),
            step_ok(old(self).state@),
        ensures
            fetched(old(self).state@) != 0xdb
                ==> (final(self).state@, r as int) == spec_step(old(self).state@),
            fetched(old(self).state@) == 0xdb ==> exists|v: u8|
                (final(self).state@, r as int) == spec_step_in(old(self).state@, v),
            final(self).wf(),
            fetched(old(self).state@) != 0xdb && fetched(old(self).state@) != 0xd3
                ==> final(self).io == old(self).io,
    {
        let opcode = self.state.memory[self.state.pc];
        self.state.pc = self.state.pc + 1;
        let r = if opcode < 0x40 {
            self.assignment(opcode)
        } else if opcode < 0x80 {
            self.mov(opcode)
        } else if opcode < 0x88 {
            self.add_instr(opcode)
        } else if opcode < 0x90 {
            self.adc_instr(opcode)
        } else if opcode < 0x98 {
            self.sub_instr(opcode)
        } else if opcode < 0xa0 {
            self.sbb_instr(opcode)
        } else if opcode < 0xa8 {
            self.and_instr(opcode)
        } else if opcode < 0xb0 {
            self.xor_instr(opcode)
        } else if opcode < 0xb8 {
            self.or_instr(opcode)
        } else if opcode < 0xc0 {
            self.cmp_instr(opcode)
        } else {
            self.branch(opcode)
        };
        proof {
            let c = old(self).state@;
            let c1 = Cpu { pc: c.pc + 1, ..c };
            if opcode == 0xdb {
                let v = choose|v: u8| (self.state@, r as int) == spec_in_instr(c1, v);
                assert((self.state@, r as int) == spec_step_in(c, v));
            }
        }
        r
    }
}

} // verus!
