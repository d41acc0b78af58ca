//! The concrete machine state: registers, flags and memory, with the
//! addressing helpers shared by every instruction. Each operation's contract
//! is stated over the state's view, a [`Cpu`] model value.

use vstd::prelude::*;

use crate::model::Cpu;
use crate::model::bit1;
use crate::model::cond;
use crate::model::get_reg;
use crate::model::get_rp;
use crate::model::initial_cpu;
use crate::model::lo8;
use crate::model::mword;
use crate::model::pair16;
use crate::model::popcnt;
use crate::model::set_reg;
use crate::model::set_rp;
use crate::model::wfm;
use crate::model::with_zsp;
use vstd::pervasive::VecAdditionalExecFns;

verus! {

/// The five status flags: zero, sign, parity, carry and auxiliary carry.
pub struct Flags {
    pub z: bool,
    pub s: bool,
    pub p: bool,
    pub cy: bool,
    pub ac: bool,
}

impl Flags {
    /// Resets the flags to the state an 8-bit result of zero would leave:
    /// Z and P set (zero has even parity), S, CY and AC clear.
    pub fn clear(&mut self)
        ensures
            *final(self) == (Flags { z: true, s: false, p: true, cy: false, ac: false }),
    {
        self.z = true;
        self.s = false;
        self.p = true;
        self.cy = false;
        self.ac = false;
    }
}

/// Whether the number of set bits of `x`, plus one more when `cy` is set, is
/// even.
pub fn parity(x: u8, cy: bool) -> (r: bool)
    ensures
        r == ((popcnt(x) + bit1(cy)) % 2 == 0),
{
    proof {
        assert((x & 1) <= 1 && ((x >> 1) & 1) <= 1 && ((x >> 2) & 1) <= 1 && ((x >> 3) & 1) <= 1
            && ((x >> 4) & 1) <= 1 && ((x >> 5) & 1) <= 1 && ((x >> 6) & 1) <= 1 && ((x >> 7) & 1)
            <= 1) by (bit_vector);
    }
    let count: u8 = (x & 1) + ((x >> 1) & 1) + ((x >> 2) & 1) + ((x >> 3) & 1) + ((x >> 4) & 1) + (
    (x >> 5) & 1) + ((x >> 6) & 1) + ((x >> 7) & 1);
    let total: u8 = count + (if cy {
        1
    } else {
        0
    });
    total % 2 == 0
}

/// The processor state: seven 8-bit registers, stack pointer, program
/// counter, the flat 65536-byte memory, the flags and the interrupt-enable
/// flag.
pub struct State8080 {
    pub a: u8,
    pub b: u8,
    pub c: u8,
    pub d: u8,
    pub e: u8,
    pub h: u8,
    pub l: u8,
    pub sp: usize,
    pub pc: usize,
    pub memory: Vec<u8>,
    pub fl: Flags,
    pub int_enable: bool,
}

impl View for State8080 {
    type V = Cpu;

    open spec fn view(&self) -> Cpu {
        Cpu {
            a: self.a,
            b: self.b,
            c: self.c,
            d: self.d,
            e: self.e,
            h: self.h,
            l: self.l,
            sp: self.sp as int,
            pc: self.pc as int,
            mem: self.memory@,
            z: self.fl.z,
            s: self.fl.s,
            p: self.fl.p,
            cy: self.fl.cy,
            ac: self.fl.ac,
            int_enable: self.int_enable,
        }
    }
}

impl Default for State8080 {
    /// A machine at power-on: registers, flags and both pointers cleared,
    /// interrupts disabled, and every memory byte holding 0xFF, the
    /// customary value for undriven bus lines.
    fn default() -> (r: Self)
        ensures
            r@ == initial_cpu(),
    {
        let mut memory: Vec<u8> = Vec::new();
        while memory.len() < 0x10000
            invariant
                memory@.len() <= 0x10000,
                forall|i: int| 0 <= i < memory@.len() ==> memory@[i] == 0xff,
            decreases 0x10000 - memory.len(),
        {
            memory.push(0xff);
        }
        let r = State8080 {
            a: 0,
            b: 0,
            c: 0,
            d: 0,
            e: 0,
            h: 0,
            l: 0,
            sp: 0,
            pc: 0,
            memory,
            fl: Flags { z: false, s: false, p: false, cy: false, ac: false },
            int_enable: false,
        };
        proof {
            assert(r@.mem =~= initial_cpu().mem);
            assert(r@ =~= initial_cpu());
        }
        r
    }
}

impl State8080 {
    /// The memory invariant: a full 16-bit address space.
    pub open spec fn wf(&self) -> bool {
        wfm(self@)
    }

    /// Writes the 8-bit register selected by the 3-bit code `reg`; code 6
    /// writes through to the memory byte at address HL.
    pub fn set_register(&mut self, reg: u8, val: u8)
        requires
            reg <= 7,
            old(self).wf(),
        ensures
            final(self)@ == set_reg(old(self)@, reg, val),
    {
        match reg {
            0 => self.b = val,
            1 => self.c = val,
            2 => self.d = val,
            3 => self.e = val,
            4 => self.h = val,
            5 => self.l = val,
            6 => {
                let addr = self.hl();
                self.memory.set(addr, val);
            },
            _ => self.a = val,
        }
    }

    /// Reads the 8-bit register selected by the 3-bit code `reg`; code 6
    /// reads the memory byte at address HL.
    pub fn get_register(&mut self, reg: u8) -> (r: u8)
        requires
            reg <= 7,
            old(self).wf(),
        ensures
            r == get_reg(old(self)@, reg),
            *final(self) == *old(self),
    {
        match reg {
            0 => self.b,
            1 => self.c,
            2 => self.d,
            3 => self.e,
            4 => self.h,
            5 => self.l,
            6 => self.at_hl(),
            _ => self.a,
        }
    }

    /// Reads the 16-bit register pair selected by bits 4..5 of `op`:
    /// BC, DE, HL or SP.
    pub fn get_long(&self, op: u8) -> (r: usize)
        ensures
            r as int == get_rp(self@, op),
    {
        let sel = (op >> 4) & 3;
        if sel == 0 {
            self.bc()
        } else if sel == 1 {
            self.de()
        } else if sel == 2 {
            self.hl()
        } else {
            self.sp
        }
    }

    /// Evaluates the condition encoded in a branch opcode against the flags.
    pub fn get_flag(&self, op: u8) -> (r: bool)
        ensures
            r == cond(self@, op),
    {
        if op & 1 == 1 {
            return true;
        }
        let neg = op & 0b1000 == 0;
        let sel = (op >> 4) & 0b11;
        let res = if sel == 0 {
            self.fl.z
        } else if sel == 1 {
            self.fl.cy
        } else if sel == 2 {
            self.fl.p
        } else {
            self.fl.s
        };
        neg != res
    }

    /// Writes the register pair selected by bits 4..5 of `op` with the
    /// `(low, high)` byte pair.
    pub fn set_long(&mut self, op: u8, val: (u8, u8))
        ensures
            final(self)@ == set_rp(old(self)@, op, val.0, val.1),
    {
        let (low, high) = val;
        let sel = (op >> 4) & 3;
        if sel == 0 {
            self.b = high;
            self.c = low;
        } else if sel == 1 {
            self.d = high;
            self.e = low;
        } else if sel == 2 {
            self.h = high;
            self.l = low;
        } else {
            self.sp = (high as usize) * 256 + (low as usize);
        }
    }

    /// The BC pair as a 16-bit value.
    pub fn bc(&self) -> (r: usize)
        ensures
            r as int == pair16(self.b, self.c),
    {
        (self.b as usize) * 256 + (self.c as usize)
    }

    /// The DE pair as a 16-bit value.
    pub fn de(&self) -> (r: usize)
        ensures
            r as int == pair16(self.d, self.e),
    {
        (self.d as usize) * 256 + (self.e as usize)
    }

    /// The HL pair as a 16-bit value.
    pub fn hl(&self) -> (r: usize)
        ensures
            r as int == pair16(self.h, self.l),
    {
        (self.h as usize) * 256 + (self.l as usize)
    }

    /// The memory byte addressed by BC.
    pub fn at_bc(&self) -> (r: u8)
        requires
            self.wf(),
        ensures
            r == self@.mem[pair16(self.b, self.c)],
    {
        let addr = self.bc();
        self.memory[addr]
    }

    /// The memory byte addressed by DE.
    pub fn at_de(&self) -> (r: u8)
        requires
            self.wf(),
        ensures
            r == self@.mem[pair16(self.d, self.e)],
    {
        let addr = self.de();
        self.memory[addr]
    }

    /// The memory byte addressed by HL.
    pub fn at_hl(&self) -> (r: u8)
        requires
            self.wf(),
        ensures
            r == self@.mem[pair16(self.h, self.l)],
    {
        let addr = self.hl();
        self.memory[addr]
    }

    /// The first byte after the current PC position: the immediate operand
    /// of a 2-byte instruction.
    pub fn byte1(&self) -> (r: u8)
        requires
            self.wf(),
            self@.pc < 0x10000,
        ensures
            r == self@.mem[self@.pc],
    {
        self.memory[self.pc]
    }

    /// The second operand byte.
    pub fn byte2(&self) -> (r: u8)
        requires
            self.wf(),
            self@.pc + 2 <= 0x10000,
        ensures
            r == self@.mem[self@.pc + 1],
    {
        self.memory[self.pc + 1]
    }

    /// The little-endian 16-bit word at the current PC position: the address
    /// operand of a 3-byte instruction.
    pub fn word(&self) -> (r: u16)
        requires
            self.wf(),
            self@.pc + 2 <= 0x10000,
        ensures
            r as int == mword(self@, self@.pc),
    {
        self.word_at(self.pc)
    }

    /// The little-endian 16-bit word held in memory at `addr`.
    pub fn word_at(&self, addr: usize) -> (r: u16)
        requires
            self.wf(),
            addr + 2 <= 0x10000,
        ensures
            r as int == mword(self@, addr as int),
    {
        (self.memory[addr + 1] as u16) * 256 + (self.memory[addr] as u16)
    }

    /// Recomputes Z, S and P from the 8-bit result `res`; the other flags
    /// keep their values.
    pub fn set_r(&mut self, res: u8)
        ensures
            final(self)@ == with_zsp(old(self)@, res),
    {
        self.fl.z = res == 0;
        self.fl.s = (res & 0x80) != 0;
        self.fl.p = parity(res, false);
    }

    /// Recomputes Z, S and P from the low byte of a 9-bit (or wider)
    /// intermediate result, and CY from its overflow past 0xFF.
    pub fn set_flags(&mut self, res: u16)
        ensures
            final(self)@ == (Cpu { cy: res > 0xff, ..with_zsp(old(self)@, lo8(res as int)) }),
    {
        self.set_r((res % 256) as u8);
        self.fl.cy = res > 0xff;
    }
}

} // verus!
