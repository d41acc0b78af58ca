//! The interpreter type: construction, the arithmetic/logical unit and the
//! stack and control-transfer primitives. The opcode dispatch lives in
//! `instr`.

use vstd::prelude::*;

use crate::model::Cpu;
use crate::model::bit1;
use crate::model::initial_cpu;
use crate::model::lo8;
use crate::model::mword;
use crate::model::set_reg;
use crate::model::set_rp;
use crate::model::spec_add;
use crate::model::spec_cmp;
use crate::model::spec_interrupt;
use crate::model::spec_logic;
use crate::model::spec_push;
use crate::model::spec_sub;
use crate::model::wfm;
use crate::state::State8080;
use vstd::arithmetic::div_mod::lemma_mod_multiples_vanish;
use vstd::pervasive::VecAdditionalExecFns;

verus! {

/// The I/O-port capability the host supplies: 256 ports of one byte each,
/// consulted only by the IN and OUT opcodes. The interpreter attaches no
/// meaning to port numbers and promises nothing about the values exchanged.
pub trait InOutHandler {
    fn read(&mut self, port: u8) -> u8;

    fn write(&mut self, port: u8, val: u8);
}

/// A port handler for machines without devices: reads answer 0, writes are
/// discarded.
pub struct DefaultHandler;

impl InOutHandler for DefaultHandler {
    fn read(&mut self, _port: u8) -> u8 {
        0
    }

    fn write(&mut self, _port: u8, _val: u8) {
    }
}

/// The 8080 interpreter: the processor state plus the host's port handler.
pub struct Emu8080<T: InOutHandler = DefaultHandler> {
    pub state: State8080,
    pub io: T,
}

impl<T: InOutHandler> Emu8080<T> {
    /// The memory invariant: a full 16-bit address space.
    pub open spec fn wf(&self) -> bool {
        wfm(self.state@)
    }

    /// A machine at power-on: registers, flags and both pointers cleared,
    /// interrupts disabled, and every memory byte holding 0xFF (the
    /// customary value for undriven bus lines).
    pub fn new(io_handler: T) -> (r: Self)
        ensures
            r.state@ == initial_cpu(),
            r.io == io_handler,
    {
        Emu8080 { state: State8080::default(), io: io_handler }
    }

    /// Writes the 8-bit register selected by the 3-bit code `reg`; code 6
    /// writes through to the memory byte at address HL.
    pub fn set_register(&mut self, reg: u8, val: u8)
        requires
            reg <= 7,
            old(self).wf(),
        ensures
            final(self).state@ == set_reg(old(self).state@, reg, val),
            final(self).io == old(self).io,
    {
        self.state.set_register(reg, val)
    }

    /// Writes the register pair selected by bits 4..5 of `op` with the
    /// `(low, high)` byte pair.
    pub fn set_long(&mut self, op: u8, val: (u8, u8))
        ensures
            final(self).state@ == set_rp(old(self).state@, op, val.0, val.1),
            final(self).io == old(self).io,
    {
        self.state.set_long(op, val)
    }

    /// Copies `data` into memory starting at `offset`: how the host loads a
    /// raw binary image. Nothing but the covered bytes changes.
    pub fn load_at(&mut self, data: &[u8], offset: usize)
        requires
            old(self).wf(),
            offset + data@.len() <= 0x10000,
        ensures
            forall|j: int|
                0 <= j < data@.len() ==> final(self).state@.mem[offset + j] == data@[j],
            forall|j: int|
                0 <= j < 0x10000 && !(offset <= j < offset + data@.len())
                    ==> final(self).state@.mem[j] == old(self).state@.mem[j],
            final(self).state@ == (Cpu { mem: final(self).state@.mem, ..old(self).state@ }),
            final(self).io == old(self).io,
    {
        let mut i: usize = 0;
        while i < data.len()
            invariant
                i <= data@.len(),
                offset + data@.len() <= 0x10000,
                self.state@.mem.len() == 0x10000,
                forall|j: int| 0 <= j < i ==> self.state@.mem[offset + j] == data@[j],
                forall|j: int|
                    0 <= j < 0x10000 && !(offset <= j < offset + i) ==> self.state@.mem[j] == old(
                        self,
                    ).state@.mem[j],
                self.state@ == (Cpu { mem: self.state@.mem, ..old(self).state@ }),
                self.io == old(self).io,
            decreases data@.len() - i,
        {
            self.state.memory.set(offset + i, data[i]);
            i = i + 1;
        }
    }

    /// Delivers a vectored interrupt: when interrupt-enable is set it is
    /// cleared, PC is pushed, and execution vectors to `interrupt_num * 8`;
    /// with interrupts disabled nothing happens.
    pub fn generate_interrupt(&mut self, interrupt_num: u8)
        requires
            old(self).wf(),
            interrupt_num <= 7,
            old(self).state@.int_enable ==> 2 <= old(self).state@.sp <= 0x10000,
            old(self).state@.int_enable ==> old(self).state@.pc <= 0xffff,
        ensures
            final(self).state@ == spec_interrupt(old(self).state@, interrupt_num),
            final(self).io == old(self).io,
    {
        if self.state.int_enable {
            self.state.int_enable = false;
            let pc16: u16 = self.state.pc as u16;
            self.push(pc16);
            self.state.pc = (interrupt_num as usize) * 8;
        }
    }

    /// Addition into the accumulator with an explicit carry-in.
    fn add_core(&mut self, val: u8, cin: u8)
        requires
            cin <= 1,
        ensures
            final(self).state@ == spec_add(old(self).state@, val, cin as int),
            final(self).io == old(self).io,
    {
        let a = self.state.a;
        let sum: u16 = a as u16 + val as u16 + cin as u16;
        self.state.set_flags(sum);
        self.state.a = (sum % 256) as u8;
        self.state.fl.ac = ((a & 0xf) as u16) + ((val & 0xf) as u16) + (cin as u16) > 0xf;
    }

    /// Subtraction from the accumulator with an explicit borrow-in,
    /// computed as a 9-bit difference so the borrow is exact.
    fn sub_core(&mut self, val: u8, bin: u8)
        requires
            bin <= 1,
        ensures
            final(self).state@ == spec_sub(old(self).state@, val, bin as int),
            final(self).io == old(self).io,
    {
        let a = self.state.a;
        let diff: u16 = 256 + a as u16 - val as u16 - bin as u16;
        proof {
            lemma_mod_multiples_vanish(1, a - val - bin, 256);
        }
        self.state.set_r((diff % 256) as u8);
        self.state.fl.cy = (a as u16) < val as u16 + bin as u16;
        self.state.fl.ac = ((a & 0xf) as u16) < ((val & 0xf) as u16) + bin as u16;
        self.state.a = (diff % 256) as u8;
    }

    /// ADD: A becomes A plus `val`; CY iff the sum exceeds 0xFF, AC iff the
    /// low-nibble sum exceeds 0xF, Z/S/P from the result.
    pub fn add(&mut self, val: u8)
        ensures
            final(self).state@ == spec_add(old(self).state@, val, 0),
            final(self).io == old(self).io,
    {
        self.add_core(val, 0);
    }

    /// ADC: as ADD, with the incoming carry added into the 9-bit sum.
    pub fn adc(&mut self, val: u8)
        ensures
            final(self).state@ == spec_add(old(self).state@, val, bit1(old(self).state@.cy)),
            final(self).io == old(self).io,
    {
        let cin: u8 = if self.state.fl.cy {
            1
        } else {
            0
        };
        self.add_core(val, cin);
    }

    /// SUB: A becomes A minus `val`; CY iff the subtraction borrows
    /// (A smaller than `val`), AC iff the low nibble borrows.
    pub fn sub(&mut self, val: u8)
        ensures
            final(self).state@ == spec_sub(old(self).state@, val, 0),
            final(self).io == old(self).io,
    {
        self.sub_core(val, 0);
    }

    /// SBB: as SUB, with the incoming carry subtracted as well.
    pub fn sbb(&mut self, val: u8)
        ensures
            final(self).state@ == spec_sub(old(self).state@, val, bit1(old(self).state@.cy)),
            final(self).io == old(self).io,
    {
        let bin: u8 = if self.state.fl.cy {
            1
        } else {
            0
        };
        self.sub_core(val, bin);
    }

    /// ANA: A becomes A AND `val`; Z/S/P from the result, CY and AC cleared.
    pub fn and(&mut self, val: u8)
        ensures
            final(self).state@ == spec_logic(old(self).state@, old(self).state@.a & val),
            final(self).io == old(self).io,
    {
        self.state.a = self.state.a & val;
        let t = self.state.a;
        self.state.set_flags(t as u16);
        self.state.fl.ac = false;
    }

    /// XRA: A becomes A XOR `val`; Z/S/P from the result, CY and AC cleared.
    pub fn xor(&mut self, val: u8)
        ensures
            final(self).state@ == spec_logic(old(self).state@, old(self).state@.a ^ val),
            final(self).io == old(self).io,
    {
        self.state.a = self.state.a ^ val;
        let t = self.state.a;
        self.state.set_flags(t as u16);
        self.state.fl.ac = false;
    }

    /// ORA: A becomes A OR `val`; Z/S/P from the result, CY and AC cleared.
    pub fn or(&mut self, val: u8)
        ensures
            final(self).state@ == spec_logic(old(self).state@, old(self).state@.a | val),
            final(self).io == old(self).io,
    {
        self.state.a = self.state.a | val;
        let t = self.state.a;
        self.state.set_flags(t as u16);
        self.state.fl.ac = false;
    }

    /// CMP: the flags of SUB, with A left unchanged.
    pub fn cmp(&mut self, val: u8)
        ensures
            final(self).state@ == spec_cmp(old(self).state@, val),
            final(self).io == old(self).io,
    {
        let a0 = self.state.a;
        self.sub_core(val, 0);
        self.state.a = a0;
    }

    /// Pops the 16-bit word at the top of the stack; SP rises by 2.
    pub fn pop(&mut self) -> (r: u16)
        requires
            old(self).wf(),
            old(self).state@.sp + 2 <= 0x10000,
        ensures
            r as int == mword(old(self).state@, old(self).state@.sp),
            final(self).state@ == (Cpu { sp: old(self).state@.sp + 2, ..old(self).state@ }),
            final(self).io == old(self).io,
    {
        let r = self.state.word_at(self.state.sp);
        self.state.sp = self.state.sp + 2;
        r
    }

    /// Pushes a 16-bit word: SP drops by 2, the low byte goes to the new
    /// SP, the high byte right above it. Pop after push restores the word.
    pub fn push(&mut self, val: u16)
        requires
            old(self).wf(),
            2 <= old(self).state@.sp <= 0x10000,
        ensures
            final(self).state@ == spec_push(old(self).state@, val as int),
            final(self).io == old(self).io,
    {
        self.state.sp = self.state.sp - 2;
        let sp = self.state.sp;
        self.state.memory.set(sp, (val % 256) as u8);
        self.state.memory.set(sp + 1, (val / 256) as u8);
    }

    /// RET: PC is popped off the stack.
    pub fn ret(&mut self)
        requires
            old(self).wf(),
            old(self).state@.sp + 2 <= 0x10000,
        ensures
            final(self).state@ == (Cpu {
                pc: mword(old(self).state@, old(self).state@.sp),
                sp: old(self).state@.sp + 2,
                ..old(self).state@
            }),
            final(self).io == old(self).io,
    {
        let v = self.pop();
        self.state.pc = v as usize;
    }

    /// CALL: the address of the next instruction (PC plus the two operand
    /// bytes already consumed) is pushed, and PC becomes `addr`.
    pub fn call(&mut self, addr: u16)
        requires
            old(self).wf(),
            2 <= old(self).state@.sp <= 0x10000,
            old(self).state@.pc + 2 <= 0xffff,
        ensures
            final(self).state@ == (Cpu {
                pc: addr as int,
                ..spec_push(old(self).state@, old(self).state@.pc + 2)
            }),
            final(self).io == old(self).io,
    {
        let pc2: u16 = self.state.pc as u16 + 2;
        self.push(pc2);
        self.state.pc = addr as usize;
    }
}

} // verus!
