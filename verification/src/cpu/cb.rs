use vstd::prelude::*;
use crate::bus::Bus;
use crate::alu::{shift_op, bit_test, set_bit_of, res_bit_of, lemma_byte_ops, lemma_shift_forms};
use super::{Cpu, machine};
use crate::cpu_spec::{CpuState, exec_cb};

verus! {

impl Cpu {
    /// Execute a CB-prefixed instruction: fetch the second byte and dispatch.
    /// Returns the T-cycles taken.
    pub fn step_cb(&mut self, bus: &mut Bus) -> (r: u8)
        requires old(bus).wf(),
        ensures
            final(bus).wf(),
            exists|t: u64| (machine(final(self)@, final(bus)@), r) == #[trigger] exec_cb(machine(old(self)@, old(bus)@), t),
    {
        let (r, Ghost(t)) = self.step_cb_timed(bus);
        r
    }

    /// `step_cb` with the clock reading of its write as the ghost result.
    pub(crate) fn step_cb_timed(&mut self, bus: &mut Bus) -> (r: (u8, Ghost<u64>))
        requires old(bus).wf(),
        ensures
            final(bus).wf(),
            (machine(final(self)@, final(bus)@), r.0) == exec_cb(machine(old(self)@, old(bus)@), r.1@),
    {
        let cb_op = self.fetch(bus);
        let x = cb_op / 64;
        let y = (cb_op / 8) % 8;
        let z = cb_op % 8;
        let v = self.read_operand(bus, z);
        let mut t: Ghost<u64> = Ghost(0);
        if x == 0 {
            let res = self.shift_by_kind(y, v);
            t = self.write_operand(bus, z, res);
        } else if x == 1 {
            self.bit(y, v);
        } else if x == 2 {
            let res = self.res(y, v);
            t = self.write_operand(bus, z, res);
        } else {
            let res = self.set(y, v);
            t = self.write_operand(bus, z, res);
        }
        let cycles: u8 = if z != 6 { 8 } else if x == 1 { 12 } else { 16 };
        (cycles, t)
    }

    /// The shift or rotate `kind` (RLC, RRC, RL, RR, SLA, SRA, SWAP, SRL) of `v`.
    fn shift_by_kind(&mut self, kind: u8, v: u8) -> (r: u8)
        requires kind < 8,
        ensures
            r == shift_op(old(self)@.regs, kind, v).0,
            final(self)@ == (CpuState { regs: shift_op(old(self)@.regs, kind, v).1, ..old(self)@ }),
    {
        match kind {
            0 => self.rlc(v),
            1 => self.rrc(v),
            2 => self.rl(v),
            3 => self.rr(v),
            4 => self.sla(v),
            5 => self.sra(v),
            6 => self.swap(v),
            _ => self.srl(v),
        }
    }

    /// Test bit `b` of `val`: Z is set when the bit is clear; N cleared, H set.
    pub fn bit(&mut self, b: u8, val: u8)
        requires b < 8,
        ensures final(self)@ == (CpuState { regs: bit_test(old(self)@.regs, b, val), ..old(self)@ }),
    {
        let c = self.regs.get_c();
        self.regs.set_flags(val & (1u8 << b) == 0, false, true, c);
    }

    /// Swap the upper and lower nibbles of `val`.
    pub fn swap(&mut self, val: u8) -> (r: u8)
        ensures
            r == shift_op(old(self)@.regs, 6, val).0,
            final(self)@ == (CpuState { regs: shift_op(old(self)@.regs, 6, val).1, ..old(self)@ }),
    {
        proof { lemma_shift_forms(val, 0); }
        let result = (val << 4u8) | (val >> 4u8);
        self.regs.set_flags(result == 0, false, false, false);
        result
    }

    /// Shift left arithmetic: bit 7 goes into the carry, bit 0 becomes 0.
    pub fn sla(&mut self, val: u8) -> (r: u8)
        ensures
            r == shift_op(old(self)@.regs, 4, val).0,
            final(self)@ == (CpuState { regs: shift_op(old(self)@.regs, 4, val).1, ..old(self)@ }),
    {
        proof { lemma_byte_ops(val); }
        let result = val << 1u8;
        self.regs.set_flags(result == 0, false, false, val & 0x80 != 0);
        result
    }

    /// Shift right arithmetic: bit 0 goes into the carry, bit 7 is kept.
    pub fn sra(&mut self, val: u8) -> (r: u8)
        ensures
            r == shift_op(old(self)@.regs, 5, val).0,
            final(self)@ == (CpuState { regs: shift_op(old(self)@.regs, 5, val).1, ..old(self)@ }),
    {
        proof { lemma_byte_ops(val); lemma_shift_forms(val, 0); }
        let result = (val >> 1u8) | (val & 0x80);
        self.regs.set_flags(result == 0, false, false, val & 0x01 != 0);
        result
    }

    /// Shift right logical: bit 0 goes into the carry, bit 7 becomes 0.
    pub fn srl(&mut self, val: u8) -> (r: u8)
        ensures
            r == shift_op(old(self)@.regs, 7, val).0,
            final(self)@ == (CpuState { regs: shift_op(old(self)@.regs, 7, val).1, ..old(self)@ }),
    {
        proof { lemma_byte_ops(val); }
        let result = val >> 1u8;
        self.regs.set_flags(result == 0, false, false, val & 0x01 != 0);
        result
    }

    /// Set bit `b` of `val`.
    pub fn set(&mut self, b: u8, val: u8) -> (r: u8)
        requires b < 8,
        ensures r == set_bit_of(b, val), final(self)@ == old(self)@,
    {
        val | (1u8 << b)
    }

    /// Reset (clear) bit `b` of `val`.
    pub fn res(&mut self, b: u8, val: u8) -> (r: u8)
        requires b < 8,
        ensures r == res_bit_of(b, val), final(self)@ == old(self)@,
    {
        val & !(1u8 << b)
    }
}

} // verus!
