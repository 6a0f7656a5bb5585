use vstd::prelude::*;
use crate::registers::{Registers, pair};
use crate::bus::Bus;
use crate::alu::{inc8, dec8, shift_op, alu, daa, cpl, scf, ccf, add_hl, sp_offset, sext, lemma_byte_ops, lemma_shift_forms};
use crate::cpu_spec::{fetch_execute, exec_op, op_cycles, dispatch, step, faults, block0_step16, block0_wide, block0_byte, exec_block1, exec_block2, exec_block3, block3_col0, block3_col1, block3_col2, is_illegal, exec_block0, block0_jumps, block0_indirect, block0_accumulator, CpuState, Machine, fetch, fetch_u16, push, pop, jr, jp, call, ret, rst, with_regs,
    add_sp_e8, ld_hl_sp_e8, read_r8, write_r8, read_rp, write_rp, read_rp2, write_rp2, condition};

mod cb;

verus! {

/// The CPU state and the bus seen together.
pub open spec fn machine(c: CpuState, b: crate::bus::BusView) -> Machine {
    Machine { cpu: c, bus: b }
}

/// The register values after the CGB boot ROM has run.
pub open spec fn post_boot_regs() -> Registers {
    Registers { a: 0x11, b: 0x00, c: 0x00, d: 0xFF, e: 0x56, f: 0x80, h: 0x00, l: 0x0D, sp: 0xFFFE, pc: 0x0100 }
}

/// Bytes of a saved CPU state.
pub const CPU_STATE_SIZE: usize = 15;

/// The bytes of a saved CPU state: A, B, C, D, E, F, H, L, SP and PC
/// little-endian, then the halt flag, IME and a waiting EI as 0 or 1.
pub open spec fn cpu_state_bytes(c: CpuState) -> Seq<u8> {
    let r = c.regs;
    seq![r.a, r.b, r.c, r.d, r.e, r.f, r.h, r.l,
        (r.sp % 256) as u8, (r.sp / 256) as u8, (r.pc % 256) as u8, (r.pc / 256) as u8,
        if c.halted { 1u8 } else { 0u8 }, if c.ime { 1u8 } else { 0u8 }, if c.ime_pending { 1u8 } else { 0u8 }]
}

/// The CPU state held by the first `CPU_STATE_SIZE` bytes of `s`.
pub open spec fn cpu_restore(s: Seq<u8>) -> CpuState {
    CpuState {
        regs: Registers {
            a: s[0], b: s[1], c: s[2], d: s[3], e: s[4], f: s[5], h: s[6], l: s[7],
            sp: (s[8] + s[9] * 256) as u16, pc: (s[10] + s[11] * 256) as u16,
        },
        halted: s[12] != 0,
        ime: s[13] != 0,
        ime_pending: s[14] != 0,
    }
}

/// A saved CPU state loads back as the state it was saved from.
pub proof fn lemma_cpu_state_roundtrip(c: CpuState)
    ensures
        cpu_state_bytes(c).len() == CPU_STATE_SIZE,
        cpu_restore(cpu_state_bytes(c)) == c,
{
}

/// SM83 CPU: registers, the halt state and the interrupt master enable.
pub struct Cpu {
    regs: Registers,
    halted: bool,
    ime: bool,
    /// An EI executed: IME is set after the next instruction.
    ime_pending: bool,
}

impl View for Cpu {
    type V = CpuState;

    closed spec fn view(&self) -> CpuState {
        CpuState { regs: self.regs, halted: self.halted, ime: self.ime, ime_pending: self.ime_pending }
    }
}

impl Cpu {
    /// A CPU with the CGB post-boot register values, running, interrupts disabled.
    pub fn new() -> (r: Self)
        ensures r@ == (CpuState { regs: post_boot_regs(), halted: false, ime: false, ime_pending: false }),
    {
        Cpu { regs: Registers::new(), halted: false, ime: false, ime_pending: false }
    }

    /// Prepare to run a boot ROM: execution restarts at 0x0000, running, with
    /// interrupts disabled.
    pub fn reset_for_boot(&mut self)
        ensures
            final(self)@ == (CpuState { regs: Registers { pc: 0, ..old(self)@.regs }, halted: false, ime: false, ime_pending: false }),
    {
        self.regs.pc = 0;
        self.halted = false;
        self.ime = false;
        self.ime_pending = false;
    }

    /// The size of a saved CPU state.
    pub fn state_size(&self) -> (r: usize)
        ensures r == CPU_STATE_SIZE,
    {
        CPU_STATE_SIZE
    }

    /// Save the CPU state.
    pub fn save_state(&self) -> (r: Vec<u8>)
        ensures r@ == cpu_state_bytes(self@),
    {
        let r = &self.regs;
        let mut v: Vec<u8> = Vec::new();
        v.push(r.a); v.push(r.b); v.push(r.c); v.push(r.d);
        v.push(r.e); v.push(r.f); v.push(r.h); v.push(r.l);
        v.push((r.sp % 256) as u8); v.push((r.sp / 256) as u8);
        v.push((r.pc % 256) as u8); v.push((r.pc / 256) as u8);
        v.push(if self.halted { 1 } else { 0 });
        v.push(if self.ime { 1 } else { 0 });
        v.push(if self.ime_pending { 1 } else { 0 });
        assert(v@ =~= cpu_state_bytes(self@));
        v
    }

    /// Load a CPU state saved by `save_state`.
    pub fn load_state(&mut self, data: &[u8])
        requires data@.len() >= CPU_STATE_SIZE,
        ensures final(self)@ == cpu_restore(data@),
    {
        self.regs = Registers {
            a: data[0], b: data[1], c: data[2], d: data[3], e: data[4], f: data[5], h: data[6], l: data[7],
            sp: data[8] as u16 + (data[9] as u16) * 256,
            pc: data[10] as u16 + (data[11] as u16) * 256,
        };
        self.halted = data[12] != 0;
        self.ime = data[13] != 0;
        self.ime_pending = data[14] != 0;
    }

    /// The current register values.
    pub fn registers(&self) -> (r: Registers)
        ensures r == self@.regs,
    {
        self.regs
    }

    /// Load ROM data into the cartridge slot of the bus.
    pub fn load_rom(&mut self, data: &[u8], bus: &mut Bus)
        requires old(bus).wf(),
        ensures
            final(self)@ == old(self)@,
            final(bus).wf(),
            final(bus)@ == (crate::bus::BusView {
                cart: crate::cartridge::cart_new(data@),
                ppu: crate::ppu::PpuView { cgb_mode: crate::cartridge::cart_new(data@).cgb_mode, ..old(bus)@.ppu },
                ..old(bus)@
            }),
    {
        bus.load_rom(vstd::slice::slice_to_vec(data));
    }

    /// Fetch the byte at PC and advance PC.
    pub fn fetch(&mut self, bus: &mut Bus) -> (r: u8)
        requires old(bus).wf(),
        ensures
            final(bus)@ == old(bus)@,
            (machine(final(self)@, final(bus)@), r) == fetch(machine(old(self)@, old(bus)@)),
    {
        let opcode = bus.read(self.regs.pc);
        self.regs.pc = self.regs.pc.wrapping_add(1);
        opcode
    }

    /// Fetch a little-endian 16-bit value (two bytes, low first).
    pub fn fetch_u16(&mut self, bus: &mut Bus) -> (r: u16)
        requires old(bus).wf(),
        ensures
            final(bus)@ == old(bus)@,
            (machine(final(self)@, final(bus)@), r) == fetch_u16(machine(old(self)@, old(bus)@)),
    {
        let lo = self.fetch(bus);
        let hi = self.fetch(bus);
        (hi as u16) * 256 + lo as u16
    }

    /// 8-bit increment: the result wraps; Z, N=0 and H are set, C is kept.
    pub fn inc(&mut self, val: u8) -> (r: u8)
        ensures
            r == inc8(old(self)@.regs, val).0,
            final(self)@ == (CpuState { regs: inc8(old(self)@.regs, val).1, ..old(self)@ }),
    {
        proof { lemma_byte_ops(val); }
        let result = val.wrapping_add(1);
        let c = self.regs.get_c();
        self.regs.set_flags(result == 0, false, (val & 0x0F) == 0x0F, c);
        result
    }

    /// 8-bit decrement: the result wraps; Z, N=1 and H are set, C is kept.
    pub fn dec(&mut self, val: u8) -> (r: u8)
        ensures
            r == dec8(old(self)@.regs, val).0,
            final(self)@ == (CpuState { regs: dec8(old(self)@.regs, val).1, ..old(self)@ }),
    {
        proof { lemma_byte_ops(val); }
        let result = val.wrapping_sub(1);
        let c = self.regs.get_c();
        self.regs.set_flags(result == 0, true, (val & 0x0F) == 0x00, c);
        result
    }

    /// Rotate left circular: bit 7 goes to bit 0 and into the carry.
    pub fn rlc(&mut self, val: u8) -> (r: u8)
        ensures
            r == shift_op(old(self)@.regs, 0, val).0,
            final(self)@ == (CpuState { regs: shift_op(old(self)@.regs, 0, val).1, ..old(self)@ }),
    {
        proof { lemma_byte_ops(val); }
        let bit7 = val & 0x80;
        let result = (val << 1u8) | (bit7 >> 7u8);
        proof { lemma_shift_forms(val, 0); }
        self.regs.set_flags(result == 0, false, false, bit7 != 0);
        result
    }

    /// Rotate right circular: bit 0 goes to bit 7 and into the carry.
    pub fn rrc(&mut self, val: u8) -> (r: u8)
        ensures
            r == shift_op(old(self)@.regs, 1, val).0,
            final(self)@ == (CpuState { regs: shift_op(old(self)@.regs, 1, val).1, ..old(self)@ }),
    {
        proof { lemma_byte_ops(val); }
        let bit0 = val & 0x01;
        let result = (val >> 1u8) | (bit0 << 7u8);
        proof { lemma_shift_forms(val, 0); }
        self.regs.set_flags(result == 0, false, false, bit0 != 0);
        result
    }

    /// Rotate left through the carry.
    pub fn rl(&mut self, val: u8) -> (r: u8)
        ensures
            r == shift_op(old(self)@.regs, 2, val).0,
            final(self)@ == (CpuState { regs: shift_op(old(self)@.regs, 2, val).1, ..old(self)@ }),
    {
        proof { lemma_byte_ops(val); }
        let old_carry: u8 = if self.regs.get_c() { 1 } else { 0 };
        let result = (val << 1u8) | old_carry;
        proof { lemma_shift_forms(val, old_carry); }
        self.regs.set_flags(result == 0, false, false, (val & 0x80) != 0);
        result
    }

    /// Rotate right through the carry.
    pub fn rr(&mut self, val: u8) -> (r: u8)
        ensures
            r == shift_op(old(self)@.regs, 3, val).0,
            final(self)@ == (CpuState { regs: shift_op(old(self)@.regs, 3, val).1, ..old(self)@ }),
    {
        proof { lemma_byte_ops(val); }
        let old_carry: u8 = if self.regs.get_c() { 1 } else { 0 };
        let result = (val >> 1u8) | (old_carry << 7u8);
        proof { lemma_shift_forms(val, old_carry); }
        self.regs.set_flags(result == 0, false, false, (val & 0x01) != 0);
        result
    }

    /// Decimal Adjust Accumulator: Z and C follow the result, H is cleared.
    #[verifier::rlimit(40)]
    pub fn daa(&mut self)
        ensures final(self)@ == (CpuState { regs: daa(old(self)@.regs), ..old(self)@ }),
    {
        let a = self.regs.a;
        proof { lemma_byte_ops(a); }
        let n = self.regs.get_n();
        let h = self.regs.get_h();
        let c = self.regs.get_c();
        let mut adjust: u8 = 0;
        let mut carry = false;
        if n {
            if h { adjust = adjust + 0x06; }
            if c { adjust = adjust + 0x60; carry = true; }
            self.regs.a = a.wrapping_sub(adjust);
        } else {
            if h || (a & 0x0F) > 0x09 { adjust = adjust + 0x06; }
            if c || a > 0x99 { adjust = adjust + 0x60; carry = true; }
            self.regs.a = a.wrapping_add(adjust);
        }
        let z = self.regs.a == 0;
        self.regs.set_flags(z, n, false, carry);
    }

    /// Complement A; N and H are set.
    pub fn cpl(&mut self)
        ensures final(self)@ == (CpuState { regs: cpl(old(self)@.regs), ..old(self)@ }),
    {
        proof { lemma_byte_ops(self.regs.a); }
        self.regs.a = !self.regs.a;
        let z = self.regs.get_z();
        let c = self.regs.get_c();
        self.regs.set_flags(z, true, true, c);
    }

    /// Set the carry flag; N and H are cleared.
    pub fn scf(&mut self)
        ensures final(self)@ == (CpuState { regs: scf(old(self)@.regs), ..old(self)@ }),
    {
        let z = self.regs.get_z();
        self.regs.set_flags(z, false, false, true);
    }

    /// Complement the carry flag; N and H are cleared.
    pub fn ccf(&mut self)
        ensures final(self)@ == (CpuState { regs: ccf(old(self)@.regs), ..old(self)@ }),
    {
        let z = self.regs.get_z();
        let c = self.regs.get_c();
        self.regs.set_flags(z, false, false, !c);
    }

    /// 8-bit add to A.
    pub fn add(&mut self, val: u8)
        ensures final(self)@ == (CpuState { regs: alu(old(self)@.regs, 0, val), ..old(self)@ }),
    {
        let a = self.regs.a;
        proof { lemma_byte_ops(a); lemma_byte_ops(val); }
        let sum: u16 = a as u16 + val as u16;
        let result = (sum % 256) as u8;
        self.regs.set_flags(result == 0, false, (a & 0x0F) + (val & 0x0F) > 0x0F, sum > 0xFF);
        self.regs.a = result;
    }

    /// 8-bit add with carry to A.
    pub fn adc(&mut self, val: u8)
        ensures final(self)@ == (CpuState { regs: alu(old(self)@.regs, 1, val), ..old(self)@ }),
    {
        let a = self.regs.a;
        proof { lemma_byte_ops(a); lemma_byte_ops(val); }
        let c: u8 = if self.regs.get_c() { 1 } else { 0 };
        let sum: u16 = a as u16 + val as u16 + c as u16;
        let result = (sum % 256) as u8;
        self.regs.set_flags(result == 0, false, (a & 0x0F) + (val & 0x0F) + c > 0x0F,
            (a as u16) + (val as u16) + (c as u16) > 0xFF);
        self.regs.a = result;
    }

    /// 8-bit subtract from A.
    pub fn sub(&mut self, val: u8)
        ensures final(self)@ == (CpuState { regs: alu(old(self)@.regs, 2, val), ..old(self)@ }),
    {
        let a = self.regs.a;
        proof { lemma_byte_ops(a); lemma_byte_ops(val); }
        let diff: u16 = (a as u16 + 256) - val as u16;
        let result = (diff % 256) as u8;
        self.regs.set_flags(result == 0, true, (val & 0x0F) > (a & 0x0F), val > a);
        self.regs.a = result;
    }

    /// 8-bit subtract with carry from A.
    pub fn sbc(&mut self, val: u8)
        ensures final(self)@ == (CpuState { regs: alu(old(self)@.regs, 3, val), ..old(self)@ }),
    {
        let a = self.regs.a;
        proof { lemma_byte_ops(a); lemma_byte_ops(val); }
        let c: u8 = if self.regs.get_c() { 1 } else { 0 };
        let diff: u16 = (a as u16 + 512) - val as u16 - c as u16;
        let result = (diff % 256) as u8;
        self.regs.set_flags(result == 0, true, (val & 0x0F) + c > (a & 0x0F), (val as u16) + (c as u16) > (a as u16));
        self.regs.a = result;
    }

    /// Bitwise AND with A.
    pub fn and(&mut self, val: u8)
        ensures final(self)@ == (CpuState { regs: alu(old(self)@.regs, 4, val), ..old(self)@ }),
    {
        let result = self.regs.a & val;
        self.regs.set_flags(result == 0, false, true, false);
        self.regs.a = result;
    }

    /// Bitwise XOR with A.
    pub fn xor(&mut self, val: u8)
        ensures final(self)@ == (CpuState { regs: alu(old(self)@.regs, 5, val), ..old(self)@ }),
    {
        let result = self.regs.a ^ val;
        self.regs.set_flags(result == 0, false, false, false);
        self.regs.a = result;
    }

    /// Bitwise OR with A.
    pub fn or(&mut self, val: u8)
        ensures final(self)@ == (CpuState { regs: alu(old(self)@.regs, 6, val), ..old(self)@ }),
    {
        let result = self.regs.a | val;
        self.regs.set_flags(result == 0, false, false, false);
        self.regs.a = result;
    }

    /// Compare A with `val`: the flags of SUB, A unchanged.
    pub fn cp(&mut self, val: u8)
        ensures final(self)@ == (CpuState { regs: alu(old(self)@.regs, 7, val), ..old(self)@ }),
    {
        let a = self.regs.a;
        proof { lemma_byte_ops(a); lemma_byte_ops(val); }
        let diff: u16 = (a as u16 + 256) - val as u16;
        let result = (diff % 256) as u8;
        self.regs.set_flags(result == 0, true, (val & 0x0F) > (a & 0x0F), val > a);
    }

    /// 16-bit add to HL.
    pub fn add_hl(&mut self, val: u16)
        ensures final(self)@ == (CpuState { regs: add_hl(old(self)@.regs, val), ..old(self)@ }),
    {
        let hl = self.regs.hl();
        let result = hl.wrapping_add(val);
        let z = self.regs.get_z();
        proof { lemma_low12(hl); lemma_low12(val); }
        self.regs.set_hl(result);
        self.regs.set_flags(z, false, (hl & 0x0FFF) + (val & 0x0FFF) > 0x0FFF, (hl as u32) + (val as u32) > 0xFFFF);
    }

    /// Enable interrupts: IME is set after the next instruction.
    pub fn ei(&mut self)
        ensures final(self)@ == (CpuState { ime_pending: true, ..old(self)@ }),
    {
        self.ime_pending = true;
    }

    /// Disable interrupts: clear IME and cancel a waiting EI.
    pub fn di(&mut self)
        ensures final(self)@ == (CpuState { ime: false, ime_pending: false, ..old(self)@ }),
    {
        self.ime = false;
        self.ime_pending = false;
    }

    /// Jump to the address in HL.
    pub fn jp_hl(&mut self)
        ensures final(self)@ == (CpuState { regs: Registers { pc: old(self)@.regs.spec_hl(), ..old(self)@.regs }, ..old(self)@ }),
    {
        self.regs.pc = self.regs.hl();
    }
}

impl Cpu {
    /// Push a 16-bit value onto the stack (high byte first).
    pub fn push(&mut self, val: u16, bus: &mut Bus)
        requires old(bus).wf(),
        ensures
            final(bus).wf(),
            exists|t1: u64, t2: u64| machine(final(self)@, final(bus)@) == #[trigger] push(machine(old(self)@, old(bus)@), val, t1, t2),
    {
        let Ghost(t) = self.push_timed(val, bus);
    }

    /// `push` with the clock readings of its two writes as the ghost result.
    pub(crate) fn push_timed(&mut self, val: u16, bus: &mut Bus) -> (t: Ghost<(u64, u64)>)
        requires old(bus).wf(),
        ensures
            final(bus).wf(),
            machine(final(self)@, final(bus)@) == push(machine(old(self)@, old(bus)@), val, t@.0, t@.1),
    {
        self.regs.sp = self.regs.sp.wrapping_sub(1);
        let t1 = bus.write_timed(self.regs.sp, (val / 256) as u8);
        self.regs.sp = self.regs.sp.wrapping_sub(1);
        let t2 = bus.write_timed(self.regs.sp, (val % 256) as u8);
        Ghost((t1@, t2@))
    }

    /// Pop a 16-bit value from the stack (low byte first).
    pub fn pop(&mut self, bus: &mut Bus) -> (r: u16)
        requires old(bus).wf(),
        ensures
            final(bus)@ == old(bus)@,
            (machine(final(self)@, final(bus)@), r) == pop(machine(old(self)@, old(bus)@)),
    {
        let lo = bus.read(self.regs.sp) as u16;
        self.regs.sp = self.regs.sp.wrapping_add(1);
        let hi = bus.read(self.regs.sp) as u16;
        self.regs.sp = self.regs.sp.wrapping_add(1);
        hi * 256 + lo
    }

    /// Relative jump: fetch a signed offset and add it to PC if `condition` holds.
    pub fn jr(&mut self, condition: bool, bus: &mut Bus) -> (r: bool)
        requires old(bus).wf(),
        ensures
            r == condition,
            final(bus)@ == old(bus)@,
            machine(final(self)@, final(bus)@) == jr(machine(old(self)@, old(bus)@), condition),
    {
        let e = self.fetch(bus);
        let offset: u16 = if e < 128 { e as u16 } else { e as u16 + 0xFF00 };
        if condition {
            self.regs.pc = self.regs.pc.wrapping_add(offset);
        }
        condition
    }

    /// Absolute jump to a fetched address if `condition` holds.
    pub fn jp(&mut self, condition: bool, bus: &mut Bus) -> (r: bool)
        requires old(bus).wf(),
        ensures
            r == condition,
            final(bus)@ == old(bus)@,
            machine(final(self)@, final(bus)@) == jp(machine(old(self)@, old(bus)@), condition),
    {
        let addr = self.fetch_u16(bus);
        if condition {
            self.regs.pc = addr;
        }
        condition
    }

    /// Call: fetch an address; if `condition` holds, push PC and jump there.
    pub fn call(&mut self, condition: bool, bus: &mut Bus) -> (r: bool)
        requires old(bus).wf(),
        ensures
            r == condition,
            final(bus).wf(),
            exists|t1: u64, t2: u64| machine(final(self)@, final(bus)@) == #[trigger] call(machine(old(self)@, old(bus)@), condition, t1, t2),
    {
        let Ghost(t) = self.call_timed(condition, bus);
        condition
    }

    /// `call` with the clock readings of its writes as the ghost result.
    pub(crate) fn call_timed(&mut self, condition: bool, bus: &mut Bus) -> (t: Ghost<(u64, u64)>)
        requires old(bus).wf(),
        ensures
            final(bus).wf(),
            machine(final(self)@, final(bus)@) == call(machine(old(self)@, old(bus)@), condition, t@.0, t@.1),
    {
        let addr = self.fetch_u16(bus);
        if condition {
            let pc = self.regs.pc;
            let t = self.push_timed(pc, bus);
            self.regs.pc = addr;
            t
        } else {
            Ghost((0, 0))
        }
    }

    /// Return: pop PC if `condition` holds.
    pub fn ret(&mut self, condition: bool, bus: &mut Bus) -> (r: bool)
        requires old(bus).wf(),
        ensures
            r == condition,
            final(bus)@ == old(bus)@,
            machine(final(self)@, final(bus)@) == ret(machine(old(self)@, old(bus)@), condition),
    {
        if condition {
            self.regs.pc = self.pop(bus);
        }
        condition
    }

    /// Return from an interrupt handler: enable IME and pop PC.
    pub fn reti(&mut self, bus: &mut Bus)
        requires old(bus).wf(),
        ensures
            final(bus)@ == old(bus)@,
            machine(final(self)@, final(bus)@) == ret(machine(CpuState { ime: true, ..old(self)@ }, old(bus)@), true),
    {
        self.ime = true;
        self.ret(true, bus);
    }

    /// Restart: push PC and jump to the fixed address `addr`.
    pub fn rst(&mut self, addr: u16, bus: &mut Bus)
        requires old(bus).wf(),
        ensures
            final(bus).wf(),
            exists|t1: u64, t2: u64| machine(final(self)@, final(bus)@) == #[trigger] rst(machine(old(self)@, old(bus)@), addr, t1, t2),
    {
        let Ghost(t) = self.rst_timed(addr, bus);
    }

    /// `rst` with the clock readings of its writes as the ghost result.
    pub(crate) fn rst_timed(&mut self, addr: u16, bus: &mut Bus) -> (t: Ghost<(u64, u64)>)
        requires old(bus).wf(),
        ensures
            final(bus).wf(),
            machine(final(self)@, final(bus)@) == rst(machine(old(self)@, old(bus)@), addr, t@.0, t@.1),
    {
        let pc = self.regs.pc;
        let t = self.push_timed(pc, bus);
        self.regs.pc = addr;
        t
    }

    /// SP plus a signed offset, with the flags of ADD SP, e8 and LD HL, SP+e8.
    fn sp_plus_offset(&mut self, bus: &mut Bus) -> (r: u16)
        requires old(bus).wf(),
        ensures
            final(bus)@ == old(bus)@,
            ({
                let (m1, e) = fetch(machine(old(self)@, old(bus)@));
                let (v, r1) = sp_offset(m1.cpu.regs, e);
                r == v && machine(final(self)@, final(bus)@) == with_regs(m1, r1)
            }),
    {
        let sp = self.regs.sp;
        let e = self.fetch(bus);
        let offset: u16 = if e < 128 { e as u16 } else { e as u16 + 0xFF00 };
        let result = sp.wrapping_add(offset);
        let h = (sp % 16) + (e as u16 % 16) > 0x0F;
        let c = (sp % 256) + (e as u16) > 0xFF;
        self.regs.set_flags(false, false, h, c);
        result
    }

    /// ADD SP, e8: add a fetched signed offset to SP.
    pub fn add_sp_e8(&mut self, bus: &mut Bus)
        requires old(bus).wf(),
        ensures
            final(bus)@ == old(bus)@,
            machine(final(self)@, final(bus)@) == add_sp_e8(machine(old(self)@, old(bus)@)),
    {
        let result = self.sp_plus_offset(bus);
        self.regs.sp = result;
    }

    /// LD HL, SP+e8: load SP plus a fetched signed offset into HL.
    pub fn ld_hl_sp_e8(&mut self, bus: &mut Bus)
        requires old(bus).wf(),
        ensures
            final(bus)@ == old(bus)@,
            machine(final(self)@, final(bus)@) == ld_hl_sp_e8(machine(old(self)@, old(bus)@)),
    {
        let result = self.sp_plus_offset(bus);
        self.regs.set_hl(result);
    }

    /// The 8-bit operand with index `i`: B, C, D, E, H, L, [HL], A.
    pub(crate) fn read_operand(&self, bus: &Bus, i: u8) -> (v: u8)
        requires bus.wf(),
        ensures v == read_r8(machine(self@, bus@), i),
    {
        match i {
            0 => self.regs.b,
            1 => self.regs.c,
            2 => self.regs.d,
            3 => self.regs.e,
            4 => self.regs.h,
            5 => self.regs.l,
            6 => bus.read(self.regs.hl()),
            _ => self.regs.a,
        }
    }

    /// Store `v` in the 8-bit operand with index `i`.
    pub(crate) fn write_operand(&mut self, bus: &mut Bus, i: u8, v: u8) -> (t: Ghost<u64>)
        requires old(bus).wf(),
        ensures
            final(bus).wf(),
            machine(final(self)@, final(bus)@) == write_r8(machine(old(self)@, old(bus)@), i, v, t@),
    {
        match i {
            0 => { self.regs.b = v; Ghost(0) }
            1 => { self.regs.c = v; Ghost(0) }
            2 => { self.regs.d = v; Ghost(0) }
            3 => { self.regs.e = v; Ghost(0) }
            4 => { self.regs.h = v; Ghost(0) }
            5 => { self.regs.l = v; Ghost(0) }
            6 => bus.write_timed(self.regs.hl(), v),
            _ => { self.regs.a = v; Ghost(0) }
        }
    }

    /// The register pair `i` of the load group: BC, DE, HL, SP.
    fn read_rp(&self, i: u8) -> (v: u16)
        ensures v == read_rp(self@.regs, i),
    {
        match i {
            0 => self.regs.bc(),
            1 => self.regs.de(),
            2 => self.regs.hl(),
            _ => self.regs.sp,
        }
    }

    /// Set the register pair `i` of the load group.
    fn write_rp(&mut self, i: u8, v: u16)
        ensures final(self)@ == (CpuState { regs: write_rp(old(self)@.regs, i, v), ..old(self)@ }),
    {
        match i {
            0 => self.regs.set_bc(v),
            1 => self.regs.set_de(v),
            2 => self.regs.set_hl(v),
            _ => self.regs.sp = v,
        }
    }

    /// The register pair `i` of the stack group: BC, DE, HL, AF.
    fn read_rp2(&self, i: u8) -> (v: u16)
        ensures v == read_rp2(self@.regs, i),
    {
        match i {
            0 => self.regs.bc(),
            1 => self.regs.de(),
            2 => self.regs.hl(),
            _ => self.regs.af(),
        }
    }

    /// Set the register pair `i` of the stack group.
    fn write_rp2(&mut self, i: u8, v: u16)
        ensures final(self)@ == (CpuState { regs: write_rp2(old(self)@.regs, i, v), ..old(self)@ }),
    {
        match i {
            0 => self.regs.set_bc(v),
            1 => self.regs.set_de(v),
            2 => self.regs.set_hl(v),
            _ => self.regs.set_af(v),
        }
    }

    /// The branch condition `k`: NZ, Z, NC, C.
    fn condition(&self, k: u8) -> (c: bool)
        ensures c == condition(self@.regs, k),
    {
        match k {
            0 => !self.regs.get_z(),
            1 => self.regs.get_z(),
            2 => !self.regs.get_c(),
            _ => self.regs.get_c(),
        }
    }

    /// The ALU operation `kind` (ADD, ADC, SUB, SBC, AND, XOR, OR, CP) on A and `v`.
    fn alu_op(&mut self, kind: u8, v: u8)
        ensures final(self)@ == (CpuState { regs: alu(old(self)@.regs, kind, v), ..old(self)@ }),
    {
        match kind {
            0 => self.add(v),
            1 => self.adc(v),
            2 => self.sub(v),
            3 => self.sbc(v),
            4 => self.and(v),
            5 => self.xor(v),
            6 => self.or(v),
            _ => {
                if kind == 7 { self.cp(v) } else { self.or(v) }
            }
        }
    }
}

impl Cpu {
    /// Execute an opcode of 0x00-0x3F; returns whether a conditional branch was
    /// taken and, as ghost, the clock readings of the writes.
    fn exec_block0(&mut self, bus: &mut Bus, op: u8) -> (r: (bool, Ghost<(u64, u64)>))
        requires old(bus).wf(), op < 0x40,
        ensures
            final(bus).wf(),
            (machine(final(self)@, final(bus)@), r.0) == exec_block0(machine(old(self)@, old(bus)@), op, r.1@.0, r.1@.1),
    {
        let y = (op / 8) % 8;
        let z = op % 8;
        if z == 0 {
            self.block0_jumps(bus, y)
        } else if z == 1 {
            self.block0_wide(bus, y);
            (false, Ghost((0, 0)))
        } else if z == 2 {
            self.block0_indirect(bus, y)
        } else if z == 3 {
            self.block0_step16(y);
            (false, Ghost((0, 0)))
        } else if z == 4 || z == 5 || z == 6 {
            let t = self.block0_byte(bus, y, z);
            (false, Ghost((t@, 0)))
        } else {
            self.block0_accumulator(y);
            (false, Ghost((0, 0)))
        }
    }

    /// Column 1 of 0x00-0x3F: 16-bit immediate loads and ADD HL, rr.
    fn block0_wide(&mut self, bus: &mut Bus, y: u8)
        requires old(bus).wf(), y < 8,
        ensures
            final(bus)@ == old(bus)@,
            machine(final(self)@, final(bus)@) == block0_wide(machine(old(self)@, old(bus)@), y),
    {
        if y % 2 == 0 {
            let v = self.fetch_u16(bus);
            self.write_rp(y / 2, v);
        } else {
            let v = self.read_rp(y / 2);
            self.add_hl(v);
        }
    }

    /// Column 3 of 0x00-0x3F: 16-bit increment and decrement.
    fn block0_step16(&mut self, y: u8)
        requires y < 8,
        ensures final(self)@ == (CpuState { regs: block0_step16(old(self)@.regs, y), ..old(self)@ }),
    {
        let v = self.read_rp(y / 2);
        if y % 2 == 0 {
            self.write_rp(y / 2, v.wrapping_add(1));
        } else {
            self.write_rp(y / 2, v.wrapping_sub(1));
        }
    }

    /// Columns 4-6 of 0x00-0x3F: INC r, DEC r, LD r, n8.
    fn block0_byte(&mut self, bus: &mut Bus, y: u8, z: u8) -> (t: Ghost<u64>)
        requires old(bus).wf(), y < 8, 4 <= z <= 6,
        ensures
            final(bus).wf(),
            machine(final(self)@, final(bus)@) == block0_byte(machine(old(self)@, old(bus)@), y, z, t@),
    {
        if z == 4 {
            let v = self.read_operand(bus, y);
            let res = self.inc(v);
            self.write_operand(bus, y, res)
        } else if z == 5 {
            let v = self.read_operand(bus, y);
            let res = self.dec(v);
            self.write_operand(bus, y, res)
        } else {
            let n = self.fetch(bus);
            self.write_operand(bus, y, n)
        }
    }

    /// Column 0 of 0x00-0x3F: NOP, LD [a16], SP, STOP and the relative jumps.
    fn block0_jumps(&mut self, bus: &mut Bus, y: u8) -> (r: (bool, Ghost<(u64, u64)>))
        requires old(bus).wf(), y < 8,
        ensures
            final(bus).wf(),
            (machine(final(self)@, final(bus)@), r.0) == block0_jumps(machine(old(self)@, old(bus)@), y, r.1@.0, r.1@.1),
    {
        if y == 0 {
            (false, Ghost((0, 0)))
        } else if y == 1 {
            let addr = self.fetch_u16(bus);
            let t = bus.write_u16_timed(addr, self.regs.sp);
            (false, t)
        } else if y == 2 {
            self.fetch(bus);
            bus.switch_speed();
            (false, Ghost((0, 0)))
        } else if y == 3 {
            self.jr(true, bus);
            (false, Ghost((0, 0)))
        } else {
            let c = self.condition(y - 4);
            let b = self.jr(c, bus);
            (b, Ghost((0, 0)))
        }
    }

    /// Column 2 of 0x00-0x3F: loads between A and the byte at BC, DE or HL
    /// (with HL incremented or decremented after use).
    #[verifier::rlimit(40)]
    fn block0_indirect(&mut self, bus: &mut Bus, y: u8) -> (r: (bool, Ghost<(u64, u64)>))
        requires old(bus).wf(), y < 8,
        ensures
            final(bus).wf(),
            !r.0, machine(final(self)@, final(bus)@) == block0_indirect(machine(old(self)@, old(bus)@), y, r.1@.0),
    {
        let addr = if y / 2 == 0 { self.regs.bc() } else if y / 2 == 1 { self.regs.de() } else { self.regs.hl() };
        let mut t: Ghost<u64> = Ghost(0);
        if y % 2 == 0 {
            t = bus.write_timed(addr, self.regs.a);
        } else {
            self.regs.a = bus.read(addr);
        }
        if y / 2 == 2 {
            self.regs.set_hl(addr.wrapping_add(1));
        } else if y / 2 == 3 {
            self.regs.set_hl(addr.wrapping_sub(1));
        }
        (false, Ghost((t@, 0)))
    }

    /// Column 7 of 0x00-0x3F: the rotates of A, DAA, CPL, SCF and CCF.
    fn block0_accumulator(&mut self, y: u8)
        requires y < 8,
        ensures
            final(self)@ == (CpuState { regs: block0_accumulator(old(self)@.regs, y), ..old(self)@ }),
    {
        if y < 4 {
            let a = self.regs.a;
            let v = if y == 0 { self.rlc(a) } else if y == 1 { self.rrc(a) } else if y == 2 { self.rl(a) } else { self.rr(a) };
            self.regs.a = v;
            let c = self.regs.get_c();
            self.regs.set_flags(false, false, false, c);
        } else if y == 4 {
            self.daa();
        } else if y == 5 {
            self.cpl();
        } else if y == 6 {
            self.scf();
        } else {
            self.ccf();
        }
    }
}

impl Cpu {
    /// Execute an opcode of 0x40-0x7F: a load between 8-bit operands, or HALT.
    fn exec_block1(&mut self, bus: &mut Bus, op: u8) -> (t: Ghost<u64>)
        requires old(bus).wf(), 0x40 <= op < 0x80,
        ensures
            final(bus).wf(),
            machine(final(self)@, final(bus)@) == exec_block1(machine(old(self)@, old(bus)@), op, t@),
    {
        if op == 0x76 {
            self.halted = true;
            Ghost(0)
        } else {
            let v = self.read_operand(bus, op % 8);
            self.write_operand(bus, (op / 8) % 8, v)
        }
    }

    /// Execute an opcode of 0x80-0xBF: an ALU operation on A and an 8-bit operand.
    fn exec_block2(&mut self, bus: &mut Bus, op: u8)
        requires old(bus).wf(), 0x80 <= op < 0xC0,
        ensures
            final(bus)@ == old(bus)@,
            machine(final(self)@, final(bus)@) == exec_block2(machine(old(self)@, old(bus)@), op),
    {
        let v = self.read_operand(bus, op % 8);
        self.alu_op((op / 8) % 8, v);
    }

    /// Execute an opcode of 0xC0-0xFF other than 0xCB and the undefined ones.
    #[verifier::rlimit(40)]
    fn exec_block3(&mut self, bus: &mut Bus, op: u8) -> (r: (bool, Ghost<(u64, u64)>))
        requires old(bus).wf(), 0xC0 <= op, op != 0xCB, !is_illegal(op),
        ensures
            final(bus).wf(),
            (machine(final(self)@, final(bus)@), r.0) == exec_block3(machine(old(self)@, old(bus)@), op, r.1@.0, r.1@.1),
    {
        let y = (op / 8) % 8;
        let z = op % 8;
        if z == 0 {
            self.block3_col0(bus, y)
        } else if z == 1 {
            self.block3_col1(bus, y);
            (false, Ghost((0, 0)))
        } else if z == 2 {
            self.block3_col2(bus, y)
        } else if z == 3 {
            if y == 0 {
                self.jp(true, bus);
            } else if y == 6 {
                self.di();
            } else {
                self.ei();
            }
            (false, Ghost((0, 0)))
        } else if z == 4 {
            let c = self.condition(y);
            let t = self.call_timed(c, bus);
            (c, t)
        } else if z == 5 {
            if y % 2 == 0 {
                let v = self.read_rp2(y / 2);
                let t = self.push_timed(v, bus);
                (false, t)
            } else {
                let t = self.call_timed(true, bus);
                (false, t)
            }
        } else if z == 6 {
            let n = self.fetch(bus);
            self.alu_op(y, n);
            (false, Ghost((0, 0)))
        } else {
            let t = self.rst_timed((y as u16) * 8, bus);
            (false, t)
        }
    }

    /// Column 0 of 0xC0-0xFF.
    fn block3_col0(&mut self, bus: &mut Bus, y: u8) -> (r: (bool, Ghost<(u64, u64)>))
        requires old(bus).wf(), y < 8,
        ensures
            final(bus).wf(),
            (machine(final(self)@, final(bus)@), r.0) == block3_col0(machine(old(self)@, old(bus)@), y, r.1@.0),
    {
        if y < 4 {
            let c = self.condition(y);
            let b = self.ret(c, bus);
            (b, Ghost((0, 0)))
        } else if y == 4 {
            let a8 = self.fetch(bus);
            let t = bus.write_timed(0xFF00 + a8 as u16, self.regs.a);
            (false, Ghost((t@, 0)))
        } else if y == 5 {
            self.add_sp_e8(bus);
            (false, Ghost((0, 0)))
        } else if y == 6 {
            let a8 = self.fetch(bus);
            self.regs.a = bus.read(0xFF00 + a8 as u16);
            (false, Ghost((0, 0)))
        } else {
            self.ld_hl_sp_e8(bus);
            (false, Ghost((0, 0)))
        }
    }

    /// Column 1 of 0xC0-0xFF.
    fn block3_col1(&mut self, bus: &mut Bus, y: u8)
        requires old(bus).wf(), y < 8,
        ensures
            final(bus)@ == old(bus)@,
            machine(final(self)@, final(bus)@) == block3_col1(machine(old(self)@, old(bus)@), y),
    {
        if y % 2 == 0 {
            let v = self.pop(bus);
            self.write_rp2(y / 2, v);
        } else if y == 1 {
            self.ret(true, bus);
        } else if y == 3 {
            self.reti(bus);
        } else if y == 5 {
            self.jp_hl();
        } else {
            self.regs.sp = self.regs.hl();
        }
    }

    /// Column 2 of 0xC0-0xFF.
    fn block3_col2(&mut self, bus: &mut Bus, y: u8) -> (r: (bool, Ghost<(u64, u64)>))
        requires old(bus).wf(), y < 8,
        ensures
            final(bus).wf(),
            (machine(final(self)@, final(bus)@), r.0) == block3_col2(machine(old(self)@, old(bus)@), y, r.1@.0),
    {
        if y < 4 {
            let c = self.condition(y);
            let b = self.jp(c, bus);
            (b, Ghost((0, 0)))
        } else if y == 4 {
            let t = bus.write_timed(0xFF00 + self.regs.c as u16, self.regs.a);
            (false, Ghost((t@, 0)))
        } else if y == 5 {
            let a = self.regs.a;
            let addr = self.fetch_u16(bus);
            let t = bus.write_timed(addr, a);
            (false, Ghost((t@, 0)))
        } else if y == 6 {
            self.regs.a = bus.read(0xFF00 + self.regs.c as u16);
            (false, Ghost((0, 0)))
        } else {
            let addr = self.fetch_u16(bus);
            self.regs.a = bus.read(addr);
            (false, Ghost((0, 0)))
        }
    }
}

impl Cpu {
    /// The T-cycles of opcode `opcode`; `branched` selects the timing of a
    /// taken conditional branch.
    pub fn cycles(opcode: u8, branched: bool) -> (r: u8)
        ensures r == op_cycles(opcode, branched),
    {
        let x = opcode / 64;
        let y = (opcode / 8) % 8;
        let z = opcode % 8;
        if branched {
            if x == 0 { 12 } else if z == 0 { 20 } else if z == 2 { 16 } else { 24 }
        } else if x == 0 {
            if z == 0 {
                if y == 0 || y == 2 { 4 } else if y == 1 { 20 } else if y == 3 { 12 } else { 8 }
            } else if z == 1 {
                if y % 2 == 0 { 12 } else { 8 }
            } else if z == 2 || z == 3 {
                8
            } else if z == 4 || z == 5 {
                if y == 6 { 12 } else { 4 }
            } else if z == 6 {
                if y == 6 { 12 } else { 8 }
            } else {
                4
            }
        } else if x == 1 {
            if opcode == 0x76 { 4 } else if y == 6 || z == 6 { 8 } else { 4 }
        } else if x == 2 {
            if z == 6 { 8 } else { 4 }
        } else if z == 0 {
            if y < 4 { 8 } else if y == 5 { 16 } else { 12 }
        } else if z == 1 {
            if y % 2 == 0 { 12 } else if y == 1 || y == 3 { 16 } else if y == 5 { 4 } else { 8 }
        } else if z == 2 {
            if y < 4 { 12 } else if y == 4 || y == 6 { 8 } else { 16 }
        } else if z == 3 {
            if y == 0 { 16 } else if y == 1 || y == 6 || y == 7 { 4 } else { 0 }
        } else if z == 4 {
            if y < 4 { 12 } else { 0 }
        } else if z == 5 {
            if y % 2 == 0 { 16 } else if y == 1 { 24 } else { 0 }
        } else if z == 6 {
            8
        } else {
            16
        }
    }

    /// Execute the fetched (non-CB, defined) opcode `op`; returns whether a
    /// conditional branch was taken.
    fn exec_op(&mut self, bus: &mut Bus, op: u8) -> (r: (bool, Ghost<(u64, u64)>))
        requires old(bus).wf(), op != 0xCB, !is_illegal(op),
        ensures
            final(bus).wf(),
            (machine(final(self)@, final(bus)@), r.0) == exec_op(machine(old(self)@, old(bus)@), op, r.1@.0, r.1@.1),
    {
        reveal(exec_op);
        if op < 0x40 {
            self.exec_block0(bus, op)
        } else if op < 0x80 {
            let t = self.exec_block1(bus, op);
            (false, Ghost((t@, 0)))
        } else if op < 0xC0 {
            self.exec_block2(bus, op);
            (false, Ghost((0, 0)))
        } else {
            self.exec_block3(bus, op)
        }
    }

    /// Whether the CPU is (still) halted; a pending interrupt wakes it up.
    fn is_halt(&mut self, bus: &Bus) -> (r: bool)
        ensures
            r == (old(self)@.halted && bus@.pending() is None),
            final(self)@ == (if r { old(self)@ } else { CpuState { halted: false, ..old(self)@ } }),
    {
        if !self.halted {
            return false;
        }
        if bus.pending_interrupt().is_some() {
            self.halted = false;
            return false;
        }
        true
    }

    /// Dispatch a pending interrupt if IME is set: clear IME, acknowledge the
    /// IF bit, push PC and jump to the interrupt vector. Returns whether an
    /// interrupt was dispatched.
    fn is_interrupt(&mut self, bus: &mut Bus) -> (r: (bool, Ghost<(u64, u64)>))
        requires old(bus).wf(),
        ensures
            final(bus).wf(),
            r.0 == (old(self)@.ime && old(bus)@.pending() is Some),
            r.0 ==> machine(final(self)@, final(bus)@) == dispatch(machine(old(self)@, old(bus)@), old(bus)@.pending()->0, r.1@.0, r.1@.1),
            !r.0 ==> final(self)@ == old(self)@ && final(bus)@ == old(bus)@,
    {
        let interrupt = bus.pending_interrupt();
        if self.ime && interrupt.is_some() {
            let bit = interrupt.unwrap();
            self.ime = false;
            self.ime_pending = false;
            bus.clear_interrupt(bit);
            let pc = self.regs.pc;
            let t = self.push_timed(pc, bus);
            self.regs.pc = 0x40 + (bit as u16) * 8;
            return (true, t);
        }
        (false, Ghost((0, 0)))
    }

    /// Whether the next step would run into an undefined opcode.
    pub fn faults(&self, bus: &Bus) -> (r: bool)
        requires bus.wf(),
        ensures r == faults(machine(self@, bus@)),
    {
        let p = bus.pending_interrupt();
        if self.halted && p.is_none() {
            return false;
        }
        if self.ime && p.is_some() {
            return false;
        }
        let op = bus.read(self.regs.pc);
        op == 0xD3 || op == 0xDB || op == 0xDD || op == 0xE3 || op == 0xE4 || op == 0xEB
            || op == 0xEC || op == 0xED || op == 0xF4 || op == 0xFC || op == 0xFD
    }

    /// Fetch and execute the instruction at PC; returns the T-cycles taken.
    fn fetch_execute(&mut self, bus: &mut Bus) -> (r: (u8, Ghost<(u64, u64)>))
        requires old(bus).wf(), !is_illegal(old(bus)@.read(old(self)@.regs.pc)),
        ensures
            final(bus).wf(),
            (machine(final(self)@, final(bus)@), r.0) == fetch_execute(machine(old(self)@, old(bus)@), r.1@.0, r.1@.1),
    {
        let opcode = self.fetch(bus);
        if opcode == 0xCB {
            let (c, t1) = self.step_cb_timed(bus);
            (c, Ghost((t1@, 0)))
        } else {
            let (branched, t) = self.exec_op(bus, opcode);
            (Self::cycles(opcode, branched), t)
        }
    }

    /// Execute one step: wait while halted, dispatch a pending interrupt, or
    /// fetch, decode and execute one instruction. Returns the T-cycles taken.
    pub fn step(&mut self, bus: &mut Bus) -> (r: u8)
        requires old(bus).wf(), !faults(machine(old(self)@, old(bus)@)),
        ensures
            final(bus).wf(),
            exists|t1: u64, t2: u64| (machine(final(self)@, final(bus)@), r) == #[trigger] step(machine(old(self)@, old(bus)@), t1, t2),
    {
        let (r, Ghost(t)) = self.step_timed(bus);
        r
    }

    /// `step` with the clock readings of its writes as the ghost result.
    pub(crate) fn step_timed(&mut self, bus: &mut Bus) -> (r: (u8, Ghost<(u64, u64)>))
        requires old(bus).wf(), !faults(machine(old(self)@, old(bus)@)),
        ensures
            final(bus).wf(),
            (machine(final(self)@, final(bus)@), r.0) == step(machine(old(self)@, old(bus)@), r.1@.0, r.1@.1),
    {
        if self.is_halt(bus) {
            return (4, Ghost((0, 0)));
        }
        let (dispatched, t) = self.is_interrupt(bus);
        if dispatched {
            return (20, t);
        }
        let ei_waiting = self.ime_pending;
        let (cycles, t) = self.fetch_execute(bus);
        if ei_waiting && self.ime_pending {
            self.ime = true;
            self.ime_pending = false;
        }
        (cycles, t)
    }
}

/// The low 12 bits of a 16-bit value.
proof fn lemma_low12(x: u16) by (bit_vector)
    ensures x & 0x0FFFu16 == x % 4096,
{
}

} // verus!
