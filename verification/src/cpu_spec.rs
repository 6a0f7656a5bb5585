use vstd::prelude::*;
use crate::registers::{Registers, pair};
use crate::bus::{BusView, speed_switch};
use crate::alu::{inc8, dec8, shift_op, alu, daa, cpl, scf, ccf, add_hl, sp_offset, sext, bit_test,
    set_bit_of, res_bit_of};

verus! {

/// The abstract state of the CPU: its registers, whether it is halted, the
/// interrupt master enable, and whether an EI waits to set it after the next
/// instruction.
pub struct CpuState {
    pub regs: Registers,
    pub halted: bool,
    pub ime: bool,
    pub ime_pending: bool,
}

/// The CPU together with the bus it runs on.
pub struct Machine {
    pub cpu: CpuState,
    pub bus: BusView,
}

/// The machine with the registers replaced by `r`.
pub open spec fn with_regs(m: Machine, r: Registers) -> Machine {
    Machine { cpu: CpuState { regs: r, ..m.cpu }, ..m }
}

/// The machine with the bus replaced by `b`.
pub open spec fn with_bus(m: Machine, b: BusView) -> Machine {
    Machine { bus: b, ..m }
}

/// `x + 1` and `x - 1` on 16 bits, wrapping.
pub open spec fn inc16(x: u16) -> u16 { ((x + 1) % 65536) as u16 }
pub open spec fn dec16(x: u16) -> u16 { ((x + 65535) % 65536) as u16 }

/// The byte at PC, with PC advanced.
pub open spec fn fetch(m: Machine) -> (Machine, u8) {
    let r = m.cpu.regs;
    (with_regs(m, Registers { pc: inc16(r.pc), ..r }), m.bus.read(r.pc))
}

/// The little-endian 16-bit value at PC, with PC advanced past it.
pub open spec fn fetch_u16(m: Machine) -> (Machine, u16) {
    let (m1, lo) = fetch(m);
    let (m2, hi) = fetch(m1);
    (m2, pair(hi, lo))
}

/// PUSH: SP moves down by two; the high byte is written first, at SP - 1,
/// then the low byte at SP - 2. `t1`, `t2` are the clock readings of the writes.
pub open spec fn push(m: Machine, v: u16, t1: u64, t2: u64) -> Machine {
    let r = m.cpu.regs;
    let sp1 = dec16(r.sp);
    let sp2 = dec16(sp1);
    let b = m.bus.write(sp1, (v / 256) as u8, t1).write(sp2, (v % 256) as u8, t2);
    with_bus(with_regs(m, Registers { sp: sp2, ..r }), b)
}

/// POP: the little-endian value at SP, with SP advanced by two.
pub open spec fn pop(m: Machine) -> (Machine, u16) {
    let r = m.cpu.regs;
    let lo = m.bus.read(r.sp);
    let hi = m.bus.read(inc16(r.sp));
    (with_regs(m, Registers { sp: inc16(inc16(r.sp)), ..r }), pair(hi, lo))
}

/// The 8-bit operand with index `i`: B, C, D, E, H, L, [HL], A.
pub open spec fn read_r8(m: Machine, i: u8) -> u8 {
    let r = m.cpu.regs;
    if i == 0 { r.b }
    else if i == 1 { r.c }
    else if i == 2 { r.d }
    else if i == 3 { r.e }
    else if i == 4 { r.h }
    else if i == 5 { r.l }
    else if i == 6 { m.bus.read(r.spec_hl()) }
    else { r.a }
}

/// The machine after storing `v` in the 8-bit operand with index `i`.
pub open spec fn write_r8(m: Machine, i: u8, v: u8, t: u64) -> Machine {
    let r = m.cpu.regs;
    if i == 0 { with_regs(m, Registers { b: v, ..r }) }
    else if i == 1 { with_regs(m, Registers { c: v, ..r }) }
    else if i == 2 { with_regs(m, Registers { d: v, ..r }) }
    else if i == 3 { with_regs(m, Registers { e: v, ..r }) }
    else if i == 4 { with_regs(m, Registers { h: v, ..r }) }
    else if i == 5 { with_regs(m, Registers { l: v, ..r }) }
    else if i == 6 { with_bus(m, m.bus.write(r.spec_hl(), v, t)) }
    else { with_regs(m, Registers { a: v, ..r }) }
}

/// The 16-bit register pair with index `i` of the load/arithmetic group:
/// BC, DE, HL, SP.
pub open spec fn read_rp(r: Registers, i: u8) -> u16 {
    if i == 0 { r.spec_bc() } else if i == 1 { r.spec_de() } else if i == 2 { r.spec_hl() } else { r.sp }
}

/// The registers with the pair `i` (BC, DE, HL, SP) set to `v`.
pub open spec fn write_rp(r: Registers, i: u8, v: u16) -> Registers {
    if i == 0 { r.with_bc(v) } else if i == 1 { r.with_de(v) } else if i == 2 { r.with_hl(v) } else { Registers { sp: v, ..r } }
}

/// The register pair with index `i` of the stack group: BC, DE, HL, AF.
pub open spec fn read_rp2(r: Registers, i: u8) -> u16 {
    if i == 0 { r.spec_bc() } else if i == 1 { r.spec_de() } else if i == 2 { r.spec_hl() } else { r.spec_af() }
}

/// The registers with the stack-group pair `i` (BC, DE, HL, AF) set to `v`.
pub open spec fn write_rp2(r: Registers, i: u8, v: u16) -> Registers {
    if i == 0 { r.with_bc(v) } else if i == 1 { r.with_de(v) } else if i == 2 { r.with_hl(v) } else { r.with_af(v) }
}

/// The branch condition with index `k`: NZ, Z, NC, C.
pub open spec fn condition(r: Registers, k: u8) -> bool {
    if k == 0 { !r.z() } else if k == 1 { r.z() } else if k == 2 { !r.cf() } else { r.cf() }
}

/// JR: fetch a signed offset; when `cond` holds, add it to PC (wrapping).
pub open spec fn jr(m: Machine, cond: bool) -> Machine {
    let (m1, off) = fetch(m);
    let r = m1.cpu.regs;
    if cond { with_regs(m1, Registers { pc: ((r.pc + sext(off)) % 65536) as u16, ..r }) } else { m1 }
}

/// JP: fetch an address; when `cond` holds, jump there.
pub open spec fn jp(m: Machine, cond: bool) -> Machine {
    let (m1, addr) = fetch_u16(m);
    if cond { with_regs(m1, Registers { pc: addr, ..m1.cpu.regs }) } else { m1 }
}

/// CALL: fetch an address; when `cond` holds, push the return address and jump.
pub open spec fn call(m: Machine, cond: bool, t1: u64, t2: u64) -> Machine {
    let (m1, addr) = fetch_u16(m);
    if cond {
        let m2 = push(m1, m1.cpu.regs.pc, t1, t2);
        with_regs(m2, Registers { pc: addr, ..m2.cpu.regs })
    } else {
        m1
    }
}

/// RET: when `cond` holds, pop PC.
pub open spec fn ret(m: Machine, cond: bool) -> Machine {
    if cond {
        let (m1, addr) = pop(m);
        with_regs(m1, Registers { pc: addr, ..m1.cpu.regs })
    } else {
        m
    }
}

/// RST: push PC and jump to `addr`.
pub open spec fn rst(m: Machine, addr: u16, t1: u64, t2: u64) -> Machine {
    let m1 = push(m, m.cpu.regs.pc, t1, t2);
    with_regs(m1, Registers { pc: addr, ..m1.cpu.regs })
}

/// ADD SP, e8: fetch a signed offset and add it to SP.
pub open spec fn add_sp_e8(m: Machine) -> Machine {
    let (m1, e) = fetch(m);
    let (sp, r1) = sp_offset(m1.cpu.regs, e);
    with_regs(m1, Registers { sp: sp, ..r1 })
}

/// LD HL, SP+e8: fetch a signed offset and load SP plus it into HL.
pub open spec fn ld_hl_sp_e8(m: Machine) -> Machine {
    let (m1, e) = fetch(m);
    let (v, r1) = sp_offset(m1.cpu.regs, e);
    with_regs(m1, r1.with_hl(v))
}

/// The undefined opcodes of the SM83.
pub open spec fn is_illegal(op: u8) -> bool {
    op == 0xD3 || op == 0xDB || op == 0xDD || op == 0xE3 || op == 0xE4 || op == 0xEB
        || op == 0xEC || op == 0xED || op == 0xF4 || op == 0xFC || op == 0xFD
}

/// Column 0 of 0x00-0x3F (row `y`): NOP, LD [a16], SP, STOP (which skips
/// its operand byte and carries out an armed speed switch), JR and JR cc.
pub open spec fn block0_jumps(m: Machine, y: u8, t1: u64, t2: u64) -> (Machine, bool) {
    if y == 0 {
        (m, false)
    } else if y == 1 {
        let (m1, addr) = fetch_u16(m);
        let sp = m1.cpu.regs.sp;
        (with_bus(m1, m1.bus.write(addr, (sp % 256) as u8, t1).write(inc16(addr), (sp / 256) as u8, t2)), false)
    } else if y == 2 {
        let m1 = fetch(m).0;
        (with_bus(m1, speed_switch(m1.bus)), false)
    } else if y == 3 {
        (jr(m, true), false)
    } else {
        let c = condition(m.cpu.regs, (y - 4) as u8);
        (jr(m, c), c)
    }
}

/// Column 2 of 0x00-0x3F (row `y`): LD [BC], A; LD A, [BC]; the same through
/// DE; and through HL with HL incremented (rows 4, 5) or decremented (rows 6, 7).
pub open spec fn block0_indirect(m: Machine, y: u8, t1: u64) -> Machine {
    let r = m.cpu.regs;
    let addr = if y / 2 == 0 { r.spec_bc() } else if y / 2 == 1 { r.spec_de() } else { r.spec_hl() };
    let m1 = if y % 2 == 0 { with_bus(m, m.bus.write(addr, r.a, t1)) } else { with_regs(m, Registers { a: m.bus.read(addr), ..r }) };
    let r1 = m1.cpu.regs;
    if y / 2 == 2 { with_regs(m1, r1.with_hl(inc16(addr))) }
    else if y / 2 == 3 { with_regs(m1, r1.with_hl(dec16(addr))) }
    else { m1 }
}

/// Column 1 of 0x00-0x3F (row `y`): LD rr, n16 (even rows) and ADD HL, rr (odd rows).
pub open spec fn block0_wide(m: Machine, y: u8) -> Machine {
    let r = m.cpu.regs;
    if y % 2 == 0 {
        let (m1, v) = fetch_u16(m);
        with_regs(m1, write_rp(m1.cpu.regs, y / 2, v))
    } else {
        with_regs(m, add_hl(r, read_rp(r, y / 2)))
    }
}

/// Column 3 of 0x00-0x3F (row `y`): INC rr (even rows) and DEC rr (odd rows), wrapping.
pub open spec fn block0_step16(r: Registers, y: u8) -> Registers {
    let v = read_rp(r, y / 2);
    write_rp(r, y / 2, if y % 2 == 0 { inc16(v) } else { dec16(v) })
}

/// Columns 4, 5 and 6 of 0x00-0x3F (row `y`): INC r, DEC r and LD r, n8.
pub open spec fn block0_byte(m: Machine, y: u8, z: u8, t1: u64) -> Machine {
    let r = m.cpu.regs;
    if z == 4 {
        let (v, r1) = inc8(r, read_r8(m, y));
        write_r8(with_regs(m, r1), y, v, t1)
    } else if z == 5 {
        let (v, r1) = dec8(r, read_r8(m, y));
        write_r8(with_regs(m, r1), y, v, t1)
    } else {
        let (m1, n) = fetch(m);
        write_r8(m1, y, n, t1)
    }
}

/// Column 7 of 0x00-0x3F (row `y`): RLCA, RRCA, RLA, RRA (Z cleared), DAA,
/// CPL, SCF, CCF.
pub open spec fn block0_accumulator(r: Registers, y: u8) -> Registers {
    if y < 4 {
        let (v, r1) = shift_op(r, y, r.a);
        Registers { a: v, ..r1 }.with_flags(false, false, false, r1.cf())
    } else if y == 4 {
        daa(r)
    } else if y == 5 {
        cpl(r)
    } else if y == 6 {
        scf(r)
    } else {
        ccf(r)
    }
}

/// Opcodes 0x00-0x3F: relative jumps, 16-bit loads and arithmetic, indirect
/// loads through BC/DE/HL, INC/DEC, immediate loads, rotates of A and the
/// flag instructions. Returns whether a conditional branch was taken.
pub open spec fn exec_block0(m: Machine, op: u8, t1: u64, t2: u64) -> (Machine, bool) {
    let r = m.cpu.regs;
    let y = (op / 8) % 8;
    let z = op % 8;
    if z == 0 {
        block0_jumps(m, y, t1, t2)
    } else if z == 1 {
        (block0_wide(m, y), false)
    } else if z == 2 {
        (block0_indirect(m, y, t1), false)
    } else if z == 3 {
        (with_regs(m, block0_step16(r, y)), false)
    } else if z == 4 || z == 5 || z == 6 {
        (block0_byte(m, y, z, t1), false)
    } else {
        (with_regs(m, block0_accumulator(r, y)), false)
    }
}

/// Opcodes 0x40-0x7F: LD between the 8-bit operands; 0x76 is HALT.
pub open spec fn exec_block1(m: Machine, op: u8, t1: u64) -> Machine {
    if op == 0x76 {
        Machine { cpu: CpuState { halted: true, ..m.cpu }, ..m }
    } else {
        write_r8(m, (op / 8) % 8, read_r8(m, op % 8), t1)
    }
}

/// Opcodes 0x80-0xBF: the ALU operation `(op / 8) % 8` on A and an 8-bit operand.
pub open spec fn exec_block2(m: Machine, op: u8) -> Machine {
    with_regs(m, alu(m.cpu.regs, (op / 8) % 8, read_r8(m, op % 8)))
}

/// Column 0 of 0xC0-0xFF (row `y`): RET cc, LDH [a8], A, ADD SP, e8,
/// LDH A, [a8] and LD HL, SP+e8.
pub open spec fn block3_col0(m: Machine, y: u8, t1: u64) -> (Machine, bool) {
    let r = m.cpu.regs;
    if y < 4 {
        let c = condition(r, y);
        (ret(m, c), c)
    } else if y == 4 {
        let (m1, n) = fetch(m);
        (with_bus(m1, m1.bus.write((0xFF00 + n) as u16, r.a, t1)), false)
    } else if y == 5 {
        (add_sp_e8(m), false)
    } else if y == 6 {
        let (m1, n) = fetch(m);
        (with_regs(m1, Registers { a: m1.bus.read((0xFF00 + n) as u16), ..m1.cpu.regs }), false)
    } else {
        (ld_hl_sp_e8(m), false)
    }
}

/// Column 1 of 0xC0-0xFF (row `y`): POP BC/DE/HL/AF, RET, RETI, JP HL, LD SP, HL.
pub open spec fn block3_col1(m: Machine, y: u8) -> Machine {
    let r = m.cpu.regs;
    if y % 2 == 0 {
        let (m1, v) = pop(m);
        with_regs(m1, write_rp2(m1.cpu.regs, y / 2, v))
    } else if y == 1 {
        ret(m, true)
    } else if y == 3 {
        ret(Machine { cpu: CpuState { ime: true, ..m.cpu }, ..m }, true)
    } else if y == 5 {
        with_regs(m, Registers { pc: r.spec_hl(), ..r })
    } else {
        with_regs(m, Registers { sp: r.spec_hl(), ..r })
    }
}

/// Column 2 of 0xC0-0xFF (row `y`): JP cc, LDH [C], A, LD [a16], A,
/// LDH A, [C] and LD A, [a16].
pub open spec fn block3_col2(m: Machine, y: u8, t1: u64) -> (Machine, bool) {
    let r = m.cpu.regs;
    if y < 4 {
        let c = condition(r, y);
        (jp(m, c), c)
    } else if y == 4 {
        (with_bus(m, m.bus.write((0xFF00 + r.c) as u16, r.a, t1)), false)
    } else if y == 5 {
        let (m1, addr) = fetch_u16(m);
        (with_bus(m1, m1.bus.write(addr, r.a, t1)), false)
    } else if y == 6 {
        (with_regs(m, Registers { a: m.bus.read((0xFF00 + r.c) as u16), ..r }), false)
    } else {
        let (m1, addr) = fetch_u16(m);
        (with_regs(m1, Registers { a: m1.bus.read(addr), ..m1.cpu.regs }), false)
    }
}

/// Opcodes 0xC0-0xFF other than the CB prefix: returns, jumps, calls,
/// stack operations, high-page loads, SP arithmetic, ALU with an immediate,
/// DI/EI and restarts. Returns whether a conditional branch was taken.
pub open spec fn exec_block3(m: Machine, op: u8, t1: u64, t2: u64) -> (Machine, bool) {
    let r = m.cpu.regs;
    let y = (op / 8) % 8;
    let z = op % 8;
    if z == 0 {
        block3_col0(m, y, t1)
    } else if z == 1 {
        (block3_col1(m, y), false)
    } else if z == 2 {
        block3_col2(m, y, t1)
    } else if z == 3 {
        if y == 0 {
            (jp(m, true), false)
        } else if y == 6 {
            (Machine { cpu: CpuState { ime: false, ime_pending: false, ..m.cpu }, ..m }, false)
        } else {
            (Machine { cpu: CpuState { ime_pending: true, ..m.cpu }, ..m }, false)
        }
    } else if z == 4 {
        let c = condition(r, y);
        (call(m, c, t1, t2), c)
    } else if z == 5 {
        if y % 2 == 0 {
            (push(m, read_rp2(r, y / 2), t1, t2), false)
        } else {
            (call(m, true, t1, t2), false)
        }
    } else if z == 6 {
        let (m1, n) = fetch(m);
        (with_regs(m1, alu(m1.cpu.regs, y, n)), false)
    } else {
        (rst(m, (y * 8) as u16, t1, t2), false)
    }
}

/// Execute the (non-CB) opcode `op`, already fetched. Returns whether a
/// conditional branch was taken.
#[verifier::opaque]
pub open spec fn exec_op(m: Machine, op: u8, t1: u64, t2: u64) -> (Machine, bool) {
    if op < 0x40 {
        exec_block0(m, op, t1, t2)
    } else if op < 0x80 {
        (exec_block1(m, op, t1), false)
    } else if op < 0xC0 {
        (exec_block2(m, op), false)
    } else {
        exec_block3(m, op, t1, t2)
    }
}

/// The T-cycles of opcode `op`; `branched` selects the longer timing of a
/// taken conditional branch.
pub open spec fn op_cycles(op: u8, branched: bool) -> u8 {
    let x = op / 64;
    let y = (op / 8) % 8;
    let z = op % 8;
    if branched {
        if x == 0 { 12 } else if z == 0 { 20 } else if z == 2 { 16 } else { 24 }
    } else if x == 0 {
        if z == 0 {
            if y == 0 || y == 2 { 4 } else if y == 1 { 20 } else if y == 3 { 12 } else { 8 }
        } else if z == 1 {
            if y % 2 == 0 { 12 } else { 8 }
        } else if z == 2 || z == 3 {
            8
        } else if z == 4 || z == 5 {
            if y == 6 { 12 } else { 4 }
        } else if z == 6 {
            if y == 6 { 12 } else { 8 }
        } else {
            4
        }
    } else if x == 1 {
        if op == 0x76 { 4 } else if y == 6 || z == 6 { 8 } else { 4 }
    } else if x == 2 {
        if z == 6 { 8 } else { 4 }
    } else {
        if z == 0 {
            if y < 4 { 8 } else if y == 5 { 16 } else { 12 }
        } else if z == 1 {
            if y % 2 == 0 { 12 } else if y == 1 || y == 3 { 16 } else if y == 5 { 4 } else { 8 }
        } else if z == 2 {
            if y < 4 { 12 } else if y == 4 || y == 6 { 8 } else { 16 }
        } else if z == 3 {
            if y == 0 { 16 } else if y == 1 || y == 6 || y == 7 { 4 } else { 0 }
        } else if z == 4 {
            if y < 4 { 12 } else { 0 }
        } else if z == 5 {
            if y % 2 == 0 { 16 } else if y == 1 { 24 } else { 0 }
        } else if z == 6 {
            8
        } else {
            16
        }
    }
}

/// Execute a CB-prefixed instruction: fetch the second byte; columns 0-5 and
/// 7 name a register and column 6 the byte at HL. Rows 0x00-0x3F shift and
/// rotate, 0x40-0x7F test a bit, 0x80-0xBF clear one and 0xC0-0xFF set one.
/// Returns the machine and the T-cycles taken.
pub open spec fn exec_cb(m: Machine, t: u64) -> (Machine, u8) {
    let (m1, cb) = fetch(m);
    let x = cb / 64;
    let y = (cb / 8) % 8;
    let z = cb % 8;
    let v = read_r8(m1, z);
    let r = m1.cpu.regs;
    let m2 = if x == 0 {
        let (res, r1) = shift_op(r, y, v);
        write_r8(with_regs(m1, r1), z, res, t)
    } else if x == 1 {
        with_regs(m1, bit_test(r, y, v))
    } else if x == 2 {
        write_r8(m1, z, res_bit_of(y, v), t)
    } else {
        write_r8(m1, z, set_bit_of(y, v), t)
    };
    let cycles: u8 = if z != 6 { 8 } else if x == 1 { 12 } else { 16 };
    (m2, cycles)
}

/// Fetch the instruction at PC and execute it (a CB prefix and its second
/// byte count as one instruction); returns the machine and the T-cycles.
pub open spec fn fetch_execute(m: Machine, t1: u64, t2: u64) -> (Machine, u8) {
    let (m2, op) = fetch(m);
    if op == 0xCB {
        exec_cb(m2, t1)
    } else {
        let (m3, branched) = exec_op(m2, op, t1, t2);
        (m3, op_cycles(op, branched))
    }
}

/// Interrupt dispatch for interrupt `bit`: IME (and a waiting EI) is cleared, the IF bit is
/// acknowledged, PC is pushed and execution continues at 0x40 + 8 * bit.
pub open spec fn dispatch(m: Machine, bit: u8, t1: u64, t2: u64) -> Machine {
    let m1 = Machine {
        cpu: CpuState { ime: false, ime_pending: false, ..m.cpu },
        bus: BusView { r_if: m.bus.r_if & !(1u8 << bit), ..m.bus },
    };
    let m2 = push(m1, m1.cpu.regs.pc, t1, t2);
    with_regs(m2, Registers { pc: (0x40 + bit * 8) as u16, ..m2.cpu.regs })
}

/// One step of the CPU: a halted CPU stays halted (4 cycles) until an
/// interrupt is pending; with IME set a pending interrupt is dispatched (20
/// cycles); otherwise one instruction is fetched and executed.
pub open spec fn step(m: Machine, t1: u64, t2: u64) -> (Machine, u8) {
    let p = m.bus.pending();
    if m.cpu.halted && p is None {
        (m, 4)
    } else {
        let m1 = Machine { cpu: CpuState { halted: false, ..m.cpu }, ..m };
        if m1.cpu.ime && p is Some {
            (dispatch(m1, p->0, t1, t2), 20)
        } else {
            let (m3, cycles) = fetch_execute(m1, t1, t2);
            (ei_takes_effect(m1.cpu.ime_pending, m3), cycles)
        }
    }
}

/// An EI takes effect after the instruction that follows it: when an EI was
/// waiting before the instruction and is still waiting after it (a DI in
/// between cancels it), IME is set.
pub open spec fn ei_takes_effect(was_pending: bool, m: Machine) -> Machine {
    if was_pending && m.cpu.ime_pending {
        Machine { cpu: CpuState { ime: true, ime_pending: false, ..m.cpu }, ..m }
    } else {
        m
    }
}

/// Whether the next step would execute an undefined opcode (the CPU would
/// stop with a fault).
pub open spec fn faults(m: Machine) -> bool {
    let p = m.bus.pending();
    &&& !(m.cpu.halted && p is None)
    &&& !(m.cpu.ime && p is Some)
    &&& is_illegal(m.bus.read(m.cpu.regs.pc))
}

/// EI is delayed by one instruction: a step that executes EI leaves IME
/// clear, and the step after it executes the next instruction, whatever
/// interrupt is pending, before IME is set.
pub proof fn lemma_ei_delay(m: Machine, t1: u64, t2: u64, t3: u64, t4: u64)
    requires
        !m.cpu.ime,
        !m.cpu.ime_pending,
        !m.cpu.halted,
        m.bus.read(m.cpu.regs.pc) == 0xFB,
    ensures
        !step(m, t1, t2).0.cpu.ime,
        step(m, t1, t2).0.cpu.ime_pending,
        step(step(m, t1, t2).0, t3, t4).0
            == ei_takes_effect(true, fetch_execute(step(m, t1, t2).0, t3, t4).0),
{
    let m0 = Machine { cpu: CpuState { halted: false, ..m.cpu }, ..m };
    assert(m0 == m);
    let (m2, op) = fetch(m);
    assert(op == 0xFB);
    let e = Machine { cpu: CpuState { ime_pending: true, ..m2.cpu }, ..m2 };
    assert(exec_block3(m2, 0xFB, t1, t2) == (e, false));
    assert(exec_op(m2, 0xFB, t1, t2) == (e, false)) by { reveal(exec_op); }
    assert(fetch_execute(m, t1, t2).0 == e);
    assert(step(m, t1, t2).0 == e);
    let m1 = Machine { cpu: CpuState { halted: false, ..e.cpu }, ..e };
    assert(m1 == e);
    assert(step(e, t3, t4).0 == ei_takes_effect(true, fetch_execute(e, t3, t4).0));
}

/// POP gives back what PUSH stored, and restores SP, when the two stack
/// bytes lie in plain memory.
pub proof fn lemma_push_pop(m: Machine, v: u16, t1: u64, t2: u64)
    requires
        m.bus.wf(),
        crate::bus::is_plain_memory(dec16(m.cpu.regs.sp)),
        crate::bus::is_plain_memory(dec16(dec16(m.cpu.regs.sp))),
    ensures
        pop(push(m, v, t1, t2)).1 == v,
        pop(push(m, v, t1, t2)).0.cpu == m.cpu,
{
    let r = m.cpu.regs;
    let sp1 = dec16(r.sp);
    let sp2 = dec16(sp1);
    let b1 = m.bus.write(sp1, (v / 256) as u8, t1);
    crate::bus::lemma_read_after_write(m.bus, sp1, (v / 256) as u8, t1, sp2);
    crate::bus::lemma_read_after_write(b1, sp2, (v % 256) as u8, t2, sp1);
    crate::registers::lemma_pair_roundtrip(v);
    assert(inc16(sp2) == sp1);
    assert(inc16(sp1) == r.sp);
}

/// The machine a step starts from runs an instruction: it is not halted and
/// no interrupt is taken first.
pub open spec fn runs_instruction(m: Machine) -> bool {
    !m.cpu.halted && !(m.cpu.ime && m.bus.pending() is Some)
}

/// A step that runs an instruction fetches and executes it; only IME may
/// change afterwards.
proof fn lemma_step_runs(m: Machine, t1: u64, t2: u64)
    requires runs_instruction(m),
    ensures
        step(m, t1, t2).0.cpu.regs == fetch_execute(m, t1, t2).0.cpu.regs,
        step(m, t1, t2).1 == fetch_execute(m, t1, t2).1,
{
    let m1 = Machine { cpu: CpuState { halted: false, ..m.cpu }, ..m };
    assert(m1 == m);
}

/// JR NZ/Z/NC/C, e: the branch is taken exactly when its flag test passes
/// (C: carry set; NC: carry clear; Z: zero set; NZ: zero clear); taken, PC
/// moves by the signed offset past the two instruction bytes and the step
/// takes 12 cycles, otherwise PC is past the instruction and it takes 8.
#[verifier::rlimit(60)]
pub proof fn lemma_conditional_jr(m: Machine, t1: u64, t2: u64)
    requires
        runs_instruction(m),
        m.bus.read(m.cpu.regs.pc) == 0x20 || m.bus.read(m.cpu.regs.pc) == 0x28
            || m.bus.read(m.cpu.regs.pc) == 0x30 || m.bus.read(m.cpu.regs.pc) == 0x38,
    ensures
        ({
            let op = m.bus.read(m.cpu.regs.pc);
            let r = m.cpu.regs;
            let taken = if op == 0x20 { !r.z() } else if op == 0x28 { r.z() } else if op == 0x30 { !r.cf() } else { r.cf() };
            let e = m.bus.read(((r.pc + 1) % 65536) as u16);
            let offset: int = if e < 128 { e as int } else { e - 256 };
            let (m2, cycles) = step(m, t1, t2);
            &&& m2.cpu.regs.pc == (if taken { (r.pc + 2 + offset + 65536) % 65536 } else { (r.pc + 2) % 65536 })
            &&& cycles == (if taken { 12u8 } else { 8u8 })
        }),
{
    lemma_step_runs(m, t1, t2);
    let r = m.cpu.regs;
    let (m1, op) = fetch(m);
    let taken = if op == 0x20 { !r.z() } else if op == 0x28 { r.z() } else if op == 0x30 { !r.cf() } else { r.cf() };
    assert(m1.cpu.regs.z() == r.z() && m1.cpu.regs.cf() == r.cf());
    assert(exec_op(m1, op, t1, t2) == (jr(m1, taken), taken)) by {
        reveal(exec_op);
        let y = (op / 8) % 8;
        assert(exec_op(m1, op, t1, t2) == exec_block0(m1, op, t1, t2));
        assert(exec_block0(m1, op, t1, t2) == block0_jumps(m1, y, t1, t2));
    }
}

/// JP NZ/Z/NC/C, nn: taken exactly when the flag test passes; taken, PC is
/// the 16-bit operand (little-endian) and the step takes 16 cycles, otherwise
/// PC is past the three instruction bytes and it takes 12.
pub proof fn lemma_conditional_jp(m: Machine, t1: u64, t2: u64)
    requires
        runs_instruction(m),
        m.bus.read(m.cpu.regs.pc) == 0xC2 || m.bus.read(m.cpu.regs.pc) == 0xCA
            || m.bus.read(m.cpu.regs.pc) == 0xD2 || m.bus.read(m.cpu.regs.pc) == 0xDA,
    ensures
        ({
            let op = m.bus.read(m.cpu.regs.pc);
            let r = m.cpu.regs;
            let taken = if op == 0xC2 { !r.z() } else if op == 0xCA { r.z() } else if op == 0xD2 { !r.cf() } else { r.cf() };
            let nn = m.bus.read(((r.pc + 2) % 65536) as u16) * 256 + m.bus.read(((r.pc + 1) % 65536) as u16);
            let (m2, cycles) = step(m, t1, t2);
            &&& m2.cpu.regs.pc == (if taken { nn } else { (r.pc + 3) % 65536 })
            &&& cycles == (if taken { 16u8 } else { 12u8 })
        }),
{
    lemma_step_runs(m, t1, t2);
    let r = m.cpu.regs;
    let (m1, op) = fetch(m);
    let taken = if op == 0xC2 { !r.z() } else if op == 0xCA { r.z() } else if op == 0xD2 { !r.cf() } else { r.cf() };
    assert(m1.cpu.regs.z() == r.z() && m1.cpu.regs.cf() == r.cf());
    assert(exec_op(m1, op, t1, t2) == (jp(m1, taken), taken)) by {
        reveal(exec_op);
        let y = (op / 8) % 8;
        assert(exec_op(m1, op, t1, t2) == exec_block3(m1, op, t1, t2));
        assert(exec_block3(m1, op, t1, t2) == block3_col2(m1, y, t1));
    }
    let (m2, lo) = fetch(m1);
    let (m3, hi) = fetch(m2);
    crate::registers::lemma_pair_value(hi, lo);
}

/// CALL NZ/Z/NC/C, nn: taken exactly when the flag test passes; taken, PC is
/// the 16-bit operand and the step takes 24 cycles, otherwise PC is past the
/// three instruction bytes and it takes 12.
pub proof fn lemma_conditional_call(m: Machine, t1: u64, t2: u64)
    requires
        runs_instruction(m),
        m.bus.read(m.cpu.regs.pc) == 0xC4 || m.bus.read(m.cpu.regs.pc) == 0xCC
            || m.bus.read(m.cpu.regs.pc) == 0xD4 || m.bus.read(m.cpu.regs.pc) == 0xDC,
    ensures
        ({
            let op = m.bus.read(m.cpu.regs.pc);
            let r = m.cpu.regs;
            let taken = if op == 0xC4 { !r.z() } else if op == 0xCC { r.z() } else if op == 0xD4 { !r.cf() } else { r.cf() };
            let nn = m.bus.read(((r.pc + 2) % 65536) as u16) * 256 + m.bus.read(((r.pc + 1) % 65536) as u16);
            let (m2, cycles) = step(m, t1, t2);
            &&& m2.cpu.regs.pc == (if taken { nn } else { (r.pc + 3) % 65536 })
            &&& cycles == (if taken { 24u8 } else { 12u8 })
        }),
{
    lemma_step_runs(m, t1, t2);
    let r = m.cpu.regs;
    let (m1, op) = fetch(m);
    let taken = if op == 0xC4 { !r.z() } else if op == 0xCC { r.z() } else if op == 0xD4 { !r.cf() } else { r.cf() };
    assert(m1.cpu.regs.z() == r.z() && m1.cpu.regs.cf() == r.cf());
    assert(exec_op(m1, op, t1, t2) == (call(m1, taken, t1, t2), taken)) by {
        reveal(exec_op);
        assert(exec_op(m1, op, t1, t2) == exec_block3(m1, op, t1, t2));
    }
    let (m2, lo) = fetch(m1);
    let (m3, hi) = fetch(m2);
    crate::registers::lemma_pair_value(hi, lo);
}

/// RET NZ/Z/NC/C: taken exactly when the flag test passes; taken, PC is the
/// 16-bit value at SP and the step takes 20 cycles, otherwise PC is past the
/// instruction and it takes 8.
#[verifier::rlimit(60)]
pub proof fn lemma_conditional_ret(m: Machine, t1: u64, t2: u64)
    requires
        runs_instruction(m),
        m.bus.read(m.cpu.regs.pc) == 0xC0 || m.bus.read(m.cpu.regs.pc) == 0xC8
            || m.bus.read(m.cpu.regs.pc) == 0xD0 || m.bus.read(m.cpu.regs.pc) == 0xD8,
    ensures
        ({
            let op = m.bus.read(m.cpu.regs.pc);
            let r = m.cpu.regs;
            let taken = if op == 0xC0 { !r.z() } else if op == 0xC8 { r.z() } else if op == 0xD0 { !r.cf() } else { r.cf() };
            let popped = m.bus.read(((r.sp + 1) % 65536) as u16) * 256 + m.bus.read(r.sp);
            let (m2, cycles) = step(m, t1, t2);
            &&& m2.cpu.regs.pc == (if taken { popped } else { (r.pc + 1) % 65536 })
            &&& cycles == (if taken { 20u8 } else { 8u8 })
        }),
{
    lemma_step_runs(m, t1, t2);
    let r = m.cpu.regs;
    let (m1, op) = fetch(m);
    let taken = if op == 0xC0 { !r.z() } else if op == 0xC8 { r.z() } else if op == 0xD0 { !r.cf() } else { r.cf() };
    assert(m1.cpu.regs.z() == r.z() && m1.cpu.regs.cf() == r.cf());
    assert(exec_op(m1, op, t1, t2) == (ret(m1, taken), taken)) by {
        reveal(exec_op);
        let y = (op / 8) % 8;
        assert(exec_op(m1, op, t1, t2) == exec_block3(m1, op, t1, t2));
        assert(exec_block3(m1, op, t1, t2) == block3_col0(m1, y, t1));
    }
    crate::registers::lemma_pair_value(m1.bus.read(inc16(r.sp)), m1.bus.read(r.sp));
}

/// Taking an interrupt: with IME set and interrupt `b` the highest pending
/// one, a step takes 20 cycles, clears IME, jumps to the vector 0x40 + 8b
/// (V-blank 0x40, LCD 0x48, timer 0x50, serial 0x58, joypad 0x60), moves SP
/// down by two and leaves PC's old value on the stack (when the stack lies in
/// plain memory), where a RET finds it, with the request bit acknowledged.
pub proof fn lemma_interrupt_dispatch(m: Machine, t1: u64, t2: u64)
    requires
        m.bus.wf(),
        m.cpu.ime,
        m.bus.pending() is Some,
    ensures
        ({
            let b = m.bus.pending()->0;
            let r = m.cpu.regs;
            let (m2, cycles) = step(m, t1, t2);
            &&& cycles == 20
            &&& !m2.cpu.ime
            &&& m2.cpu.regs.pc == 0x40 + 8 * b
            &&& m2.cpu.regs.sp == (r.sp + 65534) % 65536
            &&& crate::bus::is_plain_memory(dec16(r.sp)) && crate::bus::is_plain_memory(dec16(dec16(r.sp))) ==> {
                &&& pop(m2).1 == r.pc
                &&& m2.bus.r_if & (1u8 << b) == 0
            }
        }),
{
    let b = m.bus.pending()->0;
    let r = m.cpu.regs;
    let m0 = Machine { cpu: CpuState { halted: false, ..m.cpu }, ..m };
    assert(step(m, t1, t2) == (dispatch(m0, b, t1, t2), 20u8));
    let m1 = Machine {
        cpu: CpuState { ime: false, ime_pending: false, ..m0.cpu },
        bus: BusView { r_if: m0.bus.r_if & !(1u8 << b), ..m0.bus },
    };
    assert(b < 5);
    if crate::bus::is_plain_memory(dec16(r.sp)) && crate::bus::is_plain_memory(dec16(dec16(r.sp))) {
        lemma_push_pop(m1, r.pc, t1, t2);
        let sp1 = dec16(r.sp);
        let sp2 = dec16(sp1);
        crate::bus::lemma_read_after_write(m1.bus, sp1, (r.pc / 256) as u8, t1, sp2);
        let bb = m1.bus.write(sp1, (r.pc / 256) as u8, t1);
        crate::bus::lemma_read_after_write(bb, sp2, (r.pc % 256) as u8, t2, sp1);
        lemma_clear_bit(m.bus.r_if, b);
    }
}

proof fn lemma_clear_bit(f: u8, b: u8) by (bit_vector)
    requires b < 8,
    ensures (f & !(1u8 << b)) & (1u8 << b) == 0,
{
}

/// RST n: a step takes 16 cycles, jumps to the vector the opcode names
/// (0x00, 0x08, ... 0x38: bits 3-5 of the opcode times 8) and leaves the
/// address after the instruction on the stack (when it lies in plain memory).
pub proof fn lemma_rst(m: Machine, t1: u64, t2: u64)
    requires
        m.bus.wf(),
        runs_instruction(m),
        m.bus.read(m.cpu.regs.pc) % 8 == 7,
        m.bus.read(m.cpu.regs.pc) >= 0xC0,
    ensures
        ({
            let op = m.bus.read(m.cpu.regs.pc);
            let r = m.cpu.regs;
            let (m2, cycles) = step(m, t1, t2);
            &&& cycles == 16
            &&& m2.cpu.regs.pc == op - 0xC7
            &&& crate::bus::is_plain_memory(dec16(r.sp)) && crate::bus::is_plain_memory(dec16(dec16(r.sp)))
                ==> pop(m2).1 == (r.pc + 1) % 65536
        }),
{
    lemma_step_runs(m, t1, t2);
    let r = m.cpu.regs;
    let (m1, op) = fetch(m);
    let y = (op / 8) % 8;
    assert(op - 0xC7 == y * 8);
    assert(exec_op(m1, op, t1, t2) == (rst(m1, (y * 8) as u16, t1, t2), false)) by {
        reveal(exec_op);
        assert(exec_op(m1, op, t1, t2) == exec_block3(m1, op, t1, t2));
    }
    let m3 = step(m, t1, t2).0;
    assert(m3.cpu.regs == fetch_execute(m, t1, t2).0.cpu.regs);
    if crate::bus::is_plain_memory(dec16(r.sp)) && crate::bus::is_plain_memory(dec16(dec16(r.sp))) {
        lemma_push_pop(m1, m1.cpu.regs.pc, t1, t2);
    }
}

/// The 8-bit operands by index are B, C, D, E, H, L, the byte at HL and A:
/// a value stored through an index reads back through it (for the byte at
/// HL, when HL points at plain memory), and storing to one register leaves
/// the others as they were.
pub proof fn lemma_r8_operands(m: Machine, i: u8, j: u8, v: u8, t: u64)
    requires m.bus.wf(), i < 8, j < 8,
    ensures
        ({
            let r = m.cpu.regs;
            &&& read_r8(m, 0) == r.b && read_r8(m, 1) == r.c && read_r8(m, 2) == r.d && read_r8(m, 3) == r.e
            &&& read_r8(m, 4) == r.h && read_r8(m, 5) == r.l && read_r8(m, 7) == r.a
            &&& read_r8(m, 6) == m.bus.read((r.h * 256 + r.l) as u16)
            &&& (i != 6 || crate::bus::is_plain_memory(r.spec_hl())) ==> read_r8(write_r8(m, i, v, t), i) == v
            &&& i != 6 && j != 6 && i != j ==> read_r8(write_r8(m, i, v, t), j) == read_r8(m, j)
        }),
{
    let r = m.cpu.regs;
    crate::registers::lemma_pair_value(r.h, r.l);
    if i == 6 && crate::bus::is_plain_memory(r.spec_hl()) {
        crate::bus::lemma_read_after_write(m.bus, r.spec_hl(), v, t, r.spec_hl());
    }
}

/// LD r, r' (0x40-0x7F but 0x76): the destination operand (bits 3-5) takes
/// the value of the source operand (bits 0-2), and no other register
/// changes; 0x76 is HALT and halts the CPU.
pub proof fn lemma_ld_r_r(m: Machine, op: u8, t: u64, k: u8)
    requires m.bus.wf(), 0x40 <= op < 0x80, k < 8,
    ensures
        op == 0x76 ==> exec_block1(m, op, t).cpu.halted && exec_block1(m, op, t).cpu.regs == m.cpu.regs,
        ({
            let dst = (op / 8) % 8;
            let src = op % 8;
            let m2 = exec_block1(m, op, t);
            &&& op != 0x76 && (dst != 6 || crate::bus::is_plain_memory(m.cpu.regs.spec_hl()))
                ==> read_r8(m2, dst) == read_r8(m, src)
            &&& op != 0x76 && dst != 6 && k != 6 && k != dst ==> read_r8(m2, k) == read_r8(m, k)
        }),
{
    let dst = (op / 8) % 8;
    let src = op % 8;
    if op != 0x76 {
        lemma_r8_operands(m, dst, k, read_r8(m, src), t);
    }
}

} // verus!
