use vstd::prelude::*;
use crate::registers::Registers;

verus! {

/// The carry flag as a number: 1 when set.
pub open spec fn carry_in(r: Registers) -> int {
    if r.cf() { 1 } else { 0 }
}

/// The signed 8-bit offset `e` as a 16-bit two's complement addend.
pub open spec fn sext(e: u8) -> u16 {
    if e < 128 { e as u16 } else { (e + 0xFF00) as u16 }
}

/// INC r: the incremented value (wrapping) and the flags Z, N=0, H (carry
/// out of bit 3); C is kept.
pub open spec fn inc8(r: Registers, v: u8) -> (u8, Registers) {
    let res = ((v + 1) % 256) as u8;
    (res, r.with_flags(res == 0, false, v % 16 == 15, r.cf()))
}

/// DEC r: the decremented value (wrapping) and the flags Z, N=1, H (borrow
/// into bit 3); C is kept.
pub open spec fn dec8(r: Registers, v: u8) -> (u8, Registers) {
    let res = ((v + 255) % 256) as u8;
    (res, r.with_flags(res == 0, true, v % 16 == 0, r.cf()))
}

/// The eight shift and rotate operations of the CB table, in opcode order:
/// RLC, RRC, RL, RR, SLA, SRA, SWAP, SRL. Returns the result and the flags
/// Z, N=0, H=0 and C (the bit shifted out; 0 for SWAP).
pub open spec fn shift_op(r: Registers, kind: u8, v: u8) -> (u8, Registers) {
    let res: u8 = if kind == 0 {
        ((v * 2) % 256 + v / 128) as u8
    } else if kind == 1 {
        (v / 2 + (v % 2) * 128) as u8
    } else if kind == 2 {
        ((v * 2) % 256 + carry_in(r)) as u8
    } else if kind == 3 {
        (v / 2 + carry_in(r) * 128) as u8
    } else if kind == 4 {
        ((v * 2) % 256) as u8
    } else if kind == 5 {
        (v / 2 + (v / 128) * 128) as u8
    } else if kind == 6 {
        ((v % 16) * 16 + v / 16) as u8
    } else {
        (v / 2) as u8
    };
    let c: bool = if kind == 0 || kind == 2 || kind == 4 {
        v >= 128
    } else if kind == 6 {
        false
    } else {
        v % 2 == 1
    };
    (res, r.with_flags(res == 0, false, false, c))
}

/// The eight ALU operations on A, in opcode order: ADD, ADC, SUB, SBC, AND,
/// XOR, OR, CP. CP sets the flags of SUB and keeps A.
pub open spec fn alu(r: Registers, kind: u8, v: u8) -> Registers {
    let a = r.a;
    let c = carry_in(r);
    if kind == 0 {
        let res = ((a + v) % 256) as u8;
        Registers { a: res, ..r }.with_flags(res == 0, false, a % 16 + v % 16 > 15, a + v > 255)
    } else if kind == 1 {
        let res = ((a + v + c) % 256) as u8;
        Registers { a: res, ..r }.with_flags(res == 0, false, a % 16 + v % 16 + c > 15, a + v + c > 255)
    } else if kind == 2 || kind == 7 {
        let res = ((a - v + 256) % 256) as u8;
        let a1: u8 = if kind == 2 { res } else { a };
        Registers { a: a1, ..r }.with_flags(res == 0, true, v % 16 > a % 16, v > a)
    } else if kind == 3 {
        let res = ((a - v - c + 512) % 256) as u8;
        Registers { a: res, ..r }.with_flags(res == 0, true, v % 16 + c > a % 16, v + c > a)
    } else if kind == 4 {
        let res = a & v;
        Registers { a: res, ..r }.with_flags(res == 0, false, true, false)
    } else if kind == 5 {
        let res = a ^ v;
        Registers { a: res, ..r }.with_flags(res == 0, false, false, false)
    } else {
        let res = a | v;
        Registers { a: res, ..r }.with_flags(res == 0, false, false, false)
    }
}

/// DAA: the BCD correction of A after an addition (N clear) or a subtraction
/// (N set). Sets Z and C, clears H; N is kept.
pub open spec fn daa(r: Registers) -> Registers {
    let a = r.a;
    if r.n() {
        let adjust = (if r.hf() { 0x06int } else { 0 }) + (if r.cf() { 0x60int } else { 0 });
        let res = ((a - adjust + 256) % 256) as u8;
        Registers { a: res, ..r }.with_flags(res == 0, r.n(), false, r.cf())
    } else {
        let low = r.hf() || a % 16 > 9;
        let high = r.cf() || a > 0x99;
        let adjust = (if low { 0x06int } else { 0 }) + (if high { 0x60int } else { 0 });
        let res = ((a + adjust) % 256) as u8;
        Registers { a: res, ..r }.with_flags(res == 0, r.n(), false, high)
    }
}

/// What the eight ALU operations on A do, with `c` the carry flag after and
/// `cin` the carry before (0 or 1): ADD `res + 256c == a + v`, ADC
/// `res + 256c == a + v + cin`, both with H the carry out of the low nibble;
/// SUB `res - 256c == a - v`, SBC `res - 256c == a - v - cin`, both with H the
/// borrow into the low nibble and N set; AND, XOR and OR give the bitwise
/// result with C clear and H set only for AND; CP keeps A and sets Z when
/// `a == v` and C when `v > a`. Z is set exactly when the result is 0.
#[verifier::rlimit(80)]
pub proof fn lemma_alu_laws(r: Registers, kind: u8, v: u8)
    requires kind < 8,
    ensures
        ({
            let r2 = alu(r, kind, v);
            let a = r.a;
            let res = r2.a;
            let c: int = if r2.cf() { 1 } else { 0 };
            let cin: int = if r.cf() { 1 } else { 0 };
            &&& kind == 0 ==> res + 256 * c == a + v && r2.hf() == (a % 16 + v % 16 >= 16) && !r2.n() && r2.z() == (res == 0)
            &&& kind == 1 ==> res + 256 * c == a + v + cin && r2.hf() == (a % 16 + v % 16 + cin >= 16) && !r2.n() && r2.z() == (res == 0)
            &&& kind == 2 ==> res - 256 * c == a - v && r2.hf() == (a % 16 < v % 16) && r2.n() && r2.z() == (res == 0)
            &&& kind == 3 ==> res - 256 * c == a - v - cin && r2.hf() == (a % 16 < v % 16 + cin) && r2.n() && r2.z() == (res == 0)
            &&& kind == 4 ==> res == a & v && r2.hf() && !r2.n() && c == 0 && r2.z() == (res == 0)
            &&& kind == 5 ==> res == a ^ v && !r2.hf() && !r2.n() && c == 0 && r2.z() == (res == 0)
            &&& kind == 6 ==> res == a | v && !r2.hf() && !r2.n() && c == 0 && r2.z() == (res == 0)
            &&& kind == 7 ==> res == a && r2.z() == (a == v) && r2.cf() == (v > a) && r2.n() && r2.hf() == (a % 16 < v % 16)
        }),
{
    let a = r.a;
    let cin: int = if r.cf() { 1 } else { 0 };
    assert(carry_in(r) == cin);
    if kind == 0 {
        let res = ((a + v) % 256) as u8;
        crate::registers::lemma_with_flags(Registers { a: res, ..r }, res == 0, false, a % 16 + v % 16 > 15, a + v > 255);
    } else if kind == 1 {
        let res = ((a + v + cin) % 256) as u8;
        crate::registers::lemma_with_flags(Registers { a: res, ..r }, res == 0, false, a % 16 + v % 16 + cin > 15, a + v + cin > 255);
    } else if kind == 2 || kind == 7 {
        let res = ((a - v + 256) % 256) as u8;
        let a1: u8 = if kind == 2 { res } else { a };
        crate::registers::lemma_with_flags(Registers { a: a1, ..r }, res == 0, true, v % 16 > a % 16, v > a);
    } else if kind == 3 {
        let res = ((a - v - cin + 512) % 256) as u8;
        crate::registers::lemma_with_flags(Registers { a: res, ..r }, res == 0, true, v % 16 + cin > a % 16, v + cin > a);
    } else if kind == 4 {
        crate::registers::lemma_with_flags(Registers { a: a & v, ..r }, a & v == 0, false, true, false);
    } else if kind == 5 {
        crate::registers::lemma_with_flags(Registers { a: a ^ v, ..r }, a ^ v == 0, false, false, false);
    } else {
        crate::registers::lemma_with_flags(Registers { a: a | v, ..r }, a | v == 0, false, false, false);
    }
}

/// INC gives `v + 1` and DEC `v - 1`, wrapping in 8 bits; INC sets H when
/// the low nibble carries (it was 15) and DEC when it borrows (it was 0); INC
/// clears N, DEC sets it; Z follows the result and C is kept.
pub proof fn lemma_inc_dec_laws(r: Registers, v: u8)
    ensures
        ({
            let (i, ri) = inc8(r, v);
            let (d, rd) = dec8(r, v);
            &&& i == (v + 1) % 256 && ri.z() == (i == 0) && !ri.n() && ri.hf() == (v % 16 == 15) && ri.cf() == r.cf()
            &&& (d + 1) % 256 == v && rd.z() == (d == 0) && rd.n() && rd.hf() == (v % 16 == 0) && rd.cf() == r.cf()
        }),
{
    let i = ((v + 1) % 256) as u8;
    let d = ((v + 255) % 256) as u8;
    crate::registers::lemma_with_flags(r, i == 0, false, v % 16 == 15, r.cf());
    crate::registers::lemma_with_flags(r, d == 0, true, v % 16 == 0, r.cf());
}

/// What the eight CB shifts and rotates do, as relations between the byte
/// `v`, the result `res` and the carry flag `c` after (0 or 1), with `cin`
/// the carry before: RLC `res + 256c == 2v + c`; RRC `2res + c == v + 256c`;
/// RL `res + 256c == 2v + cin`; RR `2res + c == v + 256cin`; SLA
/// `res + 256c == 2v`; SRA `2res + c == v + 256 * (bit 7 of v)`; SWAP
/// exchanges the nibbles and clears C; SRL `2res + c == v` (C is bit 0 and
/// the result `v / 2`). Every one sets Z exactly when the result is 0 and
/// clears N and H.
#[verifier::rlimit(80)]
pub proof fn lemma_shift_laws(r: Registers, kind: u8, v: u8)
    requires kind < 8,
    ensures
        ({
            let (res, r2) = shift_op(r, kind, v);
            let c: int = if r2.cf() { 1 } else { 0 };
            let cin: int = if r.cf() { 1 } else { 0 };
            let top: int = if v >= 128 { 1 } else { 0 };
            &&& r2.z() == (res == 0)
            &&& !r2.n()
            &&& !r2.hf()
            &&& kind == 0 ==> res + 256 * c == 2 * v + c
            &&& kind == 1 ==> 2 * res + c == v + 256 * c
            &&& kind == 2 ==> res + 256 * c == 2 * v + cin
            &&& kind == 3 ==> 2 * res + c == v + 256 * cin
            &&& kind == 4 ==> res + 256 * c == 2 * v
            &&& kind == 5 ==> 2 * res + c == v + 256 * top
            &&& kind == 6 ==> res % 16 == v / 16 && res / 16 == v % 16 && c == 0
            &&& kind == 7 ==> 2 * res + c == v
        }),
{
    let res = shift_op(r, kind, v).0;
    let cf: bool = if kind == 0 || kind == 2 || kind == 4 {
        v >= 128
    } else if kind == 6 {
        false
    } else {
        v % 2 == 1
    };
    crate::registers::lemma_with_flags(r, res == 0, false, false, cf);
}

/// Whether `x` is a packed BCD byte: both nibbles are decimal digits.
pub open spec fn is_bcd(x: u8) -> bool {
    x / 16 <= 9 && x % 16 <= 9
}

/// The decimal value of the packed BCD byte `x`.
pub open spec fn bcd_value(x: u8) -> int {
    (x / 16) * 10 + x % 16
}

/// The packed BCD byte of `n` (0 to 99).
pub open spec fn bcd_byte(n: int) -> u8 {
    ((n / 10) * 16 + n % 10) as u8
}

/// ADD then DAA adds two packed BCD bytes in decimal: A holds the last two
/// digits of the sum, C is set when the sum reaches 100, Z follows A, and N
/// and H are clear. SUB then DAA subtracts in decimal: A holds the difference
/// modulo 100, C is set when it borrowed, Z follows A, N is set and H clear.
pub proof fn lemma_daa_decimal(r: Registers, y: u8)
    requires is_bcd(r.a), is_bcd(y),
    ensures
        ({
            let s = bcd_value(r.a) + bcd_value(y);
            let r2 = daa(alu(r, 0, y));
            &&& r2.a == bcd_byte(s % 100)
            &&& r2.cf() == (s >= 100)
            &&& r2.z() == (r2.a == 0)
            &&& !r2.n()
            &&& !r2.hf()
        }),
        ({
            let d = bcd_value(r.a) - bcd_value(y);
            let r2 = daa(alu(r, 2, y));
            &&& r2.a == bcd_byte((d + 100) % 100)
            &&& r2.cf() == (d < 0)
            &&& r2.z() == (r2.a == 0)
            &&& r2.n()
            &&& !r2.hf()
        }),
{
    let a = r.a;
    // addition
    let sum = ((a + y) % 256) as u8;
    let r1 = alu(r, 0, y);
    crate::registers::lemma_with_flags(Registers { a: sum, ..r }, sum == 0, false, a % 16 + y % 16 > 15, a + y > 255);
    assert(r1.a == sum && !r1.n() && r1.hf() == (a % 16 + y % 16 > 15) && r1.cf() == (a + y > 255));
    lemma_daa_add_digits(a as u16, y as u16);
    let r2 = daa(r1);
    let low = r1.hf() || sum % 16 > 9;
    let high = r1.cf() || sum > 0x99;
    let adj = (if low { 0x06int } else { 0 }) + (if high { 0x60int } else { 0 });
    let res = ((sum + adj) % 256) as u8;
    crate::registers::lemma_with_flags(Registers { a: res, ..r1 }, res == 0, r1.n(), false, high);
    // subtraction
    let dif = ((a - y + 256) % 256) as u8;
    let q1 = alu(r, 2, y);
    crate::registers::lemma_with_flags(Registers { a: dif, ..r }, dif == 0, true, y % 16 > a % 16, y > a);
    assert(q1.a == dif && q1.n() && q1.hf() == (y % 16 > a % 16) && q1.cf() == (y > a));
    lemma_daa_sub_digits(a as u16, y as u16);
    let sadj = (if q1.hf() { 0x06int } else { 0 }) + (if q1.cf() { 0x60int } else { 0 });
    let sres = ((dif - sadj + 256) % 256) as u8;
    crate::registers::lemma_with_flags(Registers { a: sres, ..q1 }, sres == 0, q1.n(), false, q1.cf());
}

/// The digit arithmetic of ADD then DAA, on 16-bit values.
proof fn lemma_daa_add_digits(a: u16, y: u16) by (bit_vector)
    requires a / 16 <= 9, a % 16 <= 9, y / 16 <= 9, y % 16 <= 9,
    ensures
        ({
            let sum: u16 = ((a + y) % 256) as u16;
            let low: bool = a % 16 + y % 16 > 15 || sum % 16 > 9;
            let high: bool = a + y > 255 || sum > 0x99;
            let adj: u16 = ((if low { 6u16 } else { 0u16 }) + (if high { 0x60u16 } else { 0u16 })) as u16;
            let s: u16 = ((a / 16) * 10 + a % 16 + (y / 16) * 10 + y % 16) as u16;
            &&& (sum + adj) % 256 == ((s % 100) / 10) * 16 + (s % 100) % 10
            &&& high == (s >= 100)
        }),
{
}

/// The digit arithmetic of SUB then DAA, on 16-bit values.
proof fn lemma_daa_sub_digits(a: u16, y: u16) by (bit_vector)
    requires a / 16 <= 9, a % 16 <= 9, y / 16 <= 9, y % 16 <= 9,
    ensures
        ({
            let dif: u16 = ((a + 256 - y) % 256) as u16;
            let adj: u16 = ((if y % 16 > a % 16 { 6u16 } else { 0u16 }) + (if y > a { 0x60u16 } else { 0u16 })) as u16;
            let d100: u16 = ((a / 16) * 10 + a % 16 + 100 - ((y / 16) * 10 + y % 16)) as u16;
            &&& (dif + 256 - adj) % 256 == ((d100 % 100) / 10) * 16 + (d100 % 100) % 10
            &&& (y > a) == (d100 < 100)
        }),
{
}

/// CPL: A is complemented; N and H are set.
pub open spec fn cpl(r: Registers) -> Registers {
    Registers { a: (255 - r.a) as u8, ..r }.with_flags(r.z(), true, true, r.cf())
}

/// SCF: the carry is set; N and H are cleared.
pub open spec fn scf(r: Registers) -> Registers {
    r.with_flags(r.z(), false, false, true)
}

/// CCF: the carry is complemented; N and H are cleared.
pub open spec fn ccf(r: Registers) -> Registers {
    r.with_flags(r.z(), false, false, !r.cf())
}

/// ADD HL, v: 16-bit add (wrapping); Z kept, N cleared, H from bit 11, C from bit 15.
pub open spec fn add_hl(r: Registers, v: u16) -> Registers {
    let hl = r.spec_hl();
    r.with_hl(((hl + v) % 65536) as u16)
        .with_flags(r.z(), false, hl % 4096 + v % 4096 > 4095, hl + v > 65535)
}

/// SP plus the signed offset `e` (wrapping), with the flags of ADD SP, e8 and
/// LD HL, SP+e8: Z and N cleared, H and C from the unsigned low-byte addition.
pub open spec fn sp_offset(r: Registers, e: u8) -> (u16, Registers) {
    let sp = r.sp;
    (((sp + sext(e)) % 65536) as u16, r.with_flags(false, false, sp % 16 + e % 16 > 15, sp % 256 + e > 255))
}

/// CPL makes A its complement (`a + a' == 255`) and sets N and H; SCF sets
/// C and CCF flips it, both clearing N and H; all three keep Z.
pub proof fn lemma_flag_ops(r: Registers)
    ensures
        r.a + cpl(r).a == 255 && cpl(r).n() && cpl(r).hf() && cpl(r).z() == r.z() && cpl(r).cf() == r.cf(),
        scf(r).cf() && !scf(r).n() && !scf(r).hf() && scf(r).z() == r.z() && scf(r).a == r.a,
        ccf(r).cf() == !r.cf() && !ccf(r).n() && !ccf(r).hf() && ccf(r).z() == r.z() && ccf(r).a == r.a,
{
    crate::registers::lemma_with_flags(Registers { a: (255 - r.a) as u8, ..r }, r.z(), true, true, r.cf());
    crate::registers::lemma_with_flags(r, r.z(), false, false, true);
    crate::registers::lemma_with_flags(r, r.z(), false, false, !r.cf());
}

/// ADD HL, v adds in 16 bits: `hl' + 65536c == hl + v`, H is the carry out
/// of bit 11, N is cleared and Z kept.
pub proof fn lemma_add_hl_law(r: Registers, v: u16)
    ensures
        ({
            let r2 = add_hl(r, v);
            let c: int = if r2.cf() { 1 } else { 0 };
            &&& r2.spec_hl() + 65536 * c == r.spec_hl() + v
            &&& r2.hf() == (r.spec_hl() % 4096 + v % 4096 >= 4096)
            &&& !r2.n() && r2.z() == r.z()
        }),
{
    let hl = r.spec_hl();
    let nhl = ((hl + v) % 65536) as u16;
    let r1 = r.with_hl(nhl);
    crate::registers::lemma_pair_roundtrip(nhl);
    assert(r1.spec_hl() == nhl);
    crate::registers::lemma_with_flags(r1, r.z(), false, hl % 4096 + v % 4096 > 4095, hl + v > 65535);
    let r2 = r1.with_flags(r.z(), false, hl % 4096 + v % 4096 > 4095, hl + v > 65535);
    assert(r2.h == r1.h && r2.l == r1.l);
}

/// SP plus a signed offset `e` moves SP by `e` (as -128..127, wrapping) with
/// Z and N clear and H and C the carries of the unsigned low-byte addition.
pub proof fn lemma_sp_offset_law(r: Registers, e: u8)
    ensures
        ({
            let (sp2, r3) = sp_offset(r, e);
            let off: int = if e < 128 { e as int } else { e - 256 };
            &&& sp2 == (r.sp + off + 65536) % 65536
            &&& !r3.z() && !r3.n()
            &&& r3.hf() == (r.sp % 16 + e % 16 >= 16)
            &&& r3.cf() == (r.sp % 256 + e >= 256)
        }),
{
    crate::registers::lemma_with_flags(r, false, false, r.sp % 16 + e % 16 > 15, r.sp % 256 + e > 255);
}

/// The value `v` with bit `n` set.
pub open spec fn set_bit_of(n: u8, v: u8) -> u8 {
    v | (1u8 << n)
}

/// The value `v` with bit `n` cleared.
pub open spec fn res_bit_of(n: u8, v: u8) -> u8 {
    v & !(1u8 << n)
}

/// BIT n, v: Z is set when bit `n` of `v` is clear; N cleared, H set, C kept.
pub open spec fn bit_test(r: Registers, n: u8, v: u8) -> Registers {
    r.with_flags(v & (1u8 << n) == 0, false, true, r.cf())
}

/// RRC undoes RLC and RLC undoes RRC; SWAP undoes itself.
pub proof fn lemma_rotate_inverses(r: Registers, r2: Registers, v: u8)
    ensures
        shift_op(r2, 1, shift_op(r, 0, v).0).0 == v,
        shift_op(r2, 0, shift_op(r, 1, v).0).0 == v,
        shift_op(r2, 6, shift_op(r, 6, v).0).0 == v,
{
    let a = shift_op(r, 0, v).0;
    let b = shift_op(r, 1, v).0;
    let w = shift_op(r, 6, v).0;
    lemma_shift_forms(v, 0);
    lemma_shift_forms(a, 0);
    lemma_shift_forms(b, 0);
    lemma_shift_forms(w, 0);
    lemma_rotate_inverse_bv(v);
}

proof fn lemma_rotate_inverse_bv(v: u8) by (bit_vector)
    ensures
        ((((v << 1u8) | ((v & 0x80u8) >> 7u8)) >> 1u8) | ((((v << 1u8) | ((v & 0x80u8) >> 7u8)) & 0x01u8) << 7u8)) == v,
        ((((v >> 1u8) | ((v & 0x01u8) << 7u8)) << 1u8) | ((((v >> 1u8) | ((v & 0x01u8) << 7u8)) & 0x80u8) >> 7u8)) == v,
        ((((v << 4u8) | (v >> 4u8)) << 4u8) | (((v << 4u8) | (v >> 4u8)) >> 4u8)) == v,
{
}

/// CPL twice gives A back; SUB of a value undoes ADD of it.
pub proof fn lemma_accumulator_inverses(r: Registers, v: u8)
    ensures
        cpl(cpl(r)).a == r.a,
        alu(alu(r, 0, v), 2, v).a == r.a,
{
    let a = r.a;
    let r1 = alu(r, 0, v);
    let s1 = ((a + v) % 256) as u8;
    assert(r1.a == s1);
    if a + v < 256 {
        assert(s1 == a + v);
    } else {
        assert(s1 == a + v - 256);
    }
    assert(((s1 - v + 256) % 256) as u8 == a);
    assert(alu(r1, 2, v).a == ((r1.a - v + 256) % 256) as u8);
    assert(cpl(r).a == (255 - a) as u8);
}

/// BIT after SET finds the bit set; BIT after RES finds it clear.
pub proof fn lemma_bit_after_set_res(r: Registers, n: u8, v: u8)
    requires n < 8,
    ensures
        !bit_test(r, n, set_bit_of(n, v)).z(),
        bit_test(r, n, res_bit_of(n, v)).z(),
{
    lemma_set_res_bv(n, v);
    crate::registers::lemma_with_flags(r, set_bit_of(n, v) & (1u8 << n) == 0, false, true, r.cf());
    crate::registers::lemma_with_flags(r, res_bit_of(n, v) & (1u8 << n) == 0, false, true, r.cf());
}

proof fn lemma_set_res_bv(n: u8, v: u8) by (bit_vector)
    requires n < 8u8,
    ensures
        (v | (1u8 << n)) & (1u8 << n) != 0u8,
        (v & !(1u8 << n)) & (1u8 << n) == 0u8,
{
}

/// The arithmetic meaning of the shifts and masks the instructions use.
pub proof fn lemma_byte_ops(v: u8)
    ensures
        v & 0x0F == v % 16,
        v & 0x80 == (v / 128) * 128,
        v & 0x01 == v % 2,
        v << 1u8 == (v * 2) % 256,
        v >> 1u8 == v / 2,
        v >> 4u8 == v / 16,
        v << 4u8 == (v % 16) * 16,
        (v & 0x80) >> 7u8 == v / 128,
        (v & 0x01) << 7u8 == (v % 2) * 128,
        !v == 255 - v,
{
    lemma_byte_ops_bv(v);
}

/// The shift-and-or forms of the rotates and shifts equal their arithmetic
/// definitions; `c` is a carry bit.
pub proof fn lemma_shift_forms(v: u8, c: u8)
    requires c <= 1,
    ensures
        (v << 1u8) | ((v & 0x80u8) >> 7u8) == ((v * 2) % 256 + v / 128) as u8,
        (v >> 1u8) | ((v & 0x01u8) << 7u8) == (v / 2 + (v % 2) * 128) as u8,
        (v << 1u8) | c == ((v * 2) % 256 + c) as u8,
        (v >> 1u8) | (c << 7u8) == (v / 2 + c * 128) as u8,
        (v << 4u8) | (v >> 4u8) == ((v % 16) * 16 + v / 16) as u8,
        (v >> 1u8) | (v & 0x80u8) == (v / 2 + (v / 128) * 128) as u8,
{
    lemma_rlc_bv(v);
    lemma_rrc_bv(v);
    lemma_swap_bv(v);
    lemma_rl_bv(v, c);
    lemma_rr_bv(v, c);
    lemma_sra_bv(v);
}

proof fn lemma_rlc_bv(v: u8) by (bit_vector)
    ensures (v << 1u8) | ((v & 0x80u8) >> 7u8) == ((v * 2) % 256 + v / 128) as u8,
{
}

proof fn lemma_rrc_bv(v: u8) by (bit_vector)
    ensures (v >> 1u8) | ((v & 0x01u8) << 7u8) == (v / 2 + (v % 2) * 128) as u8,
{
}

proof fn lemma_swap_bv(v: u8) by (bit_vector)
    ensures (v << 4u8) | (v >> 4u8) == ((v % 16) * 16 + v / 16) as u8,
{
}

proof fn lemma_rl_bv(v: u8, c: u8) by (bit_vector)
    requires c <= 1u8,
    ensures (v << 1u8) | c == ((v * 2) % 256 + c) as u8,
{
}

proof fn lemma_rr_bv(v: u8, c: u8) by (bit_vector)
    requires c <= 1u8,
    ensures (v >> 1u8) | (c << 7u8) == (v / 2 + c * 128) as u8,
{
}

proof fn lemma_sra_bv(v: u8) by (bit_vector)
    ensures (v >> 1u8) | (v & 0x80u8) == (v / 2 + (v / 128) * 128) as u8,
{
}

proof fn lemma_byte_ops_bv(v: u8) by (bit_vector)
    ensures
        v & 0x0Fu8 == v % 16,
        v & 0x80u8 == ((v / 128) * 128) as u8,
        v & 0x01u8 == v % 2,
        v << 1u8 == ((v * 2) % 256) as u8,
        v >> 1u8 == v / 2,
        v >> 4u8 == v / 16,
        v << 4u8 == ((v % 16) * 16) as u8,
        (v & 0x80u8) >> 7u8 == v / 128,
        (v & 0x01u8) << 7u8 == ((v % 2) * 128) as u8,
        !v == (255 - v) as u8,
{
}

} // verus!
