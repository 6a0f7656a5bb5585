use vstd::prelude::*;

verus! {

/// Whether bit `i` of `x` is set.
pub open spec fn bit_of(x: u8, i: u8) -> bool {
    x & (1u8 << i) != 0
}

/// The 16-bit value whose high byte is `hi` and low byte is `lo`.
pub open spec fn pair(hi: u8, lo: u8) -> u16 {
    (hi as int * 256 + lo as int) as u16
}

/// SM83 CPU registers for the Game Boy Color.
#[derive(Clone, Copy, PartialEq, Eq, Structural)]
pub struct Registers {
    pub a: u8,
    pub b: u8,
    pub c: u8,
    pub d: u8,
    pub e: u8,
    /// Flags register. Only the upper 4 bits (Z, N, H, C) are used.
    pub f: u8,
    pub h: u8,
    pub l: u8,
    /// Stack pointer.
    pub sp: u16,
    /// Program counter.
    pub pc: u16,
}

impl Registers {
    /// The Zero flag: bit 7 of F.
    pub open spec fn z(self) -> bool { bit_of(self.f, 7) }
    /// The Subtract flag: bit 6 of F.
    pub open spec fn n(self) -> bool { bit_of(self.f, 6) }
    /// The Half-carry flag: bit 5 of F.
    pub open spec fn hf(self) -> bool { bit_of(self.f, 5) }
    /// The Carry flag: bit 4 of F.
    pub open spec fn cf(self) -> bool { bit_of(self.f, 4) }

    pub open spec fn spec_af(self) -> u16 { pair(self.a, self.f) }
    pub open spec fn spec_bc(self) -> u16 { pair(self.b, self.c) }
    pub open spec fn spec_de(self) -> u16 { pair(self.d, self.e) }
    pub open spec fn spec_hl(self) -> u16 { pair(self.h, self.l) }

    /// The registers with the flags Z, N, H, C of F set to `z`, `n`, `h`, `c`
    /// (the low nibble of F is kept).
    pub open spec fn with_flags(self, z: bool, n: bool, h: bool, c: bool) -> Registers {
        Registers { f: (self.f & 0x0F) | flags_byte(z, n, h, c), ..self }
    }

    /// The registers with AF set to `v`: the low nibble of F always reads zero.
    pub open spec fn with_af(self, v: u16) -> Registers {
        Registers { a: (v / 256) as u8, f: ((v % 256) as u8) & 0xF0, ..self }
    }

    /// The registers with BC set to `v`.
    pub open spec fn with_bc(self, v: u16) -> Registers {
        Registers { b: (v / 256) as u8, c: (v % 256) as u8, ..self }
    }

    /// The registers with DE set to `v`.
    pub open spec fn with_de(self, v: u16) -> Registers {
        Registers { d: (v / 256) as u8, e: (v % 256) as u8, ..self }
    }

    /// The registers with HL set to `v`.
    pub open spec fn with_hl(self, v: u16) -> Registers {
        Registers { h: (v / 256) as u8, l: (v % 256) as u8, ..self }
    }

    /// The initial register values: CGB post-boot state.
    pub fn new() -> (r: Self)
        ensures
            r == (Registers { a: 0x11, b: 0x00, c: 0x00, d: 0xFF, e: 0x56, f: 0x80, h: 0x00, l: 0x0D, sp: 0xFFFE, pc: 0x0100 }),
    {
        Registers {
            a: 0x11,
            b: 0x00,
            c: 0x00,
            d: 0xFF,
            e: 0x56,
            f: 0x80,
            h: 0x00,
            l: 0x0D,
            sp: 0xFFFE,
            pc: 0x0100,
        }
    }

    /// Read the AF register pair.
    pub fn af(&self) -> (r: u16)
        ensures r == self.spec_af(),
    {
        (self.a as u16) * 256 + self.f as u16
    }

    /// Read the BC register pair.
    pub fn bc(&self) -> (r: u16)
        ensures r == self.spec_bc(),
    {
        (self.b as u16) * 256 + self.c as u16
    }

    /// Read the DE register pair.
    pub fn de(&self) -> (r: u16)
        ensures r == self.spec_de(),
    {
        (self.d as u16) * 256 + self.e as u16
    }

    /// Read the HL register pair.
    pub fn hl(&self) -> (r: u16)
        ensures r == self.spec_hl(),
    {
        (self.h as u16) * 256 + self.l as u16
    }

    /// Write to the AF register pair. The lower 4 bits of F are always 0.
    pub fn set_af(&mut self, val: u16)
        ensures
            *final(self) == old(self).with_af(val),
    {
        self.a = (val / 256) as u8;
        self.f = ((val % 256) as u8) & 0xF0;
    }

    /// Write to the BC register pair.
    pub fn set_bc(&mut self, val: u16)
        ensures
            *final(self) == old(self).with_bc(val),
    {
        self.b = (val / 256) as u8;
        self.c = (val % 256) as u8;
    }

    /// Write to the DE register pair.
    pub fn set_de(&mut self, val: u16)
        ensures
            *final(self) == old(self).with_de(val),
    {
        self.d = (val / 256) as u8;
        self.e = (val % 256) as u8;
    }

    /// Write to the HL register pair.
    pub fn set_hl(&mut self, val: u16)
        ensures
            *final(self) == old(self).with_hl(val),
    {
        self.h = (val / 256) as u8;
        self.l = (val % 256) as u8;
    }

    /// Get the Zero flag (bit 7 of F).
    pub fn get_z(&self) -> (r: bool)
        ensures r == self.z(),
    {
        (self.f & (1u8 << 7u8)) != 0
    }

    /// Get the Subtract flag (bit 6 of F).
    pub fn get_n(&self) -> (r: bool)
        ensures r == self.n(),
    {
        (self.f & (1u8 << 6u8)) != 0
    }

    /// Get the Half-carry flag (bit 5 of F).
    pub fn get_h(&self) -> (r: bool)
        ensures r == self.hf(),
    {
        (self.f & (1u8 << 5u8)) != 0
    }

    /// Get the Carry flag (bit 4 of F).
    pub fn get_c(&self) -> (r: bool)
        ensures r == self.cf(),
    {
        (self.f & (1u8 << 4u8)) != 0
    }

    /// Set the Zero flag (bit 7 of F).
    pub fn set_z(&mut self, val: bool)
        ensures
            *final(self) == (Registers { f: set_bit(old(self).f, 7, val), ..*old(self) }),
    {
        self.f = set_bit_exec(self.f, 7, val);
    }

    /// Set the Subtract flag (bit 6 of F).
    pub fn set_n(&mut self, val: bool)
        ensures
            *final(self) == (Registers { f: set_bit(old(self).f, 6, val), ..*old(self) }),
    {
        self.f = set_bit_exec(self.f, 6, val);
    }

    /// Set the Half-carry flag (bit 5 of F).
    pub fn set_h(&mut self, val: bool)
        ensures
            *final(self) == (Registers { f: set_bit(old(self).f, 5, val), ..*old(self) }),
    {
        self.f = set_bit_exec(self.f, 5, val);
    }

    /// Set the Carry flag (bit 4 of F).
    pub fn set_c(&mut self, val: bool)
        ensures
            *final(self) == (Registers { f: set_bit(old(self).f, 4, val), ..*old(self) }),
    {
        self.f = set_bit_exec(self.f, 4, val);
    }

    /// Set all four flags at once, keeping the low nibble of F.
    pub(crate) fn set_flags(&mut self, z: bool, n: bool, h: bool, c: bool)
        ensures
            *final(self) == old(self).with_flags(z, n, h, c),
    {
        let fz: u8 = if z { 0x80 } else { 0 };
        let fsub: u8 = if n { 0x40 } else { 0 };
        let fh: u8 = if h { 0x20 } else { 0 };
        let fc: u8 = if c { 0x10 } else { 0 };
        self.f = (self.f & 0x0F) | (fz | fsub | fh | fc);
    }
}

/// `x` with bit `i` set to `v`.
pub open spec fn set_bit(x: u8, i: u8, v: bool) -> u8 {
    (x & !(1u8 << i)) | ((if v { 1u8 } else { 0u8 }) << i)
}

/// The flags byte with Z, N, H, C in bits 7..4 and a zero low nibble.
pub open spec fn flags_byte(z: bool, n: bool, h: bool, c: bool) -> u8 {
    ((if z { 0x80u8 } else { 0u8 }) | (if n { 0x40u8 } else { 0u8 })
        | (if h { 0x20u8 } else { 0u8 }) | (if c { 0x10u8 } else { 0u8 }))
}

fn set_bit_exec(x: u8, i: u8, v: bool) -> (r: u8)
    requires i < 8,
    ensures r == set_bit(x, i, v),
{
    let vb: u8 = if v { 1 } else { 0 };
    (x & !(1u8 << i)) | (vb << i)
}

/// A register pair is the high byte times 256 plus the low byte.
pub proof fn lemma_pair_value(hi: u8, lo: u8)
    ensures pair(hi, lo) == hi * 256 + lo,
{
}

/// Writing a register pair and reading it back gives the written value;
/// for AF the low nibble of F reads back as zero.
pub proof fn lemma_pair_roundtrip(val: u16)
    ensures
        pair((val / 256) as u8, (val % 256) as u8) == val,
        pair((val / 256) as u8, ((val % 256) as u8) & 0xF0) == val & 0xFFF0,
{
    lemma_low_nibble_mask(val);
}

proof fn lemma_low_nibble_mask(val: u16) by (bit_vector)
    ensures
        ((val / 256) as u8 as int * 256 + (((val % 256) as u8) & 0xF0u8) as int) as u16 == val & 0xFFF0u16,
{
}

/// Setting the four flags at once makes each read back as set and keeps the
/// low nibble of F.
pub proof fn lemma_with_flags(r: Registers, z: bool, n: bool, h: bool, c: bool)
    ensures
        r.with_flags(z, n, h, c).z() == z,
        r.with_flags(z, n, h, c).n() == n,
        r.with_flags(z, n, h, c).hf() == h,
        r.with_flags(z, n, h, c).cf() == c,
        r.with_flags(z, n, h, c).f & 0x0F == r.f & 0x0F,
{
    lemma_flags_bv(r.f, z, n, h, c);
}

proof fn lemma_flags_bv(f: u8, z: bool, n: bool, h: bool, c: bool) by (bit_vector)
    ensures
        ((f & 0x0Fu8) | ((if z { 0x80u8 } else { 0u8 }) | (if n { 0x40u8 } else { 0u8 })
            | (if h { 0x20u8 } else { 0u8 }) | (if c { 0x10u8 } else { 0u8 }))) & (1u8 << 7u8) != 0 <==> z,
        ((f & 0x0Fu8) | ((if z { 0x80u8 } else { 0u8 }) | (if n { 0x40u8 } else { 0u8 })
            | (if h { 0x20u8 } else { 0u8 }) | (if c { 0x10u8 } else { 0u8 }))) & (1u8 << 6u8) != 0 <==> n,
        ((f & 0x0Fu8) | ((if z { 0x80u8 } else { 0u8 }) | (if n { 0x40u8 } else { 0u8 })
            | (if h { 0x20u8 } else { 0u8 }) | (if c { 0x10u8 } else { 0u8 }))) & (1u8 << 5u8) != 0 <==> h,
        ((f & 0x0Fu8) | ((if z { 0x80u8 } else { 0u8 }) | (if n { 0x40u8 } else { 0u8 })
            | (if h { 0x20u8 } else { 0u8 }) | (if c { 0x10u8 } else { 0u8 }))) & (1u8 << 4u8) != 0 <==> c,
        ((f & 0x0Fu8) | ((if z { 0x80u8 } else { 0u8 }) | (if n { 0x40u8 } else { 0u8 })
            | (if h { 0x20u8 } else { 0u8 }) | (if c { 0x10u8 } else { 0u8 }))) & 0x0Fu8 == f & 0x0Fu8,
{
}

/// Setting a flag to `v` makes it read back as `v`, leaves the other bits of F
/// alone, and keeps the low nibble of F as it was.
pub proof fn lemma_set_bit(x: u8, i: u8, v: bool)
    requires i < 8,
    ensures
        bit_of(set_bit(x, i, v), i) == v,
        forall|j: u8| j < 8 && j != i ==> #[trigger] bit_of(set_bit(x, i, v), j) == bit_of(x, j),
        4 <= i ==> set_bit(x, i, v) & 0x0F == x & 0x0F,
{
    lemma_set_bit_bv(x, i, v);
}

proof fn lemma_set_bit_bv(x: u8, i: u8, v: bool) by (bit_vector)
    requires i < 8u8,
    ensures
        ((x & !(1u8 << i)) | ((if v { 1u8 } else { 0u8 }) << i)) & (1u8 << i) != 0 <==> v,
        forall|j: u8| #![trigger (x & (1u8 << j))] j < 8u8 && j != i ==>
            ((((x & !(1u8 << i)) | ((if v { 1u8 } else { 0u8 }) << i)) & (1u8 << j) != 0) <==> (x & (1u8 << j) != 0)),
        4u8 <= i ==> ((x & !(1u8 << i)) | ((if v { 1u8 } else { 0u8 }) << i)) & 0x0Fu8 == x & 0x0Fu8,
{
}

} // verus!
