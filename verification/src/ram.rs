use vstd::prelude::*;

verus! {

/// Flat 64 KiB memory addressed by the whole 16-bit address space.
pub struct Ram {
    memory: Vec<u8>,
}

impl View for Ram {
    type V = Seq<u8>;

    closed spec fn view(&self) -> Seq<u8> {
        self.memory@
    }
}

impl Ram {
    /// Every 16-bit address has a byte.
    #[verifier::type_invariant]
    closed spec fn wf(&self) -> bool {
        self.memory@.len() == 65536
    }

    /// A zeroed memory.
    pub fn new() -> (r: Self)
        ensures
            r@.len() == 65536,
            r@ == Seq::new(65536, |i: int| 0u8),
    {
        let r = Ram { memory: vec![0u8; 65536] };
        assert(r@ =~= Seq::new(65536, |i: int| 0u8));
        r
    }

    /// Read the byte at the given address.
    pub fn read(&self, address: u16) -> (r: u8)
        ensures self@.len() == 65536, r == self@[address as int],
    {
        proof { use_type_invariant(self); }
        self.memory[address as usize]
    }

    /// Write a byte to the given address.
    pub fn write(&mut self, address: u16, byte: u8)
        ensures
            old(self)@.len() == 65536,
            final(self)@ == old(self)@.update(address as int, byte),
    {
        proof { use_type_invariant(&*self); }
        self.memory[address as usize] = byte;
    }

    /// Write a 16-bit value little-endian: the low byte at `address`, the high
    /// byte at the next address (wrapping from 0xFFFF to 0x0000).
    pub fn write_u16(&mut self, address: u16, val: u16)
        ensures
            old(self)@.len() == 65536,
            final(self)@ == old(self)@.update(address as int, (val % 256) as u8)
                .update(((address + 1) % 65536) as int, (val / 256) as u8),
    {
        proof { use_type_invariant(&*self); }
        self.write(address, (val % 256) as u8);
        self.write(address.wrapping_add(1), (val / 256) as u8);
    }
}

/// Reading an address of the memory after writing to it gives the written byte,
/// and the other addresses keep their bytes.
pub proof fn lemma_ram_read_after_write(m: Seq<u8>, a: u16, b: u8, other: u16)
    requires m.len() == 65536,
    ensures
        m.update(a as int, b)[a as int] == b,
        other != a ==> m.update(a as int, b)[other as int] == m[other as int],
{
}

} // verus!
