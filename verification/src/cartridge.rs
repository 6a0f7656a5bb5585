use vstd::prelude::*;
use std::time::Instant;
use crate::clock::{instant_now, instant_elapsed, duration_secs};

verus! {

/// The real-time clock registers of an MBC3 cartridge.
#[derive(Clone, Copy, PartialEq, Eq, Structural)]
pub struct Rtc {
    pub s: u8,
    pub m: u8,
    pub h: u8,
    pub dl: u8,
    pub dh: u8,
}

/// The abstract state of a cartridge: everything but the wall-clock anchor of the RTC.
#[verifier::ext_equal]
pub struct CartView {
    pub rom: Seq<u8>,
    pub ram: Seq<u8>,
    pub bank: u16,
    pub ram_bank: u8,
    pub ram_enabled: bool,
    pub mbc_type: u8,
    pub cgb_mode: bool,
    pub rtc: Rtc,
    pub rtc_latch_prev: u8,
}

/// Whether the MBC type byte names an MBC5 cartridge.
pub open spec fn is_mbc5(mbc_type: u8) -> bool {
    0x19 <= mbc_type <= 0x1E
}

/// The byte of `s` at `i`, or 0xFF where `s` has no such byte.
pub open spec fn byte_or_ff(s: Seq<u8>, i: int) -> u8 {
    if 0 <= i < s.len() { s[i] } else { 0xFF }
}

/// The RTC registers after latching when `elapsed` seconds passed since the
/// last latch. A halted clock (bit 6 of DH) keeps its registers; otherwise the
/// total seconds (wrapping at 2^64) are split into days, hours, minutes and
/// seconds, the day counter keeps 9 bits and bit 7 of DH records a day overflow.
pub open spec fn rtc_latched(r: Rtc, elapsed: u64) -> Rtc {
    if r.dh & 0x40 != 0 {
        r
    } else {
        let days_before = r.dl as int + (r.dh % 2) as int * 256;
        let total = ((elapsed + r.s + r.m * 60 + r.h * 3600 + days_before * 86400) % 0x1_0000_0000_0000_0000) as u64;
        let days = total / 86400;
        let rest = total % 86400;
        let dh1 = (r.dh & 0xFE) | ((days / 256) % 2) as u8;
        Rtc {
            h: (rest / 3600) as u8,
            m: ((rest % 3600) / 60) as u8,
            s: ((rest % 3600) % 60) as u8,
            dl: (days % 256) as u8,
            dh: if days > 511 { dh1 | 0x80 } else { dh1 },
        }
    }
}

/// Whether a write of `byte` to `addr` latches the RTC.
pub open spec fn latches(c: CartView, addr: u16, byte: u8) -> bool {
    0x6000 <= addr <= 0x7FFF && c.rtc_latch_prev == 0 && byte == 1
}

/// The ROM bank after a write of `byte` to the bank register at `addr`.
pub open spec fn bank_after(c: CartView, addr: u16, byte: u8) -> u16 {
    if is_mbc5(c.mbc_type) {
        if addr < 0x3000 {
            (c.bank & 0x100) | byte as u16
        } else {
            (c.bank & 0xFF) | ((byte as u16 & 0x01) << 1u16 << 7u16)
        }
    } else {
        let mask: u8 = if 0x01 <= c.mbc_type <= 0x03 { 0x1F } else if 0x0F <= c.mbc_type <= 0x13 { 0x7F } else { 0xFF };
        let b = (byte & mask) as u16;
        if b == 0 { 1 } else { b }
    }
}

impl CartView {
    /// What a read of the ROM area (0x0000-0x7FFF) gives.
    pub open spec fn read(self, addr: u16) -> u8 {
        if addr <= 0x3FFF {
            byte_or_ff(self.rom, addr as int)
        } else if addr <= 0x7FFF {
            byte_or_ff(self.rom, self.bank * 0x4000 + (addr - 0x4000))
        } else {
            0xFF
        }
    }

    /// The index into external RAM for `addr` in the current RAM bank.
    pub open spec fn ram_index(self, addr: u16) -> int {
        self.ram_bank * 0x2000 + (addr - 0xA000)
    }

    /// What a read of the external RAM / RTC area (0xA000-0xBFFF) gives.
    pub open spec fn read_ram(self, addr: u16) -> u8 {
        if !self.ram_enabled {
            0xFF
        } else if self.ram_bank <= 3 {
            byte_or_ff(self.ram, self.ram_index(addr))
        } else if self.ram_bank == 0x08 {
            self.rtc.s
        } else if self.ram_bank == 0x09 {
            self.rtc.m
        } else if self.ram_bank == 0x0A {
            self.rtc.h
        } else if self.ram_bank == 0x0B {
            self.rtc.dl
        } else if self.ram_bank == 0x0C {
            self.rtc.dh
        } else {
            0xFF
        }
    }

    /// The cartridge after a write of `byte` to the ROM area (the MBC control
    /// registers), where `elapsed` is the clock reading used if the RTC latches.
    pub open spec fn write(self, addr: u16, byte: u8, elapsed: u64) -> CartView {
        if addr <= 0x1FFF {
            CartView { ram_enabled: byte & 0x0F == 0x0A, ..self }
        } else if addr <= 0x3FFF {
            CartView { bank: bank_after(self, addr, byte), ..self }
        } else if addr <= 0x5FFF {
            CartView { ram_bank: if is_mbc5(self.mbc_type) { byte & 0x0F } else { byte }, ..self }
        } else if addr <= 0x7FFF {
            let rtc = if latches(self, addr, byte) { rtc_latched(self.rtc, elapsed) } else { self.rtc };
            CartView { rtc, rtc_latch_prev: byte, ..self }
        } else {
            self
        }
    }

    /// The cartridge after a write of `byte` to the external RAM / RTC area.
    pub open spec fn write_ram(self, addr: u16, byte: u8) -> CartView {
        if !self.ram_enabled {
            self
        } else if self.ram_bank <= 3 {
            let i = self.ram_index(addr);
            if 0 <= i < self.ram.len() { CartView { ram: self.ram.update(i, byte), ..self } } else { self }
        } else if self.ram_bank == 0x08 {
            CartView { rtc: Rtc { s: byte, ..self.rtc }, ..self }
        } else if self.ram_bank == 0x09 {
            CartView { rtc: Rtc { m: byte, ..self.rtc }, ..self }
        } else if self.ram_bank == 0x0A {
            CartView { rtc: Rtc { h: byte, ..self.rtc }, ..self }
        } else if self.ram_bank == 0x0B {
            CartView { rtc: Rtc { dl: byte, ..self.rtc }, ..self }
        } else if self.ram_bank == 0x0C {
            CartView { rtc: Rtc { dh: byte, ..self.rtc }, ..self }
        } else {
            self
        }
    }
}

/// The ROM bank register arithmetic: masks as remainders, and MBC5's two
/// halves of the 9-bit bank number.
proof fn lemma_bank_mask_bits(byte: u8) by (bit_vector)
    ensures
        byte & 0x1Fu8 == (byte % 32u8) as u8,
        byte & 0x7Fu8 == (byte % 128u8) as u8,
        byte & 0xFFu8 == byte,
{
}

proof fn lemma_mbc5_low_bits(byte: u8, bank: u16) by (bit_vector)
    ensures
        (bank & 0x100u16) | (byte as u16) == ((bank / 256u16 % 2u16) * 256u16 + (byte as u16)) as u16,
{
}

proof fn lemma_mbc5_high_bits(byte: u8, bank: u16) by (bit_vector)
    ensures
        (bank & 0xFFu16) | (((byte as u16) & 0x01u16) << 1u16 << 7u16) == (((byte as u16) % 2u16) * 256u16 + bank % 256u16) as u16,
{
}

/// ROM bank switching: a write of `byte` to 0x2000-0x3FFF selects the ROM
/// bank that 0x4000-0x7FFF then shows, while 0x0000-0x3FFF stays bank 0.
/// MBC1 takes the low 5 bits of the byte and MBC3 the low 7, each turning
/// bank 0 into bank 1; MBC5 sets the low 8 bits of its 9-bit bank number at
/// 0x2000-0x2FFF and bit 8 at 0x3000-0x3FFF; other cartridges take the
/// whole byte, 0 meaning 1. A read past the end of the ROM gives 0xFF.
pub proof fn lemma_rom_banking(c: CartView, addr: u16, byte: u8, t: u64, off: u16)
    requires 0x2000 <= addr <= 0x3FFF, off < 0x4000,
    ensures
        ({
            let bank: int = if 0x01 <= c.mbc_type <= 0x03 {
                if byte % 32 == 0 { 1 } else { (byte % 32) as int }
            } else if 0x0F <= c.mbc_type <= 0x13 {
                if byte % 128 == 0 { 1 } else { (byte % 128) as int }
            } else if 0x19 <= c.mbc_type <= 0x1E {
                if addr < 0x3000 { (c.bank / 256 % 2) * 256 + byte } else { (byte % 2) * 256 + c.bank % 256 }
            } else {
                if byte == 0 { 1 } else { byte as int }
            };
            let c2 = c.write(addr, byte, t);
            let i = bank * 0x4000 + off;
            &&& c2.read((0x4000 + off) as u16) == (if i < c.rom.len() { c.rom[i] } else { 0xFF })
            &&& c2.read(off) == (if off < c.rom.len() { c.rom[off as int] } else { 0xFF })
        }),
{
    lemma_bank_mask_bits(byte);
    lemma_mbc5_low_bits(byte, c.bank);
    lemma_mbc5_high_bits(byte, c.bank);
}

/// External RAM: a write to 0x0000-0x1FFF enables it exactly when the low
/// nibble is 0xA; a write to 0x4000-0x5FFF selects the RAM bank (MBC5 keeps
/// the low 4 bits). While RAM is enabled and bank 0-3 is selected,
/// 0xA000-0xBFFF reads the bytes of that 8 KiB bank (0xFF past the end of the
/// RAM) and a write there is read back; banks 8-0x0C read the RTC seconds,
/// minutes, hours and day counter. Disabled RAM reads 0xFF and ignores writes.
pub proof fn lemma_external_ram(c: CartView, addr: u16, byte: u8, t: u64, off: u16, x: u8)
    requires off < 0x2000,
    ensures
        addr <= 0x1FFF ==> c.write(addr, byte, t).ram_enabled == (byte % 16 == 10),
        0x4000 <= addr <= 0x5FFF ==> c.write(addr, byte, t).ram_bank == (if 0x19 <= c.mbc_type <= 0x1E { byte % 16 } else { byte }),
        ({
            let a = (0xA000 + off) as u16;
            let i = c.ram_bank * 0x2000 + off;
            &&& !c.ram_enabled ==> c.read_ram(a) == 0xFF && c.write_ram(a, x) == c
            &&& c.ram_enabled && c.ram_bank <= 3 ==> c.read_ram(a) == (if i < c.ram.len() { c.ram[i] } else { 0xFF })
            &&& c.ram_enabled && c.ram_bank <= 3 && i < c.ram.len() ==> c.write_ram(a, x).read_ram(a) == x
            &&& c.ram_enabled && c.ram_bank == 0x08 ==> c.read_ram(a) == c.rtc.s
            &&& c.ram_enabled && c.ram_bank == 0x09 ==> c.read_ram(a) == c.rtc.m
            &&& c.ram_enabled && c.ram_bank == 0x0A ==> c.read_ram(a) == c.rtc.h
            &&& c.ram_enabled && c.ram_bank == 0x0B ==> c.read_ram(a) == c.rtc.dl
            &&& c.ram_enabled && c.ram_bank == 0x0C ==> c.read_ram(a) == c.rtc.dh
        }),
{
    lemma_low_nibble(byte);
}

proof fn lemma_low_nibble(byte: u8) by (bit_vector)
    ensures byte & 0x0Fu8 == byte % 16,
{
}

/// A write that does not latch the RTC does not depend on the clock reading.
pub proof fn lemma_write_clock_free(c: CartView, addr: u16, byte: u8, t1: u64, t2: u64)
    requires !latches(c, addr, byte),
    ensures c.write(addr, byte, t1) == c.write(addr, byte, t2),
{
}

/// Cartridge with MBC1/MBC3/MBC5 support. Handles ROM/RAM banking and the RTC.
pub struct Cartridge {
    rom: Vec<u8>,
    pub ram: Vec<u8>,
    /// Current ROM bank mapped to 0x4000-0x7FFF.
    bank: u16,
    /// Current RAM bank or RTC register select mapped to 0xA000-0xBFFF.
    ram_bank: u8,
    /// Whether external RAM/RTC is accessible.
    ram_enabled: bool,
    /// MBC type from the cartridge header (0x0147).
    mbc_type: u8,
    pub cgb_mode: bool,
    rtc_s: u8,
    rtc_m: u8,
    rtc_h: u8,
    rtc_dl: u8,
    rtc_dh: u8,
    rtc_latch_prev: u8,
    rtc_start: Instant,
}

impl View for Cartridge {
    type V = CartView;

    closed spec fn view(&self) -> CartView {
        CartView {
            rom: self.rom@,
            ram: self.ram@,
            bank: self.bank,
            ram_bank: self.ram_bank,
            ram_enabled: self.ram_enabled,
            mbc_type: self.mbc_type,
            cgb_mode: self.cgb_mode,
            rtc: Rtc { s: self.rtc_s, m: self.rtc_m, h: self.rtc_h, dl: self.rtc_dl, dh: self.rtc_dh },
            rtc_latch_prev: self.rtc_latch_prev,
        }
    }
}

/// The cartridge made from ROM `data`: the MBC type from header byte 0x0147,
/// CGB mode when header byte 0x0143 is 0x80 or 0xC0 (missing bytes read as 0),
/// 32 KiB of zeroed RAM, ROM bank 1, RAM disabled, the RTC at zero.
pub open spec fn cart_new(data: Seq<u8>) -> CartView {
    let cgb = if data.len() > 0x0143 { data[0x0143] } else { 0 };
    CartView {
        rom: data,
        ram: Seq::new(32 * 1024, |i: int| 0u8),
        bank: 1,
        ram_bank: 0,
        ram_enabled: false,
        mbc_type: if data.len() > 0x0147 { data[0x0147] } else { 0 },
        cgb_mode: cgb == 0x80 || cgb == 0xC0,
        rtc: Rtc { s: 0, m: 0, h: 0, dl: 0, dh: 0 },
        rtc_latch_prev: 0xFF,
    }
}

impl Cartridge {
    /// The external RAM contents (what a save file holds).
    pub fn ram(&self) -> (r: &Vec<u8>)
        ensures r@ == self@.ram,
    {
        &self.ram
    }

    /// Replace the external RAM contents (loading a save file).
    pub fn set_ram(&mut self, data: Vec<u8>)
        ensures final(self)@ == (CartView { ram: data@, ..old(self)@ }),
    {
        self.ram = data;
    }

    /// The banking state: ROM bank, RAM bank and whether RAM is enabled.
    pub fn banking(&self) -> (r: (u16, u8, bool))
        ensures r == (self@.bank, self@.ram_bank, self@.ram_enabled),
    {
        (self.bank, self.ram_bank, self.ram_enabled)
    }

    /// Restore the banking state.
    pub fn set_banking(&mut self, bank: u16, ram_bank: u8, ram_enabled: bool)
        ensures final(self)@ == (CartView { bank, ram_bank, ram_enabled, ..old(self)@ }),
    {
        self.bank = bank;
        self.ram_bank = ram_bank;
        self.ram_enabled = ram_enabled;
    }

    /// Whether the cartridge header asks for CGB mode.
    pub fn is_cgb(&self) -> (r: bool)
        ensures r == self@.cgb_mode,
    {
        self.cgb_mode
    }

    /// Create a new cartridge with the given ROM data: MBC type and CGB flag
    /// from the header, 32 KiB of zeroed external RAM, ROM bank 1, RAM off.
    pub fn new(data: Vec<u8>) -> (r: Self)
        ensures r@ == cart_new(data@),
    {
        let mbc_type = if data.len() > 0x0147 { data[0x0147] } else { 0 };
        let cgb_flag = if data.len() > 0x0143 { data[0x0143] } else { 0 };
        let r = Cartridge {
            rom: data,
            ram: vec![0u8; 32 * 1024],
            bank: 1,
            ram_bank: 0,
            ram_enabled: false,
            mbc_type,
            cgb_mode: cgb_flag == 0x80 || cgb_flag == 0xC0,
            rtc_s: 0,
            rtc_m: 0,
            rtc_h: 0,
            rtc_dl: 0,
            rtc_dh: 0,
            rtc_latch_prev: 0xFF,
            rtc_start: instant_now(),
        };
        assert(r.ram@ =~= Seq::new(32 * 1024, |i: int| 0u8));
        r
    }

    /// Read a byte from the cartridge ROM (0x0000-0x7FFF). Bank 0 is fixed at
    /// 0x0000-0x3FFF, the switchable bank at 0x4000-0x7FFF. Bytes beyond the end
    /// of the ROM read as 0xFF.
    pub fn read(&self, address: u16) -> (r: u8)
        ensures r == self@.read(address),
    {
        if address <= 0x3FFF {
            let i = address as usize;
            if i < self.rom.len() { self.rom[i] } else { 0xFF }
        } else if address <= 0x7FFF {
            let i = (self.bank as usize) * 0x4000 + (address as usize - 0x4000);
            if i < self.rom.len() { self.rom[i] } else { 0xFF }
        } else {
            0xFF
        }
    }

    /// Handle writes to the cartridge address space (MBC control registers).
    pub fn write(&mut self, address: u16, byte: u8)
        ensures exists|t: u64| final(self)@ == old(self)@.write(address, byte, t),
    {
        if address <= 0x1FFF {
            self.ram_enabled = (byte & 0x0F) == 0x0A;
            assert(self@ == old(self)@.write(address, byte, 0));
        } else if address <= 0x3FFF {
            self.write_bank(address, byte);
            assert(self@ == old(self)@.write(address, byte, 0));
        } else if address <= 0x5FFF {
            self.write_ram_bank(byte);
            assert(self@ == old(self)@.write(address, byte, 0));
        } else if address <= 0x7FFF {
            self.write_latch(address, byte);
        } else {
            assert(self@ == old(self)@.write(address, byte, 0));
        }
    }

    /// Set the ROM bank number based on the MBC type.
    fn write_bank(&mut self, address: u16, byte: u8)
        ensures final(self)@ == (CartView { bank: bank_after(old(self)@, address, byte), ..old(self)@ }),
    {
        if 0x19 <= self.mbc_type && self.mbc_type <= 0x1E {
            if address < 0x3000 {
                self.bank = (self.bank & 0x100) | byte as u16;
            } else {
                self.bank = (self.bank & 0xFF) | ((byte as u16 & 0x01) << 1u16 << 7u16);
            }
        } else {
            let mask: u8 = if 0x01 <= self.mbc_type && self.mbc_type <= 0x03 {
                0x1F
            } else if 0x0F <= self.mbc_type && self.mbc_type <= 0x13 {
                0x7F
            } else {
                0xFF
            };
            self.bank = (byte & mask) as u16;
            if self.bank == 0 {
                self.bank = 1;
            }
        }
    }

    /// Set the RAM bank or RTC register select.
    fn write_ram_bank(&mut self, byte: u8)
        ensures final(self)@ == (CartView {
            ram_bank: if is_mbc5(old(self)@.mbc_type) { byte & 0x0F } else { byte },
            ..old(self)@
        }),
    {
        if 0x19 <= self.mbc_type && self.mbc_type <= 0x1E {
            self.ram_bank = byte & 0x0F;
        } else {
            self.ram_bank = byte;
        }
    }

    /// Handle the RTC latch (MBC3: write 0x00 then 0x01 to latch the time).
    fn write_latch(&mut self, address: u16, byte: u8)
        requires 0x6000 <= address <= 0x7FFF,
        ensures exists|t: u64| final(self)@ == old(self)@.write(address, byte, t),
    {
        let ghost old_view = self@;
        if self.rtc_latch_prev == 0x00 && byte == 0x01 {
            let t = self.latch_rtc();
            self.rtc_latch_prev = byte;
            assert(self@ == old_view.write(address, byte, t));
        } else {
            self.rtc_latch_prev = byte;
            assert(self@ == old_view.write(address, byte, 0));
        }
    }

    /// Read a byte from external RAM or an RTC register (0xA000-0xBFFF).
    /// Bytes beyond the end of the RAM read as 0xFF.
    pub fn read_ram(&self, address: u16) -> (r: u8)
        requires 0xA000 <= address <= 0xBFFF,
        ensures r == self@.read_ram(address),
    {
        if !self.ram_enabled {
            return 0xFF;
        }
        match self.ram_bank {
            0x00..=0x03 => {
                let i = (self.ram_bank as usize) * 0x2000 + (address as usize - 0xA000);
                if i < self.ram.len() { self.ram[i] } else { 0xFF }
            }
            0x08 => self.rtc_s,
            0x09 => self.rtc_m,
            0x0A => self.rtc_h,
            0x0B => self.rtc_dl,
            0x0C => self.rtc_dh,
            _ => 0xFF,
        }
    }

    /// Write a byte to external RAM or an RTC register (0xA000-0xBFFF).
    /// Writes beyond the end of the RAM are dropped.
    pub fn write_ram(&mut self, address: u16, byte: u8)
        requires 0xA000 <= address <= 0xBFFF,
        ensures final(self)@ == old(self)@.write_ram(address, byte),
    {
        if !self.ram_enabled {
            return;
        }
        match self.ram_bank {
            0x00..=0x03 => {
                let i = (self.ram_bank as usize) * 0x2000 + (address as usize - 0xA000);
                if i < self.ram.len() {
                    self.ram.set(i, byte);
                }
            }
            0x08 => self.rtc_s = byte,
            0x09 => self.rtc_m = byte,
            0x0A => self.rtc_h = byte,
            0x0B => self.rtc_dl = byte,
            0x0C => self.rtc_dh = byte,
            _ => {},
        }
    }

    /// Latch the current real time into the RTC registers. Returns the clock
    /// reading (seconds since the last latch) that was used.
    fn latch_rtc(&mut self) -> (t: u64)
        ensures
            final(self)@ == (CartView { rtc: rtc_latched(old(self)@.rtc, t), ..old(self)@ }),
    {
        if self.rtc_dh & 0x40 != 0 {
            return 0;
        }
        let elapsed = duration_secs(&instant_elapsed(&self.rtc_start));
        self.latch_rtc_after(elapsed);
        self.rtc_start = instant_now();
        elapsed
    }

    /// Latch the RTC registers given the seconds `elapsed` since the last latch.
    fn latch_rtc_after(&mut self, elapsed: u64)
        requires old(self).rtc_dh & 0x40 == 0,
        ensures
            final(self)@ == (CartView { rtc: rtc_latched(old(self)@.rtc, elapsed), ..old(self)@ }),
            final(self).rtc_start == old(self).rtc_start,
    {
        let days_before: u64 = self.rtc_dl as u64 + (self.rtc_dh % 2) as u64 * 256;
        let small: u64 = self.rtc_s as u64 + self.rtc_m as u64 * 60 + self.rtc_h as u64 * 3600 + days_before * 86400;
        let mut total_s = elapsed.wrapping_add(small);
        assert(total_s == (elapsed + small) % 0x1_0000_0000_0000_0000);
        let days = total_s / 86400;
        total_s = total_s % 86400;
        self.rtc_h = (total_s / 3600) as u8;
        total_s = total_s % 3600;
        self.rtc_m = (total_s / 60) as u8;
        self.rtc_s = (total_s % 60) as u8;
        self.rtc_dl = (days % 256) as u8;
        self.rtc_dh = (self.rtc_dh & 0xFE) | ((days / 256) % 2) as u8;
        if days > 511 {
            self.rtc_dh = self.rtc_dh | 0x80;
        }
    }
}

} // verus!
