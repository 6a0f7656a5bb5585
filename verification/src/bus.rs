use vstd::prelude::*;
use crate::apu::{Apu, ApuView, CPU_CLOCK, apu_initial};
use crate::cartridge::{Cartridge, CartView, latches, cart_new};
use crate::joypad::{Joypad, JoypadKey, is_direction, clear_bit, key_bit};
use crate::ppu::{Ppu, PpuView, Mode, VRAM_OFFSET, OAM_OFFSET, ppu_tick, ppu_initial};
use crate::timer::{Timer, timer_tick};

verus! {

/// Bytes in the flat memory behind the bus.
pub const MEMORY_SIZE: usize = 64 * 1024;
/// Bytes in one switchable work RAM bank.
pub const WRAM_BANK_SIZE: usize = 0x1000;
/// Bytes of the switchable work RAM: banks 1 to 7.
pub const WRAM_SIZE: usize = 0x7000;

/// The interrupt sources, in priority order (bit 0 first).
#[allow(non_camel_case_types)]
#[derive(Clone, Copy, PartialEq, Eq, Structural)]
pub enum Interrupt {
    VBLANK,
    LCD,
    TIMER,
    SERIAL,
    JOYPAD,
}

/// The bit of IF and IE that stands for an interrupt.
pub open spec fn interrupt_bit(i: Interrupt) -> u8 {
    match i {
        Interrupt::VBLANK => 0,
        Interrupt::LCD => 1,
        Interrupt::TIMER => 2,
        Interrupt::SERIAL => 3,
        Interrupt::JOYPAD => 4,
    }
}

/// The abstract state of the memory bus and the devices behind it.
#[verifier::ext_equal]
pub struct BusView {
    pub memory: Seq<u8>,
    pub ppu: PpuView,
    pub timer: Timer,
    pub cart: CartView,
    pub joypad: Joypad,
    pub apu: ApuView,
    pub r_ie: u8,
    pub r_if: u8,
    pub double_speed: bool,
    pub speed_switch_armed: bool,
    pub wram: Seq<u8>,
    pub wram_bank: u8,
    pub boot_rom: Option<Seq<u8>>,
    pub boot_rom_enabled: bool,
}

/// The memory bus: dispatches reads and writes to the cartridge, VRAM, work
/// RAM, OAM, the I/O registers, high RAM and the interrupt registers.
pub struct Bus {
    memory: Vec<u8>,
    pub ppu: Ppu,
    pub timer: Timer,
    pub cartridge: Cartridge,
    pub joypad: Joypad,
    pub apu: Apu,
    r_ie: u8,
    r_if: u8,
    /// CGB double-speed mode: the PPU sees half the CPU cycles.
    pub double_speed: bool,
    /// KEY1 bit 0: the next STOP switches the speed.
    speed_switch_armed: bool,
    /// Work RAM banks 1 to 7, mapped one at a time at 0xD000-0xDFFF.
    wram: Vec<u8>,
    /// SVBK: the work RAM bank selected for 0xD000-0xDFFF (0 selects bank 1).
    wram_bank: u8,
    /// The boot ROM, if one was loaded.
    pub boot_rom: Option<Vec<u8>>,
    /// Whether the boot ROM overlays the start of the cartridge ROM.
    pub boot_rom_enabled: bool,
}

impl View for Bus {
    type V = BusView;

    closed spec fn view(&self) -> BusView {
        BusView {
            memory: self.memory@,
            ppu: self.ppu@,
            timer: self.timer,
            cart: self.cartridge@,
            joypad: self.joypad,
            apu: self.apu@,
            r_ie: self.r_ie,
            r_if: self.r_if,
            double_speed: self.double_speed,
            speed_switch_armed: self.speed_switch_armed,
            wram: self.wram@,
            wram_bank: self.wram_bank,
            boot_rom: match self.boot_rom { Some(v) => Some(v@), None => None },
            boot_rom_enabled: self.boot_rom_enabled,
        }
    }
}

/// Whether the boot ROM maps `addr`: the first 256 bytes and 0x0200-0x08FF
/// (the cartridge header at 0x0100-0x01FF stays visible), within the boot ROM's size.
pub open spec fn boot_maps(b: BusView, addr: u16) -> bool {
    &&& b.boot_rom_enabled
    &&& b.boot_rom is Some
    &&& addr < b.boot_rom->0.len()
    &&& (addr < 0x0100 || 0x0200 <= addr < 0x0900)
}

impl BusView {
    /// The sizes of the memories and the ranges of the device counters.
    pub open spec fn wf(self) -> bool {
        &&& self.memory.len() == MEMORY_SIZE
        &&& self.wram.len() == WRAM_SIZE
        &&& self.wram_bank < 8
        &&& self.ppu.wf()
        &&& self.apu.wf()
    }

    /// The VRAM index of `addr` (0x8000-0x9FFF) in the selected bank.
    pub open spec fn vram_index(self, addr: u16) -> int {
        self.ppu.vram_bank * 0x2000 + (addr - VRAM_OFFSET)
    }

    /// What a read of the I/O register `addr` (0xFF00-0xFF7F) gives.
    pub open spec fn read_io(self, addr: u16) -> u8 {
        let p = self.ppu;
        if addr == 0xFF00 { self.joypad.spec_read() }
        else if addr == 0xFF04 { (self.timer.counter / 256) as u8 }
        else if addr == 0xFF05 { self.timer.tima }
        else if addr == 0xFF06 { self.timer.tma }
        else if addr == 0xFF07 { self.timer.tac }
        else if addr == 0xFF0F { self.r_if }
        else if 0xFF10 <= addr <= 0xFF3F { self.apu.read(addr) }
        else if addr == 0xFF40 { p.lcdc }
        else if addr == 0xFF41 { p.stat }
        else if addr == 0xFF42 { p.scy }
        else if addr == 0xFF43 { p.scx }
        else if addr == 0xFF44 { p.ly }
        else if addr == 0xFF45 { p.lyc }
        else if addr == 0xFF47 { p.bgp }
        else if addr == 0xFF48 { p.obp0 }
        else if addr == 0xFF49 { p.obp1 }
        else if addr == 0xFF4A { p.wy }
        else if addr == 0xFF4B { p.wx }
        else if addr == 0xFF4D { self.key1() }
        else if addr == 0xFF4F { p.vram_bank }
        else if addr == 0xFF51 { (p.hdma_src / 256) as u8 }
        else if addr == 0xFF52 { (p.hdma_src % 256) as u8 }
        else if addr == 0xFF53 { (p.hdma_dst / 256) as u8 }
        else if addr == 0xFF54 { (p.hdma_dst % 256) as u8 }
        else if addr == 0xFF55 { if p.hdma_active { p.hdma_len } else { 0xFF } }
        else if addr == 0xFF68 { p.bg_palette_index }
        else if addr == 0xFF69 { p.bg_palette_ram[(p.bg_palette_index & 0x3F) as int] }
        else if addr == 0xFF6A { p.obj_palette_index }
        else if addr == 0xFF6B { p.obj_palette_ram[(p.obj_palette_index & 0x3F) as int] }
        else if addr == 0xFF70 { (0xF8 + self.wram_bank) as u8 }
        else { self.memory[addr as int] }
    }

    /// KEY1: bit 7 the current speed, bit 0 whether a speed switch is armed,
    /// the other bits read as 1.
    pub open spec fn key1(self) -> u8 {
        (0x7E + (if self.double_speed { 0x80int } else { 0 }) + (if self.speed_switch_armed { 1int } else { 0 })) as u8
    }

    /// The index into the switchable work RAM of `addr` (0xD000-0xDFFF) in the
    /// selected bank; bank 0 selects bank 1.
    pub open spec fn wram_index(self, addr: u16) -> int {
        (if self.wram_bank == 0 { 0int } else { self.wram_bank - 1 }) * 0x1000 + (addr - 0xD000)
    }

    /// What a read of `addr` gives.
    #[verifier::opaque]
    pub open spec fn read(self, addr: u16) -> u8 {
        if addr <= 0x7FFF {
            if boot_maps(self, addr) { self.boot_rom->0[addr as int] } else { self.cart.read(addr) }
        } else if addr <= 0x9FFF {
            self.ppu.vram[self.vram_index(addr)]
        } else if addr <= 0xBFFF {
            self.cart.read_ram(addr)
        } else if 0xD000 <= addr <= 0xDFFF {
            self.wram[self.wram_index(addr)]
        } else if addr <= 0xFDFF {
            self.memory[addr as int]
        } else if addr <= 0xFE9F {
            self.ppu.oam[addr - OAM_OFFSET]
        } else if addr <= 0xFEFF {
            self.memory[addr as int]
        } else if addr <= 0xFF7F {
            self.read_io(addr)
        } else if addr <= 0xFFFE {
            self.memory[addr as int]
        } else {
            self.r_ie
        }
    }

    /// The bus after a write of `byte` to VRAM or external RAM (0x8000-0xBFFF).
    pub open spec fn write_mem(self, addr: u16, byte: u8) -> BusView {
        if addr <= 0x9FFF {
            BusView { ppu: PpuView { vram: self.ppu.vram.update(self.vram_index(addr), byte), ..self.ppu }, ..self }
        } else {
            BusView { cart: self.cart.write_ram(addr, byte), ..self }
        }
    }
}

/// The bus after copying `n` bytes from `src` (wrapping at 2^16) to `dst`,
/// one byte at a time, each read after the previous write.
pub open spec fn dma_copy(b: BusView, src: u16, dst: u16, n: nat) -> BusView
    decreases n,
{
    if n == 0 {
        b
    } else {
        let b1 = dma_copy(b, src, dst, (n - 1) as nat);
        b1.write_mem((dst + n - 1) as u16, b1.read(((src + n - 1) % 65536) as u16))
    }
}

/// The VRAM destination of an HDMA transfer: 0x8000 plus the destination
/// offset within a VRAM bank (its low 13 bits).
pub open spec fn hdma_dest(dst: u16) -> u16 {
    (0x8000u16 | (dst & 0x1FFFu16)) as u16
}

impl BusView {
    /// The bus after a write to the CGB palette data register through `index`:
    /// the byte lands at `index & 0x3F` and, when bit 7 of the index is set, the
    /// index advances (wrapping within 64 entries).
    pub open spec fn palette_write(ram: Seq<u8>, index: u8, byte: u8) -> (Seq<u8>, u8) {
        let ram1 = ram.update((index & 0x3F) as int, byte);
        let index1 = if index & 0x80 != 0 { (index & 0x80) | ((((index + 1) % 256) as u8) & 0x3F) } else { index };
        (ram1, index1)
    }

    /// The bus after a write to an I/O register that has no side effect beyond
    /// setting state.
    pub open spec fn write_io_plain(self, addr: u16, byte: u8) -> BusView {
        let p = self.ppu;
        if addr == 0xFF00 {
            BusView { joypad: self.joypad.spec_written(byte), ..self }
        } else if addr == 0xFF04 {
            BusView { timer: Timer { counter: 0, ..self.timer }, ..self }
        } else if addr == 0xFF05 {
            BusView { timer: Timer { tima: byte, ..self.timer }, ..self }
        } else if addr == 0xFF06 {
            BusView { timer: Timer { tma: byte, ..self.timer }, ..self }
        } else if addr == 0xFF07 {
            BusView { timer: Timer { tac: byte, ..self.timer }, ..self }
        } else if addr == 0xFF0F {
            BusView { r_if: byte, ..self }
        } else if addr == 0xFF40 {
            BusView { ppu: PpuView { lcdc: byte, ..p }, ..self }
        } else if addr == 0xFF41 {
            BusView { ppu: PpuView { stat: byte, ..p }, ..self }
        } else if addr == 0xFF42 {
            BusView { ppu: PpuView { scy: byte, ..p }, ..self }
        } else if addr == 0xFF43 {
            BusView { ppu: PpuView { scx: byte, ..p }, ..self }
        } else if addr == 0xFF44 {
            self
        } else if addr == 0xFF45 {
            BusView { ppu: PpuView { lyc: byte, ..p }, ..self }
        } else if addr == 0xFF47 {
            BusView { ppu: PpuView { bgp: byte, ..p }, ..self }
        } else if addr == 0xFF48 {
            BusView { ppu: PpuView { obp0: byte, ..p }, ..self }
        } else if addr == 0xFF49 {
            BusView { ppu: PpuView { obp1: byte, ..p }, ..self }
        } else if addr == 0xFF4A {
            BusView { ppu: PpuView { wy: byte, ..p }, ..self }
        } else if addr == 0xFF4B {
            BusView { ppu: PpuView { wx: byte, ..p }, ..self }
        } else if addr == 0xFF4D {
            BusView { speed_switch_armed: byte % 2 == 1, ..self }
        } else if addr == 0xFF4F {
            BusView { ppu: PpuView { vram_bank: byte & 0x01, ..p }, ..self }
        } else if addr == 0xFF50 {
            BusView { boot_rom_enabled: false, ..self }
        } else if addr == 0xFF51 {
            BusView { ppu: PpuView { hdma_src: (p.hdma_src % 256 + byte * 256) as u16, ..p }, ..self }
        } else if addr == 0xFF52 {
            BusView { ppu: PpuView { hdma_src: ((p.hdma_src / 256) * 256 + (byte & 0xF0)) as u16, ..p }, ..self }
        } else if addr == 0xFF53 {
            BusView { ppu: PpuView { hdma_dst: (p.hdma_dst % 256 + (byte & 0x1F) * 256) as u16, ..p }, ..self }
        } else if addr == 0xFF54 {
            BusView { ppu: PpuView { hdma_dst: ((p.hdma_dst / 256) * 256 + (byte & 0xF0)) as u16, ..p }, ..self }
        } else if addr == 0xFF68 {
            BusView { ppu: PpuView { bg_palette_index: byte, ..p }, ..self }
        } else if addr == 0xFF69 {
            let (ram, index) = Self::palette_write(p.bg_palette_ram, p.bg_palette_index, byte);
            BusView { ppu: PpuView { bg_palette_ram: ram, bg_palette_index: index, ..p }, ..self }
        } else if addr == 0xFF6A {
            BusView { ppu: PpuView { obj_palette_index: byte, ..p }, ..self }
        } else if addr == 0xFF6B {
            let (ram, index) = Self::palette_write(p.obj_palette_ram, p.obj_palette_index, byte);
            BusView { ppu: PpuView { obj_palette_ram: ram, obj_palette_index: index, ..p }, ..self }
        } else if addr == 0xFF70 {
            BusView { wram_bank: byte % 8, ..self }
        } else {
            BusView { memory: self.memory.update(addr as int, byte), ..self }
        }
    }

    /// The bus after an OAM DMA from page `byte`: the 160 bytes at `byte * 256`
    /// are copied into OAM.
    pub open spec fn oam_dma(self, byte: u8) -> BusView {
        BusView {
            ppu: PpuView { oam: Seq::new(160, |i: int| self.read((byte * 256 + i) as u16)), ..self.ppu },
            ..self
        }
    }

    /// The bus after a write to HDMA5: with bit 7 clear, a general DMA copies
    /// ((byte & 0x7F) + 1) * 16 bytes at once; with bit 7 set, an HBlank DMA of
    /// (byte & 0x7F) + 1 blocks starts.
    pub open spec fn hdma_start(self, byte: u8) -> BusView {
        if byte & 0x80 == 0 {
            let n = (((byte & 0x7F) + 1) * 16) as nat;
            let b1 = dma_copy(self, self.ppu.hdma_src, hdma_dest(self.ppu.hdma_dst), n);
            BusView { ppu: PpuView { hdma_active: false, hdma_len: 0xFF, ..b1.ppu }, ..b1 }
        } else {
            BusView { ppu: PpuView { hdma_active: true, hdma_len: byte & 0x7F, ..self.ppu }, ..self }
        }
    }

    /// The bus after a write of `byte` to the I/O register `addr`.
    #[verifier::opaque]
    pub open spec fn write_io(self, addr: u16, byte: u8) -> BusView {
        if 0xFF10 <= addr <= 0xFF3F {
            BusView { apu: self.apu.write(addr, byte), ..self }
        } else if addr == 0xFF46 {
            self.oam_dma(byte)
        } else if addr == 0xFF55 {
            self.hdma_start(byte)
        } else {
            self.write_io_plain(addr, byte)
        }
    }

    /// The bus after a write of `byte` to `addr`, where `t` is the clock reading
    /// the cartridge uses if the write latches its RTC.
    #[verifier::opaque]
    pub open spec fn write(self, addr: u16, byte: u8, t: u64) -> BusView {
        if addr <= 0x7FFF {
            BusView { cart: self.cart.write(addr, byte, t), ..self }
        } else if addr <= 0xBFFF {
            self.write_mem(addr, byte)
        } else if 0xD000 <= addr <= 0xDFFF {
            BusView { wram: self.wram.update(self.wram_index(addr), byte), ..self }
        } else if addr <= 0xFDFF {
            BusView { memory: self.memory.update(addr as int, byte), ..self }
        } else if addr <= 0xFE9F {
            BusView { ppu: PpuView { oam: self.ppu.oam.update(addr - OAM_OFFSET, byte), ..self.ppu }, ..self }
        } else if addr <= 0xFEFF {
            BusView { memory: self.memory.update(addr as int, byte), ..self }
        } else if addr <= 0xFF7F {
            self.write_io(addr, byte)
        } else if addr <= 0xFFFE {
            BusView { memory: self.memory.update(addr as int, byte), ..self }
        } else {
            BusView { r_ie: byte, ..self }
        }
    }

    /// The highest-priority pending interrupt: the lowest of the five
    /// interrupt bits set in both IF and IE.
    pub open spec fn pending(self) -> Option<u8> {
        let p = self.r_if & self.r_ie & 0x1F;
        if p == 0 { None }
        else if p & 0x01 != 0 { Some(0) }
        else if p & 0x02 != 0 { Some(1) }
        else if p & 0x04 != 0 { Some(2) }
        else if p & 0x08 != 0 { Some(3) }
        else { Some(4) }
    }

    /// Whether a write of `byte` to `addr` latches the cartridge RTC (the only
    /// write whose result depends on the clock).
    pub open spec fn write_latches(self, addr: u16, byte: u8) -> bool {
        latches(self.cart, addr, byte)
    }
}

/// The HDMA registers after a 16-byte block: source and destination advance by
/// 16 (wrapping) and the remaining block count counts down, ending the
/// transfer after the last block.
pub open spec fn hdma_advance(b: BusView) -> BusView {
    let p = b.ppu;
    BusView {
        ppu: PpuView {
            hdma_src: ((p.hdma_src + 16) % 65536) as u16,
            hdma_dst: ((p.hdma_dst + 16) % 65536) as u16,
            hdma_active: p.hdma_len != 0,
            hdma_len: if p.hdma_len == 0 { p.hdma_len } else { (p.hdma_len - 1) as u8 },
            ..p
        },
        ..b
    }
}

/// The bus after an HBlank DMA step: when a transfer is active, 16 bytes are
/// copied to the VRAM destination and the HDMA registers advance.
pub open spec fn hdma_step(b: BusView) -> BusView {
    if !b.ppu.hdma_active {
        b
    } else {
        hdma_advance(dma_copy(b, b.ppu.hdma_src, hdma_dest(b.ppu.hdma_dst), 16))
    }
}

/// The bus after a STOP: an armed speed switch (KEY1 bit 0) toggles between
/// normal and double speed and disarms; otherwise nothing changes.
pub open spec fn speed_switch(b: BusView) -> BusView {
    if b.speed_switch_armed {
        BusView { double_speed: !b.double_speed, speed_switch_armed: false, ..b }
    } else {
        b
    }
}

/// The bus with `i` requested in IF.
pub open spec fn request(b: BusView, i: Interrupt) -> BusView {
    BusView { r_if: b.r_if | (1u8 << interrupt_bit(i)), ..b }
}

/// The PPU runs for `cycles` T-cycles (at half rate in double-speed mode)
/// and a STAT interrupt it raised is requested; a finished scanline runs an
/// HBlank DMA step.
pub open spec fn advance_ppu(b: BusView, cycles: u8) -> BusView {
    let ppu_cycles: u8 = if b.double_speed { cycles / 2 } else { cycles };
    let (p1, scanline_done) = ppu_tick(b.ppu, ppu_cycles);
    let b1 = if p1.stat_irq {
        request(BusView { ppu: PpuView { stat_irq: false, ..p1 }, ..b }, Interrupt::LCD)
    } else {
        BusView { ppu: p1, ..b }
    };
    if scanline_done { hdma_step(b1) } else { b1 }
}

/// The timer runs for `cycles` T-cycles and may request its interrupt; the
/// APU runs.
pub open spec fn advance_timer_apu(b: BusView, cycles: u8) -> BusView {
    let (tm, timer_irq) = timer_tick(b.timer, cycles);
    let b1 = if timer_irq { request(BusView { timer: tm, ..b }, Interrupt::TIMER) } else { BusView { timer: tm, ..b } };
    BusView { apu: b1.apu.tick(cycles), ..b1 }
}

/// A V-blank the PPU reached is acknowledged, requests the V-blank interrupt
/// when the LCD is on, and completes a frame.
pub open spec fn finish_frame(b: BusView) -> (BusView, bool) {
    if b.ppu.vblank {
        let b1 = if b.ppu.lcdc & 0x80 != 0 { request(b, Interrupt::VBLANK) } else { b };
        (BusView { ppu: PpuView { vblank: false, ..b1.ppu }, ..b1 }, true)
    } else {
        (b, false)
    }
}

/// The devices after the CPU spent `cycles` T-cycles: PPU (with STAT
/// interrupt and HBlank DMA), then timer and APU, then the end of a frame.
/// Returns the bus and whether a frame completed.
pub open spec fn advance(b: BusView, cycles: u8) -> (BusView, bool) {
    finish_frame(advance_timer_apu(advance_ppu(b, cycles), cycles))
}

/// Where the parts of a saved bus state start: memory, VRAM, OAM, the two
/// palette RAMs, the switchable work RAM, the register block, then the
/// cartridge RAM to the end.
pub const STATE_VRAM: usize = 65536;
pub const STATE_OAM: usize = 81920;
pub const STATE_BG_PALETTE: usize = 82080;
pub const STATE_OBJ_PALETTE: usize = 82144;
pub const STATE_WRAM: usize = 82208;
pub const STATE_REGS: usize = 110880;
/// Bytes of a saved bus state before the cartridge RAM.
pub const STATE_FIXED: usize = 110920;

/// A flag as a byte.
pub open spec fn flag_byte(b: bool) -> u8 {
    if b { 1 } else { 0 }
}

/// The PPU mode as its STAT number.
pub open spec fn mode_byte(m: Mode) -> u8 {
    match m {
        Mode::Hblank => 0,
        Mode::Vblank => 1,
        Mode::OamScan => 2,
        Mode::PixelTransfer => 3,
    }
}

/// The PPU mode with STAT number `x & 3`.
pub open spec fn mode_of(x: u8) -> Mode {
    if x % 4 == 0 { Mode::Hblank } else if x % 4 == 1 { Mode::Vblank } else if x % 4 == 2 { Mode::OamScan } else { Mode::PixelTransfer }
}

/// The register block of a saved state: interrupt registers, timer, LCD and
/// CGB registers, PPU timing, HDMA, speed, boot ROM mapping, the
/// cartridge's banking and the work RAM bank and speed switch, 16-bit values
/// little-endian.
pub open spec fn reg_bytes(b: BusView) -> Seq<u8> {
    let p = b.ppu;
    seq![
        b.r_ie, b.r_if,
        (b.timer.counter % 256) as u8, (b.timer.counter / 256) as u8, b.timer.tima, b.timer.tma, b.timer.tac,
        p.lcdc, p.stat, p.scy, p.scx, p.ly, p.lyc, p.bgp, p.obp0, p.obp1, p.wy, p.wx, p.window_line,
        (p.dot % 256) as u8, (p.dot / 256) as u8,
        p.vram_bank, p.bg_palette_index, p.obj_palette_index,
        (p.hdma_src % 256) as u8, (p.hdma_src / 256) as u8, (p.hdma_dst % 256) as u8, (p.hdma_dst / 256) as u8,
        p.hdma_len, flag_byte(p.hdma_active), flag_byte(p.cgb_mode), mode_byte(p.mode),
        flag_byte(b.double_speed), flag_byte(b.boot_rom_enabled),
        (b.cart.bank % 256) as u8, (b.cart.bank / 256) as u8, b.cart.ram_bank, flag_byte(b.cart.ram_enabled),
        b.wram_bank, flag_byte(b.speed_switch_armed)
    ]
}

/// The bytes of a saved bus state.
pub open spec fn state_bytes(b: BusView) -> Seq<u8> {
    b.memory + b.ppu.vram + b.ppu.oam + b.ppu.bg_palette_ram + b.ppu.obj_palette_ram + b.wram + reg_bytes(b) + b.cart.ram
}

/// The 16-bit little-endian value at `i` of `s`.
pub open spec fn le16(s: Seq<u8>, i: int) -> u16 {
    (s[i] + s[i + 1] * 256) as u16
}

/// The bus with its registers taken from the register block `s`: LY is kept
/// below 154, the VRAM bank to 0 or 1 and the work RAM bank below 8.
pub open spec fn restore_regs(b: BusView, s: Seq<u8>) -> BusView {
    BusView {
        r_ie: s[0],
        r_if: s[1],
        timer: Timer { counter: le16(s, 2), tima: s[4], tma: s[5], tac: s[6] },
        ppu: PpuView {
            lcdc: s[7], stat: s[8], scy: s[9], scx: s[10],
            ly: if s[11] < 154 { s[11] } else { 0 },
            lyc: s[12], bgp: s[13], obp0: s[14], obp1: s[15], wy: s[16], wx: s[17], window_line: s[18],
            dot: le16(s, 19),
            vram_bank: if s[21] == 0 { 0 } else { 1 },
            bg_palette_index: s[22], obj_palette_index: s[23],
            hdma_src: le16(s, 24), hdma_dst: le16(s, 26), hdma_len: s[28], hdma_active: s[29] != 0,
            cgb_mode: s[30] != 0, mode: mode_of(s[31]),
            ..b.ppu
        },
        double_speed: s[32] != 0,
        boot_rom_enabled: s[33] != 0,
        cart: CartView { bank: le16(s, 34), ram_bank: s[36], ram_enabled: s[37] != 0, ..b.cart },
        wram_bank: s[38] % 8,
        speed_switch_armed: s[39] != 0,
        ..b
    }
}

/// The bus after loading the saved state `data` (at least `STATE_FIXED`
/// bytes): memory, VRAM, OAM and palette RAMs, work RAM, the register block,
/// and the cartridge RAM (the rest of `data`).
pub open spec fn restore(b: BusView, data: Seq<u8>) -> BusView {
    let b1 = BusView {
        memory: data.subrange(0, STATE_VRAM as int),
        ppu: PpuView {
            vram: data.subrange(STATE_VRAM as int, STATE_OAM as int),
            oam: data.subrange(STATE_OAM as int, STATE_BG_PALETTE as int),
            bg_palette_ram: data.subrange(STATE_BG_PALETTE as int, STATE_OBJ_PALETTE as int),
            obj_palette_ram: data.subrange(STATE_OBJ_PALETTE as int, STATE_WRAM as int),
            ..b.ppu
        },
        wram: data.subrange(STATE_WRAM as int, STATE_REGS as int),
        cart: CartView { ram: data.subrange(STATE_FIXED as int, data.len() as int), ..b.cart },
        ..b
    };
    restore_regs(b1, data.subrange(STATE_REGS as int, STATE_FIXED as int))
}

/// `b` with everything a saved state holds taken from `b2`; the rest (the
/// APU, the framebuffer, the joypad, the cartridge ROM and mapper, the boot
/// ROM image and pending PPU events) stays.
pub open spec fn with_saved_parts(b: BusView, b2: BusView) -> BusView {
    BusView {
        memory: b2.memory,
        timer: b2.timer,
        r_ie: b2.r_ie,
        r_if: b2.r_if,
        double_speed: b2.double_speed,
        speed_switch_armed: b2.speed_switch_armed,
        wram: b2.wram,
        wram_bank: b2.wram_bank,
        boot_rom_enabled: b2.boot_rom_enabled,
        ppu: PpuView {
            vram: b2.ppu.vram, oam: b2.ppu.oam, bg_palette_ram: b2.ppu.bg_palette_ram, obj_palette_ram: b2.ppu.obj_palette_ram,
            lcdc: b2.ppu.lcdc, stat: b2.ppu.stat, scy: b2.ppu.scy, scx: b2.ppu.scx, ly: b2.ppu.ly, lyc: b2.ppu.lyc,
            bgp: b2.ppu.bgp, obp0: b2.ppu.obp0, obp1: b2.ppu.obp1, wy: b2.ppu.wy, wx: b2.ppu.wx,
            window_line: b2.ppu.window_line, dot: b2.ppu.dot, vram_bank: b2.ppu.vram_bank,
            bg_palette_index: b2.ppu.bg_palette_index, obj_palette_index: b2.ppu.obj_palette_index,
            hdma_src: b2.ppu.hdma_src, hdma_dst: b2.ppu.hdma_dst, hdma_len: b2.ppu.hdma_len, hdma_active: b2.ppu.hdma_active,
            cgb_mode: b2.ppu.cgb_mode, mode: b2.ppu.mode,
            ..b.ppu
        },
        cart: CartView { ram: b2.cart.ram, bank: b2.cart.bank, ram_bank: b2.cart.ram_bank, ram_enabled: b2.cart.ram_enabled, ..b.cart },
        ..b
    }
}

/// The register block read back gives the registers it was made from.
proof fn lemma_regs_roundtrip(b: BusView, b2: BusView)
    requires b2.wf(),
    ensures
        reg_bytes(b2).len() == 40,
        restore_regs(b, reg_bytes(b2)) == (BusView {
            r_ie: b2.r_ie, r_if: b2.r_if, timer: b2.timer,
            double_speed: b2.double_speed, boot_rom_enabled: b2.boot_rom_enabled,
            wram_bank: b2.wram_bank, speed_switch_armed: b2.speed_switch_armed,
            ppu: PpuView {
                lcdc: b2.ppu.lcdc, stat: b2.ppu.stat, scy: b2.ppu.scy, scx: b2.ppu.scx, ly: b2.ppu.ly, lyc: b2.ppu.lyc,
                bgp: b2.ppu.bgp, obp0: b2.ppu.obp0, obp1: b2.ppu.obp1, wy: b2.ppu.wy, wx: b2.ppu.wx,
                window_line: b2.ppu.window_line, dot: b2.ppu.dot, vram_bank: b2.ppu.vram_bank,
                bg_palette_index: b2.ppu.bg_palette_index, obj_palette_index: b2.ppu.obj_palette_index,
                hdma_src: b2.ppu.hdma_src, hdma_dst: b2.ppu.hdma_dst, hdma_len: b2.ppu.hdma_len, hdma_active: b2.ppu.hdma_active,
                cgb_mode: b2.ppu.cgb_mode, mode: b2.ppu.mode,
                ..b.ppu
            },
            cart: CartView { bank: b2.cart.bank, ram_bank: b2.cart.ram_bank, ram_enabled: b2.cart.ram_enabled, ..b.cart },
            ..b
        }),
{
    let r = reg_bytes(b2);
    assert(le16(r, 2) == b2.timer.counter);
    assert(le16(r, 19) == b2.ppu.dot);
    assert(le16(r, 24) == b2.ppu.hdma_src);
    assert(le16(r, 26) == b2.ppu.hdma_dst);
    assert(le16(r, 34) == b2.cart.bank);
    assert(mode_of(mode_byte(b2.ppu.mode)) == b2.ppu.mode);
}

/// The parts of a saved state sit at their offsets.
proof fn lemma_state_parts(b2: BusView)
    requires b2.wf(),
    ensures
        state_bytes(b2).len() == STATE_FIXED + b2.cart.ram.len(),
        state_bytes(b2).subrange(0, STATE_VRAM as int) == b2.memory,
        state_bytes(b2).subrange(STATE_VRAM as int, STATE_OAM as int) == b2.ppu.vram,
        state_bytes(b2).subrange(STATE_OAM as int, STATE_BG_PALETTE as int) == b2.ppu.oam,
        state_bytes(b2).subrange(STATE_BG_PALETTE as int, STATE_OBJ_PALETTE as int) == b2.ppu.bg_palette_ram,
        state_bytes(b2).subrange(STATE_OBJ_PALETTE as int, STATE_WRAM as int) == b2.ppu.obj_palette_ram,
        state_bytes(b2).subrange(STATE_WRAM as int, STATE_REGS as int) == b2.wram,
        state_bytes(b2).subrange(STATE_REGS as int, STATE_FIXED as int) == reg_bytes(b2),
        state_bytes(b2).subrange(STATE_FIXED as int, state_bytes(b2).len() as int) == b2.cart.ram,
{
    let d = state_bytes(b2);
    assert(reg_bytes(b2).len() == 40);
    assert(d.subrange(0, STATE_VRAM as int) =~= b2.memory);
    assert(d.subrange(STATE_VRAM as int, STATE_OAM as int) =~= b2.ppu.vram);
    assert(d.subrange(STATE_OAM as int, STATE_BG_PALETTE as int) =~= b2.ppu.oam);
    assert(d.subrange(STATE_BG_PALETTE as int, STATE_OBJ_PALETTE as int) =~= b2.ppu.bg_palette_ram);
    assert(d.subrange(STATE_OBJ_PALETTE as int, STATE_WRAM as int) =~= b2.ppu.obj_palette_ram);
    assert(d.subrange(STATE_WRAM as int, STATE_REGS as int) =~= b2.wram);
    assert(d.subrange(STATE_REGS as int, STATE_FIXED as int) =~= reg_bytes(b2));
    assert(d.subrange(STATE_FIXED as int, d.len() as int) =~= b2.cart.ram);
}

/// Loading a saved bus state gives back every part it saved: restoring the
/// bytes saved from `b2` into any bus `b` yields `b` with the saved parts of
/// `b2`; in particular a bus restored from its own state is unchanged.
pub proof fn lemma_state_roundtrip(b: BusView, b2: BusView)
    requires b.wf(), b2.wf(),
    ensures
        state_bytes(b2).len() >= STATE_FIXED,
        restore(b, state_bytes(b2)) == with_saved_parts(b, b2),
        with_saved_parts(b, b) == b,
{
    let d = state_bytes(b2);
    lemma_state_parts(b2);
    let b1 = BusView {
        memory: d.subrange(0, STATE_VRAM as int),
        ppu: PpuView {
            vram: d.subrange(STATE_VRAM as int, STATE_OAM as int),
            oam: d.subrange(STATE_OAM as int, STATE_BG_PALETTE as int),
            bg_palette_ram: d.subrange(STATE_BG_PALETTE as int, STATE_OBJ_PALETTE as int),
            obj_palette_ram: d.subrange(STATE_OBJ_PALETTE as int, STATE_WRAM as int),
            ..b.ppu
        },
        wram: d.subrange(STATE_WRAM as int, STATE_REGS as int),
        cart: CartView { ram: d.subrange(STATE_FIXED as int, d.len() as int), ..b.cart },
        ..b
    };
    lemma_regs_roundtrip(b1, b2);
    assert(restore(b, d) =~= with_saved_parts(b, b2));
    assert(with_saved_parts(b, b) =~= b);
}

/// Whether `addr` is plain memory behind the bus: work RAM bank 0
/// (0xC000-0xCFFF), the echo area (0xE000-0xFDFF), the unused area after OAM
/// (0xFEA0-0xFEFF) and high RAM (0xFF80-0xFFFE).
pub open spec fn is_plain_memory(addr: u16) -> bool {
    0xC000 <= addr <= 0xCFFF || 0xE000 <= addr <= 0xFDFF || 0xFEA0 <= addr <= 0xFEFF || 0xFF80 <= addr <= 0xFFFE
}

/// A read of plain memory gives back the last byte written there, and a
/// write there changes no other address's read and nothing but the memory.
pub proof fn lemma_read_after_write(b: BusView, addr: u16, byte: u8, t: u64, other: u16)
    requires b.wf(), is_plain_memory(addr),
    ensures
        b.write(addr, byte, t).wf(),
        b.write(addr, byte, t).read(addr) == byte,
        other != addr ==> b.write(addr, byte, t).read(other) == b.read(other),
        b.write(addr, byte, t) == (BusView { memory: b.memory.update(addr as int, byte), ..b }),
{
    reveal(BusView::write);
    reveal(BusView::read);
}

/// The work RAM bank that SVBK value `v` selects at 0xD000-0xDFFF (1 to 7;
/// 0 selects bank 1).
pub open spec fn selected_wram_bank(v: u8) -> int {
    if v % 8 == 0 { 1 } else { (v % 8) as int }
}

/// A read of banked work RAM (0xD000-0xDFFF) gives back the last byte
/// written there through the same bank; the write changes no other address's
/// read. After SVBK selects another bank the address reads that bank's byte,
/// and selecting the first bank again shows the byte written.
#[verifier::rlimit(50)]
pub proof fn lemma_wram_banks(b: BusView, addr: u16, byte: u8, t: u64, other: u16, v: u8, t2: u64)
    requires b.wf(), 0xD000 <= addr <= 0xDFFF,
    ensures
        b.write(addr, byte, t).wf(),
        b.write(addr, byte, t).read(addr) == byte,
        other != addr ==> b.write(addr, byte, t).read(other) == b.read(other),
        selected_wram_bank(v) != selected_wram_bank(b.wram_bank) ==>
            b.write(addr, byte, t).write(0xFF70, v, t2).read(addr) == b.write(0xFF70, v, t2).read(addr),
        b.write(addr, byte, t).write(0xFF70, v, t2).write(0xFF70, b.wram_bank, t2).read(addr) == byte,
{
    reveal(BusView::write);
    reveal(BusView::read);
    reveal(BusView::write_io);
    let b1 = b.write(addr, byte, t);
    assert(b1.wram_bank == b.wram_bank);
    let b2 = b1.write(0xFF70, v, t2);
    assert(b2.wram_bank == v % 8);
    assert(b2.wram == b1.wram);
    let b3 = b.write(0xFF70, v, t2);
    assert(b3.wram == b.wram);
    assert(b3.wram_bank == v % 8);
    if selected_wram_bank(v) != selected_wram_bank(b.wram_bank) {
        assert(b2.wram_index(addr) != b.wram_index(addr));
        assert(b2.read(addr) == b3.read(addr));
    }
    let b4 = b2.write(0xFF70, b.wram_bank, t2);
    assert(b4.wram_bank == b.wram_bank % 8);
    assert(b4.wram == b1.wram);
}

/// Requesting an interrupt makes it pending when it is enabled and no
/// interrupt of higher priority is; acknowledging it then withdraws the
/// request again when it was not requested before.
pub proof fn lemma_request_pending(b: BusView, i: Interrupt)
    requires
        b.r_ie & (1u8 << interrupt_bit(i)) != 0,
        forall|k: u8| k < interrupt_bit(i) ==> #[trigger] (b.r_if & b.r_ie & (1u8 << k)) == 0,
    ensures
        request(b, i).pending() == Some(interrupt_bit(i)),
        b.r_if & (1u8 << interrupt_bit(i)) == 0 ==>
            (BusView { r_if: request(b, i).r_if & !(1u8 << interrupt_bit(i)), ..request(b, i) }) == b,
{
    let n = interrupt_bit(i);
    let f = b.r_if;
    let e = b.r_ie;
    assert(n < 5);
    assert(f & e & (1u8 << 0u8) == 0 || n == 0);
    assert(n > 1 ==> f & e & (1u8 << 1u8) == 0);
    assert(n > 2 ==> f & e & (1u8 << 2u8) == 0);
    assert(n > 3 ==> f & e & (1u8 << 3u8) == 0);
    lemma_pending_bits(f, e, n);
}

proof fn lemma_pending_bits(f: u8, e: u8, n: u8) by (bit_vector)
    requires
        n < 5u8,
        e & (1u8 << n) != 0u8,
        n > 0u8 ==> f & e & (1u8 << 0u8) == 0u8,
        n > 1u8 ==> f & e & (1u8 << 1u8) == 0u8,
        n > 2u8 ==> f & e & (1u8 << 2u8) == 0u8,
        n > 3u8 ==> f & e & (1u8 << 3u8) == 0u8,
    ensures
        ((f | (1u8 << n)) & e & 0x1Fu8) != 0u8,
        n == 0u8 ==> ((f | (1u8 << n)) & e & 0x1Fu8) & 0x01u8 != 0u8,
        n >= 1u8 ==> ((f | (1u8 << n)) & e & 0x1Fu8) & 0x01u8 == 0u8,
        n >= 2u8 ==> ((f | (1u8 << n)) & e & 0x1Fu8) & 0x02u8 == 0u8,
        n >= 3u8 ==> ((f | (1u8 << n)) & e & 0x1Fu8) & 0x04u8 == 0u8,
        n >= 4u8 ==> ((f | (1u8 << n)) & e & 0x1Fu8) & 0x08u8 == 0u8,
        n == 1u8 ==> ((f | (1u8 << n)) & e & 0x1Fu8) & 0x02u8 != 0u8,
        n == 2u8 ==> ((f | (1u8 << n)) & e & 0x1Fu8) & 0x04u8 != 0u8,
        n == 3u8 ==> ((f | (1u8 << n)) & e & 0x1Fu8) & 0x08u8 != 0u8,
        f & (1u8 << n) == 0u8 ==> (f | (1u8 << n)) & !(1u8 << n) == f,
{
}

/// Writing VRAM or external RAM keeps the bus well formed and changes neither
/// the HDMA registers nor anything outside VRAM and the cartridge.
pub proof fn lemma_write_mem_frame(b: BusView, addr: u16, byte: u8)
    requires b.wf(), 0x8000 <= addr <= 0xBFFF,
    ensures
        b.write_mem(addr, byte).wf(),
        b.write_mem(addr, byte).ppu.hdma_src == b.ppu.hdma_src,
        b.write_mem(addr, byte).ppu.hdma_dst == b.ppu.hdma_dst,
        b.write_mem(addr, byte).ppu.hdma_len == b.ppu.hdma_len,
        b.write_mem(addr, byte).ppu.hdma_active == b.ppu.hdma_active,
        b.write_mem(addr, byte).ppu.vram_bank == b.ppu.vram_bank,
{
}

/// A DMA copy keeps the bus well formed and leaves the HDMA registers alone.
pub proof fn lemma_dma_copy_frame(b: BusView, src: u16, dst: u16, n: nat)
    requires b.wf(), 0x8000 <= dst, dst + n <= 0xC000,
    ensures
        dma_copy(b, src, dst, n).wf(),
        dma_copy(b, src, dst, n).ppu.hdma_src == b.ppu.hdma_src,
        dma_copy(b, src, dst, n).ppu.hdma_dst == b.ppu.hdma_dst,
        dma_copy(b, src, dst, n).ppu.hdma_len == b.ppu.hdma_len,
        dma_copy(b, src, dst, n).ppu.hdma_active == b.ppu.hdma_active,
    decreases n,
{
    if n > 0 {
        lemma_dma_copy_frame(b, src, dst, (n - 1) as nat);
        let b1 = dma_copy(b, src, dst, (n - 1) as nat);
        lemma_write_mem_frame(b1, (dst + n - 1) as u16, b1.read(((src + n - 1) % 65536) as u16));
    }
}

/// The masked HDMA destination stays in VRAM.
proof fn lemma_hdma_dest(dst: u16) by (bit_vector)
    ensures
        0x8000u16 <= (0x8000u16 | (dst & 0x1FFFu16)),
        (0x8000u16 | (dst & 0x1FFFu16)) <= 0x9FFFu16,
{
}

/// Append the bytes of `src` to `out`.
fn append_bytes(out: &mut Vec<u8>, src: &[u8])
    ensures final(out)@ == old(out)@ + src@,
{
    let ghost start = out@;
    for i in 0..src.len()
        invariant out@ == start + src@.subrange(0, i as int),
    {
        out.push(src[i]);
        assert(src@.subrange(0, i + 1) =~= src@.subrange(0, i as int).push(src@[i as int]));
    }
    assert(src@.subrange(0, src@.len() as int) =~= src@);
}

/// Overwrite all of `dst` with the bytes of `src` from `start` on.
fn copy_from(dst: &mut Vec<u8>, src: &[u8], start: usize)
    requires start + old(dst)@.len() <= src@.len(),
    ensures final(dst)@ == src@.subrange(start as int, start + old(dst)@.len()),
{
    let n = dst.len();
    let mut i: usize = 0;
    while i < n
        invariant
            i <= n,
            dst@.len() == n,
            start + n <= src.len(),
            forall|j: int| 0 <= j < i ==> dst@[j] == src@[start + j],
        decreases n - i,
    {
        dst.set(i, src[start + i]);
        i = i + 1;
    }
    assert(dst@ =~= src@.subrange(start as int, start + n));
}

/// The 16-bit little-endian value at `i` of `s`.
fn read_le16(s: &[u8], i: usize) -> (r: u16)
    requires i + 1 < s@.len(),
    ensures r == le16(s@, i as int),
{
    let v: u32 = s[i] as u32 + (s[i + 1] as u32) * 256;
    v as u16
}

impl Bus {
    /// The register block of a saved state.
    #[verifier::rlimit(100)]
    fn reg_bytes(&self) -> (r: Vec<u8>)
        ensures r@ == reg_bytes(self@),
    {
        let p = &self.ppu;
        let (bank, ram_bank, ram_enabled) = self.cartridge.banking();
        let mut v: Vec<u8> = Vec::new();
        v.push(self.r_ie); v.push(self.r_if);
        v.push((self.timer.counter % 256) as u8); v.push((self.timer.counter / 256) as u8);
        v.push(self.timer.tima); v.push(self.timer.tma); v.push(self.timer.tac);
        v.push(p.lcdc); v.push(p.stat); v.push(p.scy); v.push(p.scx); v.push(p.ly); v.push(p.lyc);
        v.push(p.bgp); v.push(p.obp0); v.push(p.obp1); v.push(p.wy); v.push(p.wx); v.push(p.window_line);
        v.push((p.dot % 256) as u8); v.push((p.dot / 256) as u8);
        v.push(p.vram_bank); v.push(p.bg_palette_index); v.push(p.obj_palette_index);
        v.push((p.hdma_src % 256) as u8); v.push((p.hdma_src / 256) as u8);
        v.push((p.hdma_dst % 256) as u8); v.push((p.hdma_dst / 256) as u8);
        v.push(p.hdma_len);
        v.push(if p.hdma_active { 1 } else { 0 });
        v.push(if p.cgb_mode { 1 } else { 0 });
        v.push(p.mode_bits());
        v.push(if self.double_speed { 1 } else { 0 });
        v.push(if self.boot_rom_enabled { 1 } else { 0 });
        v.push((bank % 256) as u8); v.push((bank / 256) as u8);
        v.push(ram_bank);
        v.push(if ram_enabled { 1 } else { 0 });
        v.push(self.wram_bank);
        v.push(if self.speed_switch_armed { 1 } else { 0 });
        assert(v@ =~= reg_bytes(self@));
        v
    }

    /// Save the bus state: memory, VRAM, OAM, palette RAMs, work RAM, the
    /// register block and the cartridge RAM.
    pub fn save_state(&self) -> (r: Vec<u8>)
        requires self.wf(),
        ensures r@ == state_bytes(self@),
    {
        let mut out: Vec<u8> = Vec::new();
        append_bytes(&mut out, self.memory.as_slice());
        append_bytes(&mut out, self.ppu.vram.as_slice());
        append_bytes(&mut out, self.ppu.oam.as_slice());
        append_bytes(&mut out, self.ppu.bg_palette_ram.as_slice());
        append_bytes(&mut out, self.ppu.obj_palette_ram.as_slice());
        append_bytes(&mut out, self.wram.as_slice());
        let regs = self.reg_bytes();
        append_bytes(&mut out, regs.as_slice());
        append_bytes(&mut out, self.cartridge.ram().as_slice());
        out
    }

    /// Load a bus state saved by `save_state`. Data shorter than the fixed
    /// part is refused (`false`) and the bus is left as it was.
    pub fn load_state(&mut self, data: &[u8]) -> (r: bool)
        requires old(self).wf(),
        ensures
            final(self).wf(),
            r == (data@.len() >= STATE_FIXED),
            r ==> final(self)@ == restore(old(self)@, data@),
            !r ==> final(self)@ == old(self)@,
    {
        if data.len() < STATE_FIXED {
            return false;
        }
        let ghost b0 = self@;
        copy_from(&mut self.memory, data, 0);
        copy_from(&mut self.ppu.vram, data, STATE_VRAM);
        copy_from(&mut self.ppu.oam, data, STATE_OAM);
        copy_from(&mut self.ppu.bg_palette_ram, data, STATE_BG_PALETTE);
        copy_from(&mut self.ppu.obj_palette_ram, data, STATE_OBJ_PALETTE);
        copy_from(&mut self.wram, data, STATE_WRAM);
        let ram = vstd::slice::slice_to_vec(vstd::slice::slice_subrange(data, STATE_FIXED, data.len()));
        self.cartridge.set_ram(ram);
        let ghost b1 = self@;
        assert(b1 =~= BusView {
            memory: data@.subrange(0, STATE_VRAM as int),
            ppu: PpuView {
                vram: data@.subrange(STATE_VRAM as int, STATE_OAM as int),
                oam: data@.subrange(STATE_OAM as int, STATE_BG_PALETTE as int),
                bg_palette_ram: data@.subrange(STATE_BG_PALETTE as int, STATE_OBJ_PALETTE as int),
                obj_palette_ram: data@.subrange(STATE_OBJ_PALETTE as int, STATE_WRAM as int),
                ..b0.ppu
            },
            wram: data@.subrange(STATE_WRAM as int, STATE_REGS as int),
            cart: CartView { ram: data@.subrange(STATE_FIXED as int, data@.len() as int), ..b0.cart },
            ..b0
        });
        self.restore_regs(data, STATE_REGS);
        true
    }

    /// Take the registers from the block of `data` at `off`.
    #[verifier::rlimit(100)]
    fn restore_regs(&mut self, data: &[u8], off: usize)
        requires old(self).wf(), off + 40 <= data@.len(),
        ensures
            final(self).wf(),
            final(self)@ == restore_regs(old(self)@, data@.subrange(off as int, off + 40)),
    {
        let ghost s = data@.subrange(off as int, off + 40);
        self.r_ie = data[off];
        self.r_if = data[off + 1];
        self.timer.counter = read_le16(data, off + 2);
        self.timer.tima = data[off + 4];
        self.timer.tma = data[off + 5];
        self.timer.tac = data[off + 6];
        self.ppu.lcdc = data[off + 7];
        self.ppu.stat = data[off + 8];
        self.ppu.scy = data[off + 9];
        self.ppu.scx = data[off + 10];
        self.ppu.ly = if data[off + 11] < 154 { data[off + 11] } else { 0 };
        self.ppu.lyc = data[off + 12];
        self.ppu.bgp = data[off + 13];
        self.ppu.obp0 = data[off + 14];
        self.ppu.obp1 = data[off + 15];
        self.ppu.wy = data[off + 16];
        self.ppu.wx = data[off + 17];
        self.ppu.window_line = data[off + 18];
        self.ppu.dot = read_le16(data, off + 19);
        self.ppu.vram_bank = if data[off + 21] == 0 { 0 } else { 1 };
        self.ppu.bg_palette_index = data[off + 22];
        self.ppu.obj_palette_index = data[off + 23];
        self.ppu.hdma_src = read_le16(data, off + 24);
        self.ppu.hdma_dst = read_le16(data, off + 26);
        self.ppu.hdma_len = data[off + 28];
        self.ppu.hdma_active = data[off + 29] != 0;
        self.ppu.cgb_mode = data[off + 30] != 0;
        let m = data[off + 31] % 4;
        self.ppu.mode = if m == 0 { Mode::Hblank } else if m == 1 { Mode::Vblank } else if m == 2 { Mode::OamScan } else { Mode::PixelTransfer };
        self.double_speed = data[off + 32] != 0;
        self.boot_rom_enabled = data[off + 33] != 0;
        let bank = read_le16(data, off + 34);
        self.cartridge.set_banking(bank, data[off + 36], data[off + 37] != 0);
        self.wram_bank = data[off + 38] % 8;
        self.speed_switch_armed = data[off + 39] != 0;
        assert(le16(s, 2) == le16(data@, off + 2));
        assert(le16(s, 19) == le16(data@, off + 19));
        assert(le16(s, 24) == le16(data@, off + 24));
        assert(le16(s, 26) == le16(data@, off + 26));
        assert(le16(s, 34) == le16(data@, off + 34));
        assert(self@ =~= restore_regs(old(self)@, s));
    }
}

impl Bus {
    /// The sizes of the memories and the ranges of the device counters.
    pub open spec fn wf(&self) -> bool {
        self@.wf()
    }

    /// Create a new bus: all memory zeroed, an empty cartridge, devices in
    /// their initial state, no interrupt enabled or requested.
    pub fn new() -> (r: Self)
        ensures
            r.wf(),
            r@ == (BusView {
                memory: Seq::new(MEMORY_SIZE as nat, |i: int| 0u8),
                ppu: ppu_initial(),
                timer: Timer { counter: 0, tima: 0, tma: 0, tac: 0 },
                cart: cart_new(Seq::empty()),
                joypad: r@.joypad,
                apu: apu_initial(),
                r_ie: 0,
                r_if: 0,
                double_speed: false,
                speed_switch_armed: false,
                wram: Seq::new(WRAM_SIZE as nat, |i: int| 0u8),
                wram_bank: 0,
                boot_rom: None,
                boot_rom_enabled: false,
            }),
            r@.joypad.spec_select() == 0,
            r@.joypad.spec_action() == 0x0F,
            r@.joypad.spec_direction() == 0x0F,
    {
        let r = Bus {
            memory: vec![0u8; MEMORY_SIZE],
            ppu: Ppu::new(),
            timer: Timer::new(),
            cartridge: Cartridge::new(Vec::new()),
            joypad: Joypad::new(),
            apu: Apu::new(),
            r_ie: 0,
            r_if: 0,
            double_speed: false,
            speed_switch_armed: false,
            wram: vec![0u8; WRAM_SIZE],
            wram_bank: 0,
            boot_rom: None,
            boot_rom_enabled: false,
        };
        assert(r.memory@ =~= Seq::new(MEMORY_SIZE as nat, |i: int| 0u8));
        assert(r.wram@ =~= Seq::new(WRAM_SIZE as nat, |i: int| 0u8));
        r
    }

    /// The index into the switchable work RAM of `address` (0xD000-0xDFFF).
    fn wram_index(&self, address: u16) -> (r: usize)
        requires self.wf(), 0xD000 <= address <= 0xDFFF,
        ensures r == self@.wram_index(address), r < WRAM_SIZE,
    {
        let bank: usize = if self.wram_bank == 0 { 0 } else { (self.wram_bank - 1) as usize };
        bank * WRAM_BANK_SIZE + (address - 0xD000) as usize
    }

    /// Carry out the speed switch a STOP performs when KEY1 armed one.
    pub fn switch_speed(&mut self)
        requires old(self).wf(),
        ensures final(self).wf(), final(self)@ == speed_switch(old(self)@),
    {
        if self.speed_switch_armed {
            self.double_speed = !self.double_speed;
            self.speed_switch_armed = false;
        }
    }

    /// Whether the boot ROM maps `address`.
    fn boot_maps(&self, address: u16) -> (r: bool)
        ensures r == boot_maps(self@, address),
    {
        if !self.boot_rom_enabled {
            return false;
        }
        match &self.boot_rom {
            Some(rom) => (address as usize) < rom.len() && (address < 0x0100 || (0x0200 <= address && address < 0x0900)),
            None => false,
        }
    }

    /// Read a byte from the given address.
    pub fn read(&self, address: u16) -> (r: u8)
        requires self.wf(),
        ensures r == self@.read(address),
    {
        reveal(BusView::read);
        if address <= 0x7FFF {
            if self.boot_maps(address) {
                match &self.boot_rom {
                    Some(rom) => rom[address as usize],
                    None => 0xFF,
                }
            } else {
                self.cartridge.read(address)
            }
        } else if address <= 0x9FFF {
            self.ppu.vram[(self.ppu.vram_bank as u16 * 0x2000 + (address - VRAM_OFFSET)) as usize]
        } else if address <= 0xBFFF {
            self.cartridge.read_ram(address)
        } else if 0xD000 <= address && address <= 0xDFFF {
            self.wram[self.wram_index(address)]
        } else if address <= 0xFDFF {
            self.memory[address as usize]
        } else if address <= 0xFE9F {
            self.ppu.oam[(address - OAM_OFFSET) as usize]
        } else if address <= 0xFEFF {
            self.memory[address as usize]
        } else if address <= 0xFF7F {
            self.read_io_registers(address)
        } else if address <= 0xFFFE {
            self.memory[address as usize]
        } else {
            self.r_ie
        }
    }

    /// Read from an I/O register (0xFF00-0xFF7F).
    pub fn read_io_registers(&self, address: u16) -> (r: u8)
        requires self.wf(),
        ensures r == self@.read_io(address),
    {
        if 0xFF10 <= address && address <= 0xFF3F {
            return self.apu.read(address);
        }
        if address >= 0xFF40 {
            return self.read_ppu_registers(address);
        }
        match address {
            0xFF00 => self.joypad.read(),
            0xFF04 => (self.timer.counter / 256) as u8,
            0xFF05 => self.timer.tima,
            0xFF06 => self.timer.tma,
            0xFF07 => self.timer.tac,
            0xFF0F => self.r_if,
            _ => self.memory[address as usize],
        }
    }

    /// Read an I/O register at 0xFF40 or above.
    fn read_ppu_registers(&self, address: u16) -> (r: u8)
        requires self.wf(), address >= 0xFF40,
        ensures r == self@.read_io(address),
    {
        let p = &self.ppu;
        proof { lemma_low_bit_u8(p.bg_palette_index); lemma_low_bit_u8(p.obj_palette_index); }
        match address {
            0xFF40 => p.lcdc,
            0xFF41 => p.stat,
            0xFF42 => p.scy,
            0xFF43 => p.scx,
            0xFF44 => p.ly,
            0xFF45 => p.lyc,
            0xFF47 => p.bgp,
            0xFF48 => p.obp0,
            0xFF49 => p.obp1,
            0xFF4A => p.wy,
            0xFF4B => p.wx,
            0xFF4D => {
                let speed: u8 = if self.double_speed { 0x80 } else { 0 };
                let armed: u8 = if self.speed_switch_armed { 1 } else { 0 };
                0x7E + speed + armed
            }
            0xFF4F => p.vram_bank,
            0xFF51 => (p.hdma_src / 256) as u8,
            0xFF52 => (p.hdma_src % 256) as u8,
            0xFF53 => (p.hdma_dst / 256) as u8,
            0xFF54 => (p.hdma_dst % 256) as u8,
            0xFF55 => if p.hdma_active { p.hdma_len } else { 0xFF },
            0xFF68 => p.bg_palette_index,
            0xFF69 => p.bg_palette_ram[(p.bg_palette_index & 0x3F) as usize],
            0xFF6A => p.obj_palette_index,
            0xFF6B => p.obj_palette_ram[(p.obj_palette_index & 0x3F) as usize],
            0xFF70 => 0xF8 + self.wram_bank,
            _ => self.memory[address as usize],
        }
    }

    /// Write a byte to VRAM (selected bank) or external RAM (0x8000-0xBFFF).
    fn write_mem(&mut self, address: u16, byte: u8)
        requires old(self).wf(), 0x8000 <= address <= 0xBFFF,
        ensures final(self)@ == old(self)@.write_mem(address, byte), final(self).wf(),
    {
        if address <= 0x9FFF {
            let i = (self.ppu.vram_bank as u16 * 0x2000 + (address - VRAM_OFFSET)) as usize;
            self.ppu.vram.set(i, byte);
        } else {
            self.cartridge.write_ram(address, byte);
        }
    }

    /// Write a byte to the given address.
    pub fn write(&mut self, address: u16, byte: u8)
        requires old(self).wf(),
        ensures
            final(self).wf(),
            exists|t: u64| final(self)@ == old(self)@.write(address, byte, t),
    {
        let Ghost(t) = self.write_timed(address, byte);
    }

    /// Write a byte to the given address; the ghost result is the clock
    /// reading the write used.
    pub(crate) fn write_timed(&mut self, address: u16, byte: u8) -> (t: Ghost<u64>)
        requires old(self).wf(),
        ensures
            final(self).wf(),
            final(self)@ == old(self)@.write(address, byte, t@),
    {
        reveal(BusView::write);
        let ghost b0 = self@;
        if address <= 0x7FFF {
            self.cartridge.write(address, byte);
            let ghost t = choose|t: u64| self.cartridge@ == b0.cart.write(address, byte, t);
            assert(self@ == b0.write(address, byte, t));
            return Ghost(t);
        } else if address <= 0xBFFF {
            self.write_mem(address, byte);
        } else if 0xD000 <= address && address <= 0xDFFF {
            let i = self.wram_index(address);
            self.wram.set(i, byte);
        } else if address <= 0xFDFF {
            self.memory.set(address as usize, byte);
        } else if address <= 0xFE9F {
            self.ppu.oam.set((address - OAM_OFFSET) as usize, byte);
        } else if address <= 0xFEFF {
            self.memory.set(address as usize, byte);
        } else if address <= 0xFF7F {
            self.write_io_registers(address, byte);
        } else if address <= 0xFFFE {
            self.memory.set(address as usize, byte);
        } else {
            self.r_ie = byte;
        }
        assert(self@ == b0.write(address, byte, 0));
        Ghost(0)
    }

    /// Write a 16-bit value little-endian: the low byte at `address`, the high
    /// byte at `address + 1` (wrapping).
    pub fn write_u16(&mut self, address: u16, val: u16)
        requires old(self).wf(),
        ensures
            final(self).wf(),
            exists|t1: u64, t2: u64| final(self)@ == #[trigger] old(self)@.write(address, (val % 256) as u8, t1)
                .write(((address + 1) % 65536) as u16, (val / 256) as u8, t2),
    {
        let Ghost(t) = self.write_u16_timed(address, val);
    }

    /// `write_u16` with the two clock readings as the ghost result.
    pub(crate) fn write_u16_timed(&mut self, address: u16, val: u16) -> (t: Ghost<(u64, u64)>)
        requires old(self).wf(),
        ensures
            final(self).wf(),
            final(self)@ == old(self)@.write(address, (val % 256) as u8, t@.0)
                .write(((address + 1) % 65536) as u16, (val / 256) as u8, t@.1),
    {
        let t1 = self.write_timed(address, (val % 256) as u8);
        let t2 = self.write_timed(address.wrapping_add(1), (val / 256) as u8);
        Ghost((t1@, t2@))
    }

    /// Request an interrupt by setting its bit in IF.
    pub fn request_interrupt(&mut self, interrupt: Interrupt)
        ensures
            final(self)@ == (BusView { r_if: old(self)@.r_if | (1u8 << interrupt_bit(interrupt)), ..old(self)@ }),
    {
        let bit: u8 = match interrupt {
            Interrupt::VBLANK => 0,
            Interrupt::LCD => 1,
            Interrupt::TIMER => 2,
            Interrupt::SERIAL => 3,
            Interrupt::JOYPAD => 4,
        };
        self.r_if = self.r_if | (1u8 << bit);
    }

    /// Clear an interrupt bit in IF after it has been handled.
    pub fn clear_interrupt(&mut self, bit: u8)
        requires bit < 8,
        ensures
            final(self)@ == (BusView { r_if: old(self)@.r_if & !(1u8 << bit), ..old(self)@ }),
    {
        self.r_if = self.r_if & !(1u8 << bit);
    }

    /// The highest-priority pending interrupt: the lowest bit set in both IF
    /// and IE among the five sources, or `None`.
    pub fn pending_interrupt(&self) -> (r: Option<u8>)
        ensures r == self@.pending(),
    {
        let pending = self.r_if & self.r_ie & 0x1F;
        if pending == 0 {
            None
        } else if pending & 0x01 != 0 {
            Some(0)
        } else if pending & 0x02 != 0 {
            Some(1)
        } else if pending & 0x04 != 0 {
            Some(2)
        } else if pending & 0x08 != 0 {
            Some(3)
        } else {
            Some(4)
        }
    }

    /// Run the devices for the `cycles` T-cycles the CPU just spent; returns
    /// whether a frame completed.
    pub(crate) fn advance(&mut self, cycles: u8) -> (r: bool)
        requires old(self).wf(),
        ensures
            final(self).wf(),
            (final(self)@, r) == advance(old(self)@, cycles),
    {
        self.advance_ppu(cycles);
        self.advance_timer_apu(cycles);
        self.finish_frame()
    }

    fn advance_ppu(&mut self, cycles: u8)
        requires old(self).wf(),
        ensures final(self).wf(), final(self)@ == advance_ppu(old(self)@, cycles),
    {
        let ppu_cycles = if self.double_speed { cycles / 2 } else { cycles };
        let scanline_done = self.ppu.tick(ppu_cycles);
        if self.ppu.stat_irq {
            self.ppu.stat_irq = false;
            self.request_interrupt(Interrupt::LCD);
        }
        if scanline_done {
            self.hdma_tick();
        }
    }

    fn advance_timer_apu(&mut self, cycles: u8)
        requires old(self).wf(),
        ensures final(self).wf(), final(self)@ == advance_timer_apu(old(self)@, cycles),
    {
        let interrupt = self.timer.tick(cycles);
        if interrupt {
            self.request_interrupt(Interrupt::TIMER);
        }
        self.apu.tick(cycles);
    }

    fn finish_frame(&mut self) -> (r: bool)
        requires old(self).wf(),
        ensures final(self).wf(), (final(self)@, r) == finish_frame(old(self)@),
    {
        if self.ppu.vblank {
            if self.ppu.lcdc & 0x80 != 0 {
                self.request_interrupt(Interrupt::VBLANK);
            }
            self.ppu.vblank = false;
            return true;
        }
        false
    }

    /// The PPU's framebuffer.
    pub fn framebuffer(&self) -> (r: &[u32])
        ensures r@ == self@.ppu.framebuffer,
    {
        self.ppu.framebuffer.as_slice()
    }

    /// The APU's mute state.
    pub fn muted(&self) -> (r: bool)
        ensures r == self@.apu.muted,
    {
        self.apu.muted()
    }

    /// Whether the real-time throttle is disabled.
    pub fn skip_throttle(&self) -> (r: bool)
        ensures r == self@.apu.skip_throttle,
    {
        self.apu.skip_throttle()
    }

    /// The cartridge's external RAM.
    pub fn cartridge_ram(&self) -> (r: &Vec<u8>)
        ensures r@ == self@.cart.ram,
    {
        self.cartridge.ram()
    }

    /// Press a joypad key.
    pub fn key_down(&mut self, key: JoypadKey)
        requires old(self).wf(),
        ensures
            final(self).wf(),
            final(self)@ == (BusView { joypad: final(self)@.joypad, ..old(self)@ }),
            final(self)@.joypad.spec_select() == old(self)@.joypad.spec_select(),
            is_direction(key) ==> final(self)@.joypad.spec_direction() == clear_bit(old(self)@.joypad.spec_direction(), key_bit(key))
                && final(self)@.joypad.spec_action() == old(self)@.joypad.spec_action(),
            !is_direction(key) ==> final(self)@.joypad.spec_action() == clear_bit(old(self)@.joypad.spec_action(), key_bit(key))
                && final(self)@.joypad.spec_direction() == old(self)@.joypad.spec_direction(),
    {
        self.joypad.key_down(key);
    }

    /// Release every joypad key.
    pub fn reset_joypad(&mut self)
        requires old(self).wf(),
        ensures
            final(self).wf(),
            final(self)@ == (BusView { joypad: final(self)@.joypad, ..old(self)@ }),
            final(self)@.joypad.spec_select() == old(self)@.joypad.spec_select(),
            final(self)@.joypad.spec_action() == 0x0F,
            final(self)@.joypad.spec_direction() == 0x0F,
    {
        self.joypad.reset();
    }

    /// Set the APU's mute state.
    pub fn set_muted(&mut self, muted: bool)
        requires old(self).wf(),
        ensures final(self).wf(), final(self)@ == (BusView { apu: ApuView { muted, ..old(self)@.apu }, ..old(self)@ }),
    {
        self.apu.set_muted(muted);
    }

    /// Enable or disable the real-time throttle.
    pub fn set_skip_throttle(&mut self, skip: bool)
        requires old(self).wf(),
        ensures final(self).wf(), final(self)@ == (BusView { apu: ApuView { skip_throttle: skip, ..old(self)@.apu }, ..old(self)@ }),
    {
        self.apu.set_skip_throttle(skip);
    }

    /// Record whether an audio output at `rate` samples per second is available.
    pub fn set_audio_output(&mut self, available: bool, rate: u32)
        requires old(self).wf(),
        ensures
            final(self).wf(),
            final(self)@ == (BusView {
                apu: ApuView { has_output: available, sample_rate: if rate > CPU_CLOCK { CPU_CLOCK } else { rate }, ..old(self)@.apu },
                ..old(self)@
            }),
    {
        self.apu.set_output(available, rate);
    }

    /// Take the stereo samples mixed so far, leaving the buffer empty.
    pub fn take_samples(&mut self) -> (r: Vec<(u16, u16)>)
        requires old(self).wf(),
        ensures
            final(self).wf(),
            r@ == old(self)@.apu.samples,
            final(self)@ == (BusView { apu: ApuView { samples: Seq::empty(), ..old(self)@.apu }, ..old(self)@ }),
    {
        self.apu.take_samples()
    }

    /// Replace the cartridge's external RAM (loading a save file).
    pub fn set_cartridge_ram(&mut self, data: Vec<u8>)
        requires old(self).wf(),
        ensures final(self).wf(), final(self)@ == (BusView { cart: CartView { ram: data@, ..old(self)@.cart }, ..old(self)@ }),
    {
        self.cartridge.set_ram(data);
    }

    /// Install a boot ROM and map it over the start of the cartridge ROM; the
    /// PPU switches to CGB mode.
    pub fn load_boot_rom(&mut self, data: Vec<u8>)
        requires old(self).wf(),
        ensures
            final(self).wf(),
            final(self)@ == (BusView {
                boot_rom: Some(data@),
                boot_rom_enabled: true,
                ppu: PpuView { cgb_mode: true, ..old(self)@.ppu },
                ..old(self)@
            }),
    {
        self.boot_rom = Some(data);
        self.boot_rom_enabled = true;
        self.ppu.cgb_mode = true;
    }

    /// Insert a cartridge made from `data`; the PPU takes its colour mode from
    /// the cartridge header.
    pub fn load_rom(&mut self, data: Vec<u8>)
        requires old(self).wf(),
        ensures
            final(self).wf(),
            final(self)@ == (BusView {
                cart: cart_new(data@),
                ppu: PpuView { cgb_mode: cart_new(data@).cgb_mode, ..old(self)@.ppu },
                ..old(self)@
            }),
    {
        self.cartridge = Cartridge::new(data);
        self.ppu.cgb_mode = self.cartridge.is_cgb();
    }

    /// Write to an I/O register (0xFF00-0xFF7F). Some registers are read-only.
    pub fn write_io_registers(&mut self, address: u16, byte: u8)
        requires old(self).wf(),
        ensures final(self)@ == old(self)@.write_io(address, byte), final(self).wf(),
    {
        reveal(BusView::write_io);
        if 0xFF10 <= address && address <= 0xFF3F {
            self.apu.write(address, byte);
        } else if address == 0xFF46 {
            self.oam_dma(byte);
        } else if address == 0xFF55 {
            self.hdma_start(byte);
        } else {
            self.write_io_plain(address, byte);
        }
    }

    /// OAM DMA: copy 160 bytes from `byte << 8` into OAM.
    fn oam_dma(&mut self, byte: u8)
        requires old(self).wf(),
        ensures final(self)@ == old(self)@.oam_dma(byte), final(self).wf(),
    {
        let ghost b0 = self@;
        let src = (byte as u16) * 256;
        for i in 0..160u16
            invariant
                self.wf(),
                b0.wf(),
                src == byte * 256,
                self@ == (BusView { ppu: PpuView { oam: self@.ppu.oam, ..b0.ppu }, ..b0 }),
                forall|j: int| 0 <= j < i ==> #[trigger] self@.ppu.oam[j] == b0.read((src + j) as u16),
                forall|j: int| i <= j < 160 ==> #[trigger] self@.ppu.oam[j] == b0.ppu.oam[j],
        {
            let v = self.read(src + i);
            assert(v == b0.read((src + i) as u16)) by { reveal(BusView::read); }
            self.ppu.oam.set(i as usize, v);
        }
        assert(self@.ppu.oam =~= b0.oam_dma(byte).ppu.oam);
    }

    /// Copy `n` bytes from `src` (wrapping) to `dst` within VRAM / external RAM.
    fn dma_copy(&mut self, src: u16, dst: u16, n: u16)
        requires old(self).wf(), 0x8000 <= dst, dst + n <= 0xC000,
        ensures final(self)@ == dma_copy(old(self)@, src, dst, n as nat), final(self).wf(),
    {
        let ghost b0 = self@;
        for i in 0..n
            invariant
                self.wf(),
                b0.wf(),
                0x8000 <= dst,
                dst + n <= 0xC000,
                self@ == dma_copy(b0, src, dst, i as nat),
        {
            let b = self.read(src.wrapping_add(i));
            self.write_mem(dst + i, b);
        }
    }

    /// A write to HDMA5: start a general or an HBlank DMA.
    fn hdma_start(&mut self, byte: u8)
        requires old(self).wf(),
        ensures final(self)@ == old(self)@.hdma_start(byte), final(self).wf(),
    {
        if byte & 0x80 == 0 {
            let len = (byte & 0x7F) as u16 + 1;
            let src = self.ppu.hdma_src;
            let dst = 0x8000u16 | (self.ppu.hdma_dst & 0x1FFFu16);
            proof { lemma_hdma_dest(self.ppu.hdma_dst); }
            self.dma_copy(src, dst, len * 16);
            self.ppu.hdma_active = false;
            self.ppu.hdma_len = 0xFF;
        } else {
            self.ppu.hdma_active = true;
            self.ppu.hdma_len = byte & 0x7F;
        }
    }

    /// Perform one HBlank DMA step: copy 16 bytes from the source to VRAM.
    pub fn hdma_tick(&mut self)
        requires old(self).wf(),
        ensures final(self)@ == hdma_step(old(self)@), final(self).wf(),
    {
        if !self.ppu.hdma_active {
            return;
        }
        let ghost b0 = self@;
        let src = self.ppu.hdma_src;
        let dst = 0x8000u16 | (self.ppu.hdma_dst & 0x1FFFu16);
        proof { lemma_hdma_dest(self.ppu.hdma_dst); }
        self.dma_copy(src, dst, 16);
        proof { lemma_dma_copy_frame(b0, src, dst, 16); }
        self.hdma_advance();
    }

    /// Advance the HDMA registers past one 16-byte block.
    fn hdma_advance(&mut self)
        requires old(self).wf(), old(self).ppu.hdma_active,
        ensures final(self)@ == hdma_advance(old(self)@), final(self).wf(),
    {
        self.ppu.hdma_src = self.ppu.hdma_src.wrapping_add(16);
        self.ppu.hdma_dst = self.ppu.hdma_dst.wrapping_add(16);
        if self.ppu.hdma_len == 0 {
            self.ppu.hdma_active = false;
        } else {
            self.ppu.hdma_len = self.ppu.hdma_len - 1;
        }
    }

    /// A write to an I/O register without side effects beyond its state.
    fn write_io_plain(&mut self, address: u16, byte: u8)
        requires old(self).wf(),
        ensures final(self)@ == old(self)@.write_io_plain(address, byte), final(self).wf(),
    {
        match address {
            0xFF00 => self.joypad.write(byte),
            0xFF04 => self.timer.counter = 0,
            0xFF05 => self.timer.tima = byte,
            0xFF06 => self.timer.tma = byte,
            0xFF07 => self.timer.tac = byte,
            0xFF0F => self.r_if = byte,
            0xFF50 => self.boot_rom_enabled = false,
            0xFF40..=0xFF4F => self.write_lcd_register(address, byte),
            0xFF51..=0xFF54 => self.write_hdma_register(address, byte),
            0xFF68..=0xFF6B => self.write_palette_register(address, byte),
            0xFF70 => self.wram_bank = byte % 8,
            _ => self.memory.set(address as usize, byte),
        }
    }

    /// A write to an LCD register (0xFF40-0xFF4F).
    #[verifier::rlimit(60)]
    fn write_lcd_register(&mut self, address: u16, byte: u8)
        requires old(self).wf(), 0xFF40 <= address <= 0xFF4F,
        ensures final(self)@ == old(self)@.write_io_plain(address, byte), final(self).wf(),
    {
        match address {
            0xFF40 => self.ppu.lcdc = byte,
            0xFF41 => self.ppu.stat = byte,
            0xFF42 => self.ppu.scy = byte,
            0xFF43 => self.ppu.scx = byte,
            0xFF44 => {},
            0xFF45 => self.ppu.lyc = byte,
            0xFF47 => self.ppu.bgp = byte,
            0xFF48 => self.ppu.obp0 = byte,
            0xFF49 => self.ppu.obp1 = byte,
            0xFF4A => self.ppu.wy = byte,
            0xFF4B => self.ppu.wx = byte,
            0xFF4D => self.speed_switch_armed = byte % 2 == 1,
            0xFF4F => {
                let bank = byte & 0x01;
                proof { lemma_low_bit_u8(byte); }
                self.ppu.vram_bank = bank;
            }
            _ => self.memory.set(address as usize, byte),
        }
    }

    /// A write to an HDMA source/destination register (0xFF51-0xFF54).
    fn write_hdma_register(&mut self, address: u16, byte: u8)
        requires old(self).wf(), 0xFF51 <= address <= 0xFF54,
        ensures final(self)@ == old(self)@.write_io_plain(address, byte), final(self).wf(),
    {
        proof { lemma_low_bit_u8(byte); }
        match address {
            0xFF51 => self.ppu.hdma_src = self.ppu.hdma_src % 256 + (byte as u16) * 256,
            0xFF52 => self.ppu.hdma_src = (self.ppu.hdma_src / 256) * 256 + (byte & 0xF0) as u16,
            0xFF53 => self.ppu.hdma_dst = self.ppu.hdma_dst % 256 + ((byte & 0x1F) as u16) * 256,
            _ => self.ppu.hdma_dst = (self.ppu.hdma_dst / 256) * 256 + (byte & 0xF0) as u16,
        }
    }

    /// A write to a CGB palette register (0xFF68-0xFF6B).
    fn write_palette_register(&mut self, address: u16, byte: u8)
        requires old(self).wf(), 0xFF68 <= address <= 0xFF6B,
        ensures final(self)@ == old(self)@.write_io_plain(address, byte), final(self).wf(),
    {
        match address {
            0xFF68 => self.ppu.bg_palette_index = byte,
            0xFF69 => {
                let ghost p = self.ppu@;
                let (ram, index) = Self::palette_write(&mut self.ppu.bg_palette_ram, self.ppu.bg_palette_index, byte);
                self.ppu.bg_palette_index = index;
            }
            0xFF6A => self.ppu.obj_palette_index = byte,
            _ => {
                let (ram, index) = Self::palette_write(&mut self.ppu.obj_palette_ram, self.ppu.obj_palette_index, byte);
                self.ppu.obj_palette_index = index;
            }
        }
    }

    /// Store `byte` in palette RAM through `index` and return the next index.
    fn palette_write(ram: &mut Vec<u8>, index: u8, byte: u8) -> (r: ((), u8))
        requires old(ram)@.len() == 64,
        ensures
            (final(ram)@, r.1) == BusView::palette_write(old(ram)@, index, byte),
            final(ram)@.len() == 64,
    {
        proof { lemma_low_bit_u8(index); }
        ram.set((index & 0x3F) as usize, byte);
        if index & 0x80 != 0 {
            ((), (index & 0x80) | (index.wrapping_add(1) & 0x3F))
        } else {
            ((), index)
        }
    }
}

/// Bounds of the byte fields the I/O writes extract.
proof fn lemma_low_bit_u8(x: u8) by (bit_vector)
    ensures
        x & 0x01u8 <= 1u8,
        x & 0x3Fu8 < 64u8,
        x & 0xF0u8 <= 0xF0u8,
        x & 0x1Fu8 <= 0x1Fu8,
{
}

} // verus!
