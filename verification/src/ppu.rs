use vstd::prelude::*;

verus! {

/// Native Game Boy screen width in pixels.
pub const SCREEN_WIDTH: usize = 160;
/// Native Game Boy screen height in pixels.
pub const SCREEN_HEIGHT: usize = 144;
/// Base address of VRAM in the memory map.
pub const VRAM_OFFSET: u16 = 0x8000;
/// Base address of OAM in the memory map.
pub const OAM_OFFSET: u16 = 0xFE00;
/// Bytes of VRAM (two banks of 8 KiB).
pub const VRAM_SIZE: usize = 16384;
/// Bytes of OAM (40 sprites of 4 bytes).
pub const OAM_SIZE: usize = 160;
/// Pixels in the framebuffer.
pub const FRAME_PIXELS: usize = 23040;

/// The PPU mode within a scanline.
#[derive(Clone, Copy, PartialEq, Eq, Structural)]
pub enum Mode {
    Hblank,
    Vblank,
    OamScan,
    PixelTransfer,
}

/// The abstract state of the PPU.
#[verifier::ext_equal]
pub struct PpuView {
    pub ly: u8,
    pub lyc: u8,
    pub stat: u8,
    pub scx: u8,
    pub scy: u8,
    pub wx: u8,
    pub wy: u8,
    pub bgp: u8,
    pub lcdc: u8,
    pub obp0: u8,
    pub obp1: u8,
    pub window_line: u8,
    pub dot: u16,
    pub vblank: bool,
    pub cgb_mode: bool,
    pub framebuffer: Seq<u32>,
    pub vram: Seq<u8>,
    pub oam: Seq<u8>,
    pub bg_palette_ram: Seq<u8>,
    pub obj_palette_ram: Seq<u8>,
    pub bg_palette_index: u8,
    pub obj_palette_index: u8,
    pub vram_bank: u8,
    pub hdma_src: u16,
    pub hdma_dst: u16,
    pub hdma_len: u8,
    pub hdma_active: bool,
    pub mode: Mode,
    pub stat_irq: bool,
}

/// Pixel Processing Unit. Tracks scanline timing and produces framebuffer data.
pub struct Ppu {
    pub ly: u8,
    pub lyc: u8,
    pub stat: u8,
    pub scx: u8,
    pub scy: u8,
    pub wx: u8,
    pub wy: u8,
    pub bgp: u8,
    pub lcdc: u8,
    pub obp0: u8,
    pub obp1: u8,
    pub window_line: u8,
    pub dot: u16,
    pub vblank: bool,
    pub cgb_mode: bool,
    pub framebuffer: Vec<u32>,
    pub vram: Vec<u8>,
    pub oam: Vec<u8>,
    pub bg_palette_ram: Vec<u8>,
    pub obj_palette_ram: Vec<u8>,
    pub bg_palette_index: u8,
    pub obj_palette_index: u8,
    pub vram_bank: u8,
    pub hdma_src: u16,
    pub hdma_dst: u16,
    pub hdma_len: u8,
    pub hdma_active: bool,
    pub mode: Mode,
    pub stat_irq: bool,
}

impl View for Ppu {
    type V = PpuView;

    open spec fn view(&self) -> PpuView {
        PpuView {
            ly: self.ly,
            lyc: self.lyc,
            stat: self.stat,
            scx: self.scx,
            scy: self.scy,
            wx: self.wx,
            wy: self.wy,
            bgp: self.bgp,
            lcdc: self.lcdc,
            obp0: self.obp0,
            obp1: self.obp1,
            window_line: self.window_line,
            dot: self.dot,
            vblank: self.vblank,
            cgb_mode: self.cgb_mode,
            framebuffer: self.framebuffer@,
            vram: self.vram@,
            oam: self.oam@,
            bg_palette_ram: self.bg_palette_ram@,
            obj_palette_ram: self.obj_palette_ram@,
            bg_palette_index: self.bg_palette_index,
            obj_palette_index: self.obj_palette_index,
            vram_bank: self.vram_bank,
            hdma_src: self.hdma_src,
            hdma_dst: self.hdma_dst,
            hdma_len: self.hdma_len,
            hdma_active: self.hdma_active,
            mode: self.mode,
            stat_irq: self.stat_irq,
        }
    }
}

// LCDC register bits
pub const LCDC_BG_ENABLE: u8 = 0x01;
pub const LCDC_OBJ_ENABLE: u8 = 0x02;
pub const LCDC_OBJ_SIZE: u8 = 0x04;
pub const LCDC_BG_MAP: u8 = 0x08;
pub const LCDC_TILE_DATA: u8 = 0x10;
pub const LCDC_WIN_ENABLE: u8 = 0x20;
pub const LCDC_WIN_MAP: u8 = 0x40;
pub const LCDC_LCD_ENABLE: u8 = 0x80;

/// Dots in one scanline.
pub const MAX_CYCLES: u16 = 456;
/// Scanlines in one frame, including the vertical blank.
pub const HORIZONTAL_LINES: u8 = 154;
/// The first scanline of the vertical blank.
pub const VBLANK_LINE: u8 = 144;
/// VRAM offset of the first tile map.
pub const TILE_MAP_0: usize = 0x1800;
/// VRAM offset of the second tile map.
pub const TILE_MAP_1: usize = 0x1C00;
/// Bytes in one VRAM bank.
pub const VRAM_BANK_SIZE: usize = 0x2000;

impl PpuView {
    /// The sizes of the PPU memories.
    pub open spec fn wf(self) -> bool {
        &&& self.ly < HORIZONTAL_LINES
        &&& self.vram_bank <= 1
        &&& self.framebuffer.len() == FRAME_PIXELS
        &&& self.vram.len() == VRAM_SIZE
        &&& self.oam.len() == OAM_SIZE
        &&& self.bg_palette_ram.len() == 64
        &&& self.obj_palette_ram.len() == 64
    }
}

/// ARGB color of DMG shade `color_id` through the palette byte `palette`.
#[verifier::opaque]
pub open spec fn shade_to_color(color_id: u8, palette: u8) -> u32 {
    let shade = (palette >> (color_id * 2) as u8) & 0x03;
    if shade == 0 {
        0xFFFFFFFF
    } else if shade == 1 {
        0xFFAAAAAA
    } else if shade == 2 {
        0xFF555555
    } else {
        0xFF000000
    }
}

/// ARGB color of entry `color_id` of CGB palette `palette_num` in `palette_ram`:
/// the little-endian RGB555 value, each 5-bit channel scaled by 8.
#[verifier::opaque]
pub open spec fn cgb_color(palette_ram: Seq<u8>, palette_num: u8, color_id: u8) -> u32 {
    let index = palette_num * 8 + color_id * 2;
    let rgb555 = palette_ram[index + 1] as int * 256 + palette_ram[index] as int;
    let r = (rgb555 % 32) * 8;
    let g = ((rgb555 / 32) % 32) * 8;
    let b = ((rgb555 / 1024) % 32) * 8;
    (0xFF000000 + r * 65536 + g * 256 + b) as u32
}

/// DMG palettes: color id `id` (0-3) takes the two palette bits at 2 * id
/// as its shade, and shades 0 to 3 are white, light gray, dark gray and
/// black, all opaque.
pub proof fn lemma_dmg_shades(id: u8, palette: u8)
    requires id < 4,
    ensures
        ({
            let shade = if id == 0 { palette % 4 } else if id == 1 { palette / 4 % 4 } else if id == 2 { palette / 16 % 4 } else { palette / 64 };
            shade_to_color(id, palette) == (if shade == 0 { 0xFFFFFFFFu32 } else if shade == 1 { 0xFFAAAAAAu32 }
                else if shade == 2 { 0xFF555555u32 } else { 0xFF000000u32 })
        }),
{
    reveal(shade_to_color);
    lemma_palette_bits(palette);
    if id == 0 {
        assert((id * 2) as u8 == 0u8);
    } else if id == 1 {
        assert((id * 2) as u8 == 2u8);
    } else if id == 2 {
        assert((id * 2) as u8 == 4u8);
    } else {
        assert((id * 2) as u8 == 6u8);
    }
}

proof fn lemma_palette_bits(p: u8) by (bit_vector)
    ensures
        (p >> 0u8) & 3u8 == p % 4,
        (p >> 2u8) & 3u8 == p / 4 % 4,
        (p >> 4u8) & 3u8 == p / 16 % 4,
        (p >> 6u8) & 3u8 == p / 64,
{
}

/// A CGB palette entry is two bytes of RGB555 (low byte first): red in bits
/// 0-4, green in bits 5-9, blue in bits 10-14. Its ARGB color is opaque and
/// holds each 5-bit channel times 8: red in bits 16-23, green in bits 8-15,
/// blue in bits 0-7.
pub proof fn lemma_cgb_color_channels(ram: Seq<u8>, palette_num: u8, color_id: u8)
    requires palette_num * 8 + color_id * 2 + 1 < ram.len(),
    ensures
        ({
            let i = palette_num * 8 + color_id * 2;
            let lo = ram[i];
            let hi = ram[i + 1];
            let red = lo % 32;
            let green = lo / 32 + (hi % 4) * 8;
            let blue = (hi / 4) % 32;
            let argb = cgb_color(ram, palette_num, color_id) as int;
            &&& argb / 0x1000000 == 0xFF
            &&& (argb / 0x10000) % 256 == red * 8
            &&& (argb / 0x100) % 256 == green * 8
            &&& argb % 256 == blue * 8
        }),
{
    let i = palette_num * 8 + color_id * 2;
    let lo = ram[i] as int;
    let hi = ram[i + 1] as int;
    let rgb = hi * 256 + lo;
    let r = (rgb % 32) * 8;
    let g = ((rgb / 32) % 32) * 8;
    let b = ((rgb / 1024) % 32) * 8;
    assert(rgb % 32 == lo % 32) by (nonlinear_arith) requires rgb == hi * 256 + lo, 0 <= lo < 256, 0 <= hi;
    assert((rgb / 32) % 32 == lo / 32 + (hi % 4) * 8) by (nonlinear_arith) requires rgb == hi * 256 + lo, 0 <= lo < 256, 0 <= hi < 256;
    assert((rgb / 1024) % 32 == (hi / 4) % 32) by (nonlinear_arith) requires rgb == hi * 256 + lo, 0 <= lo < 256, 0 <= hi < 256;
    let argb = 0xFF000000 + r * 65536 + g * 256 + b;
    assert(0 <= r <= 248 && 0 <= g <= 248 && 0 <= b <= 248);
    assert(argb / 0x1000000 == 0xFF && (argb / 0x10000) % 256 == r && (argb / 0x100) % 256 == g && argb % 256 == b)
        by (nonlinear_arith) requires argb == 0xFF000000 + r * 65536 + g * 256 + b, 0 <= r <= 248, 0 <= g <= 248, 0 <= b <= 248;
    assert(argb < 0x1_0000_0000);
    reveal(cgb_color);
    assert(cgb_color(ram, palette_num, color_id) == (argb as u32));
}

/// VRAM offset of the data of `tile`, by the addressing mode of LCDC bit 4.
pub open spec fn tile_data_addr(lcdc: u8, tile: u8) -> int {
    if lcdc & LCDC_TILE_DATA != 0 {
        tile * 16
    } else if tile < 128 {
        0x1000 + tile * 16
    } else {
        0x1000 - (256 - tile) * 16
    }
}

/// The 2-bit color id of pixel `bit` (7 = leftmost) in a tile row given by its two bytes.
pub open spec fn color_id(byte1: u8, byte2: u8, bit: u8) -> u8 {
    (((byte2 >> bit) & 1u8) << 1u8) | ((byte1 >> bit) & 1u8)
}

impl PpuView {
    /// The background color of color id `id` (the color of an empty pixel when id is 0).
    pub open spec fn bg_color(self, id: u8) -> u32 {
        if self.cgb_mode { cgb_color(self.bg_palette_ram, 0, id) } else { shade_to_color(id, self.bgp) }
    }

    /// The background pixel at screen column `x` of line `ly`.
    pub open spec fn bg_pixel(self, x: u8) -> u32 {
        let bx = ((x + self.scx) % 256) as u8;
        let by = ((self.ly + self.scy) % 256) as u8;
        let map_offset: int = if self.lcdc & LCDC_BG_MAP != 0 { TILE_MAP_1 as int } else { TILE_MAP_0 as int };
        let map_index = (by / 8) * 32 + (bx / 8);
        let tile = self.vram[map_offset + map_index];
        let attr = self.vram[VRAM_BANK_SIZE + map_offset + map_index];
        let palette_num: u8 = if self.cgb_mode { attr & 0x07 } else { 0 };
        let tile_bank: u8 = if self.cgb_mode { (attr & 0x08) >> 3u8 } else { 0 };
        let x_flip = self.cgb_mode && attr & 0x20 != 0;
        let y_flip = self.cgb_mode && attr & 0x40 != 0;
        let py: int = if y_flip { 7 - by % 8 } else { (by % 8) as int };
        let tile_addr = tile_bank * VRAM_BANK_SIZE + tile_data_addr(self.lcdc, tile);
        let byte1 = self.vram[tile_addr + py * 2];
        let byte2 = self.vram[tile_addr + py * 2 + 1];
        let bit = (if x_flip { (bx % 8) as int } else { 7 - bx % 8 }) as u8;
        let id = color_id(byte1, byte2, bit);
        if self.cgb_mode { cgb_color(self.bg_palette_ram, palette_num, id) } else { shade_to_color(id, self.bgp) }
    }

    /// The window pixel at screen column `x`, or None where the window does not cover it.
    pub open spec fn window_pixel(self, x: u8) -> Option<u32> {
        let wx7 = ((self.wx - 7) % 256) as u8;
        if self.lcdc & LCDC_WIN_ENABLE == 0 || self.ly < self.wy || x < wx7 {
            None
        } else {
            let wx_offset = (x - wx7) as u8;
            let wy_offset = self.window_line;
            let map_offset: int = if self.lcdc & LCDC_WIN_MAP != 0 { TILE_MAP_1 as int } else { TILE_MAP_0 as int };
            let tile = self.vram[map_offset + (wy_offset / 8) * 32 + (wx_offset / 8)];
            let tile_addr = tile_data_addr(self.lcdc, tile);
            let row = wy_offset % 8;
            let byte1 = self.vram[tile_addr + row * 2];
            let byte2 = self.vram[tile_addr + row * 2 + 1];
            let id = color_id(byte1, byte2, (7 - wx_offset % 8) as u8);
            Some(self.bg_color(id))
        }
    }

    /// The background/window pixel at column `x` of the current line.
    pub open spec fn line_pixel(self, x: u8) -> u32 {
        match self.window_pixel(x) {
            Some(c) => c,
            None => self.bg_pixel(x),
        }
    }

    /// The background and window colors of the current line, left to right.
    pub open spec fn line_row(self) -> Seq<u32> {
        if self.lcdc & LCDC_BG_ENABLE == 0 {
            Seq::new(SCREEN_WIDTH as nat, |x: int| self.bg_color(0))
        } else {
            Seq::new(SCREEN_WIDTH as nat, |x: int| self.line_pixel(x as u8))
        }
    }
}

/// `fb` with the pixels of line `ly` replaced by `row`.
pub open spec fn with_row(fb: Seq<u32>, ly: u8, row: Seq<u32>) -> Seq<u32> {
    Seq::new(fb.len(), |i: int|
        if ly * 160 <= i < ly * 160 + 160 { row[i - ly * 160] } else { fb[i] })
}

impl PpuView {
    /// The sprite height: 16 with LCDC bit 2 set, else 8.
    pub open spec fn sprite_height(self) -> u8 {
        if self.lcdc & LCDC_OBJ_SIZE != 0 { 16 } else { 8 }
    }

    /// Whether sprite `i` covers the current line.
    pub open spec fn sprite_on_line(self, i: int) -> bool {
        let sy = ((self.oam[i * 4] - 16) % 256) as u8;
        !(self.ly < sy || self.ly >= ((sy + self.sprite_height()) % 256) as u8)
    }

    /// The color of a sprite pixel.
    pub open spec fn obj_color(self, id: u8, palette_num: u8, dmg_palette: u8) -> u32 {
        if self.cgb_mode { cgb_color(self.obj_palette_ram, palette_num, id) } else { shade_to_color(id, dmg_palette) }
    }

    /// The two bytes of the tile row of sprite `i` that the current line shows.
    pub open spec fn sprite_row_bytes(self, i: int) -> (u8, u8) {
        let sy = ((self.oam[i * 4] - 16) % 256) as u8;
        let tile = self.oam[i * 4 + 2];
        let attrs = self.oam[i * 4 + 3];
        let row = if attrs & 0x40 != 0 { self.sprite_height() - 1 - (self.ly - sy) } else { self.ly - sy };
        let tile_addr = tile * 16 + row * 2;
        (self.vram[tile_addr], self.vram[tile_addr + 1])
    }

    /// The framebuffer index and color of pixel `px` of sprite `i` on the current
    /// line, or None when the pixel is transparent or off screen.
    pub open spec fn sprite_dot(self, i: int, px: int) -> Option<(int, u32)> {
        let attrs = self.oam[i * 4 + 3];
        let palette = if attrs & 0x10 != 0 { self.obp1 } else { self.obp0 };
        let bytes = self.sprite_row_bytes(i);
        let bit = (if attrs & 0x20 != 0 { px } else { 7 - px }) as u8;
        let id = color_id(bytes.0, bytes.1, bit);
        let screen_x = (((self.oam[i * 4 + 1] - 8) % 256) + px) % 256;
        if id == 0 || screen_x >= 160 {
            None
        } else {
            Some((self.ly * 160 + screen_x, self.obj_color(id, attrs & 0x07, palette)))
        }
    }

    /// The framebuffer after pixel `px` (0 = leftmost) of sprite `i` is drawn on
    /// the current line. A sprite behind the background only covers pixels of
    /// background color 0.
    pub open spec fn sprite_pixel(self, fb: Seq<u32>, i: int, px: int) -> Seq<u32> {
        match self.sprite_dot(i, px) {
            None => fb,
            Some((idx, c)) =>
                if self.oam[i * 4 + 3] & 0x80 != 0 && fb[idx] != self.bg_color(0) { fb } else { fb.update(idx, c) },
        }
    }

    /// The framebuffer after the first `n` pixels of sprite `i` are drawn.
    pub open spec fn sprite_pixels(self, fb: Seq<u32>, i: int, n: nat) -> Seq<u32>
        decreases n,
    {
        if n == 0 { fb } else { self.sprite_pixel(self.sprite_pixels(fb, i, (n - 1) as nat), i, n - 1) }
    }

    /// The framebuffer after sprites 0 to `n - 1` are drawn on the current line, in order.
    pub open spec fn sprites(self, fb: Seq<u32>, n: nat) -> Seq<u32>
        decreases n,
    {
        if n == 0 {
            fb
        } else {
            let fb1 = self.sprites(fb, (n - 1) as nat);
            if self.sprite_on_line(n - 1) { self.sprite_pixels(fb1, n - 1, 8) } else { fb1 }
        }
    }

    /// The PPU after the background and window of the current line are drawn
    /// (nothing is drawn while the LCD is off).
    pub open spec fn render_bg(self) -> PpuView {
        if self.lcdc & LCDC_LCD_ENABLE == 0 {
            self
        } else {
            PpuView {
                framebuffer: with_row(self.framebuffer, self.ly, self.line_row()),
                window_line: self.window_line_after(),
                ..self
            }
        }
    }

    /// The PPU after the sprites of the current line are drawn (when sprites are enabled).
    pub open spec fn render_objs(self) -> PpuView {
        if self.lcdc & LCDC_OBJ_ENABLE == 0 {
            self
        } else {
            PpuView { framebuffer: self.sprites(self.framebuffer, 40), ..self }
        }
    }

    /// The window line counter after the current line is drawn.
    pub open spec fn window_line_after(self) -> u8 {
        if self.lcdc & LCDC_BG_ENABLE != 0 && self.lcdc & LCDC_WIN_ENABLE != 0 && self.ly >= self.wy {
            ((self.window_line + 1) % 256) as u8
        } else {
            self.window_line
        }
    }
}

/// The mode for scanline `ly` at dot `dot`.
pub open spec fn mode_at(ly: u8, dot: u16) -> Mode {
    if ly >= VBLANK_LINE { Mode::Vblank } else if dot < 80 { Mode::OamScan } else if dot < 252 { Mode::PixelTransfer } else { Mode::Hblank }
}

/// Whether entering `mode` raises the STAT interrupt under the enable bits of `stat`.
pub open spec fn mode_irq(mode: Mode, stat: u8) -> bool {
    match mode {
        Mode::Hblank => stat & 0x08 != 0,
        Mode::Vblank => stat & 0x10 != 0,
        Mode::OamScan => stat & 0x20 != 0,
        Mode::PixelTransfer => false,
    }
}

/// The PPU with its mode set to the one its line and dot call for; entering a
/// mode whose STAT enable bit is set raises the STAT interrupt.
pub open spec fn ppu_enter_mode(p: PpuView) -> PpuView {
    let mode = mode_at(p.ly, p.dot);
    let irq = p.stat_irq || (mode != p.mode && mode_irq(mode, p.stat));
    PpuView { mode, stat_irq: irq, ..p }
}

/// The PPU after the dot counter advances by `cycles` (wrapping at 2^16): the
/// mode follows the line and dot, and entering a mode whose STAT enable bit is
/// set raises the STAT interrupt.
pub open spec fn ppu_advance(p: PpuView, cycles: u8) -> PpuView {
    ppu_enter_mode(PpuView { dot: ((p.dot + cycles) % 65536) as u16, ..p })
}

/// The PPU when a scanline ends: the line counter advances (wrapping after 153),
/// the dot counter keeps the overshoot, the LY=LYC flag (STAT bit 2) is updated
/// and raises the STAT interrupt when STAT bit 6 is set; line 144 starts the
/// vertical blank, and each visible line is drawn.
pub open spec fn ppu_next_line(p: PpuView) -> PpuView {
    let ly = ((p.ly + 1) % 154) as u8;
    let stat = if ly == p.lyc { p.stat | 0x04 } else { p.stat & !0x04u8 };
    let irq = p.stat_irq || (ly == p.lyc && stat & 0x40 != 0);
    let p2 = PpuView { ly, dot: (p.dot % MAX_CYCLES) as u16, stat, stat_irq: irq, ..p };
    if ly == VBLANK_LINE {
        PpuView { vblank: true, window_line: 0, ..p2 }
    } else if ly < VBLANK_LINE {
        p2.render_bg().render_objs()
    } else {
        p2
    }
}

/// The PPU after `cycles` CPU cycles, and whether a scanline finished. When
/// a line ends, the mode then follows the new line and dot.
pub open spec fn ppu_tick(p: PpuView, cycles: u8) -> (PpuView, bool) {
    let p1 = ppu_advance(p, cycles);
    if p1.dot < MAX_CYCLES { (p1, false) } else { (ppu_enter_mode(ppu_next_line(p1)), true) }
}

/// The PPU at power-on: registers and memories zeroed, OAM scan mode, no
/// interrupt pending.
pub open spec fn ppu_initial() -> PpuView {
    PpuView {
        ly: 0, lyc: 0, stat: 0, scx: 0, scy: 0, wx: 0, wy: 0, bgp: 0, lcdc: 0, obp0: 0, obp1: 0,
        window_line: 0, dot: 0, vblank: false, cgb_mode: false,
        framebuffer: Seq::new(FRAME_PIXELS as nat, |i: int| 0u32),
        vram: Seq::new(VRAM_SIZE as nat, |i: int| 0u8),
        oam: Seq::new(OAM_SIZE as nat, |i: int| 0u8),
        bg_palette_ram: Seq::new(64, |i: int| 0u8),
        obj_palette_ram: Seq::new(64, |i: int| 0u8),
        bg_palette_index: 0, obj_palette_index: 0, vram_bank: 0,
        hdma_src: 0, hdma_dst: 0, hdma_len: 0, hdma_active: false,
        mode: Mode::OamScan, stat_irq: false,
    }
}

/// Scanline timing: a line lasts 456 dots and there are 154 lines, 144
/// visible. A tick adds its cycles to the dot counter; when that reaches 456
/// the line ends (the tick reports it), the next line starts with the
/// overshoot, and line 144 starts the vertical blank. Afterwards the mode is
/// the one the line and dot call for: V-blank on lines 144-153, otherwise OAM
/// scan for dots 0-79, pixel transfer for 80-251 and H-blank from 252.
pub proof fn lemma_scanline_timing(p: PpuView, cycles: u8)
    requires p.ly < 154, p.dot < 456,
    ensures
        ({
            let (p2, done) = ppu_tick(p, cycles);
            let d = p.dot + cycles;
            &&& done == (d >= 456)
            &&& !done ==> p2.ly == p.ly && p2.dot == d
            &&& done ==> p2.ly == (p.ly + 1) % 154 && p2.dot == d - 456
            &&& done && p2.ly == 144 ==> p2.vblank
            &&& p2.mode == (if p2.ly >= 144 { Mode::Vblank } else if p2.dot < 80 { Mode::OamScan }
                else if p2.dot < 252 { Mode::PixelTransfer } else { Mode::Hblank })
        }),
{
    let p1 = ppu_advance(p, cycles);
    if p1.dot >= MAX_CYCLES {
        let ly = ((p1.ly + 1) % 154) as u8;
        let stat = if ly == p1.lyc { p1.stat | 0x04 } else { p1.stat & !0x04u8 };
        let irq = p1.stat_irq || (ly == p1.lyc && stat & 0x40 != 0);
        let q = PpuView { ly, dot: (p1.dot % MAX_CYCLES) as u16, stat, stat_irq: irq, ..p1 };
        if ly < VBLANK_LINE {
            assert(q.render_bg().ly == ly && q.render_bg().dot == q.dot);
            assert(q.render_bg().render_objs().ly == ly && q.render_bg().render_objs().dot == q.dot);
        }
    }
}

impl Ppu {
    /// The sizes of the PPU memories.
    pub open spec fn wf(&self) -> bool {
        self@.wf()
    }

    /// Create a new PPU in its initial state: registers and memories zeroed,
    /// OAM scan mode, no interrupt pending.
    pub fn new() -> (r: Self)
        ensures
            r.wf(),
            r@ == ppu_initial(),
    {
        let r = Ppu {
            ly: 0,
            lyc: 0,
            stat: 0,
            scx: 0,
            scy: 0,
            wx: 0,
            wy: 0,
            bgp: 0,
            lcdc: 0,
            obp0: 0,
            obp1: 0,
            window_line: 0,
            dot: 0,
            vblank: false,
            cgb_mode: false,
            framebuffer: vec![0u32; FRAME_PIXELS],
            vram: vec![0u8; VRAM_SIZE],
            oam: vec![0u8; OAM_SIZE],
            bg_palette_ram: vec![0u8; 64],
            obj_palette_ram: vec![0u8; 64],
            bg_palette_index: 0,
            obj_palette_index: 0,
            vram_bank: 0,
            hdma_src: 0,
            hdma_dst: 0,
            hdma_len: 0,
            hdma_active: false,
            mode: Mode::OamScan,
            stat_irq: false,
        };
        assert(r.framebuffer@ =~= Seq::new(FRAME_PIXELS as nat, |i: int| 0u32));
        assert(r.vram@ =~= Seq::new(VRAM_SIZE as nat, |i: int| 0u8));
        assert(r.oam@ =~= Seq::new(OAM_SIZE as nat, |i: int| 0u8));
        assert(r.bg_palette_ram@ =~= Seq::new(64, |i: int| 0u8));
        assert(r.obj_palette_ram@ =~= Seq::new(64, |i: int| 0u8));
        r
    }

    /// Return the current PPU mode as a 2-bit value for the STAT register.
    pub fn mode_bits(&self) -> (r: u8)
        ensures
            r == match self@.mode {
                Mode::Hblank => 0u8,
                Mode::Vblank => 1u8,
                Mode::OamScan => 2u8,
                Mode::PixelTransfer => 3u8,
            },
    {
        match self.mode {
            Mode::Hblank => 0,
            Mode::Vblank => 1,
            Mode::OamScan => 2,
            Mode::PixelTransfer => 3,
        }
    }

    /// Determine the PPU mode from the line and dot position.
    fn update_mode(&self) -> (r: Mode)
        ensures r == mode_at(self.ly, self.dot),
    {
        if self.ly >= VBLANK_LINE {
            Mode::Vblank
        } else if self.dot < 80 {
            Mode::OamScan
        } else if self.dot < 252 {
            Mode::PixelTransfer
        } else {
            Mode::Hblank
        }
    }

    /// Raise the STAT interrupt if the current mode's enable bit is set.
    fn update_stat(&mut self)
        ensures
            final(self)@ == (PpuView { stat_irq: old(self)@.stat_irq || mode_irq(old(self)@.mode, old(self)@.stat), ..old(self)@ }),
    {
        match self.mode {
            Mode::Hblank => if self.stat & 0x08 != 0 { self.stat_irq = true; },
            Mode::Vblank => if self.stat & 0x10 != 0 { self.stat_irq = true; },
            Mode::OamScan => if self.stat & 0x20 != 0 { self.stat_irq = true; },
            Mode::PixelTransfer => {},
        }
    }
}


/// A color id has two bits.
proof fn lemma_color_id_bound(b1: u8, b2: u8, bit: u8) by (bit_vector)
    requires bit < 8u8,
    ensures ((((b2 >> bit) & 1u8) << 1u8) | ((b1 >> bit) & 1u8)) < 4u8,
{
}

/// The palette and bank fields of a CGB tile attribute.
proof fn lemma_attr_bounds(a: u8) by (bit_vector)
    ensures
        (a & 0x07u8) < 8u8,
        ((a & 0x08u8) >> 3u8) < 2u8,
{
}

impl Ppu {
    /// Map a 2-bit color id through a DMG palette to an ARGB color.
    fn shade_to_color(&self, color_id: u8, palette: u8) -> (r: u32)
        requires color_id < 4,
        ensures r == shade_to_color(color_id, palette),
    {
        reveal(shade_to_color);
        let shade = (palette >> (color_id * 2)) & 0x03;
        match shade {
            0 => 0xFFFFFFFF,
            1 => 0xFFAAAAAA,
            2 => 0xFF555555,
            _ => 0xFF000000,
        }
    }

    /// Convert a CGB palette color to ARGB. Reads two bytes from palette RAM.
    fn cgb_color(&self, palette_ram: &Vec<u8>, palette_num: u8, color_id: u8) -> (r: u32)
        requires
            palette_ram@.len() == 64,
            palette_num < 8,
            color_id < 4,
        ensures r == cgb_color(palette_ram@, palette_num, color_id),
    {
        reveal(cgb_color);
        let index = (palette_num as usize) * 8 + (color_id as usize) * 2;
        let lo = palette_ram[index] as u32;
        let hi = palette_ram[index + 1] as u32;
        let rgb555 = hi * 256 + lo;
        let r = (rgb555 % 32) * 8;
        let g = ((rgb555 / 32) % 32) * 8;
        let b = ((rgb555 / 1024) % 32) * 8;
        0xFF000000 + r * 65536 + g * 256 + b
    }

    /// Resolve a tile's data address by the addressing mode of LCDC bit 4.
    fn tile_data_addr(&self, tile: u8) -> (r: usize)
        ensures
            r == tile_data_addr(self.lcdc, tile),
            r + 16 <= 0x1800,
    {
        if self.lcdc & LCDC_TILE_DATA != 0 {
            (tile as usize) * 16
        } else if tile < 128 {
            0x1000 + (tile as usize) * 16
        } else {
            0x1000 - (256 - tile as usize) * 16
        }
    }

    /// The background color of a color id, through the CGB or DMG palette.
    fn bg_color(&self, color_id: u8) -> (r: u32)
        requires self.wf(), color_id < 4,
        ensures r == self@.bg_color(color_id),
    {
        if self.cgb_mode {
            self.cgb_color(&self.bg_palette_ram, 0, color_id)
        } else {
            self.shade_to_color(color_id, self.bgp)
        }
    }

    /// The color of a sprite pixel, through the CGB or DMG palette.
    fn obj_color(&self, color_id: u8, palette_num: u8, dmg_palette: u8) -> (r: u32)
        requires self.wf(), color_id < 4, palette_num < 8,
        ensures r == self@.obj_color(color_id, palette_num, dmg_palette),
    {
        if self.cgb_mode {
            self.cgb_color(&self.obj_palette_ram, palette_num, color_id)
        } else {
            self.shade_to_color(color_id, dmg_palette)
        }
    }

    /// The background pixel at screen column `x` of the current line.
    fn bg_pixel(&self, x: u8) -> (r: u32)
        requires self.wf(),
        ensures r == self@.bg_pixel(x),
    {
        let ghost p = self@;
        let bx = x.wrapping_add(self.scx);
        let by = self.ly.wrapping_add(self.scy);
        assert(bx == ((x + p.scx) % 256) as u8);
        assert(by == ((p.ly + p.scy) % 256) as u8);
        let tx = bx / 8;
        let ty = by / 8;
        let map_offset: usize = if self.lcdc & LCDC_BG_MAP != 0 { TILE_MAP_1 } else { TILE_MAP_0 };
        let map_index = ty as usize * 32 + tx as usize;
        assert(map_offset + map_index < 0x2000);
        let tile = self.vram[map_offset + map_index];
        let attr = self.vram[VRAM_BANK_SIZE + map_offset + map_index];
        let palette_num: u8 = if self.cgb_mode { attr & 0x07 } else { 0 };
        let tile_bank: u8 = if self.cgb_mode { (attr & 0x08) >> 3 } else { 0 };
        let x_flip = self.cgb_mode && attr & 0x20 != 0;
        let y_flip = self.cgb_mode && attr & 0x40 != 0;
        proof { lemma_attr_bounds(attr); }
        let py = if y_flip { 7 - (by % 8) } else { by % 8 };
        let tile_addr = (tile_bank as usize) * VRAM_BANK_SIZE + self.tile_data_addr(tile);
        let byte1 = self.vram[tile_addr + (py as usize) * 2];
        let byte2 = self.vram[tile_addr + (py as usize) * 2 + 1];
        let bit = if x_flip { bx % 8 } else { 7 - (bx % 8) };
        let cid = (((byte2 >> bit) & 1u8) << 1u8) | ((byte1 >> bit) & 1u8);
        proof { lemma_color_id_bound(byte1, byte2, bit); }
        assert(cid == color_id(byte1, byte2, bit));
        let r = if self.cgb_mode {
            self.cgb_color(&self.bg_palette_ram, palette_num, cid)
        } else {
            self.shade_to_color(cid, self.bgp)
        };
        proof {
            let map_offset_s: int = if p.lcdc & LCDC_BG_MAP != 0 { TILE_MAP_1 as int } else { TILE_MAP_0 as int };
            let map_index_s = (by / 8) * 32 + (bx / 8);
            assert(map_offset_s == map_offset && map_index_s == map_index);
            assert(tile_addr == tile_bank * VRAM_BANK_SIZE + tile_data_addr(p.lcdc, tile));
        }
        r
    }

    /// The window pixel at screen column `x`, or None where the window does not cover it.
    #[verifier::rlimit(30)]
    fn window_pixel(&self, x: u8) -> (r: Option<u32>)
        requires self.wf(),
        ensures r == self@.window_pixel(x),
    {
        if self.lcdc & LCDC_WIN_ENABLE == 0 {
            return None;
        }
        if self.ly < self.wy {
            return None;
        }
        if x < self.wx.wrapping_sub(7) {
            return None;
        }
        let ghost p = self@;
        assert(self.wx.wrapping_sub(7) == ((p.wx - 7) % 256) as u8);
        let wx_offset = x - self.wx.wrapping_sub(7);
        let wy_offset = self.window_line;
        let tx = wx_offset / 8;
        let ty = wy_offset / 8;
        let map_offset: usize = if self.lcdc & LCDC_WIN_MAP != 0 { TILE_MAP_1 } else { TILE_MAP_0 };
        let tile = self.vram[map_offset + (ty as usize) * 32 + (tx as usize)];
        let tile_addr = self.tile_data_addr(tile);
        assert(tile == p.vram[map_offset + (wy_offset / 8) * 32 + (wx_offset / 8)]);
        let row = (wy_offset % 8) as usize;
        let byte1 = self.vram[tile_addr + row * 2];
        let byte2 = self.vram[tile_addr + row * 2 + 1];
        let bit = 7 - (wx_offset % 8);
        let cid = (((byte2 >> bit) & 1u8) << 1u8) | ((byte1 >> bit) & 1u8);
        proof { lemma_color_id_bound(byte1, byte2, bit); }
        assert(cid == color_id(byte1, byte2, bit));
        if self.cgb_mode {
            Some(self.cgb_color(&self.bg_palette_ram, 0, cid))
        } else {
            Some(self.shade_to_color(cid, self.bgp))
        }
    }

    /// Render one scanline of the background and window into the framebuffer.
    fn render_scanline(&mut self)
        requires old(self).wf(), old(self).ly < VBLANK_LINE,
        ensures
            final(self).wf(),
            final(self)@ == old(self)@.render_bg(),
    {
        if self.lcdc & LCDC_LCD_ENABLE == 0 {
            return;
        }
        let ghost p = self@;
        let ghost row = p.line_row();
        let base = self.ly as usize * SCREEN_WIDTH;
        if self.lcdc & LCDC_BG_ENABLE == 0 {
            let c = self.bg_color(0);
            for x in 0..SCREEN_WIDTH
                invariant
                    self.wf(),
                    base == p.ly * 160,
                    p.ly < 144,
                    c == p.bg_color(0),
                    row == Seq::new(SCREEN_WIDTH as nat, |x: int| p.bg_color(0)),
                    self@ == (PpuView { framebuffer: self@.framebuffer, ..p }),
                    forall|i: int| 0 <= i < FRAME_PIXELS ==> #[trigger] self.framebuffer@[i] ==
                        if base <= i < base + x { row[i - base] } else { p.framebuffer[i] },
            {
                self.framebuffer[base + x] = c;
            }
            assert(self.framebuffer@ =~= with_row(p.framebuffer, p.ly, row));
            return;
        }
        for x in 0..SCREEN_WIDTH
            invariant
                self.wf(),
                base == p.ly * 160,
                p.ly < 144,
                p.lcdc & LCDC_BG_ENABLE != 0,
                row == Seq::new(SCREEN_WIDTH as nat, |x: int| p.line_pixel(x as u8)),
                self@ == (PpuView { framebuffer: self@.framebuffer, ..p }),
                forall|i: int| 0 <= i < FRAME_PIXELS ==> #[trigger] self.framebuffer@[i] ==
                    if base <= i < base + x { row[i - base] } else { p.framebuffer[i] },
        {
            let color = match self.window_pixel(x as u8) {
                Some(c) => c,
                None => self.bg_pixel(x as u8),
            };
            assert(color == row[x as int]);
            self.framebuffer[base + x] = color;
        }
        assert(self.framebuffer@ =~= with_row(p.framebuffer, p.ly, row));
        if self.lcdc & LCDC_WIN_ENABLE != 0 && self.ly >= self.wy {
            self.window_line = self.window_line.wrapping_add(1);
        }
    }
}

/// Drawing sprite pixels keeps the framebuffer's size.
proof fn lemma_sprite_pixels_len(p: PpuView, fb: Seq<u32>, i: int, n: nat)
    requires p.wf(), fb.len() == FRAME_PIXELS, p.ly < 144, 0 <= i < 40, p.sprite_on_line(i),
    ensures p.sprite_pixels(fb, i, n).len() == FRAME_PIXELS,
    decreases n,
{
    if n > 0 {
        lemma_sprite_pixels_len(p, fb, i, (n - 1) as nat);
    }
}

/// Drawing sprites keeps the framebuffer's size.
proof fn lemma_sprites_len(p: PpuView, fb: Seq<u32>, n: nat)
    requires p.wf(), fb.len() == FRAME_PIXELS, p.ly < 144, n <= 40,
    ensures p.sprites(fb, n).len() == FRAME_PIXELS,
    decreases n,
{
    if n > 0 {
        lemma_sprites_len(p, fb, (n - 1) as nat);
        if p.sprite_on_line(n - 1) {
            lemma_sprite_pixels_len(p, p.sprites(fb, (n - 1) as nat), n - 1, 8);
        }
    }
}

/// Drawing sprite pixels does not depend on the framebuffer held in the view.
proof fn lemma_sprite_pixels_indep(p: PpuView, q: PpuView, fb: Seq<u32>, i: int, n: nat)
    requires q == (PpuView { framebuffer: q.framebuffer, ..p }),
    ensures q.sprite_pixels(fb, i, n) == p.sprite_pixels(fb, i, n),
    decreases n,
{
    if n > 0 {
        lemma_sprite_pixels_indep(p, q, fb, i, (n - 1) as nat);
    }
}

impl Ppu {
    /// Draw a single sprite's pixels for the current scanline.
    #[verifier::rlimit(40)]
    fn draw_sprite(&mut self, offset: usize, sy: u8, sprite_height: u8)
        requires
            old(self).wf(),
            old(self).ly < 144,
            offset % 4 == 0,
            offset < 160,
            sy == ((old(self)@.oam[offset as int] - 16) % 256) as u8,
            sprite_height == old(self)@.sprite_height(),
            old(self)@.sprite_on_line((offset / 4) as int),
        ensures
            final(self).wf(),
            final(self)@ == (PpuView {
                framebuffer: old(self)@.sprite_pixels(old(self)@.framebuffer, (offset / 4) as int, 8),
                ..old(self)@
            }),
    {
        let ghost p = self@;
        let ghost i: int = (offset / 4) as int;
        assert(offset == i * 4);
        let sx = self.oam[offset + 1].wrapping_sub(8);
        let tile = self.oam[offset + 2];
        let attrs = self.oam[offset + 3];
        let y_flip = attrs & 0x40 != 0;
        let x_flip = attrs & 0x20 != 0;
        let palette_num = attrs & 0x07;
        let palette = if attrs & 0x10 != 0 { self.obp1 } else { self.obp0 };
        let behind_bg = attrs & 0x80 != 0;
        proof { lemma_attr_bounds(attrs); }
        let row = if y_flip { sprite_height - 1 - (self.ly - sy) } else { self.ly - sy };
        let tile_addr = (tile as usize) * 16 + (row as usize) * 2;
        let byte1 = self.vram[tile_addr];
        let byte2 = self.vram[tile_addr + 1];
        assert((byte1, byte2) == p.sprite_row_bytes(i));
        let bg0 = self.bg_color(0);
        let base = self.ly as usize * SCREEN_WIDTH;
        for px in 0..8u8
            invariant
                self.wf(),
                p.wf(),
                p.ly < 144,
                0 <= i < 40,
                offset == i * 4,
                p.sprite_on_line(i),
                self@ == (PpuView { framebuffer: self@.framebuffer, ..p }),
                self.framebuffer@ == p.sprite_pixels(p.framebuffer, i, px as nat),
                sx == ((p.oam[i * 4 + 1] - 8) % 256) as u8,
                attrs == p.oam[i * 4 + 3],
                (byte1, byte2) == p.sprite_row_bytes(i),
                bg0 == p.bg_color(0),
                base == p.ly * 160,
                palette_num == attrs & 0x07,
                palette_num < 8,
                palette == (if attrs & 0x10 != 0 { p.obp1 } else { p.obp0 }),
                x_flip == (attrs & 0x20 != 0),
                behind_bg == (attrs & 0x80 != 0),
        {
            proof { lemma_sprite_pixels_len(p, p.framebuffer, i, px as nat); }
            let ghost fb = self.framebuffer@;
            let bit = if x_flip { px } else { 7 - px };
            let cid = (((byte2 >> bit) & 1u8) << 1u8) | ((byte1 >> bit) & 1u8);
            proof { lemma_color_id_bound(byte1, byte2, bit); }
            assert(cid == color_id(byte1, byte2, bit));
            let screen_x = sx.wrapping_add(px) as usize;
            assert(screen_x == (((p.oam[i * 4 + 1] - 8) % 256) + px) % 256);
            if cid != 0 && screen_x < SCREEN_WIDTH {
                let fb_idx = base + screen_x;
                let c = self.obj_color(cid, palette_num, palette);
                assert(p.sprite_dot(i, px as int) == Some((fb_idx as int, c)));
                if !(behind_bg && self.framebuffer[fb_idx] != bg0) {
                    self.framebuffer[fb_idx] = c;
                }
                assert(self.framebuffer@ == p.sprite_pixel(fb, i, px as int));
            } else {
                assert(p.sprite_dot(i, px as int) == None::<(int, u32)>);
            }
        }
    }

    /// Render the sprites that cover the current scanline, in OAM order.
    #[verifier::spinoff_prover]
    #[verifier::rlimit(60)]
    fn render_sprites(&mut self)
        requires old(self).wf(), old(self).ly < 144,
        ensures
            final(self).wf(),
            final(self)@ == old(self)@.render_objs(),
    {
        if self.lcdc & LCDC_OBJ_ENABLE == 0 {
            return;
        }
        let ghost p = self@;
        let sprite_height: u8 = if self.lcdc & LCDC_OBJ_SIZE != 0 { 16 } else { 8 };
        for i in 0..40usize
            invariant
                self.wf(),
                p.wf(),
                p.ly < 144,
                sprite_height == p.sprite_height(),
                self@ == (PpuView { framebuffer: self@.framebuffer, ..p }),
                self.framebuffer@ == p.sprites(p.framebuffer, i as nat),
        {
            proof { lemma_sprites_len(p, p.framebuffer, i as nat); }
            let offset = i * 4;
            let sy = self.oam[offset].wrapping_sub(16);
            if !(self.ly < sy || self.ly >= sy.wrapping_add(sprite_height)) {
                assert(p.sprite_on_line(i as int));
                let ghost q = self@;
                self.draw_sprite(offset, sy, sprite_height);
                proof { lemma_sprite_pixels_indep(p, q, q.framebuffer, i as int, 8); }
            }
        }
    }

    /// Advance the PPU by the given number of CPU cycles. Returns true when a
    /// scanline finished.
    pub fn tick(&mut self, cycles: u8) -> (r: bool)
        requires old(self).wf(),
        ensures
            final(self).wf(),
            (final(self)@, r) == ppu_tick(old(self)@, cycles),
    {
        self.dot = self.dot.wrapping_add(cycles as u16);
        let old_mode = self.mode;
        self.mode = self.update_mode();
        if self.mode != old_mode {
            self.update_stat();
        }
        assert(self@ == ppu_advance(old(self)@, cycles));
        if self.dot >= MAX_CYCLES {
            self.next_line();
            let ghost q = self@;
            let line_mode = self.mode;
            self.mode = self.update_mode();
            if self.mode != line_mode {
                self.update_stat();
            }
            assert(self@ == ppu_enter_mode(q));
            return true;
        }
        false
    }

    /// Finish the current scanline.
    fn next_line(&mut self)
        requires old(self).wf(),
        ensures
            final(self).wf(),
            final(self)@ == ppu_next_line(old(self)@),
    {
        self.ly = (self.ly + 1) % HORIZONTAL_LINES;
        self.dot = self.dot % MAX_CYCLES;
        if self.ly == self.lyc {
            self.stat = self.stat | 0x04;
            if self.stat & 0x40 != 0 {
                self.stat_irq = true;
            }
        } else {
            self.stat = self.stat & !0x04u8;
        }
        if self.ly == VBLANK_LINE {
            self.vblank = true;
            self.window_line = 0;
        } else if self.ly < VBLANK_LINE {
            self.render_scanline();
            self.render_sprites();
        }
    }
}

} // verus!
