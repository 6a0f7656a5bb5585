use rbc::registers::Registers;
use rbc::timer::Timer;
use rbc::joypad::{Joypad, JoypadKey};
use rbc::ram::Ram;
use rbc::cartridge::Cartridge;
use rbc::ppu::Ppu;
use rbc::apu::Apu;

#[test]
fn registers_start_at_post_boot_values() {
    let r = Registers::new();
    assert_eq!(r.af(), 0x1180);
    assert_eq!(r.bc(), 0x0000);
    assert_eq!(r.de(), 0xFF56);
    assert_eq!(r.hl(), 0x000D);
    assert_eq!(r.sp, 0xFFFE);
    assert_eq!(r.pc, 0x0100);
    assert!(r.get_z());
    assert!(!r.get_n());
    assert!(!r.get_h());
    assert!(!r.get_c());
}

#[test]
fn register_pairs_read_back_what_was_written() {
    let mut r = Registers::new();
    r.set_bc(0x1234);
    r.set_de(0xABCD);
    r.set_hl(0x00FF);
    assert_eq!((r.b, r.c), (0x12, 0x34));
    assert_eq!(r.bc(), 0x1234);
    assert_eq!(r.de(), 0xABCD);
    assert_eq!(r.hl(), 0x00FF);
    r.set_af(0xABCD);
    assert_eq!(r.af(), 0xABC0);
    assert_eq!(r.f, 0xC0);
}

#[test]
fn flags_set_and_clear_independently() {
    let mut r = Registers::new();
    r.set_c(true);
    r.set_h(true);
    r.set_z(false);
    assert!(r.get_c() && r.get_h() && !r.get_z() && !r.get_n());
    assert_eq!(r.f, 0x30);
    r.set_n(true);
    r.set_c(false);
    assert_eq!(r.f, 0x60);
}

#[test]
fn timer_counts_and_overflows() {
    let mut t = Timer::new();
    assert!(!t.tick(200));
    assert_eq!(t.counter, 200);
    assert_eq!(t.tima, 0);
    t.tac = 0x05;
    t.counter = 0;
    assert!(!t.tick(16));
    assert_eq!(t.tima, 1);
    t.tima = 255;
    t.tma = 0x40;
    assert!(t.tick(16));
    assert_eq!(t.tima, 0x40);
    t.counter = 0xFFF8;
    t.tac = 0;
    t.tick(16);
    assert_eq!(t.counter, 8);
}

#[test]
fn timer_counts_every_period_crossed() {
    let mut t = Timer::new();
    t.tac = 0x05;
    t.counter = 15;
    assert!(!t.tick(24));
    assert_eq!(t.counter, 39);
    assert_eq!(t.tima, 2);
    t.tima = 254;
    t.tma = 0x10;
    t.counter = 0;
    assert!(t.tick(48));
    assert_eq!(t.tima, 0x11);
}

#[test]
fn joypad_reports_the_selected_group() {
    let mut j = Joypad::new();
    assert_eq!(j.read(), 0x0F);
    j.write(0x20);
    j.key_down(JoypadKey::Right);
    j.key_down(JoypadKey::Down);
    assert_eq!(j.read(), 0x06);
    j.key_down(JoypadKey::A);
    assert_eq!(j.read(), 0x06);
    j.write(0x10);
    assert_eq!(j.read(), 0x0E);
    j.key_up(JoypadKey::A);
    assert_eq!(j.read(), 0x0F);
    j.write(0x20);
    j.reset();
    assert_eq!(j.read(), 0x0F);
    j.write(0x30);
    j.key_down(JoypadKey::Start);
    assert_eq!(j.read(), 0x0F);
}

#[test]
fn ram_reads_back_writes_and_wraps_words() {
    let mut m = Ram::new();
    assert_eq!(m.read(0x1234), 0);
    m.write(0x1234, 0x56);
    assert_eq!(m.read(0x1234), 0x56);
    assert_eq!(m.read(0x1235), 0);
    m.write_u16(0xFFFF, 0xBEEF);
    assert_eq!(m.read(0xFFFF), 0xEF);
    assert_eq!(m.read(0x0000), 0xBE);
}

fn rom_with(len: usize, mbc: u8) -> Vec<u8> {
    let mut rom = vec![0u8; len];
    for i in 0..len {
        rom[i] = (i / 0x4000) as u8;
    }
    rom[0x0147] = mbc;
    rom
}

#[test]
fn cartridge_banks_rom_and_guards_ram() {
    let mut c = Cartridge::new(rom_with(0x10000, 0x01));
    assert_eq!(c.read(0x0000), 0);
    assert_eq!(c.read(0x4000), 1);
    c.write(0x2000, 3);
    assert_eq!(c.read(0x4000), 3);
    c.write(0x2000, 0);
    assert_eq!(c.read(0x4000), 1);
    c.write(0x2000, 7);
    assert_eq!(c.read(0x4000), 0xFF);
    assert_eq!(c.read_ram(0xA000), 0xFF);
    c.write_ram(0xA000, 0x42);
    assert_eq!(c.read_ram(0xA000), 0xFF);
    c.write(0x0000, 0x0A);
    c.write_ram(0xA000, 0x42);
    assert_eq!(c.read_ram(0xA000), 0x42);
    c.write(0x4000, 1);
    assert_eq!(c.read_ram(0xA000), 0);
    c.write(0x4000, 0);
    assert_eq!(c.read_ram(0xA000), 0x42);
    assert_eq!(c.ram()[0], 0x42);
}

#[test]
fn cartridge_header_selects_cgb_mode() {
    let mut rom = rom_with(0x8000, 0);
    assert!(!Cartridge::new(rom.clone()).is_cgb());
    rom[0x0143] = 0x80;
    assert!(Cartridge::new(rom.clone()).is_cgb());
    rom[0x0143] = 0xC0;
    assert!(Cartridge::new(rom).is_cgb());
}

#[test]
fn cartridge_rtc_registers_are_banked_ram() {
    let mut c = Cartridge::new(rom_with(0x8000, 0x10));
    c.write(0x0000, 0x0A);
    c.write(0x4000, 0x08);
    c.write_ram(0xA000, 30);
    assert_eq!(c.read_ram(0xA000), 30);
    c.write(0x4000, 0x0C);
    c.write_ram(0xA000, 0x40);
    c.write(0x6000, 0);
    c.write(0x6000, 1);
    c.write(0x4000, 0x08);
    assert_eq!(c.read_ram(0xA000), 30);
}

#[test]
fn ppu_modes_follow_the_dot_counter() {
    let mut p = Ppu::new();
    assert_eq!(p.mode_bits(), 2);
    assert!(!p.tick(80));
    assert_eq!(p.mode_bits(), 3);
    assert!(!p.tick(172));
    assert_eq!(p.mode_bits(), 0);
    assert!(!p.tick(200));
    assert!(p.tick(4));
    assert_eq!(p.ly, 1);
    assert_eq!(p.dot, 0);
    for _ in 0..143 {
        for _ in 0..4 { p.tick(114); }
    }
    assert_eq!(p.ly, 144);
    assert!(p.vblank);
    p.tick(4);
    assert_eq!(p.mode_bits(), 1);
}

#[test]
fn ppu_mode_follows_the_new_line_after_a_wrap() {
    let mut p = Ppu::new();
    p.ly = 10;
    p.dot = 450;
    p.mode = rbc::ppu::Mode::Hblank;
    assert!(p.tick(8));
    assert_eq!(p.ly, 11);
    assert_eq!(p.dot, 2);
    assert_eq!(p.mode_bits(), 2);
}

#[test]
fn ppu_lyc_match_sets_coincidence_flag() {
    let mut p = Ppu::new();
    p.lyc = 1;
    p.stat = 0x40;
    for _ in 0..4 { p.tick(114); }
    assert_eq!(p.ly, 1);
    assert_ne!(p.stat & 0x04, 0);
    assert!(p.stat_irq);
}

#[test]
fn apu_master_registers_read_back() {
    let mut a = Apu::new();
    assert_eq!(a.read(0xFF24), 0x77);
    assert_eq!(a.read(0xFF25), 0xFF);
    a.write(0xFF24, 0x53);
    assert_eq!(a.read(0xFF24), 0x53);
    a.write(0xFF24, 0xFF);
    assert_eq!(a.read(0xFF24), 0x77);
    a.write(0xFF26, 0x80);
    assert_eq!(a.read(0xFF26) & 0x80, 0x80);
    a.write(0xFF30, 0xAB);
    assert_eq!(a.read(0xFF30), 0xAB);
    assert_eq!(a.read(0xFF13), 0xFF);
}

#[test]
fn apu_samples_at_the_output_rate() {
    let mut a = Apu::new();
    a.tick(255);
    assert!(a.take_samples().is_empty());
    a.set_output(true, 44100);
    assert!(a.has_audio());
    a.tick(255);
    assert!(a.take_samples().is_empty());
    a.write(0xFF26, 0x80);
    a.tick(255);
    a.tick(255);
    assert_eq!(a.take_samples().len(), 5);
    assert!(a.take_samples().is_empty());
    a.set_muted(true);
    assert!(a.muted());
    a.set_skip_throttle(true);
    assert!(a.skip_throttle());
}
