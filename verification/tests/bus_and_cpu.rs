use rbc::bus::{Bus, Interrupt, STATE_FIXED};
use rbc::cpu::Cpu;
use rbc::joypad::JoypadKey;

fn machine(program: &[u8]) -> (Cpu, Bus) {
    let mut rom = vec![0u8; 0x8000];
    for (i, b) in program.iter().enumerate() {
        rom[0x100 + i] = *b;
    }
    let mut bus = Bus::new();
    bus.load_rom(rom);
    (Cpu::new(), bus)
}

#[test]
fn bus_work_ram_and_high_ram_read_back() {
    let mut bus = Bus::new();
    assert_eq!(bus.read(0xC000), 0);
    bus.write(0xC000, 0x12);
    bus.write(0xFF80, 0x34);
    bus.write(0xFFFF, 0x1F);
    assert_eq!(bus.read(0xC000), 0x12);
    assert_eq!(bus.read(0xFF80), 0x34);
    assert_eq!(bus.read(0xFFFF), 0x1F);
    assert_eq!(bus.read(0xC001), 0);
    bus.write_u16(0xD000, 0x1234);
    assert_eq!(bus.read(0xD000), 0x34);
    assert_eq!(bus.read(0xD001), 0x12);
}

#[test]
fn bus_interrupt_requests_and_priorities() {
    let mut bus = Bus::new();
    assert_eq!(bus.pending_interrupt(), None);
    bus.request_interrupt(Interrupt::TIMER);
    assert_eq!(bus.read(0xFF0F), 0x04);
    assert_eq!(bus.pending_interrupt(), None);
    bus.write(0xFFFF, 0x05);
    assert_eq!(bus.pending_interrupt(), Some(2));
    bus.request_interrupt(Interrupt::VBLANK);
    assert_eq!(bus.pending_interrupt(), Some(0));
    bus.clear_interrupt(0);
    assert_eq!(bus.pending_interrupt(), Some(2));
    bus.clear_interrupt(2);
    assert_eq!(bus.pending_interrupt(), None);
    bus.request_interrupt(Interrupt::JOYPAD);
    bus.write(0xFFFF, 0x1F);
    assert_eq!(bus.pending_interrupt(), Some(4));
}

#[test]
fn bus_io_registers() {
    let mut bus = Bus::new();
    bus.timer.counter = 0x1234;
    assert_eq!(bus.read(0xFF04), 0x12);
    bus.write(0xFF04, 0x99);
    assert_eq!(bus.read(0xFF04), 0);
    bus.write(0xFF44, 5);
    assert_eq!(bus.read(0xFF44), 0);
    bus.write(0xFF42, 7);
    assert_eq!(bus.read_io_registers(0xFF42), 7);
    bus.write_io_registers(0xFF43, 9);
    assert_eq!(bus.read(0xFF43), 9);
    bus.write(0xFF00, 0x20);
    bus.joypad.key_down(JoypadKey::Left);
    assert_eq!(bus.read(0xFF00), 0x0D);
    bus.write(0xFF24, 0x21);
    assert_eq!(bus.read(0xFF24), 0x21);
}

#[test]
fn bus_oam_dma_copies_a_page() {
    let mut bus = Bus::new();
    for i in 0..160u16 {
        bus.write(0xC000 + i, (i as u8) ^ 0x5A);
    }
    bus.write(0xFF46, 0xC0);
    for i in 0..160u16 {
        assert_eq!(bus.read(0xFE00 + i), (i as u8) ^ 0x5A);
    }
}

#[test]
fn bus_vram_banks_are_separate() {
    let mut bus = Bus::new();
    bus.write(0xFF4F, 0xFF);
    assert_eq!(bus.read(0xFF4F), 1);
    bus.write(0x8000, 7);
    bus.write(0xFF4F, 0);
    assert_eq!(bus.read(0x8000), 0);
    bus.write(0xFF4F, 1);
    assert_eq!(bus.read(0x8000), 7);
}

#[test]
fn bus_general_and_hblank_dma() {
    let mut bus = Bus::new();
    for i in 0..48u16 {
        bus.write(0xC000 + i, i as u8 + 1);
    }
    bus.write(0xFF51, 0xC0);
    bus.write(0xFF52, 0x00);
    bus.write(0xFF53, 0x00);
    bus.write(0xFF54, 0x00);
    bus.write(0xFF55, 0x00);
    for i in 0..16u16 {
        assert_eq!(bus.read(0x8000 + i), i as u8 + 1);
    }
    assert_eq!(bus.read(0xFF55), 0xFF);
    bus.write(0xFF51, 0xC0);
    bus.write(0xFF52, 0x10);
    bus.write(0xFF53, 0x01);
    bus.write(0xFF54, 0x00);
    bus.write(0xFF55, 0x81);
    assert_eq!(bus.read(0xFF55), 0x01);
    bus.hdma_tick();
    assert_eq!(bus.read(0x8100), 17);
    assert_eq!(bus.read(0xFF55), 0x00);
    bus.hdma_tick();
    assert_eq!(bus.read(0x8110), 33);
    assert_eq!(bus.read(0xFF55), 0xFF);
    bus.hdma_tick();
    assert_eq!(bus.read(0x8120), 0);
}

#[test]
fn bus_hdma_keeps_the_low_bits_of_the_destination() {
    let mut bus = Bus::new();
    for i in 0..32u16 {
        bus.write(0xC000 + i, i as u8 + 1);
    }
    bus.ppu.hdma_src = 0xC000;
    bus.ppu.hdma_dst = 8;
    bus.ppu.hdma_active = true;
    bus.ppu.hdma_len = 0;
    bus.hdma_tick();
    assert_eq!(bus.read(0x8008), 1);
    assert_eq!(bus.read(0x8010), 9);
    assert_eq!(bus.read(0x8017), 16);
    assert!(!bus.ppu.hdma_active);
}

#[test]
fn bus_palette_ram_auto_increments() {
    let mut bus = Bus::new();
    bus.write(0xFF68, 0x80);
    bus.write(0xFF69, 0x11);
    bus.write(0xFF69, 0x22);
    assert_eq!(bus.read(0xFF68), 0x82);
    bus.write(0xFF68, 0x00);
    assert_eq!(bus.read(0xFF69), 0x11);
    bus.write(0xFF68, 0x01);
    assert_eq!(bus.read(0xFF69), 0x22);
    bus.write(0xFF6A, 0xBF);
    bus.write(0xFF6B, 0x33);
    assert_eq!(bus.read(0xFF6A), 0x80);
    bus.write(0xFF6A, 0x3F);
    assert_eq!(bus.read(0xFF6B), 0x33);
}

#[test]
fn bus_boot_rom_overlays_until_disabled() {
    let mut rom = vec![0u8; 0x8000];
    rom[0] = 0xAA;
    rom[0x100] = 0xBB;
    rom[0x200] = 0xCC;
    let mut bus = Bus::new();
    bus.load_rom(rom);
    bus.load_boot_rom(vec![0x31; 0x900]);
    assert_eq!(bus.read(0x0000), 0x31);
    assert_eq!(bus.read(0x0100), 0xBB);
    assert_eq!(bus.read(0x0200), 0x31);
    bus.write(0xFF50, 1);
    assert_eq!(bus.read(0x0000), 0xAA);
    assert_eq!(bus.read(0x0200), 0xCC);
}

#[test]
fn bus_state_saves_and_loads() {
    let mut bus = Bus::new();
    bus.write(0xC123, 0x45);
    bus.write(0xFFFF, 0x1F);
    bus.write(0x8010, 0x66);
    bus.write(0xFF70, 3);
    bus.write(0xD010, 0x99);
    let saved = bus.save_state();
    assert_eq!(saved.len(), STATE_FIXED + 32 * 1024);
    bus.write(0xC123, 0x00);
    bus.write(0xFFFF, 0x00);
    bus.write(0x8010, 0x00);
    assert!(!bus.load_state(&saved[..100]));
    assert_eq!(bus.read(0xC123), 0x00);
    assert!(bus.load_state(&saved));
    assert_eq!(bus.read(0xC123), 0x45);
    assert_eq!(bus.read(0xFFFF), 0x1F);
    assert_eq!(bus.read(0x8010), 0x66);
    assert_eq!(bus.read(0xFF70), 0xFB);
    assert_eq!(bus.read(0xD010), 0x99);
    assert_eq!(bus.save_state(), saved);
}

#[test]
fn cpu_loads_and_adds() {
    let (mut cpu, mut bus) = machine(&[0x3E, 0x12, 0x47, 0x80, 0x3C]);
    assert_eq!(cpu.step(&mut bus), 8);
    assert_eq!(cpu.step(&mut bus), 4);
    assert_eq!(cpu.step(&mut bus), 4);
    assert_eq!(cpu.registers().a, 0x24);
    assert_eq!(cpu.step(&mut bus), 4);
    let r = cpu.registers();
    assert_eq!(r.a, 0x25);
    assert_eq!(r.b, 0x12);
    assert_eq!(r.pc, 0x105);
    assert!(!r.get_z());
}

#[test]
fn cpu_conditional_jumps_take_longer_when_taken() {
    let (mut cpu, mut bus) = machine(&[0x20, 0x05, 0x28, 0x02, 0x00, 0x00, 0x00]);
    assert_eq!(cpu.step(&mut bus), 8);
    assert_eq!(cpu.registers().pc, 0x102);
    assert_eq!(cpu.step(&mut bus), 12);
    assert_eq!(cpu.registers().pc, 0x106);
    let (mut cpu, mut bus) = machine(&[0x18, 0xFE]);
    assert_eq!(cpu.step(&mut bus), 12);
    assert_eq!(cpu.registers().pc, 0x100);
}

#[test]
fn cpu_daa_corrects_bcd_addition() {
    let (mut cpu, mut bus) = machine(&[0x3E, 0x15, 0xC6, 0x27, 0x27]);
    cpu.step(&mut bus);
    cpu.step(&mut bus);
    assert_eq!(cpu.registers().a, 0x3C);
    cpu.step(&mut bus);
    assert_eq!(cpu.registers().a, 0x42);
    assert!(!cpu.registers().get_h());
}

#[test]
fn cpu_daa_corrects_bcd_subtraction() {
    let (mut cpu, mut bus) = machine(&[0x3E, 0x42, 0xD6, 0x15, 0x27, 0x3E, 0x15, 0xD6, 0x42, 0x27]);
    cpu.step(&mut bus);
    cpu.step(&mut bus);
    cpu.step(&mut bus);
    assert_eq!(cpu.registers().a, 0x27);
    assert!(!cpu.registers().get_c());
    assert!(cpu.registers().get_n());
    cpu.step(&mut bus);
    cpu.step(&mut bus);
    cpu.step(&mut bus);
    assert_eq!(cpu.registers().a, 0x73);
    assert!(cpu.registers().get_c());
    assert!(!cpu.registers().get_h());
}

#[test]
fn cpu_daa_clears_half_carry() {
    let (mut cpu, mut bus) = machine(&[0x3E, 0x08, 0xC6, 0x08, 0x27]);
    cpu.step(&mut bus);
    cpu.step(&mut bus);
    assert!(cpu.registers().get_h());
    cpu.step(&mut bus);
    assert_eq!(cpu.registers().a, 0x16);
    assert!(!cpu.registers().get_h());
    assert!(!cpu.registers().get_c());
    assert!(!cpu.registers().get_z());
}

#[test]
fn cpu_push_then_pop_restores_the_value() {
    let (mut cpu, mut bus) = machine(&[0x01, 0xEF, 0xBE, 0xC5, 0xD1]);
    assert_eq!(cpu.step(&mut bus), 12);
    assert_eq!(cpu.step(&mut bus), 16);
    assert_eq!(cpu.registers().sp, 0xFFFC);
    assert_eq!(bus.read(0xFFFD), 0xBE);
    assert_eq!(bus.read(0xFFFC), 0xEF);
    assert_eq!(cpu.step(&mut bus), 12);
    let r = cpu.registers();
    assert_eq!(r.de(), 0xBEEF);
    assert_eq!(r.sp, 0xFFFE);
}

#[test]
fn cpu_call_and_return() {
    let mut program = vec![0u8; 0x20];
    program[0] = 0xCD;
    program[1] = 0x10;
    program[2] = 0x01;
    program[0x10] = 0xC9;
    let (mut cpu, mut bus) = machine(&program);
    assert_eq!(cpu.step(&mut bus), 24);
    assert_eq!(cpu.registers().pc, 0x110);
    assert_eq!(bus.read(0xFFFD), 0x01);
    assert_eq!(bus.read(0xFFFC), 0x03);
    assert_eq!(cpu.step(&mut bus), 16);
    assert_eq!(cpu.registers().pc, 0x103);
    assert_eq!(cpu.registers().sp, 0xFFFE);
}

#[test]
fn cpu_dispatches_an_enabled_interrupt() {
    let (mut cpu, mut bus) = machine(&[0xFB, 0x00, 0x00]);
    cpu.step(&mut bus);
    bus.write(0xFFFF, 0x04);
    bus.request_interrupt(Interrupt::TIMER);
    // EI takes effect after the instruction that follows it.
    assert_eq!(cpu.step(&mut bus), 4);
    assert_eq!(cpu.registers().pc, 0x102);
    assert_eq!(cpu.step(&mut bus), 20);
    assert_eq!(cpu.registers().pc, 0x50);
    assert_eq!(bus.read(0xFF0F) & 0x04, 0);
    assert_eq!(bus.read(0xFFFD), 0x01);
    assert_eq!(bus.read(0xFFFC), 0x02);
}

#[test]
fn cpu_di_right_after_ei_keeps_interrupts_off() {
    let (mut cpu, mut bus) = machine(&[0xFB, 0xF3, 0x00, 0x00]);
    bus.write(0xFFFF, 0x04);
    bus.request_interrupt(Interrupt::TIMER);
    cpu.step(&mut bus);
    cpu.step(&mut bus);
    assert_eq!(cpu.step(&mut bus), 4);
    assert_eq!(cpu.registers().pc, 0x103);
    assert_eq!(bus.read(0xFF0F) & 0x04, 0x04);
}

#[test]
fn bus_work_ram_banks_switch_through_svbk() {
    let mut bus = Bus::new();
    assert_eq!(bus.read(0xFF70), 0xF8);
    bus.write(0xD000, 0x11);
    bus.write(0xFF70, 2);
    assert_eq!(bus.read(0xFF70), 0xFA);
    assert_eq!(bus.read(0xD000), 0x00);
    bus.write(0xD000, 0x22);
    bus.write(0xC000, 0x33);
    bus.write(0xFF70, 0);
    assert_eq!(bus.read(0xD000), 0x11);
    bus.write(0xFF70, 1);
    assert_eq!(bus.read(0xD000), 0x11);
    bus.write(0xFF70, 0x0A);
    assert_eq!(bus.read(0xD000), 0x22);
    assert_eq!(bus.read(0xC000), 0x33);
}

#[test]
fn cpu_stop_switches_speed_when_armed() {
    let (mut cpu, mut bus) = machine(&[0x10, 0x00, 0x10, 0x00]);
    assert_eq!(bus.read(0xFF4D), 0x7E);
    bus.write(0xFF4D, 0x01);
    assert_eq!(bus.read(0xFF4D), 0x7F);
    cpu.step(&mut bus);
    assert_eq!(cpu.registers().pc, 0x102);
    assert!(bus.double_speed);
    assert_eq!(bus.read(0xFF4D), 0xFE);
    cpu.step(&mut bus);
    assert!(bus.double_speed);
}

#[test]
fn cpu_halt_waits_for_an_interrupt() {
    let (mut cpu, mut bus) = machine(&[0x76, 0x3C]);
    assert_eq!(cpu.step(&mut bus), 4);
    assert_eq!(cpu.step(&mut bus), 4);
    assert_eq!(cpu.registers().pc, 0x101);
    bus.write(0xFFFF, 0x01);
    bus.request_interrupt(Interrupt::VBLANK);
    assert_eq!(cpu.step(&mut bus), 4);
    assert_eq!(cpu.registers().a, 0x12);
}

#[test]
fn cpu_reports_undefined_opcodes() {
    let (cpu, bus) = machine(&[0xD3]);
    assert!(cpu.faults(&bus));
    let (cpu, bus) = machine(&[0x00]);
    assert!(!cpu.faults(&bus));
}

#[test]
fn cpu_cb_prefixed_instructions() {
    let (mut cpu, mut bus) = machine(&[0x3E, 0x12, 0xCB, 0x37, 0xCB, 0x7F, 0xCB, 0xCF,
        0x21, 0x00, 0xC0, 0x36, 0x81, 0xCB, 0x06, 0xCB, 0x46]);
    cpu.step(&mut bus);
    assert_eq!(cpu.step(&mut bus), 8);
    assert_eq!(cpu.registers().a, 0x21);
    assert_eq!(cpu.step(&mut bus), 8);
    assert!(cpu.registers().get_z());
    assert!(cpu.registers().get_h());
    assert_eq!(cpu.step(&mut bus), 8);
    assert_eq!(cpu.registers().a, 0x23);
    cpu.step(&mut bus);
    assert_eq!(cpu.step(&mut bus), 12);
    assert_eq!(cpu.step(&mut bus), 16);
    assert_eq!(bus.read(0xC000), 0x03);
    assert!(cpu.registers().get_c());
    assert_eq!(cpu.step(&mut bus), 12);
    assert!(!cpu.registers().get_z());
}

#[test]
fn cpu_alu_flags() {
    let (mut cpu, mut bus) = machine(&[0x3E, 0x01]);
    cpu.step(&mut bus);
    cpu.add(0xFF);
    let r = cpu.registers();
    assert_eq!(r.a, 0);
    assert!(r.get_z() && r.get_h() && r.get_c() && !r.get_n());
    cpu.sub(0x01);
    let r = cpu.registers();
    assert_eq!(r.a, 0xFF);
    assert!(!r.get_z() && r.get_n() && r.get_h() && r.get_c());
    cpu.cp(0xFF);
    assert!(cpu.registers().get_z());
    assert_eq!(cpu.registers().a, 0xFF);
    cpu.and(0x0F);
    assert_eq!(cpu.registers().a, 0x0F);
    assert!(cpu.registers().get_h());
    cpu.xor(0x0F);
    assert_eq!(cpu.registers().a, 0);
    assert!(cpu.registers().get_z());
    cpu.or(0x80);
    assert_eq!(cpu.registers().a, 0x80);
    cpu.scf();
    cpu.adc(0x7F);
    assert_eq!(cpu.registers().a, 0x00);
    assert!(cpu.registers().get_c());
    cpu.sbc(0x00);
    assert_eq!(cpu.registers().a, 0xFF);
    cpu.cpl();
    assert_eq!(cpu.registers().a, 0x00);
    cpu.ccf();
    assert!(!cpu.registers().get_c());
    assert_eq!(cpu.inc(0x0F), 0x10);
    assert!(cpu.registers().get_h());
    assert_eq!(cpu.dec(0x00), 0xFF);
    assert!(cpu.registers().get_n());
}

#[test]
fn cpu_rotates_and_shifts() {
    let (mut cpu, _bus) = machine(&[]);
    assert_eq!(cpu.rlc(0x85), 0x0B);
    assert!(cpu.registers().get_c());
    assert_eq!(cpu.rrc(0x0B), 0x85);
    assert_eq!(cpu.rl(0x80), 0x01);
    assert!(cpu.registers().get_c());
    assert_eq!(cpu.rr(0x01), 0x80);
    assert_eq!(cpu.sla(0xC0), 0x80);
    assert_eq!(cpu.sra(0x81), 0xC0);
    assert_eq!(cpu.srl(0x81), 0x40);
    assert_eq!(cpu.swap(0xAB), 0xBA);
    assert_eq!(cpu.swap(cpu.registers().a), 0x11);
    assert_eq!(cpu.set(3, 0x00), 0x08);
    assert_eq!(cpu.res(3, 0xFF), 0xF7);
    cpu.bit(3, 0x08);
    assert!(!cpu.registers().get_z());
    cpu.bit(2, 0x08);
    assert!(cpu.registers().get_z());
}

#[test]
fn cpu_sp_offsets() {
    let (mut cpu, mut bus) = machine(&[0xE8, 0xFE, 0xF8, 0x02, 0x31, 0xFF, 0x00, 0xE8, 0x01]);
    cpu.step(&mut bus);
    assert_eq!(cpu.registers().sp, 0xFFFC);
    cpu.step(&mut bus);
    assert_eq!(cpu.registers().hl(), 0xFFFE);
    cpu.step(&mut bus);
    assert_eq!(cpu.registers().sp, 0x00FF);
    cpu.step(&mut bus);
    let r = cpu.registers();
    assert_eq!(r.sp, 0x0100);
    assert!(r.get_h() && r.get_c() && !r.get_z());
}

const CYCLES: [u8; 256] = [
    4, 12, 8, 8, 4, 4, 8, 4, 20, 8, 8, 8, 4, 4, 8, 4,
    4, 12, 8, 8, 4, 4, 8, 4, 12, 8, 8, 8, 4, 4, 8, 4,
    8, 12, 8, 8, 4, 4, 8, 4, 8, 8, 8, 8, 4, 4, 8, 4,
    8, 12, 8, 8, 12, 12, 12, 4, 8, 8, 8, 8, 4, 4, 8, 4,
    4, 4, 4, 4, 4, 4, 8, 4, 4, 4, 4, 4, 4, 4, 8, 4,
    4, 4, 4, 4, 4, 4, 8, 4, 4, 4, 4, 4, 4, 4, 8, 4,
    4, 4, 4, 4, 4, 4, 8, 4, 4, 4, 4, 4, 4, 4, 8, 4,
    8, 8, 8, 8, 8, 8, 4, 8, 4, 4, 4, 4, 4, 4, 8, 4,
    4, 4, 4, 4, 4, 4, 8, 4, 4, 4, 4, 4, 4, 4, 8, 4,
    4, 4, 4, 4, 4, 4, 8, 4, 4, 4, 4, 4, 4, 4, 8, 4,
    4, 4, 4, 4, 4, 4, 8, 4, 4, 4, 4, 4, 4, 4, 8, 4,
    4, 4, 4, 4, 4, 4, 8, 4, 4, 4, 4, 4, 4, 4, 8, 4,
    8, 12, 12, 16, 12, 16, 8, 16, 8, 16, 12, 4, 12, 24, 8, 16,
    8, 12, 12, 0, 12, 16, 8, 16, 8, 16, 12, 0, 12, 0, 8, 16,
    12, 12, 8, 0, 0, 16, 8, 16, 16, 4, 16, 0, 0, 0, 8, 16,
    12, 12, 8, 4, 0, 16, 8, 16, 12, 8, 16, 4, 0, 0, 8, 16,
];

#[test]
fn cpu_cycle_counts_match_the_opcode_table() {
    for op in 0..256usize {
        assert_eq!(Cpu::cycles(op as u8, false), CYCLES[op], "opcode {:#04X}", op);
    }
    for op in [0x20u8, 0x28, 0x30, 0x38] {
        assert_eq!(Cpu::cycles(op, true), 12);
    }
    for op in [0xC0u8, 0xC8, 0xD0, 0xD8] {
        assert_eq!(Cpu::cycles(op, true), 20);
    }
    for op in [0xC2u8, 0xCA, 0xD2, 0xDA] {
        assert_eq!(Cpu::cycles(op, true), 16);
    }
    for op in [0xC4u8, 0xCC, 0xD4, 0xDC] {
        assert_eq!(Cpu::cycles(op, true), 24);
    }
}

#[test]
fn cpu_state_saves_and_loads() {
    let (mut cpu, mut bus) = machine(&[0x3E, 0x77, 0x76]);
    cpu.step(&mut bus);
    cpu.step(&mut bus);
    let saved = cpu.save_state();
    assert_eq!(saved.len(), cpu.state_size());
    assert_eq!(saved, vec![0x77, 0x00, 0x00, 0xFF, 0x56, 0x80, 0x00, 0x0D, 0xFE, 0xFF, 0x03, 0x01, 1, 0, 0]);
    let mut other = Cpu::new();
    other.load_state(&saved);
    assert_eq!(other.save_state(), saved);
    assert_eq!(other.registers().a, 0x77);
}

#[test]
fn cpu_boot_reset_and_rom_loading() {
    let mut cpu = Cpu::new();
    let mut bus = Bus::new();
    let mut rom = vec![0u8; 0x8000];
    rom[0x100] = 0x3C;
    cpu.load_rom(&rom, &mut bus);
    assert_eq!(bus.read(0x100), 0x3C);
    cpu.reset_for_boot();
    assert_eq!(cpu.registers().pc, 0);
    cpu.ei();
    cpu.di();
    cpu.jp_hl();
    assert_eq!(cpu.registers().pc, 0x000D);
}
