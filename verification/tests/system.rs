use rbc::gb::Gb;
use rbc::joypad::JoypadKey;

fn rom_with_loop() -> Vec<u8> {
    let mut rom = vec![0u8; 0x8000];
    rom[0x100] = 0x18;
    rom[0x101] = 0xFE;
    rom
}

#[test]
fn gb_completes_frames() {
    let mut gb = Gb::new();
    gb.load_rom(rom_with_loop());
    assert!(!gb.frame_ready());
    let mut steps = 0u32;
    let mut cycles = 0u64;
    loop {
        cycles += gb.step() as u64;
        steps += 1;
        if gb.frame_ready() {
            break;
        }
        assert!(steps < 100_000);
    }
    assert_eq!(cycles, 144 * 456);
    assert!(!gb.frame_ready());
    assert_eq!(gb.framebuffer().len(), 160 * 144);
}

#[test]
fn gb_state_saves_and_loads() {
    let mut gb = Gb::new();
    gb.load_rom(rom_with_loop());
    for _ in 0..1000 {
        gb.step();
    }
    gb.write_memory(0xC000, 0x42);
    let saved = gb.save_state();
    for _ in 0..1000 {
        gb.step();
    }
    gb.write_memory(0xC000, 0x00);
    assert!(!gb.load_state(&saved[..10]));
    assert!(gb.load_state(&saved));
    assert_eq!(gb.save_state(), saved);
}

#[test]
fn gb_boot_rom_runs_from_zero() {
    let mut gb = Gb::new();
    gb.load_rom(rom_with_loop());
    let mut boot = vec![0u8; 0x900];
    boot[0] = 0x18;
    boot[1] = 0xFE;
    gb.load_boot_rom(boot);
    assert!(!gb.faults());
    assert_eq!(gb.step(), 12);
    let state = gb.save_state();
    assert_eq!(state[10], 0x00);
    assert_eq!(state[11], 0x00);
}

#[test]
fn gb_joypad_audio_and_cartridge_ram() {
    let mut gb = Gb::new();
    gb.load_rom(rom_with_loop());
    gb.write_memory(0xFF00, 0x20);
    gb.key_down(JoypadKey::Up);
    gb.reset_joypad();
    gb.key_down(JoypadKey::Down);
    gb.set_muted(true);
    assert!(gb.muted());
    gb.set_skip_throttle(true);
    assert!(gb.skip_throttle());
    gb.set_audio_output(true, 48000);
    assert!(gb.take_audio_samples().is_empty());
    assert_eq!(gb.cartridge_ram().len(), 32 * 1024);
    gb.set_cartridge_ram(vec![7u8; 16]);
    assert_eq!(gb.cartridge_ram(), &vec![7u8; 16]);
}

#[test]
fn gb_faults_on_an_undefined_opcode() {
    let mut rom = vec![0u8; 0x8000];
    rom[0x100] = 0xFC;
    let mut gb = Gb::new();
    gb.load_rom(rom);
    assert!(gb.faults());
}
