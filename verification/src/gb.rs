use vstd::prelude::*;
use crate::bus::{Bus, BusView, advance, state_bytes, restore, with_saved_parts, lemma_state_roundtrip, STATE_FIXED};
use crate::cpu::{Cpu, machine, post_boot_regs, cpu_state_bytes, cpu_restore, lemma_cpu_state_roundtrip, CPU_STATE_SIZE};
use crate::cpu_spec::{CpuState, Machine, step, faults};
use crate::joypad::JoypadKey;
use crate::registers::Registers;

verus! {

/// The abstract state of the whole system.
pub struct GbView {
    pub cpu: CpuState,
    pub bus: BusView,
    pub frame_done: bool,
}

/// One step of the system: the CPU steps, then the devices run for the cycles
/// it took; a completed frame is remembered until it is collected.
pub open spec fn gb_step(g: GbView, t1: u64, t2: u64) -> (GbView, u8) {
    let (m, cycles) = step(machine(g.cpu, g.bus), t1, t2);
    let (b, frame) = advance(m.bus, cycles);
    (GbView { cpu: m.cpu, bus: b, frame_done: g.frame_done || frame }, cycles)
}

/// The bytes of a saved system state: the CPU state, then the bus state.
pub open spec fn gb_state_bytes(g: GbView) -> Seq<u8> {
    cpu_state_bytes(g.cpu) + state_bytes(g.bus)
}

/// The system after loading the state `data` (at least `CPU_STATE_SIZE`
/// bytes): the CPU from its part; the bus from the rest when that is long
/// enough to hold a bus state, else unchanged.
pub open spec fn gb_restore(g: GbView, data: Seq<u8>) -> GbView {
    let rest = data.subrange(CPU_STATE_SIZE as int, data.len() as int);
    GbView {
        cpu: cpu_restore(data.subrange(0, CPU_STATE_SIZE as int)),
        bus: if rest.len() >= STATE_FIXED { restore(g.bus, rest) } else { g.bus },
        ..g
    }
}

/// Loading a saved state restores what it saved: loading the state saved
/// from `g2` into `g` gives `g2`'s CPU and `g` with the saved parts of
/// `g2`'s bus; loading a system's own state leaves it unchanged.
pub proof fn lemma_gb_state_roundtrip(g: GbView, g2: GbView)
    requires g.bus.wf(), g2.bus.wf(),
    ensures
        gb_state_bytes(g2).len() >= CPU_STATE_SIZE,
        gb_restore(g, gb_state_bytes(g2)) == (GbView { cpu: g2.cpu, bus: with_saved_parts(g.bus, g2.bus), ..g }),
        gb_restore(g, gb_state_bytes(g)) == g,
{
    lemma_cpu_state_roundtrip(g2.cpu);
    lemma_cpu_state_roundtrip(g.cpu);
    lemma_state_roundtrip(g.bus, g2.bus);
    lemma_state_roundtrip(g.bus, g.bus);
    let d = gb_state_bytes(g2);
    assert(d.subrange(0, CPU_STATE_SIZE as int) =~= cpu_state_bytes(g2.cpu));
    assert(d.subrange(CPU_STATE_SIZE as int, d.len() as int) =~= state_bytes(g2.bus));
    let d1 = gb_state_bytes(g);
    assert(d1.subrange(0, CPU_STATE_SIZE as int) =~= cpu_state_bytes(g.cpu));
    assert(d1.subrange(CPU_STATE_SIZE as int, d1.len() as int) =~= state_bytes(g.bus));
}

/// Top-level Game Boy system: owns the CPU and the bus with all devices, and
/// is the interface for loading ROMs and running emulation.
pub struct Gb {
    cpu: Cpu,
    bus: Bus,
    frame_done: bool,
}

impl View for Gb {
    type V = GbView;

    closed spec fn view(&self) -> GbView {
        GbView { cpu: self.cpu@, bus: self.bus@, frame_done: self.frame_done }
    }
}

impl Gb {
    /// The bus is well formed.
    pub open spec fn wf(&self) -> bool {
        self@.bus.wf()
    }

    /// A new system: CPU at the post-boot register values, bus and devices in
    /// their initial state, no cartridge, no frame completed.
    pub fn new() -> (r: Self)
        ensures
            r@.cpu == (CpuState { regs: post_boot_regs(), halted: false, ime: false, ime_pending: false }),
            r.wf(),
            r@.bus == (BusView {
                memory: Seq::new(crate::bus::MEMORY_SIZE as nat, |i: int| 0u8),
                ppu: crate::ppu::ppu_initial(),
                timer: crate::timer::Timer { counter: 0, tima: 0, tma: 0, tac: 0 },
                cart: crate::cartridge::cart_new(Seq::empty()),
                joypad: r@.bus.joypad,
                apu: crate::apu::apu_initial(),
                r_ie: 0,
                r_if: 0,
                double_speed: false,
                speed_switch_armed: false,
                wram: Seq::new(crate::bus::WRAM_SIZE as nat, |i: int| 0u8),
                wram_bank: 0,
                boot_rom: None,
                boot_rom_enabled: false,
            }),
            r@.bus.joypad.spec_select() == 0,
            r@.bus.joypad.spec_action() == 0x0F,
            r@.bus.joypad.spec_direction() == 0x0F,
            !r@.frame_done,
    {
        Gb { cpu: Cpu::new(), bus: Bus::new(), frame_done: false }
    }

    /// Whether the next step would run into an undefined opcode.
    pub fn faults(&self) -> (r: bool)
        requires self.wf(),
        ensures r == faults(machine(self@.cpu, self@.bus)),
    {
        self.cpu.faults(&self.bus)
    }

    /// Execute one CPU step and advance all devices by the cycles it took.
    /// Returns the elapsed T-cycles.
    pub fn step(&mut self) -> (r: u8)
        requires old(self).wf(), !faults(machine(old(self)@.cpu, old(self)@.bus)),
        ensures
            final(self).wf(),
            exists|t1: u64, t2: u64| (final(self)@, r) == #[trigger] gb_step(old(self)@, t1, t2),
    {
        let (r, Ghost(t)) = self.step_timed();
        r
    }

    /// `step` with the clock readings of the CPU's writes as the ghost result.
    fn step_timed(&mut self) -> (r: (u8, Ghost<(u64, u64)>))
        requires old(self).wf(), !faults(machine(old(self)@.cpu, old(self)@.bus)),
        ensures
            final(self).wf(),
            (final(self)@, r.0) == gb_step(old(self)@, r.1@.0, r.1@.1),
    {
        let (elapsed_cycles, t) = self.cpu.step_timed(&mut self.bus);
        let frame = self.bus.advance(elapsed_cycles);
        if frame {
            self.frame_done = true;
        }
        (elapsed_cycles, t)
    }

    /// Whether a frame was completed since the last call; clears the flag.
    pub fn frame_ready(&mut self) -> (r: bool)
        requires old(self).wf(),
        ensures
            final(self).wf(),
            r == old(self)@.frame_done,
            final(self)@ == (GbView { frame_done: false, ..old(self)@ }),
    {
        let ready = self.frame_done;
        self.frame_done = false;
        ready
    }

    /// The current framebuffer: 160 x 144 RGB pixels, row by row.
    pub fn framebuffer(&self) -> (r: &[u32])
        ensures r@ == self@.bus.ppu.framebuffer,
    {
        self.bus.framebuffer()
    }

    /// Press a joypad key.
    pub fn key_down(&mut self, key: JoypadKey)
        requires old(self).wf(),
        ensures
            final(self).wf(),
            final(self)@ == (GbView { bus: BusView { joypad: final(self)@.bus.joypad, ..old(self)@.bus }, ..old(self)@ }),
            final(self)@.bus.joypad.spec_select() == old(self)@.bus.joypad.spec_select(),
            crate::joypad::is_direction(key) ==> final(self)@.bus.joypad.spec_direction()
                == crate::joypad::clear_bit(old(self)@.bus.joypad.spec_direction(), crate::joypad::key_bit(key))
                && final(self)@.bus.joypad.spec_action() == old(self)@.bus.joypad.spec_action(),
            !crate::joypad::is_direction(key) ==> final(self)@.bus.joypad.spec_action()
                == crate::joypad::clear_bit(old(self)@.bus.joypad.spec_action(), crate::joypad::key_bit(key))
                && final(self)@.bus.joypad.spec_direction() == old(self)@.bus.joypad.spec_direction(),
    {
        self.bus.key_down(key);
    }

    /// Release every joypad key.
    pub fn reset_joypad(&mut self)
        requires old(self).wf(),
        ensures
            final(self).wf(),
            final(self)@ == (GbView { bus: BusView { joypad: final(self)@.bus.joypad, ..old(self)@.bus }, ..old(self)@ }),
            final(self)@.bus.joypad.spec_select() == old(self)@.bus.joypad.spec_select(),
            final(self)@.bus.joypad.spec_action() == 0x0F,
            final(self)@.bus.joypad.spec_direction() == 0x0F,
    {
        self.bus.reset_joypad();
    }

    /// Load ROM data into the cartridge; the PPU takes its colour mode from it.
    pub fn load_rom(&mut self, data: Vec<u8>)
        requires old(self).wf(),
        ensures
            final(self).wf(),
            final(self)@ == (GbView {
                bus: BusView {
                    cart: crate::cartridge::cart_new(data@),
                    ppu: crate::ppu::PpuView { cgb_mode: crate::cartridge::cart_new(data@).cgb_mode, ..old(self)@.bus.ppu },
                    ..old(self)@.bus
                },
                ..old(self)@
            }),
    {
        self.bus.load_rom(data);
    }

    /// Load a boot ROM: it is mapped over the cartridge ROM, the PPU switches
    /// to CGB mode and execution restarts at 0x0000.
    pub fn load_boot_rom(&mut self, data: Vec<u8>)
        requires old(self).wf(),
        ensures
            final(self).wf(),
            final(self)@ == (GbView {
                cpu: CpuState { regs: Registers { pc: 0, ..old(self)@.cpu.regs }, halted: false, ime: false, ime_pending: false },
                bus: BusView {
                    boot_rom: Some(data@),
                    boot_rom_enabled: true,
                    ppu: crate::ppu::PpuView { cgb_mode: true, ..old(self)@.bus.ppu },
                    ..old(self)@.bus
                },
                ..old(self)@
            }),
    {
        self.bus.load_boot_rom(data);
        self.cpu.reset_for_boot();
    }

    /// Write a byte to a memory address (used by cheats).
    pub fn write_memory(&mut self, address: u16, value: u8)
        requires old(self).wf(),
        ensures
            final(self).wf(),
            final(self)@.cpu == old(self)@.cpu,
            final(self)@.frame_done == old(self)@.frame_done,
            exists|t: u64| final(self)@.bus == #[trigger] old(self)@.bus.write(address, value, t),
    {
        self.bus.write(address, value);
    }

    /// Set the mute state.
    pub fn set_muted(&mut self, muted: bool)
        requires old(self).wf(),
        ensures
            final(self).wf(),
            final(self)@ == (GbView { bus: BusView { apu: crate::apu::ApuView { muted, ..old(self)@.bus.apu }, ..old(self)@.bus }, ..old(self)@ }),
    {
        self.bus.set_muted(muted);
    }

    /// Get the mute state.
    pub fn muted(&self) -> (r: bool)
        ensures r == self@.bus.apu.muted,
    {
        self.bus.muted()
    }

    /// Enable or disable the audio throttle (disabled for fast-forward).
    pub fn set_skip_throttle(&mut self, skip: bool)
        requires old(self).wf(),
        ensures
            final(self).wf(),
            final(self)@ == (GbView { bus: BusView { apu: crate::apu::ApuView { skip_throttle: skip, ..old(self)@.bus.apu }, ..old(self)@.bus }, ..old(self)@ }),
    {
        self.bus.set_skip_throttle(skip);
    }

    /// Whether the audio throttle is disabled.
    pub fn skip_throttle(&self) -> (r: bool)
        ensures r == self@.bus.apu.skip_throttle,
    {
        self.bus.skip_throttle()
    }

    /// Record whether an audio output at `rate` samples per second is available.
    pub fn set_audio_output(&mut self, available: bool, rate: u32)
        requires old(self).wf(),
        ensures
            final(self).wf(),
            final(self)@ == (GbView {
                bus: BusView {
                    apu: crate::apu::ApuView {
                        has_output: available,
                        sample_rate: if rate > crate::apu::CPU_CLOCK { crate::apu::CPU_CLOCK } else { rate },
                        ..old(self)@.bus.apu
                    },
                    ..old(self)@.bus
                },
                ..old(self)@
            }),
    {
        self.bus.set_audio_output(available, rate);
    }

    /// Take the stereo samples the APU mixed so far.
    pub fn take_audio_samples(&mut self) -> (r: Vec<(u16, u16)>)
        requires old(self).wf(),
        ensures
            final(self).wf(),
            r@ == old(self)@.bus.apu.samples,
            final(self)@ == (GbView { bus: BusView { apu: crate::apu::ApuView { samples: Seq::empty(), ..old(self)@.bus.apu }, ..old(self)@.bus }, ..old(self)@ }),
    {
        self.bus.take_samples()
    }

    /// Save the system state: the CPU state followed by the bus state.
    pub fn save_state(&self) -> (r: Vec<u8>)
        requires self.wf(),
        ensures r@ == gb_state_bytes(self@),
    {
        let mut state = self.cpu.save_state();
        let mut bus_state = self.bus.save_state();
        state.append(&mut bus_state);
        state
    }

    /// Load a system state saved by `save_state`. Data too short to hold a
    /// CPU state is refused (`false`, nothing changes).
    pub fn load_state(&mut self, data: &[u8]) -> (r: bool)
        requires old(self).wf(),
        ensures
            final(self).wf(),
            r == (data@.len() >= CPU_STATE_SIZE),
            r ==> final(self)@ == gb_restore(old(self)@, data@),
            !r ==> final(self)@ == old(self)@,
    {
        if data.len() < 12 {
            return false;
        }
        let cpu_size = self.cpu.state_size();
        if data.len() < cpu_size {
            return false;
        }
        self.cpu.load_state(vstd::slice::slice_subrange(data, 0, cpu_size));
        self.bus.load_state(vstd::slice::slice_subrange(data, cpu_size, data.len()));
        true
    }

    /// The cartridge's external RAM, as a save file holds it.
    pub fn cartridge_ram(&self) -> (r: &Vec<u8>)
        ensures r@ == self@.bus.cart.ram,
    {
        self.bus.cartridge_ram()
    }

    /// Replace the cartridge's external RAM with the contents of a save file.
    pub fn set_cartridge_ram(&mut self, data: Vec<u8>)
        requires old(self).wf(),
        ensures
            final(self).wf(),
            final(self)@ == (GbView { bus: BusView { cart: crate::cartridge::CartView { ram: data@, ..old(self)@.bus.cart }, ..old(self)@.bus }, ..old(self)@ }),
    {
        self.bus.set_cartridge_ram(data);
    }
}

} // verus!
