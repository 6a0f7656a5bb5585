use vstd::prelude::*;

verus! {

/// The CPU clock in T-cycles per second.
pub const CPU_CLOCK: u32 = 4194304;
/// The default output sample rate.
pub const SAMPLE_RATE: u32 = 44100;
/// The largest value of a mixed sample: four channels at level 15 times the
/// largest master volume factor 8.
pub const SAMPLE_SCALE: u16 = 480;

/// Bit `pos` of the waveform of duty setting `duty` (12.5%, 25%, 50%, 75%).
pub open spec fn duty_bit(duty: u8, pos: u8) -> u8 {
    let mask: u8 = if duty == 0 { 0x80 } else if duty == 1 { 0x81 } else if duty == 2 { 0xE1 } else { 0x7E };
    (mask >> pos) & 1
}

/// The four duty settings keep the pulse high for 1, 2, 4 and 6 of the 8
/// steps of its waveform (12.5%, 25%, 50% and 75%).
pub proof fn lemma_duty_cycles(duty: u8) by (bit_vector)
    requires duty < 4,
    ensures
        (duty_bit(duty, 0) + duty_bit(duty, 1) + duty_bit(duty, 2) + duty_bit(duty, 3)
            + duty_bit(duty, 4) + duty_bit(duty, 5) + duty_bit(duty, 6) + duty_bit(duty, 7))
            == (if duty == 0 { 1int } else if duty == 1 { 2int } else if duty == 2 { 4int } else { 6int }),
{
}

/// The envelope step: one up (to at most 15) or one down (to at least 0).
pub open spec fn envelope_step(volume: u8, up: bool) -> u8 {
    if up && volume < 15 { (volume + 1) as u8 } else if !up && volume > 0 { (volume - 1) as u8 } else { volume }
}

/// A pulse channel at power-on: silent, every register zero.
pub open spec fn pulse_initial() -> PulseChannel {
    PulseChannel {
        enabled: false, duty: 0, length_timer: 0, length_enabled: false,
        volume: 0, volume_initial: 0, volume_sweep_pace: 0,
        volume_sweep_dir: false, volume_sweep_timer: 0,
        frequency: 0, freq_timer: 0, duty_pos: 0,
        sweep_pace: 0, sweep_dir: false, sweep_step: 0,
        sweep_timer: 0, sweep_enabled: false, sweep_shadow: 0,
    }
}

/// The wave channel at power-on: silent, DAC off, wave RAM zeroed.
pub open spec fn wave_initial() -> WaveView {
    WaveView {
        enabled: false, dac_enabled: false, length_timer: 0,
        length_enabled: false, volume_shift: 0, frequency: 0,
        freq_timer: 0, sample_pos: 0, wave_ram: Seq::new(16, |i: int| 0u8),
    }
}

/// The noise channel at power-on: silent, the LFSR all ones.
pub open spec fn noise_initial() -> NoiseChannel {
    NoiseChannel {
        enabled: false, length_timer: 0, length_enabled: false,
        volume: 0, volume_initial: 0, volume_sweep_pace: 0,
        volume_sweep_dir: false, volume_sweep_timer: 0,
        clock_shift: 0, width_mode: false, divisor_code: 0,
        freq_timer: 0, lfsr: 0x7FFF,
    }
}

/// Pulse channel (CH1 has a frequency sweep, CH2 does not).
#[derive(Clone, Copy, PartialEq, Eq, Structural)]
pub struct PulseChannel {
    pub enabled: bool,
    pub duty: u8,
    pub length_timer: u8,
    pub length_enabled: bool,
    pub volume: u8,
    pub volume_initial: u8,
    pub volume_sweep_pace: u8,
    /// true = increase
    pub volume_sweep_dir: bool,
    pub volume_sweep_timer: u8,
    pub frequency: u16,
    pub freq_timer: i32,
    pub duty_pos: u8,
    pub sweep_pace: u8,
    /// true = subtract
    pub sweep_dir: bool,
    pub sweep_step: u8,
    pub sweep_timer: u8,
    pub sweep_enabled: bool,
    pub sweep_shadow: u16,
}

impl PulseChannel {
    /// The ranges the channel's counters stay in.
    pub open spec fn wf(self) -> bool {
        &&& self.frequency <= 2047
        &&& self.freq_timer >= 0
        &&& self.duty < 4
        &&& self.duty_pos < 8
        &&& self.sweep_step < 8
        &&& self.volume <= 15
        &&& self.volume_initial <= 15
    }

    /// One T-cycle: the frequency timer counts down and, at zero, reloads with
    /// (2048 - frequency) * 4 and moves the duty position on.
    pub open spec fn spec_tick(self) -> PulseChannel {
        let t = self.freq_timer - 1;
        if t <= 0 {
            PulseChannel { freq_timer: ((2048 - self.frequency) * 4) as i32, duty_pos: ((self.duty_pos + 1) % 8) as u8, ..self }
        } else {
            PulseChannel { freq_timer: t as i32, ..self }
        }
    }

    /// The output level (0 to 15).
    pub open spec fn level(self) -> u8 {
        if !self.enabled || self.volume == 0 || duty_bit(self.duty, self.duty_pos) != 1 { 0 } else { self.volume }
    }

    /// One length clock: when length counting is on and the timer runs out, the channel stops.
    pub open spec fn spec_tick_length(self) -> PulseChannel {
        if self.length_enabled && self.length_timer > 0 {
            let t = (self.length_timer - 1) as u8;
            PulseChannel { length_timer: t, enabled: self.enabled && t != 0, ..self }
        } else {
            self
        }
    }

    /// One envelope clock.
    pub open spec fn spec_tick_volume(self) -> PulseChannel {
        if self.volume_sweep_pace == 0 {
            self
        } else {
            let t = ((self.volume_sweep_timer - 1) % 256) as u8;
            if t == 0 {
                PulseChannel { volume_sweep_timer: self.volume_sweep_pace, volume: envelope_step(self.volume, self.volume_sweep_dir), ..self }
            } else {
                PulseChannel { volume_sweep_timer: t, ..self }
            }
        }
    }

    /// The frequency after one sweep step from the shadow frequency (wrapping at 2^16).
    pub open spec fn spec_calc_sweep(self) -> u16 {
        let shift = self.sweep_shadow >> self.sweep_step;
        if self.sweep_dir {
            ((self.sweep_shadow - shift) % 65536) as u16
        } else {
            ((self.sweep_shadow + shift) % 65536) as u16
        }
    }

    /// One sweep clock (CH1 only).
    pub open spec fn spec_tick_sweep(self) -> PulseChannel {
        if self.sweep_pace == 0 || !self.sweep_enabled {
            self
        } else {
            let t = ((self.sweep_timer - 1) % 256) as u8;
            if t != 0 {
                PulseChannel { sweep_timer: t, ..self }
            } else {
                let c1 = PulseChannel { sweep_timer: self.sweep_pace, ..self };
                let new_freq = c1.spec_calc_sweep();
                if new_freq <= 2047 && self.sweep_step > 0 {
                    let c2 = PulseChannel { frequency: new_freq, sweep_shadow: new_freq, ..c1 };
                    PulseChannel { enabled: c2.enabled && c2.spec_calc_sweep() <= 2047, ..c2 }
                } else {
                    c1
                }
            }
        }
    }

    /// Trigger (restart) the channel.
    pub open spec fn spec_trigger(self) -> PulseChannel {
        let c = PulseChannel {
            enabled: true,
            length_timer: if self.length_timer == 0 { 64 } else { self.length_timer },
            freq_timer: ((2048 - self.frequency) * 4) as i32,
            volume: self.volume_initial,
            volume_sweep_timer: if self.volume_sweep_pace == 0 { 8 } else { self.volume_sweep_pace },
            sweep_shadow: self.frequency,
            sweep_timer: if self.sweep_pace == 0 { 8 } else { self.sweep_pace },
            sweep_enabled: self.sweep_pace > 0 || self.sweep_step > 0,
            ..self
        };
        PulseChannel { enabled: !(c.sweep_step > 0 && c.spec_calc_sweep() > 2047), ..c }
    }

    /// A pulse channel in its initial state.
    fn new() -> (r: Self)
        ensures r.wf(), r.level() == 0, r == pulse_initial(),
    {
        PulseChannel {
            enabled: false, duty: 0, length_timer: 0, length_enabled: false,
            volume: 0, volume_initial: 0, volume_sweep_pace: 0,
            volume_sweep_dir: false, volume_sweep_timer: 0,
            frequency: 0, freq_timer: 0, duty_pos: 0,
            sweep_pace: 0, sweep_dir: false, sweep_step: 0,
            sweep_timer: 0, sweep_enabled: false, sweep_shadow: 0,
        }
    }

    /// Advance the frequency timer and the duty position.
    fn tick(&mut self)
        requires old(self).wf(),
        ensures *final(self) == old(self).spec_tick(), final(self).wf(),
    {
        self.freq_timer -= 1;
        if self.freq_timer <= 0 {
            self.freq_timer = (2048 - self.frequency as i32) * 4;
            self.duty_pos = (self.duty_pos + 1) % 8;
        }
    }

    /// The current output level (0 to 15).
    fn sample(&self) -> (r: u8)
        requires self.wf(),
        ensures r == self.level(), r <= 15,
    {
        if !self.enabled || self.volume == 0 {
            return 0;
        }
        let mask: u8 = match self.duty {
            0 => 0x80,
            1 => 0x81,
            2 => 0xE1,
            _ => 0x7E,
        };
        let out = (mask >> self.duty_pos) & 1;
        if out == 1 { self.volume } else { 0 }
    }

    /// Clock the length timer. Disables the channel when it expires.
    fn tick_length(&mut self)
        requires old(self).wf(),
        ensures *final(self) == old(self).spec_tick_length(), final(self).wf(),
    {
        if self.length_enabled && self.length_timer > 0 {
            self.length_timer -= 1;
            if self.length_timer == 0 {
                self.enabled = false;
            }
        }
    }

    /// Clock the volume envelope.
    fn tick_volume(&mut self)
        requires old(self).wf(),
        ensures *final(self) == old(self).spec_tick_volume(), final(self).wf(),
    {
        if self.volume_sweep_pace == 0 {
            return;
        }
        self.volume_sweep_timer = self.volume_sweep_timer.wrapping_sub(1);
        if self.volume_sweep_timer == 0 {
            self.volume_sweep_timer = self.volume_sweep_pace;
            if self.volume_sweep_dir && self.volume < 15 {
                self.volume += 1;
            } else if !self.volume_sweep_dir && self.volume > 0 {
                self.volume -= 1;
            }
        }
    }

    /// Clock the frequency sweep (CH1 only).
    fn tick_sweep(&mut self)
        requires old(self).wf(),
        ensures *final(self) == old(self).spec_tick_sweep(), final(self).wf(),
    {
        if self.sweep_pace == 0 || !self.sweep_enabled {
            return;
        }
        self.sweep_timer = self.sweep_timer.wrapping_sub(1);
        if self.sweep_timer == 0 {
            self.sweep_timer = self.sweep_pace;
            let new_freq = self.calc_sweep();
            if new_freq <= 2047 && self.sweep_step > 0 {
                self.frequency = new_freq;
                self.sweep_shadow = new_freq;
                if self.calc_sweep() > 2047 {
                    self.enabled = false;
                }
            }
        }
    }

    /// The new frequency after a sweep step.
    fn calc_sweep(&self) -> (r: u16)
        requires self.sweep_step < 8,
        ensures r == self.spec_calc_sweep(),
    {
        let shift = self.sweep_shadow >> self.sweep_step;
        if self.sweep_dir {
            self.sweep_shadow.wrapping_sub(shift)
        } else {
            self.sweep_shadow.wrapping_add(shift)
        }
    }

    /// Trigger the channel (restart the sound).
    fn trigger(&mut self)
        requires old(self).wf(),
        ensures *final(self) == old(self).spec_trigger(), final(self).wf(),
    {
        self.enabled = true;
        if self.length_timer == 0 {
            self.length_timer = 64;
        }
        self.freq_timer = (2048 - self.frequency as i32) * 4;
        self.volume = self.volume_initial;
        self.volume_sweep_timer = if self.volume_sweep_pace == 0 { 8 } else { self.volume_sweep_pace };
        self.sweep_shadow = self.frequency;
        self.sweep_timer = if self.sweep_pace == 0 { 8 } else { self.sweep_pace };
        self.sweep_enabled = self.sweep_pace > 0 || self.sweep_step > 0;
        if self.sweep_step > 0 && self.calc_sweep() > 2047 {
            self.enabled = false;
        }
    }
}

/// Wave channel (CH3). Plays a custom 4-bit waveform from wave RAM.
pub struct WaveChannel {
    pub enabled: bool,
    pub dac_enabled: bool,
    pub length_timer: u16,
    pub length_enabled: bool,
    pub volume_shift: u8,
    pub frequency: u16,
    pub freq_timer: i32,
    pub sample_pos: u8,
    pub wave_ram: Vec<u8>,
}

/// The abstract state of the wave channel.
#[verifier::ext_equal]
pub struct WaveView {
    pub enabled: bool,
    pub dac_enabled: bool,
    pub length_timer: u16,
    pub length_enabled: bool,
    pub volume_shift: u8,
    pub frequency: u16,
    pub freq_timer: i32,
    pub sample_pos: u8,
    pub wave_ram: Seq<u8>,
}

impl View for WaveChannel {
    type V = WaveView;

    open spec fn view(&self) -> WaveView {
        WaveView {
            enabled: self.enabled,
            dac_enabled: self.dac_enabled,
            length_timer: self.length_timer,
            length_enabled: self.length_enabled,
            volume_shift: self.volume_shift,
            frequency: self.frequency,
            freq_timer: self.freq_timer,
            sample_pos: self.sample_pos,
            wave_ram: self.wave_ram@,
        }
    }
}

impl WaveView {
    /// The ranges the channel's counters stay in.
    pub open spec fn wf(self) -> bool {
        &&& self.frequency <= 2047
        &&& self.freq_timer >= 0
        &&& self.sample_pos < 32
        &&& self.volume_shift <= 3
        &&& self.wave_ram.len() == 16
    }

    /// One T-cycle: the frequency timer counts down and, at zero, reloads with
    /// (2048 - frequency) * 2 and moves to the next 4-bit sample.
    pub open spec fn spec_tick(self) -> WaveView {
        let t = self.freq_timer - 1;
        if t <= 0 {
            WaveView { freq_timer: ((2048 - self.frequency) * 2) as i32, sample_pos: ((self.sample_pos + 1) % 32) as u8, ..self }
        } else {
            WaveView { freq_timer: t as i32, ..self }
        }
    }

    /// The output level (0 to 15): the current nibble of wave RAM (high nibble
    /// first) shifted right by the volume code (code 0 mutes).
    pub open spec fn level(self) -> u8 {
        if !self.enabled || !self.dac_enabled {
            0
        } else {
            let byte = self.wave_ram[(self.sample_pos / 2) as int];
            let nibble = if self.sample_pos % 2 == 0 { byte / 16 } else { byte % 16 };
            if self.volume_shift == 0 { 0 } else { nibble >> ((self.volume_shift - 1) as u8) }
        }
    }

    /// One length clock.
    pub open spec fn spec_tick_length(self) -> WaveView {
        if self.length_enabled && self.length_timer > 0 {
            let t = (self.length_timer - 1) as u16;
            WaveView { length_timer: t, enabled: self.enabled && t != 0, ..self }
        } else {
            self
        }
    }

    /// Trigger (restart) the channel.
    pub open spec fn spec_trigger(self) -> WaveView {
        WaveView {
            enabled: true,
            length_timer: if self.length_timer == 0 { 256 } else { self.length_timer },
            freq_timer: ((2048 - self.frequency) * 2) as i32,
            sample_pos: 0,
            ..self
        }
    }
}

impl WaveChannel {
    /// A wave channel in its initial state.
    fn new() -> (r: Self)
        ensures r@.wf(), r@.level() == 0, r@ == wave_initial(),
    {
        let r = WaveChannel {
            enabled: false, dac_enabled: false, length_timer: 0,
            length_enabled: false, volume_shift: 0, frequency: 0,
            freq_timer: 0, sample_pos: 0, wave_ram: vec![0u8; 16],
        };
        assert(r.wave_ram@ =~= Seq::new(16, |i: int| 0u8));
        r
    }

    /// Advance the channel by one T-cycle.
    fn tick(&mut self)
        requires old(self)@.wf(),
        ensures final(self)@ == old(self)@.spec_tick(), final(self)@.wf(),
    {
        self.freq_timer -= 1;
        if self.freq_timer <= 0 {
            self.freq_timer = (2048 - self.frequency as i32) * 2;
            self.sample_pos = (self.sample_pos + 1) % 32;
        }
    }

    /// The current output level (0 to 15).
    fn sample(&self) -> (r: u8)
        requires self@.wf(),
        ensures r == self@.level(), r <= 15,
    {
        if !self.enabled || !self.dac_enabled {
            return 0;
        }
        let byte = self.wave_ram[(self.sample_pos / 2) as usize];
        let nibble = if self.sample_pos % 2 == 0 { byte / 16 } else { byte % 16 };
        let shifted = match self.volume_shift {
            0 => 0,
            1 => nibble,
            2 => nibble >> 1u8,
            _ => nibble >> 2u8,
        };
        proof { lemma_shift_le(nibble); }
        shifted
    }

    /// Clock the length timer. Disables the channel when it expires.
    fn tick_length(&mut self)
        requires old(self)@.wf(),
        ensures final(self)@ == old(self)@.spec_tick_length(), final(self)@.wf(),
    {
        if self.length_enabled && self.length_timer > 0 {
            self.length_timer -= 1;
            if self.length_timer == 0 {
                self.enabled = false;
            }
        }
    }

    /// Trigger the channel (restart the sound).
    fn trigger(&mut self)
        requires old(self)@.wf(),
        ensures final(self)@ == old(self)@.spec_trigger(), final(self)@.wf(),
    {
        self.enabled = true;
        if self.length_timer == 0 {
            self.length_timer = 256;
        }
        self.freq_timer = (2048 - self.frequency as i32) * 2;
        self.sample_pos = 0;
    }
}

/// Shifting a byte right keeps it no larger.
proof fn lemma_shift_le(x: u8) by (bit_vector)
    ensures x >> 0u8 == x, x >> 1u8 <= x, x >> 2u8 <= x,
{
}

/// Noise channel (CH4). Uses an LFSR for pseudo-random output.
#[derive(Clone, Copy, PartialEq, Eq, Structural)]
pub struct NoiseChannel {
    pub enabled: bool,
    pub length_timer: u8,
    pub length_enabled: bool,
    pub volume: u8,
    pub volume_initial: u8,
    pub volume_sweep_pace: u8,
    pub volume_sweep_dir: bool,
    pub volume_sweep_timer: u8,
    pub clock_shift: u8,
    /// true = 7-bit, false = 15-bit
    pub width_mode: bool,
    pub divisor_code: u8,
    pub freq_timer: i32,
    pub lfsr: u16,
}

/// The noise timer period for a divisor code and clock shift.
pub open spec fn noise_period(divisor_code: u8, clock_shift: u8) -> i32 {
    let divisor: i32 = if divisor_code == 0 { 8 } else { (divisor_code * 16) as i32 };
    divisor << clock_shift
}

/// One LFSR step: shift right, feeding bit0 XOR bit1 into bit 14 (and into
/// bit 6 in 7-bit mode).
pub open spec fn lfsr_step(lfsr: u16, width_mode: bool) -> u16 {
    let x = (lfsr & 1) ^ ((lfsr >> 1u16) & 1);
    let l = (lfsr >> 1u16) | (x << 14u16);
    if width_mode { (l & !(1u16 << 6u16)) | (x << 6u16) } else { l }
}

impl NoiseChannel {
    /// The ranges the channel's counters stay in.
    pub open spec fn wf(self) -> bool {
        &&& self.freq_timer >= 0
        &&& self.clock_shift <= 15
        &&& self.divisor_code <= 7
        &&& self.volume <= 15
        &&& self.volume_initial <= 15
    }

    /// One T-cycle: at the end of the period the LFSR steps.
    pub open spec fn spec_tick(self) -> NoiseChannel {
        let t = self.freq_timer - 1;
        if t <= 0 {
            NoiseChannel {
                freq_timer: noise_period(self.divisor_code, self.clock_shift),
                lfsr: lfsr_step(self.lfsr, self.width_mode),
                ..self
            }
        } else {
            NoiseChannel { freq_timer: t as i32, ..self }
        }
    }

    /// The output level (0 to 15): the volume when bit 0 of the LFSR is clear.
    pub open spec fn level(self) -> u8 {
        if !self.enabled || self.volume == 0 { 0 } else if self.lfsr & 1 == 0 { self.volume } else { 0 }
    }

    /// One length clock.
    pub open spec fn spec_tick_length(self) -> NoiseChannel {
        if self.length_enabled && self.length_timer > 0 {
            let t = (self.length_timer - 1) as u8;
            NoiseChannel { length_timer: t, enabled: self.enabled && t != 0, ..self }
        } else {
            self
        }
    }

    /// One envelope clock.
    pub open spec fn spec_tick_volume(self) -> NoiseChannel {
        if self.volume_sweep_pace == 0 {
            self
        } else {
            let t = ((self.volume_sweep_timer - 1) % 256) as u8;
            if t == 0 {
                NoiseChannel { volume_sweep_timer: self.volume_sweep_pace, volume: envelope_step(self.volume, self.volume_sweep_dir), ..self }
            } else {
                NoiseChannel { volume_sweep_timer: t, ..self }
            }
        }
    }

    /// Trigger (restart) the channel: the LFSR resets to all ones.
    pub open spec fn spec_trigger(self) -> NoiseChannel {
        NoiseChannel {
            enabled: true,
            length_timer: if self.length_timer == 0 { 64 } else { self.length_timer },
            volume: self.volume_initial,
            volume_sweep_timer: if self.volume_sweep_pace == 0 { 8 } else { self.volume_sweep_pace },
            lfsr: 0x7FFF,
            freq_timer: noise_period(self.divisor_code, self.clock_shift),
            ..self
        }
    }

    /// A noise channel in its initial state.
    fn new() -> (r: Self)
        ensures r.wf(), r.level() == 0, r == noise_initial(),
    {
        NoiseChannel {
            enabled: false, length_timer: 0, length_enabled: false,
            volume: 0, volume_initial: 0, volume_sweep_pace: 0,
            volume_sweep_dir: false, volume_sweep_timer: 0,
            clock_shift: 0, width_mode: false, divisor_code: 0,
            freq_timer: 0, lfsr: 0x7FFF,
        }
    }

    /// The timer period for the current divisor code and clock shift.
    fn period(&self) -> (r: i32)
        requires self.divisor_code <= 7, self.clock_shift <= 15,
        ensures r == noise_period(self.divisor_code, self.clock_shift), r >= 8,
    {
        let divisor: i32 = if self.divisor_code == 0 { 8 } else { (self.divisor_code as i32) * 16 };
        proof { lemma_period_bounds(divisor, self.clock_shift); }
        divisor << self.clock_shift
    }

    /// Advance the channel by one T-cycle.
    fn tick(&mut self)
        requires old(self).wf(),
        ensures *final(self) == old(self).spec_tick(), final(self).wf(),
    {
        self.freq_timer -= 1;
        if self.freq_timer <= 0 {
            self.freq_timer = self.period();
            let xor = (self.lfsr & 1) ^ ((self.lfsr >> 1u16) & 1);
            self.lfsr = (self.lfsr >> 1u16) | (xor << 14u16);
            if self.width_mode {
                self.lfsr = (self.lfsr & !(1u16 << 6u16)) | (xor << 6u16);
            }
        }
    }

    /// The current output level (0 to 15).
    fn sample(&self) -> (r: u8)
        requires self.wf(),
        ensures r == self.level(), r <= 15,
    {
        if !self.enabled || self.volume == 0 {
            return 0;
        }
        if self.lfsr & 1 == 0 { self.volume } else { 0 }
    }

    /// Clock the length timer. Disables the channel when it expires.
    fn tick_length(&mut self)
        requires old(self).wf(),
        ensures *final(self) == old(self).spec_tick_length(), final(self).wf(),
    {
        if self.length_enabled && self.length_timer > 0 {
            self.length_timer -= 1;
            if self.length_timer == 0 {
                self.enabled = false;
            }
        }
    }

    /// Clock the volume envelope.
    fn tick_volume(&mut self)
        requires old(self).wf(),
        ensures *final(self) == old(self).spec_tick_volume(), final(self).wf(),
    {
        if self.volume_sweep_pace == 0 {
            return;
        }
        self.volume_sweep_timer = self.volume_sweep_timer.wrapping_sub(1);
        if self.volume_sweep_timer == 0 {
            self.volume_sweep_timer = self.volume_sweep_pace;
            if self.volume_sweep_dir && self.volume < 15 {
                self.volume += 1;
            } else if !self.volume_sweep_dir && self.volume > 0 {
                self.volume -= 1;
            }
        }
    }

    /// Trigger the channel (restart the sound).
    fn trigger(&mut self)
        requires old(self).wf(),
        ensures *final(self) == old(self).spec_trigger(), final(self).wf(),
    {
        self.enabled = true;
        if self.length_timer == 0 {
            self.length_timer = 64;
        }
        self.volume = self.volume_initial;
        self.volume_sweep_timer = if self.volume_sweep_pace == 0 { 8 } else { self.volume_sweep_pace };
        self.lfsr = 0x7FFF;
        self.freq_timer = self.period();
    }
}

/// The noise period stays positive and fits an i32.
proof fn lemma_period_bounds(divisor: i32, shift: u8) by (bit_vector)
    requires 8i32 <= divisor <= 112i32, shift <= 15u8,
    ensures 8i32 <= divisor << shift, divisor << shift <= 112i32 * 32768i32,
{
}

/// The abstract state of the APU.
#[verifier::ext_equal]
pub struct ApuView {
    pub ch1: PulseChannel,
    pub ch2: PulseChannel,
    pub ch3: WaveView,
    pub ch4: NoiseChannel,
    pub master_enabled: bool,
    pub left_volume: u8,
    pub right_volume: u8,
    pub panning: u8,
    pub frame_seq_timer: u32,
    pub frame_seq_step: u8,
    pub sample_timer: u32,
    pub sample_rate: u32,
    pub samples: Seq<(u16, u16)>,
    pub has_output: bool,
    pub muted: bool,
    pub skip_throttle: bool,
}

/// Audio Processing Unit: four channels, the frame sequencer and the mixer.
/// Mixed stereo samples collect in a buffer for the audio output to drain.
pub struct Apu {
    ch1: PulseChannel,
    ch2: PulseChannel,
    ch3: WaveChannel,
    ch4: NoiseChannel,
    master_enabled: bool,
    left_volume: u8,
    right_volume: u8,
    /// NR51
    panning: u8,
    frame_seq_timer: u32,
    frame_seq_step: u8,
    /// Sample clock: advances by the sample rate each T-cycle; a sample is due
    /// each time it passes the CPU clock rate.
    sample_timer: u32,
    sample_rate: u32,
    samples: Vec<(u16, u16)>,
    has_output: bool,
    muted: bool,
    skip_throttle: bool,
}

impl View for Apu {
    type V = ApuView;

    closed spec fn view(&self) -> ApuView {
        ApuView {
            ch1: self.ch1,
            ch2: self.ch2,
            ch3: self.ch3@,
            ch4: self.ch4,
            master_enabled: self.master_enabled,
            left_volume: self.left_volume,
            right_volume: self.right_volume,
            panning: self.panning,
            frame_seq_timer: self.frame_seq_timer,
            frame_seq_step: self.frame_seq_step,
            sample_timer: self.sample_timer,
            sample_rate: self.sample_rate,
            samples: self.samples@,
            has_output: self.has_output,
            muted: self.muted,
            skip_throttle: self.skip_throttle,
        }
    }
}

/// The sum of the levels of the channels whose panning bits (`m1` for channel
/// 1 to `m4` for channel 4) are set.
pub open spec fn panned_sum(a: ApuView, m1: u8, m2: u8, m3: u8, m4: u8) -> int {
    (if a.panning & m1 != 0 { a.ch1.level() as int } else { 0 })
    + (if a.panning & m2 != 0 { a.ch2.level() as int } else { 0 })
    + (if a.panning & m3 != 0 { a.ch3.level() as int } else { 0 })
    + (if a.panning & m4 != 0 { a.ch4.level() as int } else { 0 })
}

impl ApuView {
    /// The ranges the APU's counters stay in.
    pub open spec fn wf(self) -> bool {
        &&& self.ch1.wf()
        &&& self.ch2.wf()
        &&& self.ch3.wf()
        &&& self.ch4.wf()
        &&& self.left_volume <= 7
        &&& self.right_volume <= 7
        &&& self.frame_seq_timer < 8192
        &&& self.frame_seq_step < 8
        &&& self.sample_rate <= CPU_CLOCK
        &&& self.sample_timer < CPU_CLOCK
    }

    /// The mixed stereo sample, in units of 1/480 of full scale: the sum of the
    /// panned channel levels times the master volume plus one.
    pub open spec fn mix(self) -> (u16, u16) {
        ((panned_sum(self, 0x10, 0x20, 0x40, 0x80) * (self.left_volume + 1)) as u16,
         (panned_sum(self, 0x01, 0x02, 0x04, 0x08) * (self.right_volume + 1)) as u16)
    }

    /// One frame sequencer clock: length on even steps, sweep on steps 2 and 6,
    /// envelopes on step 7.
    pub open spec fn frame_sequencer(self) -> ApuView {
        let st = self.frame_seq_step;
        let a1 = if st % 2 == 0 {
            ApuView {
                ch1: self.ch1.spec_tick_length(),
                ch2: self.ch2.spec_tick_length(),
                ch3: self.ch3.spec_tick_length(),
                ch4: self.ch4.spec_tick_length(),
                ..self
            }
        } else {
            self
        };
        let a2 = if st == 2 || st == 6 { ApuView { ch1: a1.ch1.spec_tick_sweep(), ..a1 } } else { a1 };
        let a3 = if st == 7 {
            ApuView { ch1: a2.ch1.spec_tick_volume(), ch2: a2.ch2.spec_tick_volume(), ch4: a2.ch4.spec_tick_volume(), ..a2 }
        } else {
            a2
        };
        ApuView { frame_seq_step: ((st + 1) % 8) as u8, ..a3 }
    }

    /// Each channel's timer advances by one T-cycle.
    pub open spec fn tick_channels(self) -> ApuView {
        ApuView {
            ch1: self.ch1.spec_tick(),
            ch2: self.ch2.spec_tick(),
            ch3: self.ch3.spec_tick(),
            ch4: self.ch4.spec_tick(),
            ..self
        }
    }

    /// The frame sequencer counter advances; every 8192 T-cycles it clocks.
    pub open spec fn step_frame_timer(self) -> ApuView {
        let fst = self.frame_seq_timer + 1;
        if fst >= 8192 { ApuView { frame_seq_timer: 0, ..self }.frame_sequencer() } else { ApuView { frame_seq_timer: fst as u32, ..self } }
    }

    /// The sample clock advances by the sample rate; when it passes the CPU
    /// clock rate a mixed sample is appended.
    pub open spec fn step_sample_clock(self) -> ApuView {
        let stt = self.sample_timer + self.sample_rate;
        if stt >= CPU_CLOCK {
            ApuView { sample_timer: (stt - CPU_CLOCK) as u32, samples: self.samples.push(self.mix()), ..self }
        } else {
            ApuView { sample_timer: stt as u32, ..self }
        }
    }

    /// One T-cycle of the APU.
    pub open spec fn cycle(self) -> ApuView {
        self.tick_channels().step_frame_timer().step_sample_clock()
    }

    /// `n` T-cycles of the APU.
    pub open spec fn run(self, n: nat) -> ApuView
        decreases n,
    {
        if n == 0 { self } else { self.run((n - 1) as nat).cycle() }
    }

    /// The APU after `cycles` T-cycles: nothing happens while the APU is
    /// switched off or there is no audio output.
    pub open spec fn tick(self, cycles: u8) -> ApuView {
        if !self.master_enabled || !self.has_output { self } else { self.run(cycles as nat) }
    }
}

/// The APU at power-on: switched off, channels silent, master volume 7 on
/// both sides, every channel panned to both sides, sampling at the default
/// rate, no audio output, no samples.
pub open spec fn apu_initial() -> ApuView {
    ApuView {
        ch1: pulse_initial(),
        ch2: pulse_initial(),
        ch3: wave_initial(),
        ch4: noise_initial(),
        master_enabled: false,
        left_volume: 7,
        right_volume: 7,
        panning: 0xFF,
        frame_seq_timer: 0,
        frame_seq_step: 0,
        sample_timer: 0,
        sample_rate: SAMPLE_RATE,
        samples: Seq::empty(),
        has_output: false,
        muted: false,
        skip_throttle: false,
    }
}

impl Apu {
    /// The ranges the APU's counters stay in.
    pub open spec fn wf(&self) -> bool {
        self@.wf()
    }

    /// A new APU: channels silent, master volume 7 on both sides, all channels
    /// panned to both sides, sampling at the default rate, no audio output yet.
    pub fn new() -> (r: Self)
        ensures
            r.wf(),
            r@ == apu_initial(),
    {
        let r = Apu {
            ch1: PulseChannel::new(),
            ch2: PulseChannel::new(),
            ch3: WaveChannel::new(),
            ch4: NoiseChannel::new(),
            master_enabled: false,
            left_volume: 7,
            right_volume: 7,
            panning: 0xFF,
            frame_seq_timer: 0,
            frame_seq_step: 0,
            sample_timer: 0,
            sample_rate: SAMPLE_RATE,
            samples: Vec::new(),
            has_output: false,
            muted: false,
            skip_throttle: false,
        };
        assert(r@.samples =~= Seq::empty());
        r
    }

    /// Returns true if audio output is available.
    pub fn has_audio(&self) -> (r: bool)
        ensures r == self@.has_output,
    {
        self.has_output
    }

    /// Record that an audio output at `rate` samples per second is (or is not)
    /// available. Rates above the CPU clock are taken as the CPU clock.
    pub fn set_output(&mut self, available: bool, rate: u32)
        requires old(self).wf(),
        ensures
            final(self).wf(),
            final(self)@ == (ApuView {
                has_output: available,
                sample_rate: if rate > CPU_CLOCK { CPU_CLOCK } else { rate },
                ..old(self)@
            }),
    {
        self.has_output = available;
        self.sample_rate = if rate > CPU_CLOCK { CPU_CLOCK } else { rate };
    }

    /// Set the mute state.
    pub fn set_muted(&mut self, muted: bool)
        ensures final(self)@ == (ApuView { muted, ..old(self)@ }),
    {
        self.muted = muted;
    }

    /// Get the mute state.
    pub fn muted(&self) -> (r: bool)
        ensures r == self@.muted,
    {
        self.muted
    }

    /// Enable or disable the real-time throttle (disabled for fast-forward).
    pub fn set_skip_throttle(&mut self, skip: bool)
        ensures final(self)@ == (ApuView { skip_throttle: skip, ..old(self)@ }),
    {
        self.skip_throttle = skip;
    }

    /// Whether the real-time throttle is disabled.
    pub fn skip_throttle(&self) -> (r: bool)
        ensures r == self@.skip_throttle,
    {
        self.skip_throttle
    }

    /// Hand out the collected samples and empty the buffer.
    pub fn take_samples(&mut self) -> (r: Vec<(u16, u16)>)
        ensures
            r@ == old(self)@.samples,
            final(self)@ == (ApuView { samples: Seq::empty(), ..old(self)@ }),
    {
        let mut out: Vec<(u16, u16)> = Vec::new();
        std::mem::swap(&mut out, &mut self.samples);
        out
    }

    /// Mix all channels into one stereo sample.
    fn mix(&self) -> (r: (u16, u16))
        requires self.wf(),
        ensures r == self@.mix(),
    {
        let ch1 = self.ch1.sample() as u16;
        let ch2 = self.ch2.sample() as u16;
        let ch3 = self.ch3.sample() as u16;
        let ch4 = self.ch4.sample() as u16;
        let mut left: u16 = 0;
        let mut right: u16 = 0;
        if self.panning & 0x10 != 0 { left += ch1; }
        if self.panning & 0x20 != 0 { left += ch2; }
        if self.panning & 0x40 != 0 { left += ch3; }
        if self.panning & 0x80 != 0 { left += ch4; }
        if self.panning & 0x01 != 0 { right += ch1; }
        if self.panning & 0x02 != 0 { right += ch2; }
        if self.panning & 0x04 != 0 { right += ch3; }
        if self.panning & 0x08 != 0 { right += ch4; }
        assert(left <= 60 && right <= 60);
        proof {
            assert(left * (self.left_volume + 1) <= 60 * 8) by (nonlinear_arith)
                requires left <= 60, self.left_volume <= 7;
            assert(right * (self.right_volume + 1) <= 60 * 8) by (nonlinear_arith)
                requires right <= 60, self.right_volume <= 7;
        }
        let l = left * (self.left_volume as u16 + 1);
        let r = right * (self.right_volume as u16 + 1);
        (l, r)
    }

    /// Clock the frame sequencer (length, volume envelope, sweep).
    fn clock_frame_sequencer(&mut self)
        requires old(self).wf(),
        ensures final(self)@ == old(self)@.frame_sequencer(), final(self).wf(),
    {
        let st = self.frame_seq_step;
        if st % 2 == 0 {
            self.ch1.tick_length();
            self.ch2.tick_length();
            self.ch3.tick_length();
            self.ch4.tick_length();
        }
        if st == 2 || st == 6 {
            self.ch1.tick_sweep();
        }
        if st == 7 {
            self.ch1.tick_volume();
            self.ch2.tick_volume();
            self.ch4.tick_volume();
        }
        self.frame_seq_step = (self.frame_seq_step + 1) % 8;
    }

    /// One T-cycle: channel timers, the frame sequencer (512 Hz, every 8192
    /// T-cycles) and the sample clock.
    fn cycle(&mut self)
        requires old(self).wf(),
        ensures final(self)@ == old(self)@.cycle(), final(self).wf(),
    {
        self.tick_channels();
        self.step_frame_timer();
        self.step_sample_clock();
    }

    fn tick_channels(&mut self)
        requires old(self).wf(),
        ensures final(self)@ == old(self)@.tick_channels(), final(self).wf(),
    {
        self.ch1.tick();
        self.ch2.tick();
        self.ch3.tick();
        self.ch4.tick();
    }

    fn step_frame_timer(&mut self)
        requires old(self).wf(),
        ensures final(self)@ == old(self)@.step_frame_timer(), final(self).wf(),
    {
        self.frame_seq_timer += 1;
        if self.frame_seq_timer >= 8192 {
            self.frame_seq_timer = 0;
            self.clock_frame_sequencer();
        }
    }

    fn step_sample_clock(&mut self)
        requires old(self).wf(),
        ensures final(self)@ == old(self)@.step_sample_clock(), final(self).wf(),
    {
        self.sample_timer += self.sample_rate;
        if self.sample_timer >= CPU_CLOCK {
            self.sample_timer -= CPU_CLOCK;
            let s = self.mix();
            self.samples.push(s);
        }
    }

    /// Advance the APU by the given number of T-cycles.
    pub fn tick(&mut self, cycles: u8)
        requires old(self).wf(),
        ensures final(self)@ == old(self)@.tick(cycles), final(self).wf(),
    {
        if !self.master_enabled || !self.has_output {
            return;
        }
        let ghost a0 = self@;
        for k in 0..cycles
            invariant
                self.wf(),
                a0.wf(),
                self@ == a0.run(k as nat),
        {
            self.cycle();
        }
    }
}

/// Whether an address is one of the APU's (0xFF10-0xFF3F).
pub open spec fn is_apu_addr(addr: u16) -> bool {
    0xFF10 <= addr <= 0xFF3F
}

/// The envelope register byte: initial volume, direction, pace.
pub open spec fn envelope_byte(initial: u8, up: bool, pace: u8) -> u8 {
    ((initial << 4u8) | (if up { 0x08u8 } else { 0u8 })) | pace
}

impl ApuView {
    /// What a read of APU register `addr` gives.
    pub open spec fn read(self, addr: u16) -> u8 {
        if addr == 0xFF10 {
            ((self.ch1.sweep_pace << 4u8) | (if self.ch1.sweep_dir { 0x08u8 } else { 0u8 })) | self.ch1.sweep_step
        } else if addr == 0xFF11 {
            self.ch1.duty << 6u8
        } else if addr == 0xFF12 {
            envelope_byte(self.ch1.volume_initial, self.ch1.volume_sweep_dir, self.ch1.volume_sweep_pace)
        } else if addr == 0xFF14 {
            if self.ch1.length_enabled { 0x40 } else { 0 }
        } else if addr == 0xFF16 {
            self.ch2.duty << 6u8
        } else if addr == 0xFF17 {
            envelope_byte(self.ch2.volume_initial, self.ch2.volume_sweep_dir, self.ch2.volume_sweep_pace)
        } else if addr == 0xFF19 {
            if self.ch2.length_enabled { 0x40 } else { 0 }
        } else if addr == 0xFF1A {
            if self.ch3.dac_enabled { 0x80 } else { 0 }
        } else if addr == 0xFF1C {
            self.ch3.volume_shift << 5u8
        } else if addr == 0xFF1E {
            if self.ch3.length_enabled { 0x40 } else { 0 }
        } else if addr == 0xFF21 {
            envelope_byte(self.ch4.volume_initial, self.ch4.volume_sweep_dir, self.ch4.volume_sweep_pace)
        } else if addr == 0xFF22 {
            ((self.ch4.clock_shift << 4u8) | (if self.ch4.width_mode { 0x08u8 } else { 0u8 })) | self.ch4.divisor_code
        } else if addr == 0xFF23 {
            if self.ch4.length_enabled { 0x40 } else { 0 }
        } else if addr == 0xFF24 {
            (self.left_volume << 4u8) | self.right_volume
        } else if addr == 0xFF25 {
            self.panning
        } else if addr == 0xFF26 {
            (((((if self.master_enabled { 0x80u8 } else { 0u8 })
                | (if self.ch1.enabled { 0x01u8 } else { 0u8 }))
                | (if self.ch2.enabled { 0x02u8 } else { 0u8 }))
                | (if self.ch3.enabled { 0x04u8 } else { 0u8 }))
                | (if self.ch4.enabled { 0x08u8 } else { 0u8 }))
        } else if 0xFF30 <= addr <= 0xFF3F {
            self.ch3.wave_ram[addr - 0xFF30]
        } else {
            0xFF
        }
    }

    /// A pulse channel after a write to its length/duty register.
    pub open spec fn pulse_length_duty(c: PulseChannel, byte: u8) -> PulseChannel {
        PulseChannel { duty: (byte >> 6u8) & 0x03, length_timer: (64 - (byte & 0x3F)) as u8, ..c }
    }

    /// A pulse channel after a write to its envelope register; a zero DAC
    /// (upper five bits clear) disables the channel.
    pub open spec fn pulse_envelope(c: PulseChannel, byte: u8) -> PulseChannel {
        PulseChannel {
            volume_initial: byte >> 4u8,
            volume_sweep_dir: byte & 0x08 != 0,
            volume_sweep_pace: byte & 0x07,
            enabled: c.enabled && byte & 0xF8 != 0,
            ..c
        }
    }

    /// A pulse channel after a write to its frequency-high/control register.
    pub open spec fn pulse_control(c: PulseChannel, byte: u8) -> PulseChannel {
        let c1 = PulseChannel {
            frequency: (c.frequency & 0xFF) | (((byte & 0x07) as u16) << 8u16),
            length_enabled: byte & 0x40 != 0,
            ..c
        };
        if byte & 0x80 != 0 { c1.spec_trigger() } else { c1 }
    }

    /// Pulse channel 1 after a write to its register `addr` (0xFF10-0xFF14).
    pub open spec fn ch1_write(c: PulseChannel, addr: u16, byte: u8) -> PulseChannel {
        if addr == 0xFF10 {
            PulseChannel { sweep_pace: (byte >> 4u8) & 0x07, sweep_dir: byte & 0x08 != 0, sweep_step: byte & 0x07, ..c }
        } else if addr == 0xFF11 {
            Self::pulse_length_duty(c, byte)
        } else if addr == 0xFF12 {
            Self::pulse_envelope(c, byte)
        } else if addr == 0xFF13 {
            PulseChannel { frequency: (c.frequency & 0x700) | byte as u16, ..c }
        } else if addr == 0xFF14 {
            Self::pulse_control(c, byte)
        } else {
            c
        }
    }

    /// Pulse channel 2 after a write to its register `addr` (0xFF16-0xFF19).
    pub open spec fn ch2_write(c: PulseChannel, addr: u16, byte: u8) -> PulseChannel {
        if addr == 0xFF16 {
            Self::pulse_length_duty(c, byte)
        } else if addr == 0xFF17 {
            Self::pulse_envelope(c, byte)
        } else if addr == 0xFF18 {
            PulseChannel { frequency: (c.frequency & 0x700) | byte as u16, ..c }
        } else if addr == 0xFF19 {
            Self::pulse_control(c, byte)
        } else {
            c
        }
    }

    /// The wave channel after a write to its register `addr` (0xFF1A-0xFF1E) or
    /// to wave RAM (0xFF30-0xFF3F).
    pub open spec fn ch3_write(c: WaveView, addr: u16, byte: u8) -> WaveView {
        if addr == 0xFF1A {
            let dac = byte & 0x80 != 0;
            WaveView { dac_enabled: dac, enabled: c.enabled && dac, ..c }
        } else if addr == 0xFF1B {
            WaveView { length_timer: (256 - byte) as u16, ..c }
        } else if addr == 0xFF1C {
            WaveView { volume_shift: (byte >> 5u8) & 0x03, ..c }
        } else if addr == 0xFF1D {
            WaveView { frequency: (c.frequency & 0x700) | byte as u16, ..c }
        } else if addr == 0xFF1E {
            let c1 = WaveView {
                frequency: (c.frequency & 0xFF) | (((byte & 0x07) as u16) << 8u16),
                length_enabled: byte & 0x40 != 0,
                ..c
            };
            if byte & 0x80 != 0 { c1.spec_trigger() } else { c1 }
        } else if 0xFF30 <= addr <= 0xFF3F {
            WaveView { wave_ram: c.wave_ram.update(addr - 0xFF30, byte), ..c }
        } else {
            c
        }
    }

    /// The noise channel after a write to its register `addr` (0xFF20-0xFF23).
    pub open spec fn ch4_write(c: NoiseChannel, addr: u16, byte: u8) -> NoiseChannel {
        if addr == 0xFF20 {
            NoiseChannel { length_timer: (64 - (byte & 0x3F)) as u8, ..c }
        } else if addr == 0xFF21 {
            NoiseChannel {
                volume_initial: byte >> 4u8,
                volume_sweep_dir: byte & 0x08 != 0,
                volume_sweep_pace: byte & 0x07,
                enabled: c.enabled && byte & 0xF8 != 0,
                ..c
            }
        } else if addr == 0xFF22 {
            NoiseChannel { clock_shift: byte >> 4u8, width_mode: byte & 0x08 != 0, divisor_code: byte & 0x07, ..c }
        } else if addr == 0xFF23 {
            let c1 = NoiseChannel { length_enabled: byte & 0x40 != 0, ..c };
            if byte & 0x80 != 0 { c1.spec_trigger() } else { c1 }
        } else {
            c
        }
    }

    /// The APU after a write to a master control register (0xFF24-0xFF26).
    /// Switching the APU off stops all channels.
    pub open spec fn control_write(self, addr: u16, byte: u8) -> ApuView {
        if addr == 0xFF24 {
            ApuView { left_volume: (byte >> 4u8) & 0x07, right_volume: byte & 0x07, ..self }
        } else if addr == 0xFF25 {
            ApuView { panning: byte, ..self }
        } else if addr == 0xFF26 {
            if byte & 0x80 != 0 {
                ApuView { master_enabled: true, ..self }
            } else {
                ApuView {
                    master_enabled: false,
                    ch1: PulseChannel { enabled: false, ..self.ch1 },
                    ch2: PulseChannel { enabled: false, ..self.ch2 },
                    ch3: WaveView { enabled: false, ..self.ch3 },
                    ch4: NoiseChannel { enabled: false, ..self.ch4 },
                    ..self
                }
            }
        } else {
            self
        }
    }

    /// The APU after a write of `byte` to register `addr`.
    pub open spec fn write(self, addr: u16, byte: u8) -> ApuView {
        if 0xFF10 <= addr <= 0xFF14 {
            ApuView { ch1: Self::ch1_write(self.ch1, addr, byte), ..self }
        } else if 0xFF16 <= addr <= 0xFF19 {
            ApuView { ch2: Self::ch2_write(self.ch2, addr, byte), ..self }
        } else if (0xFF1A <= addr <= 0xFF1E) || (0xFF30 <= addr <= 0xFF3F) {
            ApuView { ch3: Self::ch3_write(self.ch3, addr, byte), ..self }
        } else if 0xFF20 <= addr <= 0xFF23 {
            ApuView { ch4: Self::ch4_write(self.ch4, addr, byte), ..self }
        } else if 0xFF24 <= addr <= 0xFF26 {
            self.control_write(addr, byte)
        } else {
            self
        }
    }
}

/// The register fields that writes extract stay in their ranges.
proof fn lemma_register_fields(byte: u8, f: u16) by (bit_vector)
    ensures
        byte >> 4u8 <= 15u8,
        (byte >> 4u8) & 0x07u8 <= 7u8,
        byte & 0x07u8 <= 7u8,
        (byte >> 6u8) & 0x03u8 <= 3u8,
        (byte >> 5u8) & 0x03u8 <= 3u8,
        byte & 0x3Fu8 <= 63u8,
        (f & 0x700u16) | byte as u16 <= 2047u16,
        f <= 2047u16 ==> (f & 0xFFu16) | (((byte & 0x07u8) as u16) << 8u16) <= 2047u16,
{
}

impl Apu {
    fn write_length_duty(c: &mut PulseChannel, byte: u8)
        requires old(c).wf(),
        ensures *final(c) == ApuView::pulse_length_duty(*old(c), byte), final(c).wf(),
    {
        proof { lemma_register_fields(byte, 0); }
        c.duty = (byte >> 6u8) & 0x03;
        c.length_timer = 64 - (byte & 0x3F);
    }

    fn write_envelope(c: &mut PulseChannel, byte: u8)
        requires old(c).wf(),
        ensures *final(c) == ApuView::pulse_envelope(*old(c), byte), final(c).wf(),
    {
        proof { lemma_register_fields(byte, 0); }
        c.volume_initial = byte >> 4u8;
        c.volume_sweep_dir = byte & 0x08 != 0;
        c.volume_sweep_pace = byte & 0x07;
        if byte & 0xF8 == 0 {
            c.enabled = false;
        }
    }

    fn write_control(c: &mut PulseChannel, byte: u8)
        requires old(c).wf(),
        ensures *final(c) == ApuView::pulse_control(*old(c), byte), final(c).wf(),
    {
        proof { lemma_register_fields(byte, c.frequency); }
        c.frequency = (c.frequency & 0xFF) | (((byte & 0x07) as u16) << 8u16);
        c.length_enabled = byte & 0x40 != 0;
        if byte & 0x80 != 0 {
            c.trigger();
        }
    }

    /// Read an APU register.
    pub fn read(&self, addr: u16) -> (r: u8)
        requires self.wf(),
        ensures r == self@.read(addr),
    {
        match addr {
            0xFF10 => ((self.ch1.sweep_pace << 4u8) | (if self.ch1.sweep_dir { 0x08u8 } else { 0u8 })) | self.ch1.sweep_step,
            0xFF11 => self.ch1.duty << 6u8,
            0xFF12 => ((self.ch1.volume_initial << 4u8) | (if self.ch1.volume_sweep_dir { 0x08u8 } else { 0u8 })) | self.ch1.volume_sweep_pace,
            0xFF14 => if self.ch1.length_enabled { 0x40 } else { 0 },
            0xFF16 => self.ch2.duty << 6u8,
            0xFF17 => ((self.ch2.volume_initial << 4u8) | (if self.ch2.volume_sweep_dir { 0x08u8 } else { 0u8 })) | self.ch2.volume_sweep_pace,
            0xFF19 => if self.ch2.length_enabled { 0x40 } else { 0 },
            0xFF1A => if self.ch3.dac_enabled { 0x80 } else { 0 },
            0xFF1C => self.ch3.volume_shift << 5u8,
            0xFF1E => if self.ch3.length_enabled { 0x40 } else { 0 },
            0xFF21 => ((self.ch4.volume_initial << 4u8) | (if self.ch4.volume_sweep_dir { 0x08u8 } else { 0u8 })) | self.ch4.volume_sweep_pace,
            0xFF22 => ((self.ch4.clock_shift << 4u8) | (if self.ch4.width_mode { 0x08u8 } else { 0u8 })) | self.ch4.divisor_code,
            0xFF23 => if self.ch4.length_enabled { 0x40 } else { 0 },
            0xFF24 => (self.left_volume << 4u8) | self.right_volume,
            0xFF25 => self.panning,
            0xFF26 => {
                let mut val: u8 = if self.master_enabled { 0x80 } else { 0 };
                val = val | (if self.ch1.enabled { 0x01u8 } else { 0u8 });
                val = val | (if self.ch2.enabled { 0x02u8 } else { 0u8 });
                val = val | (if self.ch3.enabled { 0x04u8 } else { 0u8 });
                val = val | (if self.ch4.enabled { 0x08u8 } else { 0u8 });
                val
            }
            0xFF30..=0xFF3F => self.ch3.wave_ram[(addr - 0xFF30) as usize],
            _ => 0xFF,
        }
    }

    /// Write an APU register.
    pub fn write(&mut self, addr: u16, byte: u8)
        requires old(self).wf(),
        ensures final(self)@ == old(self)@.write(addr, byte), final(self).wf(),
    {
        if 0xFF10 <= addr && addr <= 0xFF14 {
            Self::write_ch1(&mut self.ch1, addr, byte);
        } else if 0xFF16 <= addr && addr <= 0xFF19 {
            Self::write_ch2(&mut self.ch2, addr, byte);
        } else if (0xFF1A <= addr && addr <= 0xFF1E) || (0xFF30 <= addr && addr <= 0xFF3F) {
            self.ch3.write(addr, byte);
        } else if 0xFF20 <= addr && addr <= 0xFF23 {
            Self::write_ch4(&mut self.ch4, addr, byte);
        } else if 0xFF24 <= addr && addr <= 0xFF26 {
            self.write_control_reg(addr, byte);
        }
    }

    fn write_ch1(c: &mut PulseChannel, addr: u16, byte: u8)
        requires old(c).wf(),
        ensures *final(c) == ApuView::ch1_write(*old(c), addr, byte), final(c).wf(),
    {
        proof { lemma_register_fields(byte, c.frequency); }
        match addr {
            0xFF10 => {
                c.sweep_pace = (byte >> 4u8) & 0x07;
                c.sweep_dir = byte & 0x08 != 0;
                c.sweep_step = byte & 0x07;
            }
            0xFF11 => Self::write_length_duty(c, byte),
            0xFF12 => Self::write_envelope(c, byte),
            0xFF13 => c.frequency = (c.frequency & 0x700) | byte as u16,
            0xFF14 => Self::write_control(c, byte),
            _ => {},
        }
    }

    fn write_ch2(c: &mut PulseChannel, addr: u16, byte: u8)
        requires old(c).wf(),
        ensures *final(c) == ApuView::ch2_write(*old(c), addr, byte), final(c).wf(),
    {
        proof { lemma_register_fields(byte, c.frequency); }
        match addr {
            0xFF16 => Self::write_length_duty(c, byte),
            0xFF17 => Self::write_envelope(c, byte),
            0xFF18 => c.frequency = (c.frequency & 0x700) | byte as u16,
            0xFF19 => Self::write_control(c, byte),
            _ => {},
        }
    }

    fn write_ch4(c: &mut NoiseChannel, addr: u16, byte: u8)
        requires old(c).wf(),
        ensures *final(c) == ApuView::ch4_write(*old(c), addr, byte), final(c).wf(),
    {
        proof { lemma_register_fields(byte, 0); }
        match addr {
            0xFF20 => c.length_timer = 64 - (byte & 0x3F),
            0xFF21 => {
                c.volume_initial = byte >> 4u8;
                c.volume_sweep_dir = byte & 0x08 != 0;
                c.volume_sweep_pace = byte & 0x07;
                if byte & 0xF8 == 0 {
                    c.enabled = false;
                }
            }
            0xFF22 => {
                c.clock_shift = byte >> 4u8;
                c.width_mode = byte & 0x08 != 0;
                c.divisor_code = byte & 0x07;
            }
            0xFF23 => {
                c.length_enabled = byte & 0x40 != 0;
                if byte & 0x80 != 0 {
                    c.trigger();
                }
            }
            _ => {},
        }
    }

    fn write_control_reg(&mut self, addr: u16, byte: u8)
        requires old(self).wf(),
        ensures final(self)@ == old(self)@.control_write(addr, byte), final(self).wf(),
    {
        match addr {
            0xFF24 => {
                proof { lemma_register_fields(byte, 0); }
                let lv = (byte >> 4u8) & 0x07;
                let rv = byte & 0x07;
                self.left_volume = lv;
                self.right_volume = rv;
            }
            0xFF25 => self.panning = byte,
            0xFF26 => {
                if byte & 0x80 != 0 {
                    self.master_enabled = true;
                } else {
                    self.power_off();
                }
            }
            _ => {},
        }
    }

    /// Switch the APU off: all channels stop.
    fn power_off(&mut self)
        requires old(self).wf(),
        ensures
            final(self).wf(),
            final(self)@ == (ApuView {
                master_enabled: false,
                ch1: PulseChannel { enabled: false, ..old(self)@.ch1 },
                ch2: PulseChannel { enabled: false, ..old(self)@.ch2 },
                ch3: WaveView { enabled: false, ..old(self)@.ch3 },
                ch4: NoiseChannel { enabled: false, ..old(self)@.ch4 },
                ..old(self)@
            }),
    {
        self.master_enabled = false;
        self.ch1.enabled = false;
        self.ch2.enabled = false;
        self.ch3.enabled = false;
        self.ch4.enabled = false;
    }
}

impl WaveChannel {
    /// Write a wave channel register or a byte of wave RAM.
    fn write(&mut self, addr: u16, byte: u8)
        requires old(self)@.wf(),
        ensures final(self)@ == ApuView::ch3_write(old(self)@, addr, byte), final(self)@.wf(),
    {
        proof { lemma_register_fields(byte, self.frequency); }
        match addr {
            0xFF1A => {
                self.dac_enabled = byte & 0x80 != 0;
                if !self.dac_enabled {
                    self.enabled = false;
                }
            }
            0xFF1B => self.length_timer = 256 - byte as u16,
            0xFF1C => self.volume_shift = (byte >> 5u8) & 0x03,
            0xFF1D => self.frequency = (self.frequency & 0x700) | byte as u16,
            0xFF1E => {
                self.frequency = (self.frequency & 0xFF) | (((byte & 0x07) as u16) << 8u16);
                self.length_enabled = byte & 0x40 != 0;
                if byte & 0x80 != 0 {
                    self.trigger();
                }
            }
            0xFF30..=0xFF3F => self.wave_ram.set((addr - 0xFF30) as usize, byte),
            _ => {},
        }
    }

}

} // verus!
