use vstd::prelude::*;

verus! {

/// Game Boy timer. Tracks DIV (free-running counter) and TIMA (configurable timer).
#[derive(Clone, Copy, PartialEq, Eq, Structural)]
pub struct Timer {
    /// Internal 16-bit counter. Upper 8 bits are exposed as DIV (0xFF04).
    pub counter: u16,
    /// Timer counter. Increments at the rate set by TAC; overflow triggers an interrupt.
    pub tima: u8,
    /// Timer modulo. TIMA reloads to this value on overflow.
    pub tma: u8,
    /// Timer control. Bit 2 = enable, bits 1-0 = clock select.
    pub tac: u8,
}

/// The number of T-cycles between two TIMA increments for the clock select in `tac`.
pub open spec fn timer_period(tac: u8) -> u16 {
    let sel = tac % 4;
    if sel == 0 { 1024 } else if sel == 1 { 16 } else if sel == 2 { 64 } else { 256 }
}

/// Whether bit 2 of TAC (timer enable) is set.
pub open spec fn timer_enabled(tac: u8) -> bool {
    tac & 4u8 != 0
}

/// TIMA after `k` increments, each from 255 reloading from TMA instead, and
/// whether at least one such reload (an overflow) happened.
pub open spec fn tima_run(tima: u8, tma: u8, k: nat) -> (u8, bool)
    decreases k,
{
    if k == 0 {
        (tima, false)
    } else {
        let (t1, overflowed) = tima_run(tima, tma, (k - 1) as nat);
        if t1 == 255 { (tma, true) } else { ((t1 + 1) as u8, overflowed) }
    }
}

/// How many multiples of `period` lie in (counter, counter + cycles].
pub open spec fn periods_crossed(counter: u16, cycles: u8, period: u16) -> nat {
    ((counter + cycles) / (period as int) - (counter as int) / (period as int)) as nat
}

/// The timer after `cycles` T-cycles, and whether TIMA overflowed.
/// DIV always advances (modulo 2^16). When the timer is enabled, TIMA
/// advances once for every multiple of the period that the counter passes;
/// an increment from 255 reloads TMA and fires the interrupt.
pub open spec fn timer_tick(t: Timer, cycles: u8) -> (Timer, bool) {
    let counter = ((t.counter + cycles) % 65536) as u16;
    if !timer_enabled(t.tac) {
        (Timer { counter, ..t }, false)
    } else {
        let k = periods_crossed(t.counter, cycles, timer_period(t.tac));
        let (tima, overflowed) = tima_run(t.tima, t.tma, k);
        (Timer { counter, tima, ..t }, overflowed)
    }
}

impl Timer {
    /// Create a new timer in its initial state.
    pub fn new() -> (r: Self)
        ensures r == (Timer { counter: 0, tima: 0, tma: 0, tac: 0 }),
    {
        Timer { counter: 0, tima: 0, tma: 0, tac: 0 }
    }

    /// Advance the timer by the given number of T-cycles.
    /// Returns true if TIMA overflowed (timer interrupt should fire).
    pub fn tick(&mut self, cycles: u8) -> (r: bool)
        ensures (*final(self), r) == timer_tick(*old(self), cycles),
    {
        let old_counter = self.counter;
        self.counter = self.counter.wrapping_add(cycles as u16);
        if self.tac & 4 == 0 {
            return false;
        }
        let threshold = self.get_cycle_increment() as u32;
        let total: u32 = old_counter as u32 + cycles as u32;
        proof {
            let p = threshold as int;
            let c0 = old_counter as int;
            assert(c0 / p <= (c0 + cycles) / p) by (nonlinear_arith)
                requires p > 0, cycles >= 0;
        }
        let k: u32 = total / threshold - old_counter as u32 / threshold;
        assert(k as nat == periods_crossed(old_counter, cycles, timer_period(self.tac)));
        let tma = self.tma;
        let ghost tima0 = self.tima;
        let ghost counter1 = self.counter;
        let ghost tac = self.tac;
        let mut overflowed = false;
        let mut i: u32 = 0;
        while i < k
            invariant
                i <= k,
                self.tma == tma,
                self.counter == counter1,
                self.tac == tac,
                (self.tima, overflowed) == tima_run(tima0, tma, i as nat),
            decreases k - i,
        {
            if self.tima == 255 {
                self.tima = self.tma;
                overflowed = true;
            } else {
                self.tima = self.tima + 1;
            }
            i = i + 1;
        }
        overflowed
    }

    /// The TIMA increment period in T-cycles for the current TAC clock select.
    fn get_cycle_increment(&self) -> (r: u16)
        ensures r == timer_period(self.tac),
    {
        let clock_select = self.tac % 4;
        match clock_select {
            0 => 256 * 4,
            1 => 4 * 4,
            2 => 16 * 4,
            _ => 64 * 4,
        }
    }
}

/// `k` increments from `tima` without reaching past 255 add `k`; once
/// `tima + k` reaches 256 an overflow has happened.
proof fn lemma_tima_run(tima: u8, tma: u8, k: nat)
    ensures
        tima + k <= 255 ==> tima_run(tima, tma, k) == ((tima + k) as u8, false),
        tima + k >= 256 ==> tima_run(tima, tma, k).1,
    decreases k,
{
    if k > 0 {
        lemma_tima_run(tima, tma, (k - 1) as nat);
    }
}

/// TIMA counts at the rate TAC selects: clock select 0, 1, 2 and 3 give one
/// increment every 1024, 16, 64 and 256 T-cycles, one for each such multiple
/// the counter passes, and only while TAC bit 2 is set. The interrupt fires
/// exactly when the increments carry TIMA past 255. The counter always
/// advances by the cycles (wrapping), and TMA and TAC are kept.
pub proof fn lemma_timer_rate(t: Timer, cycles: u8)
    ensures
        ({
            let (t2, irq) = timer_tick(t, cycles);
            let period: int = if t.tac % 4 == 0 { 1024 } else if t.tac % 4 == 1 { 16 } else if t.tac % 4 == 2 { 64 } else { 256 };
            let k: int = (t.counter + cycles) / period - (t.counter as int) / period;
            let enabled = t.tac & 4 != 0;
            &&& t2.counter == (t.counter + cycles) % 65536
            &&& t2.tma == t.tma && t2.tac == t.tac
            &&& !enabled ==> t2.tima == t.tima && !irq
            &&& enabled && t.tima + k <= 255 ==> t2.tima == t.tima + k && !irq
            &&& enabled && t.tima + k >= 256 ==> irq
        }),
{
    let period: int = if t.tac % 4 == 0 { 1024 } else if t.tac % 4 == 1 { 16 } else if t.tac % 4 == 2 { 64 } else { 256 };
    assert(timer_period(t.tac) as int == period);
    let c = t.counter as int;
    assert(c / period <= (c + cycles) / period) by (nonlinear_arith)
        requires period > 0, cycles >= 0;
    let k = periods_crossed(t.counter, cycles, timer_period(t.tac));
    assert(k as int == (c + cycles) / period - c / period);
    lemma_tima_run(t.tima, t.tma, k);
}

} // verus!
