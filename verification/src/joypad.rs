use vstd::prelude::*;

verus! {

/// Game Boy button identifiers.
#[derive(Debug, Clone, Copy, PartialEq, Eq, Structural)]
pub enum JoypadKey {
    Right,
    Left,
    Up,
    Down,
    A,
    B,
    Start,
    Select,
}

/// Whether the key belongs to the direction group (otherwise the action group).
pub open spec fn is_direction(k: JoypadKey) -> bool {
    k is Right || k is Left || k is Up || k is Down
}

/// The bit of its group that stands for the key.
pub open spec fn key_bit(k: JoypadKey) -> u8 {
    match k {
        JoypadKey::Right => 0,
        JoypadKey::Left => 1,
        JoypadKey::Up => 2,
        JoypadKey::Down => 3,
        JoypadKey::A => 0,
        JoypadKey::B => 1,
        JoypadKey::Select => 2,
        JoypadKey::Start => 3,
    }
}

/// `x` with bit `i` cleared.
pub open spec fn clear_bit(x: u8, i: u8) -> u8 {
    x & !(1u8 << i)
}

/// `x` with bit `i` set.
pub open spec fn mark_bit(x: u8, i: u8) -> u8 {
    x | (1u8 << i)
}

/// Joypad state. Tracks which buttons are pressed (active low).
#[derive(Clone, Copy, PartialEq, Eq, Structural)]
pub struct Joypad {
    select: u8,
    action: u8,
    direction: u8,
}

impl Joypad {
    pub closed spec fn spec_select(self) -> u8 { self.select }
    pub closed spec fn spec_action(self) -> u8 { self.action }
    pub closed spec fn spec_direction(self) -> u8 { self.direction }

    /// Button bits only in the low nibble of each group.
    pub open spec fn wf(self) -> bool {
        self.spec_action() < 16 && self.spec_direction() < 16
    }

    /// What a read of the joypad register gives.
    pub open spec fn spec_read(self) -> u8 {
        if self.spec_select() & 0x10 == 0 {
            self.spec_direction()
        } else if self.spec_select() & 0x20 == 0 {
            self.spec_action()
        } else {
            0x0F
        }
    }

    /// The joypad after a write of `byte` to its register.
    pub closed spec fn spec_written(self, byte: u8) -> Joypad {
        Joypad { select: byte & 0x30, ..self }
    }

    /// A write to the joypad register changes only the group selection.
    pub proof fn lemma_written(self, byte: u8)
        ensures
            self.spec_written(byte).spec_select() == byte & 0x30,
            self.spec_written(byte).spec_action() == self.spec_action(),
            self.spec_written(byte).spec_direction() == self.spec_direction(),
    {
    }

    /// Create a new joypad with all buttons released.
    pub fn new() -> (r: Self)
        ensures
            r.spec_select() == 0,
            r.spec_action() == 0x0F,
            r.spec_direction() == 0x0F,
    {
        Joypad { select: 0, action: 0x0F, direction: 0x0F }
    }

    /// Read the joypad register (0xFF00): button state for the selected group.
    pub fn read(&self) -> (r: u8)
        ensures r == self.spec_read(),
    {
        if self.select & 0x10 == 0 {
            return self.direction;
        }
        if self.select & 0x20 == 0 {
            return self.action;
        }
        0x0F
    }

    /// Write to the joypad register (0xFF00): select the button group to read.
    pub fn write(&mut self, byte: u8)
        ensures
            *final(self) == old(self).spec_written(byte),
            final(self).spec_select() == byte & 0x30,
            final(self).spec_action() == old(self).spec_action(),
            final(self).spec_direction() == old(self).spec_direction(),
    {
        self.select = byte & 0x30;
    }

    /// Release a button (set its bit high).
    pub fn key_up(&mut self, key: JoypadKey)
        ensures
            final(self).spec_select() == old(self).spec_select(),
            is_direction(key) ==> final(self).spec_direction() == mark_bit(old(self).spec_direction(), key_bit(key))
                && final(self).spec_action() == old(self).spec_action(),
            !is_direction(key) ==> final(self).spec_action() == mark_bit(old(self).spec_action(), key_bit(key))
                && final(self).spec_direction() == old(self).spec_direction(),
    {
        match key {
            JoypadKey::Right => self.direction = self.direction | (1u8 << 0u8),
            JoypadKey::Left => self.direction = self.direction | (1u8 << 1u8),
            JoypadKey::Up => self.direction = self.direction | (1u8 << 2u8),
            JoypadKey::Down => self.direction = self.direction | (1u8 << 3u8),
            JoypadKey::A => self.action = self.action | (1u8 << 0u8),
            JoypadKey::B => self.action = self.action | (1u8 << 1u8),
            JoypadKey::Select => self.action = self.action | (1u8 << 2u8),
            JoypadKey::Start => self.action = self.action | (1u8 << 3u8),
        }
    }

    /// Press a button (clear its bit low).
    pub fn key_down(&mut self, key: JoypadKey)
        ensures
            final(self).spec_select() == old(self).spec_select(),
            is_direction(key) ==> final(self).spec_direction() == clear_bit(old(self).spec_direction(), key_bit(key))
                && final(self).spec_action() == old(self).spec_action(),
            !is_direction(key) ==> final(self).spec_action() == clear_bit(old(self).spec_action(), key_bit(key))
                && final(self).spec_direction() == old(self).spec_direction(),
    {
        match key {
            JoypadKey::Right => self.direction = self.direction & !(1u8 << 0u8),
            JoypadKey::Left => self.direction = self.direction & !(1u8 << 1u8),
            JoypadKey::Up => self.direction = self.direction & !(1u8 << 2u8),
            JoypadKey::Down => self.direction = self.direction & !(1u8 << 3u8),
            JoypadKey::A => self.action = self.action & !(1u8 << 0u8),
            JoypadKey::B => self.action = self.action & !(1u8 << 1u8),
            JoypadKey::Select => self.action = self.action & !(1u8 << 2u8),
            JoypadKey::Start => self.action = self.action & !(1u8 << 3u8),
        }
    }

    /// Reset all buttons to the released state.
    pub fn reset(&mut self)
        ensures
            final(self).spec_select() == old(self).spec_select(),
            final(self).spec_action() == 0x0F,
            final(self).spec_direction() == 0x0F,
    {
        self.action = 0x0F;
        self.direction = 0x0F;
    }
}

/// Pressing a key clears exactly its bit and releasing it sets the bit again:
/// releasing after pressing restores the group, and both keep a group's value
/// in its low nibble.
pub proof fn lemma_press_release(x: u8, i: u8)
    requires i < 4,
    ensures
        clear_bit(x, i) & (1u8 << i) == 0,
        mark_bit(x, i) & (1u8 << i) != 0,
        x & (1u8 << i) != 0 ==> mark_bit(clear_bit(x, i), i) == x,
        x < 16 ==> clear_bit(x, i) < 16 && mark_bit(x, i) < 16,
{
    lemma_press_release_bv(x, i);
}

proof fn lemma_press_release_bv(x: u8, i: u8) by (bit_vector)
    requires i < 4u8,
    ensures
        x & !(1u8 << i) & (1u8 << i) == 0u8,
        (x | (1u8 << i)) & (1u8 << i) != 0u8,
        x & (1u8 << i) != 0u8 ==> (x & !(1u8 << i)) | (1u8 << i) == x,
        x < 16u8 ==> x & !(1u8 << i) < 16u8 && (x | (1u8 << i)) < 16u8,
{
}

/// The button layout of the joypad register: with all buttons released, a
/// pressed key reads as its group's nibble with one bit low: Right, Left, Up
/// and Down are bits 0-3 of the direction group (selected by bit 4 low), A,
/// B, Select and Start bits 0-3 of the action group (selected by bit 5 low).
pub proof fn lemma_key_layout(k: JoypadKey)
    ensures
        clear_bit(0x0F, key_bit(k)) == (match k {
            JoypadKey::Right => 0x0Eu8, JoypadKey::Left => 0x0Du8, JoypadKey::Up => 0x0Bu8, JoypadKey::Down => 0x07u8,
            JoypadKey::A => 0x0Eu8, JoypadKey::B => 0x0Du8, JoypadKey::Select => 0x0Bu8, JoypadKey::Start => 0x07u8,
        }),
        is_direction(k) <==> (k == JoypadKey::Right || k == JoypadKey::Left || k == JoypadKey::Up || k == JoypadKey::Down),
{
    lemma_nibble_bits();
}

proof fn lemma_nibble_bits() by (bit_vector)
    ensures
        0x0Fu8 & !(1u8 << 0u8) == 0x0Eu8,
        0x0Fu8 & !(1u8 << 1u8) == 0x0Du8,
        0x0Fu8 & !(1u8 << 2u8) == 0x0Bu8,
        0x0Fu8 & !(1u8 << 3u8) == 0x07u8,
{
}

} // verus!
