use vstd::prelude::*;

verus! {

/// An 11-bit down-counter that emits a pulse each time it wraps from
/// zero back to its programmed period.
pub struct Timer {
    pub period: u16,
    pub cur: u16,
}

impl Timer {
    pub fn new() -> (r: Timer)
        ensures
            r.period == 0,
            r.cur == 0,
    {
        Timer { period: 0x0000, cur: 0x0000 }
    }

    pub fn set_period(&mut self, period: u16)
        ensures
            final(self).period == period & 0x7ff,
            final(self).cur == period & 0x7ff,
    {
        self.period = period & 0x7ff;
        self.cur = self.period;
    }

    pub fn set_period_hi(&mut self, period_hi: u8)
        ensures
            final(self).period == (old(self).period & 0x00ff) | ((period_hi as u16 & 0x0007) << 8),
            final(self).cur == final(self).period,
    {
        self.period = (self.period & 0x00ff) | ((period_hi as u16 & 0x0007) << 8);
        self.cur = self.period;
    }

    pub fn set_period_lo(&mut self, period_lo: u8)
        ensures
            final(self).period == (old(self).period & 0x0700) | (period_lo as u16 & 0x00ff),
            final(self).cur == final(self).period,
    {
        self.period = (self.period & 0x0700) | (period_lo as u16 & 0x00ff);
        self.cur = self.period;
    }

    /// Count down one step; true exactly when the counter wrapped.
    pub fn clock(&mut self) -> (wrapped: bool)
        ensures
            wrapped == (old(self).cur == 0),
            final(self).cur == (if old(self).cur == 0 { old(self).period } else { (old(self).cur - 1) as u16 }),
            final(self).period == old(self).period,
    {
        if self.cur == 0 {
            self.cur = self.period;
            true
        } else {
            self.cur -= 1;
            false
        }
    }

    /// An ultrasonic period mutes the channel.
    pub fn is_muted(&self) -> (r: bool)
        ensures
            r == (self.period < 8),
    {
        self.period < 8
    }
}

/// Value of the length table at a 5-bit index.
pub open spec fn length_table(i: int) -> u8 {
    if i == 0 { 10 } else if i == 1 { 254 } else if i == 2 { 20 } else if i == 3 { 2 } else if i == 4 { 40 } else if i == 5 { 4 } else if i == 6 { 80 } else if i == 7 { 6 } else if i == 8 { 160 } else if i == 9 { 8 } else if i == 10 { 60 } else if i == 11 { 10 } else if i == 12 { 14 } else if i == 13 { 12 } else if i == 14 { 26 } else if i == 15 { 14 } else if i == 16 { 12 } else if i == 17 { 16 } else if i == 18 { 24 } else if i == 19 { 18 } else if i == 20 { 48 } else if i == 21 { 20 } else if i == 22 { 96 } else if i == 23 { 22 } else if i == 24 { 192 } else if i == 25 { 24 } else if i == 26 { 72 } else if i == 27 { 26 } else if i == 28 { 16 } else if i == 29 { 28 } else if i == 30 { 32 } else if i == 31 { 30 } else { 0 }
}

/// Look the length table up at `i & 0x1f`.
pub fn length_table_lookup(i: usize) -> (r: u8)
    ensures
        r == length_table((i % 32) as int),
{
    match i % 32 {
        0 => 10, 1 => 254, 2 => 20, 3 => 2, 4 => 40, 5 => 4, 6 => 80, 7 => 6,
        8 => 160, 9 => 8, 10 => 60, 11 => 10, 12 => 14, 13 => 12, 14 => 26, 15 => 14,
        16 => 12, 17 => 16, 18 => 24, 19 => 18, 20 => 48, 21 => 20, 22 => 96, 23 => 22,
        24 => 192, 25 => 24, 26 => 72, 27 => 26, 28 => 16, 29 => 28, 30 => 32, _ => 30,
    }
}

/// Per-channel length counter: while enabled it is loaded from the
/// length table and counts down on half-frame ticks; at zero it mutes
/// the channel.
pub struct LengthCounter {
    pub counter: u8,
    pub halt: bool,
    pub enable: bool,
}

impl LengthCounter {
    pub fn new() -> (r: LengthCounter)
        ensures
            r.counter == length_table(0),
            !r.halt,
            !r.enable,
    {
        LengthCounter { counter: length_table_lookup(0), halt: false, enable: false }
    }

    /// Reload from the length table, but only while enabled.
    pub fn set_counter(&mut self, table_idx: usize)
        ensures
            final(self).counter == (if old(self).enable { length_table((table_idx % 32) as int) } else { old(self).counter }),
            final(self).halt == old(self).halt,
            final(self).enable == old(self).enable,
    {
        if self.enable {
            self.counter = length_table_lookup(table_idx);
        }
    }

    pub fn get_enable(&self) -> (r: bool)
        ensures
            r == self.enable,
    {
        self.enable
    }

    /// Enabling leaves the count alone; disabling zeroes it.
    pub fn set_enable(&mut self, enable: bool)
        ensures
            final(self).enable == enable,
            final(self).counter == (if enable { old(self).counter } else { 0u8 }),
            final(self).halt == old(self).halt,
    {
        if enable {
            self.enable = true;
        } else {
            self.enable = false;
            self.counter = 0;
        }
    }

    pub fn clock_half_frame(&mut self)
        ensures
            final(self).counter == (if old(self).counter > 0 && !old(self).halt { (old(self).counter - 1) as u8 } else { old(self).counter }),
            final(self).halt == old(self).halt,
            final(self).enable == old(self).enable,
    {
        if self.counter > 0 && !self.halt {
            self.counter -= 1;
        }
    }

    pub fn is_muted(&self) -> (r: bool)
        ensures
            r == (self.counter == 0),
    {
        self.counter == 0
    }
}

/// The duty pattern selected by a 2-bit index.
pub open spec fn duty_sequence(i: int) -> u8 {
    if i == 0 { 0b01000000 } else if i == 1 { 0b01100000 } else if i == 2 { 0b01111000 } else if i == 3 { 0b10011111 } else { 0 }
}

/// Rotate an 8-bit value right by `n` places.
pub open spec fn spec_rotr8(x: u8, n: u32) -> u8 {
    if n % 8 == 0 {
        x
    } else {
        ((x >> (n % 8)) | (x << ((8 - n % 8) as u32))) as u8
    }
}

/// Rotate an 8-bit value left by `n` places.
pub open spec fn spec_rotl8(x: u8, n: u32) -> u8 {
    spec_rotr8(x, (((8 - n % 8) % 8) as u32))
}

pub fn rotr8(x: u8, n: u32) -> (r: u8)
    ensures
        r == spec_rotr8(x, n),
{
    let m: u32 = n % 8;
    if m == 0 {
        x
    } else {
        (x >> m) | (x << (8 - m))
    }
}

pub fn rotl8(x: u8, n: u32) -> (r: u8)
    ensures
        r == spec_rotl8(x, n),
{
    rotr8(x, (8 - n % 8) % 8)
}

/// Eight-step duty sequencer of a pulse channel.  The duty byte is kept
/// rotated so that bit 0 is the step now playing; `pos` tracks how far
/// it has been rotated from the pattern's start.
pub struct Sequencer {
    pub seq: u8,
    pub pos: u32,
}

impl Sequencer {
    pub fn new() -> (r: Sequencer)
        ensures
            r.seq == duty_sequence(0),
            r.pos == 0,
    {
        Sequencer { seq: 0b01000000, pos: 0 }
    }

    /// Rewind to the start of the pattern.
    pub fn restart(&mut self)
        ensures
            final(self).seq == spec_rotl8(old(self).seq, old(self).pos),
            final(self).pos == 0,
    {
        self.seq = rotl8(self.seq, self.pos);
        self.pos = 0;
    }

    /// Select a duty pattern, keeping the current step position.
    pub fn set_seq(&mut self, seq_idx: usize)
        ensures
            final(self).seq == spec_rotr8(duty_sequence((seq_idx % 4) as int), old(self).pos),
            final(self).pos == old(self).pos,
    {
        self.seq = match seq_idx % 4 {
            0 => 0b01000000,
            1 => 0b01100000,
            2 => 0b01111000,
            _ => 0b10011111,
        };
        self.seq = rotr8(self.seq, self.pos);
    }

    pub fn clock(&mut self)
        ensures
            final(self).seq == spec_rotr8(old(self).seq, 1),
            final(self).pos == (old(self).pos % 8 + 1) % 8,
    {
        self.seq = rotr8(self.seq, 1);
        self.pos = (self.pos % 8 + 1) % 8;
    }

    pub fn is_muted(&self) -> (r: bool)
        ensures
            r == (self.seq & 0x01 == 0),
    {
        self.seq & 0x01 == 0
    }
}

/// Volume envelope shared by the pulse and noise channels.
pub struct Envelope {
    pub flag_start: bool,
    pub flag_loop: bool,
    pub flag_const: bool,
    pub divider: u8,
    pub decay_level: u8,
    pub volume: u8,
}

impl Envelope {
    pub fn new() -> (r: Envelope)
        ensures
            !r.flag_start,
            !r.flag_loop,
            !r.flag_const,
            r.divider == 0,
            r.decay_level == 0,
            r.volume == 0,
    {
        Envelope {
            flag_start: false,
            flag_loop: false,
            flag_const: false,
            divider: 0x00,
            decay_level: 0x00,
            volume: 0x00,
        }
    }

    pub fn set_volume(&mut self, volume: u8)
        ensures
            final(self).volume == volume & 0x0f,
            final(self).flag_start == old(self).flag_start,
            final(self).flag_loop == old(self).flag_loop,
            final(self).flag_const == old(self).flag_const,
            final(self).divider == old(self).divider,
            final(self).decay_level == old(self).decay_level,
    {
        self.volume = volume & 0x0f;
    }

    /// Quarter-frame tick: restart reloads decay to 15; otherwise the
    /// divider counts down, reloading and stepping the decay level when
    /// it underflows (looping back to 15 when the loop flag is set).
    pub fn clock_quarter_frame(&mut self)
        ensures
            final(self).volume == old(self).volume,
            final(self).flag_loop == old(self).flag_loop,
            final(self).flag_const == old(self).flag_const,
            !final(self).flag_start,
            old(self).flag_start ==> final(self).decay_level == 15 && final(self).divider == old(self).volume,
            !old(self).flag_start && old(self).divider == 0 ==> {
                &&& final(self).divider == old(self).volume
                &&& final(self).decay_level == (if old(self).decay_level == 0 {
                    if old(self).flag_loop { 15u8 } else { 0u8 }
                } else {
                    (old(self).decay_level - 1) as u8
                })
            },
            !old(self).flag_start && old(self).divider != 0 ==> {
                &&& final(self).divider == old(self).divider - 1
                &&& final(self).decay_level == old(self).decay_level
            },
    {
        if self.flag_start {
            self.decay_level = 15;
            self.divider = self.volume;
            self.flag_start = false;
        } else if self.divider == 0 {
            self.divider = self.volume;

            if self.decay_level == 0 {
                if self.flag_loop {
                    self.decay_level = 15;
                }
            } else {
                self.decay_level -= 1;
            }
        } else {
            self.divider -= 1;
        }
    }

    pub fn output(&self) -> (r: u8)
        ensures
            r == (if self.flag_const { self.volume } else { self.decay_level }),
    {
        if self.flag_const {
            self.volume
        } else {
            self.decay_level
        }
    }
}

} // verus!
