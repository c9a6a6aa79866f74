use vstd::prelude::*;
use crate::apu::misc::{Envelope, LengthCounter, Timer, length_table};

verus! {

/// Timer period selected by the 4-bit index written to the noise
/// period register.
pub open spec fn noise_period(i: int) -> u16 {
    if i == 0 { 4 } else if i == 1 { 8 } else if i == 2 { 16 } else if i == 3 { 32 } else if i == 4 { 64 } else if i == 5 { 96 } else if i == 6 { 128 } else if i == 7 { 160 } else if i == 8 { 202 } else if i == 9 { 254 } else if i == 10 { 380 } else if i == 11 { 508 } else if i == 12 { 762 } else if i == 13 { 1016 } else if i == 14 { 2034 } else if i == 15 { 4068 } else { 0 }
}

pub fn noise_period_lookup(i: u8) -> (r: u16)
    ensures
        r == noise_period((i % 16) as int),
{
    match i % 16 {
        0 => 4, 1 => 8, 2 => 16, 3 => 32, 4 => 64, 5 => 96, 6 => 128, 7 => 160,
        8 => 202, 9 => 254, 10 => 380, 11 => 508, 12 => 762, 13 => 1016, 14 => 2034, _ => 4068,
    }
}

/// Successor of the 15-bit noise shift register.  In short mode
/// (`mode` set) the feedback taps bits 0 and 6, in long mode bits 0
/// and 1; the feedback bit re-enters at bit 14.
pub open spec fn lfsr_next(reg: u16, mode: bool) -> u16 {
    ((reg >> 1) | ((if mode {
        (reg & 0x0001) ^ ((reg >> 6) & 0x0001)
    } else {
        (reg & 0x0001) ^ ((reg >> 1) & 0x0001)
    }) << 14)) & 0x7fff
}

/// A nonzero 15-bit state never clocks to zero, in either feedback
/// mode: the all-zero state is unreachable from the reset state.
pub proof fn lemma_lfsr_step_nonzero(reg: u16, mode: bool)
    by (bit_vector)
    requires
        reg != 0,
        reg < 0x8000,
    ensures
        lfsr_next(reg, mode) != 0,
        lfsr_next(reg, mode) < 0x8000,
{
}

/// Clocking is injective on 15-bit states: distinct states stay
/// distinct, so the register walks a cycle through its orbit.
pub proof fn lemma_lfsr_step_injective(a: u16, b: u16, mode: bool)
    by (bit_vector)
    requires
        a < 0x8000,
        b < 0x8000,
        lfsr_next(a, mode) == lfsr_next(b, mode),
    ensures
        a == b,
{
}

/// The 15-bit linear-feedback shift register of the noise channel.
pub struct ShiftReg {
    pub reg: u16,
    pub flag_mode: bool,
}

impl ShiftReg {
    pub fn new() -> (r: ShiftReg)
        ensures
            r.reg == 1,
            !r.flag_mode,
    {
        ShiftReg { reg: 0x0001, flag_mode: false }
    }

    pub fn clock(&mut self)
        ensures
            final(self).reg == lfsr_next(old(self).reg, old(self).flag_mode),
            final(self).flag_mode == old(self).flag_mode,
    {
        let feedback: u16 = if self.flag_mode {
            (self.reg & 0x0001) ^ ((self.reg >> 6) & 0x0001)
        } else {
            (self.reg & 0x0001) ^ ((self.reg >> 1) & 0x0001)
        };
        self.reg = ((self.reg >> 1) | (feedback << 14)) & 0x7fff;
    }

    pub fn is_muted(&self) -> (r: bool)
        ensures
            r == (self.reg & 0x0001 != 0),
    {
        self.reg & 0x0001 != 0
    }
}

/// The noise channel: envelope, timer, shift register and length
/// counter.
pub struct Noise {
    pub envelope: Envelope,
    pub timer: Timer,
    pub shift_reg: ShiftReg,
    pub length_counter: LengthCounter,
}

impl Noise {
    pub fn new() -> (r: Noise)
        ensures
            r.shift_reg.reg == 1,
            !r.shift_reg.flag_mode,
            r.length_counter.counter == length_table(0),
            !r.length_counter.enable,
            r.timer.period == 0,
            !r.envelope.flag_start,
            !r.envelope.flag_loop,
            !r.envelope.flag_const,
            r.envelope.divider == 0,
            r.envelope.decay_level == 0,
            r.envelope.volume == 0,
    {
        Noise {
            envelope: Envelope::new(),
            timer: Timer::new(),
            shift_reg: ShiftReg::new(),
            length_counter: LengthCounter::new(),
        }
    }

    /// Register writes: 0x400c sets halt/envelope flags and volume,
    /// 0x400e sets the feedback mode and timer period, 0x400f reloads
    /// the length counter and restarts the envelope.
    pub fn cpu_write(&mut self, addr: u16, data: u8)
        ensures
            addr == 0x400c ==> {
                &&& final(self).length_counter.halt == ((data & 0x20) != 0)
                &&& final(self).envelope.flag_loop == ((data & 0x20) != 0)
                &&& final(self).envelope.flag_const == ((data & 0x10) != 0)
                &&& final(self).envelope.volume == (data & 0x0f)
                &&& final(self).timer == old(self).timer
                &&& final(self).shift_reg == old(self).shift_reg
                &&& final(self).length_counter.counter == old(self).length_counter.counter
                &&& final(self).length_counter.enable == old(self).length_counter.enable
            },
            addr == 0x400e ==> {
                &&& final(self).timer.period == noise_period((data % 16) as int)
                &&& final(self).timer.cur == noise_period((data % 16) as int)
                &&& final(self).shift_reg.flag_mode == (data & 0x80 != 0)
                &&& final(self).shift_reg.reg == old(self).shift_reg.reg
                &&& final(self).envelope == old(self).envelope
                &&& final(self).length_counter == old(self).length_counter
            },
            addr == 0x400f ==> {
                &&& final(self).length_counter.counter == (if old(self).length_counter.enable {
                    length_table(((((data & 0xf8) >> 3) as usize) % 32) as int)
                } else {
                    old(self).length_counter.counter
                })
                &&& final(self).envelope.flag_start
                &&& final(self).timer == old(self).timer
                &&& final(self).shift_reg == old(self).shift_reg
            },
            addr != 0x400c && addr != 0x400e && addr != 0x400f ==> *final(self) == *old(self),
    {
        match addr {
            0x400c => {
                let lc_flag_halt = (data & 0x20) != 0;
                let env_flag_const = (data & 0x10) != 0;

                self.length_counter.halt = lc_flag_halt;
                self.envelope.flag_loop = lc_flag_halt;
                self.envelope.flag_const = env_flag_const;
                self.envelope.set_volume(data);
            }
            0x400e => {
                let sr_flag_mode = data & 0x80 != 0;

                // the noise periods may exceed the pulse/triangle
                // timer's 11-bit range, so the period is stored whole
                let p = noise_period_lookup(data);
                self.timer.period = p;
                self.timer.cur = p;
                self.shift_reg.flag_mode = sr_flag_mode;
            }
            0x400f => {
                let lc_counter = ((data & 0xf8) >> 3) as usize;
                self.length_counter.set_counter(lc_counter);
                self.envelope.flag_start = true;
            }
            _ => {}
        }
    }

    pub fn get_lc_enable(&self) -> (r: bool)
        ensures
            r == self.length_counter.enable,
    {
        self.length_counter.get_enable()
    }

    pub fn set_lc_enable(&mut self, enable: bool)
        ensures
            final(self).length_counter.enable == enable,
            final(self).length_counter.counter == (if enable {
                old(self).length_counter.counter
            } else {
                0u8
            }),
            final(self).length_counter.halt == old(self).length_counter.halt,
            final(self).envelope == old(self).envelope,
            final(self).timer == old(self).timer,
            final(self).shift_reg == old(self).shift_reg,
    {
        self.length_counter.set_enable(enable);
    }

    /// APU-rate tick: the timer divides the clock; each wrap clocks
    /// the shift register once.
    pub fn clock_apu(&mut self)
        ensures
            final(self).shift_reg.reg == (if old(self).timer.cur == 0 {
                lfsr_next(old(self).shift_reg.reg, old(self).shift_reg.flag_mode)
            } else {
                old(self).shift_reg.reg
            }),
            final(self).shift_reg.flag_mode == old(self).shift_reg.flag_mode,
            final(self).timer.period == old(self).timer.period,
            final(self).timer.cur == (if old(self).timer.cur == 0 {
                old(self).timer.period
            } else {
                (old(self).timer.cur - 1) as u16
            }),
            final(self).envelope == old(self).envelope,
            final(self).length_counter == old(self).length_counter,
    {
        if self.timer.clock() {
            self.shift_reg.clock();
        }
    }

    pub fn clock_quarter_frame(&mut self)
        ensures
            final(self).timer == old(self).timer,
            final(self).shift_reg == old(self).shift_reg,
            final(self).length_counter == old(self).length_counter,
            final(self).envelope.volume == old(self).envelope.volume,
            !final(self).envelope.flag_start,
    {
        self.envelope.clock_quarter_frame();
    }

    pub fn clock_half_frame(&mut self)
        ensures
            final(self).length_counter.counter == (if old(self).length_counter.counter > 0
                && !old(self).length_counter.halt {
                (old(self).length_counter.counter - 1) as u8
            } else {
                old(self).length_counter.counter
            }),
            final(self).timer == old(self).timer,
            final(self).shift_reg == old(self).shift_reg,
            final(self).envelope == old(self).envelope,
            final(self).length_counter.halt == old(self).length_counter.halt,
            final(self).length_counter.enable == old(self).length_counter.enable,
    {
        self.length_counter.clock_half_frame();
    }

    /// 4-bit output: muted when shift-register bit 0 is set or the
    /// length counter has reached zero, else the envelope level.
    pub fn sample(&self) -> (r: u8)
        ensures
            r == (if self.shift_reg.reg & 0x0001 != 0 || self.length_counter.counter == 0 {
                0u8
            } else if self.envelope.flag_const {
                self.envelope.volume
            } else {
                self.envelope.decay_level
            }),
    {
        if self.shift_reg.is_muted() || self.length_counter.is_muted() {
            0
        } else {
            self.envelope.output()
        }
    }
}

} // verus!
