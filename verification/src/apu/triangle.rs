use vstd::prelude::*;
use crate::apu::misc::{LengthCounter, Timer, length_table};

verus! {

/// The 32-step triangle waveform: a descent from 15 to 0 followed by
/// the ascent back up.
pub open spec fn triangle_wave(i: int) -> u8 {
    if 0 <= i < 16 {
        (15 - i) as u8
    } else if 16 <= i < 32 {
        (i - 16) as u8
    } else {
        0
    }
}

pub fn triangle_wave_lookup(i: usize) -> (r: u8)
    requires
        i < 32,
    ensures
        r == triangle_wave(i as int),
{
    if i < 16 {
        (15 - i) as u8
    } else {
        (i - 16) as u8
    }
}

/// Linear counter of the triangle channel: reloaded on a pending
/// reload flag, counting down each quarter frame otherwise; the
/// control flag keeps the reload flag armed.
pub struct LinearCounter {
    pub flag_reload: bool,
    pub flag_control: bool,
    pub reload: u8,
    pub counter: u8,
}

impl LinearCounter {
    pub fn new() -> (r: LinearCounter)
        ensures
            !r.flag_reload,
            !r.flag_control,
            r.reload == 0,
            r.counter == 0,
    {
        LinearCounter { flag_reload: false, flag_control: false, reload: 0x00, counter: 0x00 }
    }

    pub fn clock_quarter_frame(&mut self)
        ensures
            final(self).counter == (if old(self).flag_reload {
                old(self).reload
            } else if old(self).counter > 0 {
                (old(self).counter - 1) as u8
            } else {
                0u8
            }),
            final(self).flag_reload == (if old(self).flag_control { false } else { old(self).flag_reload }),
            final(self).flag_control == old(self).flag_control,
            final(self).reload == old(self).reload,
    {
        if self.flag_reload {
            self.counter = self.reload;
        } else if self.counter > 0 {
            self.counter -= 1;
        }

        if self.flag_control {
            self.flag_reload = false;
        }
    }

    pub fn is_muted(&self) -> (r: bool)
        ensures
            r == (self.counter == 0),
    {
        self.counter == 0
    }
}

/// Position counter over the 32-step triangle waveform.
pub struct Sequencer {
    pub pos: usize,
}

impl Sequencer {
    pub fn new() -> (r: Sequencer)
        ensures
            r.pos == 0,
    {
        Sequencer { pos: 0 }
    }

    pub fn clock(&mut self)
        ensures
            final(self).pos == (old(self).pos % 32 + 1) % 32,
    {
        self.pos = (self.pos % 32 + 1) % 32;
    }

    pub fn output(&self) -> (r: u8)
        ensures
            r == triangle_wave((self.pos % 32) as int),
    {
        triangle_wave_lookup(self.pos % 32)
    }
}

/// The triangle channel: timer, linear counter, length counter and
/// waveform sequencer.
pub struct Triangle {
    pub timer: Timer,
    pub linear_counter: LinearCounter,
    pub length_counter: LengthCounter,
    pub sequencer: Sequencer,
}

impl Triangle {
    pub fn new() -> (r: Triangle)
        ensures
            r.timer.period == 0,
            r.linear_counter.counter == 0,
            !r.length_counter.enable,
            r.sequencer.pos == 0,
    {
        Triangle {
            timer: Timer::new(),
            linear_counter: LinearCounter::new(),
            length_counter: LengthCounter::new(),
            sequencer: Sequencer::new(),
        }
    }

    /// Register writes: 0x4008 sets the control flag and linear reload
    /// value, 0x400a the timer low byte, 0x400b the length counter and
    /// timer high bits.
    pub fn cpu_write(&mut self, addr: u16, data: u8)
        ensures
            addr == 0x4008 ==> {
                &&& final(self).linear_counter.flag_control == ((data & 0x80) != 0)
                &&& final(self).length_counter.halt == ((data & 0x80) != 0)
                &&& final(self).linear_counter.reload == (data & 0x7f)
                &&& final(self).linear_counter.counter == old(self).linear_counter.counter
                &&& final(self).timer == old(self).timer
                &&& final(self).sequencer == old(self).sequencer
                &&& final(self).length_counter.counter == old(self).length_counter.counter
                &&& final(self).length_counter.enable == old(self).length_counter.enable
            },
            addr == 0x400a ==> {
                &&& final(self).timer.period == (old(self).timer.period & 0x0700) | (data as u16 & 0x00ff)
                &&& final(self).timer.cur == final(self).timer.period
                &&& final(self).linear_counter == old(self).linear_counter
                &&& final(self).sequencer == old(self).sequencer
                &&& final(self).length_counter == old(self).length_counter
            },
            addr == 0x400b ==> {
                &&& final(self).length_counter.counter == (if old(self).length_counter.enable {
                    length_table(((((data & 0xf8) >> 3) as usize) % 32) as int)
                } else {
                    old(self).length_counter.counter
                })
                &&& final(self).linear_counter.flag_reload
                &&& final(self).timer.period == (old(self).timer.period & 0x00ff) | ((data as u16 & 0x0007) << 8)
                &&& final(self).sequencer == old(self).sequencer
            },
            addr != 0x4008 && addr != 0x400a && addr != 0x400b ==> *final(self) == *old(self),
    {
        match addr {
            0x4008 => {
                let flag_control = (data & 0x80) != 0;
                let linear_reload = data & 0x7f;

                self.linear_counter.flag_control = flag_control;
                self.length_counter.halt = flag_control;
                self.linear_counter.reload = linear_reload;
            }
            0x400a => {
                self.timer.set_period_lo(data);
            }
            0x400b => {
                let lc_table_idx = ((data & 0xf8) >> 3) as usize;

                self.length_counter.set_counter(lc_table_idx);
                self.linear_counter.flag_reload = true;
                self.timer.set_period_hi(data);
            }
            _ => {}
        }
    }

    pub fn set_lc_enable(&mut self, enable: bool)
        ensures
            final(self).length_counter.enable == enable,
            final(self).length_counter.counter == (if enable {
                old(self).length_counter.counter
            } else {
                0u8
            }),
            final(self).length_counter.halt == old(self).length_counter.halt,
            final(self).timer == old(self).timer,
            final(self).linear_counter == old(self).linear_counter,
            final(self).sequencer == old(self).sequencer,
    {
        self.length_counter.set_enable(enable);
    }

    pub fn get_lc_enable(&self) -> (r: bool)
        ensures
            r == self.length_counter.enable,
    {
        self.length_counter.get_enable()
    }

    /// CPU-rate tick: the timer divides the clock; the waveform steps
    /// only while both the linear and length counters are nonzero.
    pub fn clock_cpu(&mut self)
        ensures
            final(self).timer.period == old(self).timer.period,
            final(self).timer.cur == (if old(self).timer.cur == 0 {
                old(self).timer.period
            } else {
                (old(self).timer.cur - 1) as u16
            }),
            final(self).sequencer.pos == (if old(self).timer.cur == 0
                && old(self).linear_counter.counter != 0 && old(self).length_counter.counter != 0 {
                (old(self).sequencer.pos % 32 + 1) % 32
            } else {
                old(self).sequencer.pos as int
            }),
            final(self).linear_counter == old(self).linear_counter,
            final(self).length_counter == old(self).length_counter,
    {
        if self.timer.clock() && !self.linear_counter.is_muted() && !self.length_counter.is_muted() {
            self.sequencer.clock();
        }
    }

    pub fn clock_quarter_frame(&mut self)
        ensures
            final(self).linear_counter.counter == (if old(self).linear_counter.flag_reload {
                old(self).linear_counter.reload
            } else if old(self).linear_counter.counter > 0 {
                (old(self).linear_counter.counter - 1) as u8
            } else {
                0u8
            }),
            final(self).timer == old(self).timer,
            final(self).sequencer == old(self).sequencer,
            final(self).length_counter == old(self).length_counter,
    {
        self.linear_counter.clock_quarter_frame();
    }

    pub fn clock_half_frame(&mut self)
        ensures
            final(self).length_counter.counter == (if old(self).length_counter.counter > 0
                && !old(self).length_counter.halt {
                (old(self).length_counter.counter - 1) as u8
            } else {
                old(self).length_counter.counter
            }),
            final(self).timer == old(self).timer,
            final(self).sequencer == old(self).sequencer,
            final(self).linear_counter == old(self).linear_counter,
            final(self).length_counter.halt == old(self).length_counter.halt,
            final(self).length_counter.enable == old(self).length_counter.enable,
    {
        self.length_counter.clock_half_frame();
    }

    /// The current waveform sample (0..15).
    pub fn sample(&self) -> (r: u8)
        ensures
            r == triangle_wave((self.sequencer.pos % 32) as int),
    {
        self.sequencer.output()
    }
}

} // verus!
