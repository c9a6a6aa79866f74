use vstd::prelude::*;
use crate::apu::misc::{Envelope, LengthCounter, Sequencer, Timer, duty_sequence, spec_rotr8, spec_rotl8, length_table};

verus! {

/// Sweep unit of a pulse channel.  It tracks a target period derived
/// from the current timer period and periodically reprograms the
/// timer with it.  `neg_offset` is 1 for the first pulse channel
/// (one's-complement negation) and 0 for the second.
pub struct Sweep {
    pub flag_enabled: bool,
    pub flag_negate: bool,
    pub flag_reload: bool,
    pub target_period: u16,
    pub cur_period: u16,
    pub shift_count: usize,
    pub neg_offset: u16,
    pub divider: u8,
    pub divider_reload: u8,
}

/// The sweep target for a given period: the period plus or minus its
/// arithmetic right shift, the negated form lowered further by the
/// channel's fixed offset (wrapping on underflow).
pub open spec fn sweep_target(cur_period: u16, shift_count: usize, negate: bool, neg_offset: u16) -> u16 {
    let change = cur_period >> ((shift_count % 8) as u16);
    if negate {
        vstd::wrapping::u16_specs::wrapping_sub(
            vstd::wrapping::u16_specs::wrapping_sub(cur_period, change),
            neg_offset,
        )
    } else {
        vstd::wrapping::u16_specs::wrapping_add(cur_period, change)
    }
}

impl Sweep {
    pub fn new(neg_offset: u16) -> (r: Sweep)
        ensures
            !r.flag_enabled,
            !r.flag_negate,
            !r.flag_reload,
            r.target_period == 0,
            r.cur_period == 0,
            r.shift_count == 0,
            r.neg_offset == neg_offset,
            r.divider == 0,
            r.divider_reload == 0,
    {
        Sweep {
            flag_enabled: false,
            flag_negate: false,
            flag_reload: false,
            target_period: 0x0000,
            cur_period: 0x0000,
            shift_count: 0,
            neg_offset,
            divider: 0x00,
            divider_reload: 0x00,
        }
    }

    pub fn set_divider_reload(&mut self, divider_reload: u8)
        ensures
            final(self).divider_reload == divider_reload & 0x07,
            *final(self) == (Sweep { divider_reload: final(self).divider_reload, ..*old(self) }),
    {
        self.divider_reload = divider_reload & 0x07;
    }

    pub fn set_shift_count(&mut self, shift_count: u8)
        ensures
            final(self).shift_count == (shift_count & 0x07) as usize,
            *final(self) == (Sweep { shift_count: final(self).shift_count, ..*old(self) }),
    {
        self.shift_count = (shift_count & 0x07) as usize;
    }

    /// Recompute the target period from the timer period now in use.
    pub fn track_sweep(&mut self, cur_period: u16)
        ensures
            final(self).cur_period == cur_period,
            final(self).target_period == sweep_target(cur_period, old(self).shift_count, old(self).flag_negate, old(self).neg_offset),
            *final(self) == (Sweep { cur_period, target_period: final(self).target_period, ..*old(self) }),
    {
        self.cur_period = cur_period;
        let change_amount = cur_period >> ((self.shift_count % 8) as u16);
        if self.flag_negate {
            self.target_period = cur_period.wrapping_sub(change_amount).wrapping_sub(self.neg_offset);
        } else {
            self.target_period = cur_period.wrapping_add(change_amount);
        }
    }

    /// Half-frame tick: reports the target period to load exactly when
    /// the divider has run out while the sweep is enabled and not
    /// muted; the divider itself reloads on zero or on a pending
    /// reload flag.
    pub fn clock_half_frame(&mut self) -> (new_period: Option<u16>)
        ensures
            new_period == (if old(self).divider == 0 && old(self).flag_enabled
                && !(old(self).cur_period < 8 || old(self).target_period >= 0x7ff) {
                Some(old(self).target_period)
            } else {
                None::<u16>
            }),
            final(self).divider == (if old(self).divider == 0 || old(self).flag_reload {
                old(self).divider_reload
            } else {
                (old(self).divider - 1) as u8
            }),
            !final(self).flag_reload,
            *final(self) == (Sweep { divider: final(self).divider, flag_reload: false, ..*old(self) }),
    {
        let new_period: Option<u16> = if self.divider == 0 && self.flag_enabled && !self.is_muted() {
            Some(self.target_period)
        } else {
            None
        };

        if self.divider == 0 || self.flag_reload {
            self.divider = self.divider_reload;
            self.flag_reload = false;
        } else {
            self.divider -= 1;
        }

        new_period
    }

    pub fn is_muted(&self) -> (r: bool)
        ensures
            r == (self.cur_period < 8 || self.target_period >= 0x7ff),
    {
        self.cur_period < 8 || self.target_period >= 0x7ff
    }
}

/// One of the two pulse channels.
pub struct Pulse {
    pub envelope: Envelope,
    pub sweep: Sweep,
    pub timer: Timer,
    pub sequencer: Sequencer,
    pub length_counter: LengthCounter,
}

impl Pulse {
    /// `i` selects the channel; the first channel's sweep negates with
    /// an extra offset of one.
    pub fn new(i: usize) -> (r: Pulse)
        ensures
            r.sweep.neg_offset == (if i % 2 == 0 { 0u16 } else { 1u16 }),
            r.timer.period == 0,
            r.sequencer.seq == duty_sequence(0),
            r.sequencer.pos == 0,
            !r.length_counter.enable,
    {
        Pulse {
            envelope: Envelope::new(),
            sweep: Sweep::new((i % 2) as u16),
            timer: Timer::new(),
            sequencer: Sequencer::new(),
            length_counter: LengthCounter::new(),
        }
    }

    /// Register writes, decoded from the low two address bits:
    /// duty/envelope, sweep, timer low, and length/timer high.
    pub fn cpu_write(&mut self, addr: u16, data: u8)
        ensures
            addr % 4 == 0 ==> {
                &&& final(self).sequencer.seq == spec_rotr8(
                    duty_sequence(((((data & 0xc0) >> 6) as usize) % 4) as int),
                    old(self).sequencer.pos,
                )
                &&& final(self).sequencer.pos == old(self).sequencer.pos
                &&& final(self).length_counter.halt == ((data & 0x20) != 0)
                &&& final(self).envelope.flag_const == ((data & 0x10) != 0)
                &&& final(self).envelope.volume == (data & 0x0f)
                &&& final(self).timer == old(self).timer
                &&& final(self).sweep == old(self).sweep
            },
            addr % 4 == 1 ==> {
                &&& final(self).sweep.flag_enabled == ((data & 0x80) != 0)
                &&& final(self).sweep.divider_reload == (((data & 0x70) >> 4) & 0x07)
                &&& final(self).sweep.flag_negate == ((data & 0x08) != 0)
                &&& final(self).sweep.shift_count == ((data & 0x07) & 0x07) as usize
                &&& final(self).sweep.flag_reload
                &&& final(self).timer == old(self).timer
                &&& final(self).sequencer == old(self).sequencer
                &&& final(self).envelope == old(self).envelope
                &&& final(self).length_counter == old(self).length_counter
            },
            addr % 4 == 2 ==> {
                &&& final(self).timer.period == (old(self).timer.period & 0x0700) | (data as u16 & 0x00ff)
                &&& final(self).timer.cur == final(self).timer.period
                &&& final(self).sweep == old(self).sweep
                &&& final(self).sequencer == old(self).sequencer
                &&& final(self).envelope == old(self).envelope
                &&& final(self).length_counter == old(self).length_counter
            },
            addr % 4 == 3 ==> {
                &&& final(self).length_counter.counter == (if old(self).length_counter.enable {
                    length_table(((((data & 0xf8) >> 3) as usize) % 32) as int)
                } else {
                    old(self).length_counter.counter
                })
                &&& final(self).timer.period == (old(self).timer.period & 0x00ff) | ((data as u16 & 0x0007) << 8)
                &&& final(self).sequencer.pos == 0
                &&& final(self).sequencer.seq == spec_rotl8(old(self).sequencer.seq, old(self).sequencer.pos)
                &&& final(self).envelope.flag_start
                &&& final(self).sweep == old(self).sweep
            },
    {
        match addr % 4 {
            0 => {
                let seq_idx = ((data & 0xc0) >> 6) as usize;
                let lc_flag_halt = (data & 0x20) != 0;
                let env_flag_const = (data & 0x10) != 0;

                self.sequencer.set_seq(seq_idx);
                self.length_counter.halt = lc_flag_halt;
                self.envelope.flag_const = env_flag_const;
                self.envelope.set_volume(data);
            }
            1 => {
                let sweep_enabled = (data & 0x80) != 0;
                let sweep_divider_reload = (data & 0x70) >> 4;
                let sweep_negate = (data & 0x08) != 0;
                let sweep_shift_count = data & 0x07;

                self.sweep.flag_enabled = sweep_enabled;
                self.sweep.set_divider_reload(sweep_divider_reload);
                self.sweep.flag_negate = sweep_negate;
                self.sweep.set_shift_count(sweep_shift_count);
                self.sweep.flag_reload = true;
            }
            2 => {
                self.timer.set_period_lo(data);
            }
            _ => {
                let lc_counter = ((data & 0xf8) >> 3) as usize;

                self.length_counter.set_counter(lc_counter);
                self.timer.set_period_hi(data);

                self.sequencer.restart();
                self.envelope.flag_start = true;
            }
        }
    }

    pub fn set_lc_enable(&mut self, enable: bool)
        ensures
            final(self).length_counter.enable == enable,
            final(self).length_counter.counter == (if enable {
                old(self).length_counter.counter
            } else {
                0u8
            }),
            final(self).length_counter.halt == old(self).length_counter.halt,
            final(self).envelope == old(self).envelope,
            final(self).timer == old(self).timer,
            final(self).sweep == old(self).sweep,
            final(self).sequencer == old(self).sequencer,
    {
        self.length_counter.set_enable(enable);
    }

    pub fn get_lc_enable(&self) -> (r: bool)
        ensures
            r == self.length_counter.enable,
    {
        self.length_counter.get_enable()
    }

    /// Every PPU cycle the sweep re-derives its target from the timer
    /// period now programmed.
    pub fn clock_ppu(&mut self)
        ensures
            final(self).sweep.cur_period == old(self).timer.period,
            final(self).sweep.target_period == sweep_target(
                old(self).timer.period,
                old(self).sweep.shift_count,
                old(self).sweep.flag_negate,
                old(self).sweep.neg_offset,
            ),
            final(self).timer == old(self).timer,
            final(self).sequencer == old(self).sequencer,
            final(self).envelope == old(self).envelope,
            final(self).length_counter == old(self).length_counter,
    {
        self.sweep.track_sweep(self.timer.period);
    }

    /// APU-rate tick: the timer divides the clock and steps the duty
    /// sequencer on each wrap.
    pub fn clock_apu(&mut self)
        ensures
            final(self).timer.period == old(self).timer.period,
            final(self).timer.cur == (if old(self).timer.cur == 0 {
                old(self).timer.period
            } else {
                (old(self).timer.cur - 1) as u16
            }),
            final(self).sequencer.seq == (if old(self).timer.cur == 0 {
                spec_rotr8(old(self).sequencer.seq, 1)
            } else {
                old(self).sequencer.seq
            }),
            final(self).envelope == old(self).envelope,
            final(self).sweep == old(self).sweep,
            final(self).length_counter == old(self).length_counter,
    {
        if self.timer.clock() {
            self.sequencer.clock();
        }
    }

    pub fn clock_quarter_frame(&mut self)
        ensures
            final(self).timer == old(self).timer,
            final(self).sweep == old(self).sweep,
            final(self).sequencer == old(self).sequencer,
            final(self).length_counter == old(self).length_counter,
            final(self).envelope.volume == old(self).envelope.volume,
            !final(self).envelope.flag_start,
    {
        self.envelope.clock_quarter_frame();
    }

    /// Half-frame tick: the length counter steps, and a finished sweep
    /// divider reprograms the timer period.
    pub fn clock_half_frame(&mut self)
        ensures
            final(self).length_counter.counter == (if old(self).length_counter.counter > 0
                && !old(self).length_counter.halt {
                (old(self).length_counter.counter - 1) as u8
            } else {
                old(self).length_counter.counter
            }),
            final(self).timer.period == (if old(self).divider_ran_out() {
                old(self).sweep.target_period & 0x7ff
            } else {
                old(self).timer.period
            }),
            final(self).envelope == old(self).envelope,
            final(self).sequencer == old(self).sequencer,
    {
        self.length_counter.clock_half_frame();
        if let Some(new_period) = self.sweep.clock_half_frame() {
            self.timer.set_period(new_period);
        }
    }

    /// Whether this half frame's sweep tick will load the target.
    pub open spec fn divider_ran_out(&self) -> bool {
        self.sweep.divider == 0 && self.sweep.flag_enabled
            && !(self.sweep.cur_period < 8 || self.sweep.target_period >= 0x7ff)
    }

    /// 4-bit output: zero when the duty bit, sweep, timer or length
    /// counter mutes the channel, else the envelope level.
    pub fn sample(&self) -> (r: u8)
        ensures
            r == (if self.sequencer.seq & 0x01 == 0 || (self.sweep.cur_period < 8
                || self.sweep.target_period >= 0x7ff) || self.timer.period < 8
                || self.length_counter.counter == 0 {
                0u8
            } else if self.envelope.flag_const {
                self.envelope.volume
            } else {
                self.envelope.decay_level
            }),
    {
        if self.sequencer.is_muted() || self.sweep.is_muted() || self.timer.is_muted()
            || self.length_counter.is_muted() {
            0
        } else {
            self.envelope.output()
        }
    }
}

} // verus!
