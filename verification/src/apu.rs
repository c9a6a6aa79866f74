pub mod channel;
pub mod misc;
pub mod noise;
pub mod pulse;
pub mod triangle;

use vstd::prelude::*;
use crate::apu::noise::{Noise, lfsr_next};
use crate::apu::pulse::Pulse;
use crate::apu::triangle::Triangle;

verus! {

/// Which sub-clocks fire on one PPU-rate tick of the frame counter.
pub struct ClockEvents {
    pub cpu_cycle: bool,
    pub apu_cycle: bool,
    pub quarter_frame: bool,
    pub half_frame: bool,
    pub irq: bool,
}

#[derive(Copy, Clone, PartialEq, Eq, Structural, Debug)]
pub enum FrameCounterMode {
    Step4,
    Step5,
}

/// PPU-clock index of the `i`th frame-counter step in the given mode.
pub open spec fn frame_step(mode: FrameCounterMode, i: int) -> usize {
    if i == 0 {
        22371
    } else if i == 1 {
        44739
    } else if i == 2 {
        67113
    } else if i == 3 {
        if mode == FrameCounterMode::Step4 { 89484 } else { 111843 }
    } else {
        0
    }
}

/// The frame counter's next stored count: it wraps to zero three dots
/// past the end of its sequence.
pub open spec fn frame_counter_next(counter: usize, mode: FrameCounterMode) -> usize
    recommends counter < 111846,
{
    if counter + 1 >= frame_step(mode, 3) + 3 {
        0
    } else {
        (counter + 1) as usize
    }
}

/// The APU frame counter, indexed by the PPU clock.
pub struct FrameCounter {
    pub flag_irq_inhibit: bool,
    pub mode: FrameCounterMode,
    pub ppu_clock_counter: usize,
}

impl FrameCounter {
    /// The stored count stays below its wrap point.
    pub open spec fn wf(&self) -> bool {
        self.ppu_clock_counter < 111846
    }

    pub fn new() -> (r: FrameCounter)
        ensures
            !r.flag_irq_inhibit,
            r.ppu_clock_counter == 0,
            r.mode == FrameCounterMode::Step4,
            r.wf(),
    {
        FrameCounter { flag_irq_inhibit: false, ppu_clock_counter: 0, mode: FrameCounterMode::Step4 }
    }

    /// Advance one PPU cycle and report which sub-clocks fire at the
    /// new count.  In five-step mode no IRQ is ever raised; in
    /// four-step mode the frame IRQ fires across the three-dot window
    /// centered on the end of the sequence, unless inhibited.
    pub fn clock(&mut self) -> (events: ClockEvents)
        requires
            old(self).wf(),
        ensures
            final(self).wf(),
            final(self).mode == old(self).mode,
            final(self).flag_irq_inhibit == old(self).flag_irq_inhibit,
            final(self).ppu_clock_counter == frame_counter_next(old(self).ppu_clock_counter, old(self).mode),
            events.cpu_cycle == ((old(self).ppu_clock_counter + 1) % 3 == 0),
            events.apu_cycle == ((old(self).ppu_clock_counter + 1) % 6 == 0),
            events.quarter_frame == (old(self).ppu_clock_counter + 1 == frame_step(old(self).mode, 0)
                || old(self).ppu_clock_counter + 1 == frame_step(old(self).mode, 1)
                || old(self).ppu_clock_counter + 1 == frame_step(old(self).mode, 2)
                || old(self).ppu_clock_counter + 1 == frame_step(old(self).mode, 3)),
            events.half_frame == (old(self).ppu_clock_counter + 1 == frame_step(old(self).mode, 1)
                || old(self).ppu_clock_counter + 1 == frame_step(old(self).mode, 3)),
            events.irq == (!old(self).flag_irq_inhibit && old(self).mode == FrameCounterMode::Step4
                && (old(self).ppu_clock_counter + 1 == 89481
                    || old(self).ppu_clock_counter + 1 == 89484
                    || old(self).ppu_clock_counter + 1 == 89487)),
            old(self).mode == FrameCounterMode::Step5 ==> !events.irq,
    {
        let mut clock_events = ClockEvents {
            apu_cycle: false,
            cpu_cycle: false,
            quarter_frame: false,
            half_frame: false,
            irq: false,
        };
        self.ppu_clock_counter += 1;

        if self.ppu_clock_counter % 3 == 0 {
            clock_events.cpu_cycle = true;
        }

        if self.ppu_clock_counter % 6 == 0 {
            clock_events.apu_cycle = true;
        }

        let step3: usize = if self.mode == FrameCounterMode::Step4 { 89484 } else { 111843 };

        if !self.flag_irq_inhibit && self.mode == FrameCounterMode::Step4
            && (self.ppu_clock_counter == step3 - 3
                || self.ppu_clock_counter == step3
                || self.ppu_clock_counter == step3 + 3) {
            clock_events.irq = true;
        }

        if self.ppu_clock_counter == 22371 || self.ppu_clock_counter == 44739
            || self.ppu_clock_counter == 67113 || self.ppu_clock_counter == step3 {
            clock_events.quarter_frame = true;
        }

        if self.ppu_clock_counter == 44739 || self.ppu_clock_counter == step3 {
            clock_events.half_frame = true;
        }

        if self.ppu_clock_counter >= step3 + 3 {
            self.ppu_clock_counter = 0;
        }

        clock_events
    }
}

/// Stepped value of a length counter after one half-frame tick.
pub open spec fn lc_step(counter: u8, halt: bool) -> u8 {
    if counter > 0 && !halt {
        (counter - 1) as u8
    } else {
        counter
    }
}

/// The 4-bit outputs of the four implemented channels, in the order
/// the nonlinear mixer combines them.
pub struct ChannelSamples {
    pub pulse1: u8,
    pub pulse2: u8,
    pub triangle: u8,
    pub noise: u8,
}

/// The 2A03 audio unit: two pulse channels, triangle, noise, and the
/// frame counter that paces them.
pub struct Apu {
    pub pulse1: Pulse,
    pub pulse2: Pulse,
    pub triangle: Triangle,
    pub noise: Noise,
    pub frame_counter: FrameCounter,
}

impl Apu {
    pub open spec fn wf(&self) -> bool {
        self.frame_counter.wf()
    }

    pub fn new() -> (r: Apu)
        ensures
            r.wf(),
            r.frame_counter.ppu_clock_counter == 0,
            r.frame_counter.mode == FrameCounterMode::Step4,
            !r.pulse1.length_counter.enable,
            !r.pulse2.length_counter.enable,
            !r.triangle.length_counter.enable,
            !r.noise.length_counter.enable,
            r.noise.shift_reg.reg == 1,
    {
        Apu {
            pulse1: Pulse::new(0),
            pulse2: Pulse::new(1),
            triangle: Triangle::new(),
            noise: Noise::new(),
            frame_counter: FrameCounter::new(),
        }
    }

    /// CPU writes into the channel registers, the channel-enable
    /// register 0x4015, and the frame-counter register 0x4017.
    pub fn cpu_write(&mut self, addr: u16, data: u8)
        ensures
            final(self).frame_counter.ppu_clock_counter == old(self).frame_counter.ppu_clock_counter,
            old(self).wf() ==> final(self).wf(),
            addr == 0x4015 ==> {
                &&& final(self).pulse1.length_counter.enable == ((data & 0x01) != 0)
                &&& final(self).pulse2.length_counter.enable == ((data & 0x02) != 0)
                &&& final(self).triangle.length_counter.enable == ((data & 0x04) != 0)
                &&& final(self).noise.length_counter.enable == ((data & 0x08) != 0)
                &&& ((data & 0x01) == 0 ==> final(self).pulse1.length_counter.counter == 0)
                &&& ((data & 0x02) == 0 ==> final(self).pulse2.length_counter.counter == 0)
                &&& ((data & 0x04) == 0 ==> final(self).triangle.length_counter.counter == 0)
                &&& ((data & 0x08) == 0 ==> final(self).noise.length_counter.counter == 0)
            },
            addr == 0x4017 ==> {
                &&& final(self).frame_counter.mode == (if (data & 0x80) != 0 {
                    FrameCounterMode::Step5
                } else {
                    FrameCounterMode::Step4
                })
                &&& final(self).frame_counter.flag_irq_inhibit == ((data & 0x40) != 0)
                &&& final(self).pulse1 == old(self).pulse1
                &&& final(self).pulse2 == old(self).pulse2
                &&& final(self).triangle == old(self).triangle
                &&& final(self).noise == old(self).noise
            },
            0x4000 <= addr < 0x4008 ==> final(self).triangle == old(self).triangle
                && final(self).noise == old(self).noise
                && final(self).frame_counter == old(self).frame_counter,
            0x4008 <= addr < 0x400c ==> final(self).pulse1 == old(self).pulse1
                && final(self).pulse2 == old(self).pulse2
                && final(self).noise == old(self).noise
                && final(self).frame_counter == old(self).frame_counter,
            0x400c <= addr < 0x4010 ==> final(self).pulse1 == old(self).pulse1
                && final(self).pulse2 == old(self).pulse2
                && final(self).triangle == old(self).triangle
                && final(self).frame_counter == old(self).frame_counter,
    {
        if 0x4000 <= addr && addr <= 0x4003 {
            self.pulse1.cpu_write(addr, data);
        } else if 0x4004 <= addr && addr <= 0x4007 {
            self.pulse2.cpu_write(addr, data);
        } else if 0x4008 <= addr && addr <= 0x400b {
            self.triangle.cpu_write(addr, data);
        } else if 0x400c <= addr && addr <= 0x400f {
            self.noise.cpu_write(addr, data);
        } else if addr == 0x4015 {
            self.pulse1.set_lc_enable((data & 0x01) != 0);
            self.pulse2.set_lc_enable((data & 0x02) != 0);
            self.triangle.set_lc_enable((data & 0x04) != 0);
            self.noise.set_lc_enable((data & 0x08) != 0);
        } else if addr == 0x4017 {
            self.frame_counter.mode = if (data & 0x80) != 0 {
                FrameCounterMode::Step5
            } else {
                FrameCounterMode::Step4
            };
            self.frame_counter.flag_irq_inhibit = (data & 0x40) != 0;
        }
    }

    /// Read of the status register 0x4015: one bit per channel whose
    /// length counter is nonzero.  Every other address reads zero.
    pub fn cpu_read(&self, addr: u16) -> (r: u8)
        ensures
            addr == 0x4015 ==> r == (if self.pulse1.length_counter.counter > 0 { 1u8 } else { 0u8 })
                | ((if self.pulse2.length_counter.counter > 0 { 1u8 } else { 0u8 }) << 1)
                | ((if self.triangle.length_counter.counter > 0 { 1u8 } else { 0u8 }) << 2)
                | ((if self.noise.length_counter.counter > 0 { 1u8 } else { 0u8 }) << 3),
            addr != 0x4015 ==> r == 0,
    {
        if addr == 0x4015 {
            let status: u8 = (if !self.pulse1.length_counter.is_muted() { 1u8 } else { 0u8 })
                | ((if !self.pulse2.length_counter.is_muted() { 1u8 } else { 0u8 }) << 1)
                | ((if !self.triangle.length_counter.is_muted() { 1u8 } else { 0u8 }) << 2)
                | ((if !self.noise.length_counter.is_muted() { 1u8 } else { 0u8 }) << 3);
            status
        } else {
            0x00
        }
    }

    /// One PPU-rate tick: the frame counter decides which sub-clocks
    /// fire, then the channel timers and sweep trackers run.
    pub fn clock(&mut self)
        requires
            old(self).wf(),
        ensures
            final(self).wf(),
            final(self).frame_counter.mode == old(self).frame_counter.mode,
            final(self).frame_counter.flag_irq_inhibit == old(self).frame_counter.flag_irq_inhibit,
            final(self).frame_counter.ppu_clock_counter == frame_counter_next(
                old(self).frame_counter.ppu_clock_counter,
                old(self).frame_counter.mode,
            ),
            final(self).noise.shift_reg.flag_mode == old(self).noise.shift_reg.flag_mode,
            final(self).noise.shift_reg.reg == (if (old(self).frame_counter.ppu_clock_counter + 1) % 6 == 0
                && old(self).noise.timer.cur == 0 {
                lfsr_next(old(self).noise.shift_reg.reg, old(self).noise.shift_reg.flag_mode)
            } else {
                old(self).noise.shift_reg.reg
            }),
            final(self).pulse1.length_counter.counter == (if half_frame_fires(old(self)) {
                lc_step(old(self).pulse1.length_counter.counter, old(self).pulse1.length_counter.halt)
            } else {
                old(self).pulse1.length_counter.counter
            }),
            final(self).pulse2.length_counter.counter == (if half_frame_fires(old(self)) {
                lc_step(old(self).pulse2.length_counter.counter, old(self).pulse2.length_counter.halt)
            } else {
                old(self).pulse2.length_counter.counter
            }),
            final(self).triangle.length_counter.counter == (if half_frame_fires(old(self)) {
                lc_step(old(self).triangle.length_counter.counter, old(self).triangle.length_counter.halt)
            } else {
                old(self).triangle.length_counter.counter
            }),
            final(self).noise.length_counter.counter == (if half_frame_fires(old(self)) {
                lc_step(old(self).noise.length_counter.counter, old(self).noise.length_counter.halt)
            } else {
                old(self).noise.length_counter.counter
            }),
    {
        let clock_events = self.frame_counter.clock();
        if clock_events.cpu_cycle {
            self.triangle.clock_cpu();
        }
        if clock_events.apu_cycle {
            self.pulse1.clock_apu();
            self.pulse2.clock_apu();
            self.noise.clock_apu();
        }
        if clock_events.quarter_frame {
            self.pulse1.clock_quarter_frame();
            self.pulse2.clock_quarter_frame();
            self.triangle.clock_quarter_frame();
            self.noise.clock_quarter_frame();
        }
        if clock_events.half_frame {
            self.pulse1.clock_half_frame();
            self.pulse2.clock_half_frame();
            self.triangle.clock_half_frame();
            self.noise.clock_half_frame();
        }

        self.pulse1.clock_ppu();
        self.pulse2.clock_ppu();
    }

    /// Current 4-bit outputs of the four channels, for the host-side
    /// nonlinear mixer.
    pub fn output_channels(&self) -> (r: ChannelSamples)
        ensures
            r.pulse1 == (if self.pulse1.sequencer.seq & 0x01 == 0
                || (self.pulse1.sweep.cur_period < 8 || self.pulse1.sweep.target_period >= 0x7ff)
                || self.pulse1.timer.period < 8 || self.pulse1.length_counter.counter == 0 {
                0u8
            } else if self.pulse1.envelope.flag_const {
                self.pulse1.envelope.volume
            } else {
                self.pulse1.envelope.decay_level
            }),
            r.noise == (if self.noise.shift_reg.reg & 0x0001 != 0
                || self.noise.length_counter.counter == 0 {
                0u8
            } else if self.noise.envelope.flag_const {
                self.noise.envelope.volume
            } else {
                self.noise.envelope.decay_level
            }),
            r.triangle == crate::apu::triangle::triangle_wave((self.triangle.sequencer.pos % 32) as int),
    {
        ChannelSamples {
            pulse1: self.pulse1.sample(),
            pulse2: self.pulse2.sample(),
            triangle: self.triangle.sample(),
            noise: self.noise.sample(),
        }
    }
}

/// Whether this tick's frame-counter step is a half-frame tick.
pub open spec fn half_frame_fires(apu: &Apu) -> bool {
    apu.frame_counter.ppu_clock_counter + 1 == frame_step(apu.frame_counter.mode, 1)
        || apu.frame_counter.ppu_clock_counter + 1 == frame_step(apu.frame_counter.mode, 3)
}

} // verus!
