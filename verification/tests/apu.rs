use nessuno::apu::{Apu, FrameCounter, FrameCounterMode};
use nessuno::apu::noise::{Noise, ShiftReg};
use nessuno::apu::misc::length_table_lookup;
use nessuno::apu::pulse::Pulse;
use nessuno::apu::triangle::Triangle;

#[test]
fn five_step_mode_never_raises_irq() {
    let mut fc = FrameCounter::new();
    fc.mode = FrameCounterMode::Step5;
    // more than one full sequence
    for _ in 0..250000 {
        let events = fc.clock();
        assert!(!events.irq);
    }
}

#[test]
fn four_step_mode_raises_irq_window() {
    let mut fc = FrameCounter::new();
    let mut irqs = 0;
    for _ in 0..89487 {
        let events = fc.clock();
        if events.irq {
            irqs += 1;
        }
    }
    // the three-dot window centered on the end of the sequence
    assert_eq!(irqs, 3);
}

#[test]
fn noise_long_mode_period_is_32767() {
    let mut sr = ShiftReg::new();
    assert_eq!(sr.reg, 1);
    assert!(!sr.flag_mode);
    let start = sr.reg;
    let mut first = 0;
    for i in 0..32767u32 {
        sr.clock();
        if i == 0 {
            first = sr.reg;
        }
        if i < 32766 {
            assert_ne!(sr.reg, start);
        }
    }
    // the register walks its full orbit and returns
    assert_eq!(sr.reg, start);
    // and the next cycle repeats the same values
    sr.clock();
    assert_eq!(sr.reg, first);
}

#[test]
fn noise_period_table_is_not_truncated() {
    let mut n = Noise::new();
    n.cpu_write(0x400e, 0x0f);
    assert_eq!(n.timer.period, 4068);
    n.cpu_write(0x400e, 0x0e);
    assert_eq!(n.timer.period, 2034);
    n.cpu_write(0x400e, 0x00);
    assert_eq!(n.timer.period, 4);
}

#[test]
fn pulse_mutes_on_period_not_countdown() {
    let mut p = Pulse::new(0);
    p.set_lc_enable(true);
    // duty 50%, constant volume 7
    p.cpu_write(0x4000, 0x97);
    // period 0x064, loads the length counter too
    p.cpu_write(0x4002, 0x64);
    p.cpu_write(0x4003, 0x08);
    // keep the sweep target in range
    p.clock_ppu();
    // run the timer down to a live countdown below 8
    while p.timer.cur >= 8 {
        p.clock_apu();
    }
    assert!(p.timer.period >= 8);
    assert!(p.timer.cur < 8);
    // walk the duty sequencer to a set bit; the channel must not be
    // muted by the low countdown
    let mut found = false;
    for _ in 0..8 {
        if p.sequencer.seq & 0x01 != 0 {
            found = true;
            break;
        }
        p.sequencer.clock();
    }
    assert!(found);
    assert_eq!(p.sample(), 7);
}

#[test]
fn noise_channel_counts_length() {
    let mut n = Noise::new();
    n.set_lc_enable(true);
    // length table entry 1 is 254
    n.cpu_write(0x400f, 0x08);
    assert_eq!(n.length_counter.counter, 254);
    n.clock_half_frame();
    assert_eq!(n.length_counter.counter, 253);
    // disabling zeroes the counter
    n.set_lc_enable(false);
    assert_eq!(n.length_counter.counter, 0);
}

#[test]
fn length_table_values() {
    assert_eq!(length_table_lookup(0), 10);
    assert_eq!(length_table_lookup(1), 254);
    assert_eq!(length_table_lookup(31), 30);
    assert_eq!(length_table_lookup(32), 10);
}

#[test]
fn pulse_duty_and_mute() {
    let mut p = Pulse::new(0);
    // silent out of reset: timer period below 8 mutes
    assert_eq!(p.sample(), 0);
    p.set_lc_enable(true);
    // duty 50%, constant volume 9
    p.cpu_write(0x4000, 0x99);
    // period 0x1f0
    p.cpu_write(0x4002, 0xf0);
    p.cpu_write(0x4003, 0x09);
    assert_eq!(p.timer.period, 0x1f0);
    assert!(p.length_counter.counter > 0);
}

#[test]
fn triangle_wave_descends_then_ascends() {
    let mut t = Triangle::new();
    assert_eq!(t.sample(), 15);
    t.sequencer.clock();
    assert_eq!(t.sample(), 14);
    for _ in 0..14 {
        t.sequencer.clock();
    }
    assert_eq!(t.sample(), 0);
    t.sequencer.clock();
    assert_eq!(t.sample(), 0);
    t.sequencer.clock();
    assert_eq!(t.sample(), 1);
}

#[test]
fn apu_status_register_reports_nonzero_length_counters() {
    let mut apu = Apu::new();
    // disabling zeroes every length counter
    apu.cpu_write(0x4015, 0x00);
    assert_eq!(apu.cpu_read(0x4015), 0x00);
    // enables alone leave the counters at zero, so no bit reads back
    apu.cpu_write(0x4015, 0x0f);
    assert_eq!(apu.cpu_read(0x4015), 0x00);
    // loading a length makes the channel's bit read back
    apu.cpu_write(0x4003, 0x08);
    apu.cpu_write(0x400f, 0x08);
    assert_eq!(apu.cpu_read(0x4015), 0x09);
    // disabling zeroes the counters again
    apu.cpu_write(0x4015, 0x00);
    assert_eq!(apu.cpu_read(0x4015), 0x00);
}
