use nessuno::bus::CpuBus;
use nessuno::cartridge::Cartridge;
use nessuno::controller::ControllerInput;
use nessuno::system::System;

fn nrom_bytes() -> Vec<u8> {
    let mut v = vec![0u8; 16 + 16384 + 8192];
    v[0] = 0x4e;
    v[1] = 0x45;
    v[2] = 0x53;
    v[3] = 0x1a;
    v[4] = 1;
    v[5] = 1;
    v[16] = 0xa9;
    v[17] = 0x42;
    v[16 + 0x3ffc] = 0x00;
    v[16 + 0x3ffd] = 0x80;
    v
}

fn make_system() -> System {
    let cart = Cartridge::from_bytes(&nrom_bytes()).unwrap();
    System::new(cart, 44100)
}

#[test]
fn ram_write_then_read_round_trips() {
    let mut s = make_system();
    for a in [0x0000u16, 0x0001, 0x07ff, 0x0800, 0x1fff] {
        s.bus.cpu_write(a, 0x5a);
        assert_eq!(s.bus.cpu_read(a), 0x5a);
        s.bus.cpu_write(a, 0xa5);
        assert_eq!(s.bus.cpu_read(a), 0xa5);
    }
    // the 2 KiB are mirrored four times
    s.bus.cpu_write(0x0042, 0x77);
    assert_eq!(s.bus.cpu_read(0x0842), 0x77);
    assert_eq!(s.bus.cpu_read(0x1042), 0x77);
}

#[test]
fn clock_counter_is_strictly_monotone() {
    let mut s = make_system();
    let mut last = s.clock_counter;
    for _ in 0..10000 {
        s.clock();
        assert!(s.clock_counter > last);
        assert_eq!(s.clock_counter, last + 1);
        last = s.clock_counter;
    }
}

/// The canonical successor of a PPU timing point, including the
/// dot-skip out of (0, 0) on odd frames with background rendering on.
fn canonical_step(scanline: i32, cycle: usize, skip: bool) -> (i32, usize) {
    if scanline == 0 && cycle == 0 && skip {
        (0, 2)
    } else if cycle + 1 >= 341 {
        if scanline + 1 >= 261 {
            (-1, 0)
        } else {
            (scanline + 1, 0)
        }
    } else {
        (scanline, cycle + 1)
    }
}

#[test]
fn ppu_advances_one_canonical_step_per_clock() {
    let mut s = make_system();
    // run once with rendering off and once with background on, so
    // both sides of the dot skip are exercised
    s.bus.cpu_write(0x2001, 0x08);
    for _ in 0..200000 {
        let before = (s.bus.ppu.scanline, s.bus.ppu.cycle);
        let skip = s.bus.ppu.odd_frame && (s.bus.ppu.mask.reg & 0x08 != 0);
        s.clock();
        let after = (s.bus.ppu.scanline, s.bus.ppu.cycle);
        assert_eq!(after, canonical_step(before.0, before.1, skip));
    }
    s.bus.cpu_write(0x2001, 0x00);
    for _ in 0..200000 {
        let before = (s.bus.ppu.scanline, s.bus.ppu.cycle);
        let skip = s.bus.ppu.odd_frame && (s.bus.ppu.mask.reg & 0x08 != 0);
        s.clock();
        let after = (s.bus.ppu.scanline, s.bus.ppu.cycle);
        assert_eq!(after, canonical_step(before.0, before.1, skip));
    }
}

#[test]
fn nrom_boot_reaches_first_instruction() {
    let mut s = make_system();
    s.reset();
    assert_eq!(s.cpu.stkp, 0xfd);
    // burn the reset sequence to the first instruction boundary
    loop {
        let r = s.clock();
        if r.cpu_complete {
            break;
        }
    }
    assert_eq!(s.cpu.pc, 0x8000);
    // the next boundary lies past the two-byte LDA immediate
    loop {
        s.clock();
        if s.cpu.cycles != 0 {
            break;
        }
    }
    loop {
        let r = s.clock();
        if r.cpu_complete {
            break;
        }
    }
    assert_eq!(s.cpu.pc, 0x8002);
    assert_eq!(s.cpu.a, 0x42);
    assert_eq!(s.cpu.stkp, 0xfd);
}

#[test]
fn oam_dma_copies_a_page_and_freezes_the_cpu() {
    let mut s = make_system();
    // source page 0x02 holds 0x00..=0xff
    for i in 0..256u16 {
        s.bus.cpu_write(0x0200 + i, i as u8);
    }
    let pc_before = s.cpu.pc;
    assert_eq!(s.clock_counter % 2, 0);
    s.bus.cpu_write(0x4014, 0x02);
    assert!(s.bus.dma_transfer);

    let mut steps = 0u32;
    while s.bus.dma_transfer {
        s.clock();
        steps += 1;
        assert!(steps < 4000);
    }
    // alignment plus 256 read/write pairs on every third master cycle
    let even_steps = steps;
    for i in 0..64usize {
        assert_eq!(s.bus.ppu.oam[i].y, (4 * i) as u8);
        assert_eq!(s.bus.ppu.oam[i].id, (4 * i + 1) as u8);
        assert_eq!(s.bus.ppu.oam[i].attrib, (4 * i + 2) as u8);
        assert_eq!(s.bus.ppu.oam[i].x, (4 * i + 3) as u8);
    }
    // the CPU never advanced an instruction
    assert_eq!(s.cpu.pc, pc_before);

    // an odd-aligned start takes one CPU cycle less here, three
    // master cycles
    let mut s2 = make_system();
    for i in 0..256u16 {
        s2.bus.cpu_write(0x0200 + i, i as u8);
    }
    s2.clock();
    assert_eq!(s2.clock_counter % 2, 1);
    s2.bus.cpu_write(0x4014, 0x02);
    let mut steps2 = 0u32;
    while s2.bus.dma_transfer {
        s2.clock();
        steps2 += 1;
        assert!(steps2 < 4000);
    }
    // the transfer spans 514 CPU slots from an even-aligned write
    // (counters 0, 3, ..., 1539) and 513 from an odd-aligned one
    assert_eq!(even_steps, 1540);
    assert_eq!(steps2, 1539);
    assert_eq!(even_steps, steps2 + 1);
}

#[test]
fn controller_latch_and_shift() {
    let mut s = make_system();
    s.controller_update(&[ControllerInput::A, ControllerInput::Right], &[]);
    // latch both ports
    s.bus.cpu_write(0x4016, 1);
    // A is the MSB, Right the LSB
    let mut bits = [0u8; 8];
    for b in bits.iter_mut() {
        *b = s.bus.cpu_read(0x4016);
    }
    assert_eq!(bits, [1, 0, 0, 0, 0, 0, 0, 1]);
    // further reads shift zeros out
    assert_eq!(s.bus.cpu_read(0x4016), 0);
}

#[test]
fn frame_loop_completes() {
    // run a couple of frames end to end; one frame is 341 * 262 dots
    // minus the skipped one
    let mut s = make_system();
    s.reset();
    let mut frames = 0;
    let mut steps = 0u32;
    while frames < 2 {
        let r = s.clock();
        if r.frame_complete {
            frames += 1;
        }
        steps += 1;
        assert!(steps < 400000);
    }
}
