use nessuno::bus::CpuBus;
use nessuno::cartridge::Cartridge;
use nessuno::ppu::compose_pixel;
use nessuno::system::System;

/// An NROM image whose CHR region is RAM, so tests can draw patterns.
fn chr_ram_bytes() -> Vec<u8> {
    let mut v = vec![0u8; 16 + 16384];
    v[0] = 0x4e;
    v[1] = 0x45;
    v[2] = 0x53;
    v[3] = 0x1a;
    v[4] = 1;
    v[5] = 0;
    // an idle loop at the entry point: JMP $8000
    v[16] = 0x4c;
    v[17] = 0x00;
    v[18] = 0x80;
    v[16 + 0x3ffc] = 0x00;
    v[16 + 0x3ffd] = 0x80;
    v
}

fn make_system() -> System {
    let cart = Cartridge::from_bytes(&chr_ram_bytes()).unwrap();
    System::new(cart, 44100)
}

#[test]
fn composition_picks_backdrop_and_priority_sprite() {
    // both transparent: backdrop
    assert_eq!(compose_pixel(3, 0, 5, 0, true), (0, 0));
    assert_eq!(compose_pixel(3, 0, 5, 0, false), (0, 0));
    // transparent background: sprite
    assert_eq!(compose_pixel(3, 0, 5, 2, false), (5, 2));
    // transparent sprite: background
    assert_eq!(compose_pixel(3, 1, 5, 0, true), (3, 1));
    // both opaque: the priority bit decides
    assert_eq!(compose_pixel(3, 1, 5, 2, true), (5, 2));
    assert_eq!(compose_pixel(3, 1, 5, 2, false), (3, 1));
}

/// Write one byte through the PPU address port.
fn vram_write(s: &mut System, addr: u16, data: u8) {
    s.bus.cpu_write(0x2006, (addr >> 8) as u8);
    s.bus.cpu_write(0x2006, (addr & 0xff) as u8);
    s.bus.cpu_write(0x2007, data);
}

/// Read one byte through the PPU data port: one read primes the
/// delay buffer, then the address is set again and read back.
fn vram_read(s: &mut System, addr: u16) -> u8 {
    s.bus.cpu_write(0x2006, (addr >> 8) as u8);
    s.bus.cpu_write(0x2006, (addr & 0xff) as u8);
    let _ = s.bus.cpu_read(0x2007);
    s.bus.cpu_write(0x2006, (addr >> 8) as u8);
    s.bus.cpu_write(0x2006, (addr & 0xff) as u8);
    s.bus.cpu_read(0x2007)
}

#[test]
fn palette_mirrors_fold_backdrop_entries() {
    let mut s = make_system();
    for (mirror, base) in [(0x3f10u16, 0x3f00u16), (0x3f14, 0x3f04), (0x3f18, 0x3f08), (0x3f1c, 0x3f0c)] {
        vram_write(&mut s, mirror, 0x2a);
        assert_eq!(vram_read(&mut s, base), 0x2a);
        vram_write(&mut s, base, 0x15);
        assert_eq!(vram_read(&mut s, mirror), 0x15);
    }
}

#[test]
fn palette_reads_skip_the_delay_buffer() {
    let mut s = make_system();
    // a palette read returns the fresh value on the very first data
    // read, including at 0x3f00 itself
    vram_write(&mut s, 0x3f00, 0x31);
    vram_write(&mut s, 0x3f11, 0x27);
    s.bus.cpu_write(0x2006, 0x3f);
    s.bus.cpu_write(0x2006, 0x00);
    assert_eq!(s.bus.cpu_read(0x2007), 0x31);
    s.bus.cpu_write(0x2006, 0x3f);
    s.bus.cpu_write(0x2006, 0x11);
    assert_eq!(s.bus.cpu_read(0x2007), 0x27);
    // a nametable read stays delayed by one access
    vram_write(&mut s, 0x2005, 0x55);
    s.bus.cpu_write(0x2006, 0x20);
    s.bus.cpu_write(0x2006, 0x05);
    let stale = s.bus.cpu_read(0x2007);
    let _ = stale;
    s.bus.cpu_write(0x2006, 0x20);
    s.bus.cpu_write(0x2006, 0x05);
    assert_eq!(s.bus.cpu_read(0x2007), 0x55);
}

#[test]
fn dot_skip_only_on_odd_frames_with_background_on() {
    let mut s = make_system();
    // with rendering off, every frame is the full 341 * 262 dots
    let mut steps = 0u32;
    let mut last: Option<u32> = None;
    let mut frames = 0;
    while frames < 3 {
        let r = s.clock();
        steps += 1;
        if r.frame_complete {
            if let Some(prev) = last {
                assert_eq!(steps - prev, 341 * 262);
            }
            last = Some(steps);
            frames += 1;
        }
        assert!(steps < 500000);
    }
    // with background on, odd frame transitions drop one dot
    s.bus.cpu_write(0x2001, 0x08);
    let mut lengths: Vec<u32> = Vec::new();
    let mut prev = 0u32;
    steps = 0;
    frames = 0;
    while frames < 4 {
        let r = s.clock();
        steps += 1;
        if r.frame_complete {
            lengths.push(steps - prev);
            prev = steps;
            frames += 1;
        }
        assert!(steps < 800000);
    }
    assert!(lengths.contains(&(341 * 262)));
    assert!(lengths.contains(&(341 * 262 - 1)));
}

#[test]
fn vram_read_write_round_trips_nametables() {
    let mut s = make_system();
    vram_write(&mut s, 0x2000, 0x42);
    vram_write(&mut s, 0x23ff, 0x17);
    assert_eq!(vram_read(&mut s, 0x2000), 0x42);
    assert_eq!(vram_read(&mut s, 0x23ff), 0x17);
}

#[test]
fn status_read_clears_vblank_and_latch() {
    let mut s = make_system();
    // run until the vblank flag raises at scanline 241
    let mut steps = 0u32;
    while s.bus.ppu.status.reg & 0x80 == 0 {
        s.clock();
        steps += 1;
        assert!(steps < 200000);
    }
    let v = s.bus.cpu_read(0x2002);
    assert!(v & 0x80 != 0);
    assert!(s.bus.ppu.status.reg & 0x80 == 0);
}

#[test]
fn sprite_zero_hit_fires_where_sprite_meets_background() {
    let mut s = make_system();
    // tile 0 of the CHR RAM: all pixels on, in both planes
    for row in 0..8 {
        vram_write(&mut s, row, 0xff);
        vram_write(&mut s, row + 8, 0xff);
    }
    // the nametable already selects tile 0 everywhere, which is opaque
    // sprite 0 at pixel (50, 29): visible on scanline 30.  The OAM
    // address port selects each byte in turn.
    s.bus.cpu_write(0x2003, 0x00);
    s.bus.cpu_write(0x2004, 29);  // y
    s.bus.cpu_write(0x2003, 0x01);
    s.bus.cpu_write(0x2004, 0);   // tile
    s.bus.cpu_write(0x2003, 0x02);
    s.bus.cpu_write(0x2004, 0);   // attributes
    s.bus.cpu_write(0x2003, 0x03);
    s.bus.cpu_write(0x2004, 50);  // x
    s.bus.cpu_write(0x2003, 0x00);
    // enable background and sprites, including the left column
    s.bus.cpu_write(0x2001, 0x1e);

    let mut steps = 0u32;
    let mut hit_at: Option<(i32, usize)> = None;
    loop {
        s.clock();
        steps += 1;
        if s.bus.ppu.status.reg & 0x40 != 0 {
            hit_at = Some((s.bus.ppu.scanline, s.bus.ppu.cycle));
            break;
        }
        if steps >= 200000 {
            break;
        }
    }
    let (sl, dot) = hit_at.expect("sprite zero hit never fired");
    assert_eq!(sl, 30);
    assert!(dot <= 52);
}
