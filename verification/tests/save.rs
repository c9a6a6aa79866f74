use nessuno::cartridge::Cartridge;
use nessuno::save::{restore_state, save_state};
use nessuno::system::System;

fn nrom_bytes() -> Vec<u8> {
    let mut v = vec![0u8; 16 + 16384 + 8192];
    v[0] = 0x4e;
    v[1] = 0x45;
    v[2] = 0x53;
    v[3] = 0x1a;
    v[4] = 1;
    v[5] = 1;
    // a small program: LDA #$42 / STA $0200 / JMP $8005
    let prog = [0xa9, 0x42, 0x8d, 0x00, 0x02, 0x4c, 0x05, 0x80];
    v[16..16 + prog.len()].copy_from_slice(&prog);
    v[16 + 0x3ffc] = 0x00;
    v[16 + 0x3ffd] = 0x80;
    v
}

fn make_system() -> System {
    let cart = Cartridge::from_bytes(&nrom_bytes()).unwrap();
    System::new(cart, 44100)
}

#[test]
fn save_then_restore_reproduces_the_state() {
    let mut s = make_system();
    s.reset();
    for _ in 0..12345 {
        s.clock();
    }
    let image = save_state(&s);
    let r = restore_state(&image).expect("restore failed");

    assert_eq!(r.cpu.a, s.cpu.a);
    assert_eq!(r.cpu.x, s.cpu.x);
    assert_eq!(r.cpu.y, s.cpu.y);
    assert_eq!(r.cpu.stkp, s.cpu.stkp);
    assert_eq!(r.cpu.pc, s.cpu.pc);
    assert_eq!(r.cpu.status, s.cpu.status);
    assert_eq!(r.cpu.cycles, s.cpu.cycles);
    assert_eq!(r.bus.ram_cpu, s.bus.ram_cpu);
    assert_eq!(r.bus.ppu.scanline, s.bus.ppu.scanline);
    assert_eq!(r.bus.ppu.cycle, s.bus.ppu.cycle);
    assert_eq!(r.bus.ppu.status.reg, s.bus.ppu.status.reg);
    assert_eq!(r.bus.ppu.vram_addr.reg, s.bus.ppu.vram_addr.reg);
    assert_eq!(r.bus.ppu.tbl_name, s.bus.ppu.tbl_name);
    assert_eq!(r.bus.ppu.tbl_palette, s.bus.ppu.tbl_palette);
    for i in 0..64 {
        assert_eq!(r.bus.ppu.oam[i].y, s.bus.ppu.oam[i].y);
        assert_eq!(r.bus.ppu.oam[i].x, s.bus.ppu.oam[i].x);
    }
    assert_eq!(
        r.bus.apu.frame_counter.ppu_clock_counter,
        s.bus.apu.frame_counter.ppu_clock_counter
    );
    assert_eq!(r.bus.cart.sha1_digest, s.bus.cart.sha1_digest);
    assert_eq!(r.bus.cart.mem_prg, s.bus.cart.mem_prg);
    assert_eq!(r.bus.cart.mem_chr, s.bus.cart.mem_chr);
    assert_eq!(r.bus.dma_transfer, s.bus.dma_transfer);
    assert_eq!(r.clock_counter, s.clock_counter);
    assert_eq!(r.sample_rate, s.sample_rate);
    assert_eq!(r.audio_time_acc, s.audio_time_acc);

    // the restored machine walks in lockstep with the original
    let mut a = s;
    let mut b = r;
    for _ in 0..20000 {
        a.clock();
        b.clock();
        assert_eq!(a.cpu.pc, b.cpu.pc);
        assert_eq!(a.cpu.a, b.cpu.a);
        assert_eq!(a.bus.ppu.scanline, b.bus.ppu.scanline);
        assert_eq!(a.bus.ppu.cycle, b.bus.ppu.cycle);
        assert_eq!(a.bus.ppu.status.reg, b.bus.ppu.status.reg);
    }
    // and serializing the restored machine gives the same image
    assert_eq!(save_state(&restore_state(&image).unwrap()), image);
}

#[test]
fn restore_rejects_truncated_images() {
    let mut s = make_system();
    s.reset();
    let image = save_state(&s);
    for cut in [0usize, 1, 13, 100, image.len() - 1] {
        let shorter = image[..cut].to_vec();
        assert!(restore_state(&shorter).is_none());
    }
}
