use nessuno::cartridge::{Cartridge, CartridgeError, Mirror, patch_rom};
use nessuno::mapper::MapResult;
use nessuno::mapper::mapper001::Mapper001;
use nessuno::mapper::mapper002::Mapper002;
use nessuno::mapper::mapper004::Mapper004;
use nessuno::mapper::mapper007::Mapper007;

/// A minimal NROM image: one PRG bank with a reset vector at 0x8000
/// and an LDA #$42 at the entry point, one CHR bank.
fn nrom_bytes() -> Vec<u8> {
    let mut v = vec![0u8; 16 + 16384 + 8192];
    v[0] = 0x4e;
    v[1] = 0x45;
    v[2] = 0x53;
    v[3] = 0x1a;
    v[4] = 1;
    v[5] = 1;
    v[16] = 0xa9;
    v[17] = 0x42;
    v[16 + 0x3ffc] = 0x00;
    v[16 + 0x3ffd] = 0x80;
    v
}

#[test]
fn rejects_short_image() {
    let v = vec![0x4eu8, 0x45, 0x53];
    assert!(matches!(Cartridge::from_bytes(&v), Err(CartridgeError::TooShort)));
}

#[test]
fn rejects_bad_magic() {
    let mut v = nrom_bytes();
    v[0] = 0x00;
    assert!(matches!(Cartridge::from_bytes(&v), Err(CartridgeError::BadMagic)));
}

#[test]
fn rejects_unsupported_mapper() {
    let mut v = nrom_bytes();
    // mapper id 5 in the high nibble of flags byte 1
    v[6] = 0x50;
    assert!(matches!(Cartridge::from_bytes(&v), Err(CartridgeError::UnsupportedMapper(5))));
}

#[test]
fn rejects_zero_prg_banks() {
    let mut v = nrom_bytes();
    v[4] = 0;
    assert!(matches!(Cartridge::from_bytes(&v), Err(CartridgeError::BadBankCount)));
}

#[test]
fn loads_nrom_and_digests_content() {
    let v = nrom_bytes();
    let cart = Cartridge::from_bytes(&v).unwrap();
    assert_eq!(cart.sha1_digest.as_str(), "eeaede05b6982f1ffa784119e51ce8f27910d065");
    assert!(matches!(cart.mirror(), Mirror::Horizontal));
}

#[test]
fn nrom_cpu_read_mirrors_16k() {
    let v = nrom_bytes();
    let mut cart = Cartridge::from_bytes(&v).unwrap();
    assert_eq!(cart.cpu_read(0x8000), Some(0xa9));
    assert_eq!(cart.cpu_read(0x8001), Some(0x42));
    // 16 KiB bank mirrored at 0xc000
    assert_eq!(cart.cpu_read(0xc000), Some(0xa9));
    assert_eq!(cart.cpu_read(0xfffc), Some(0x00));
    assert_eq!(cart.cpu_read(0xfffd), Some(0x80));
    assert_eq!(cart.cpu_read(0x5000), None);
}

#[test]
fn ips_patch_applies_hunks() {
    let mut rom = vec![0u8; 32];
    // one hunk: offset 4, three bytes 0xaa 0xbb 0xcc
    let mut patch: Vec<u8> = Vec::new();
    patch.extend_from_slice(b"PATCH");
    patch.extend_from_slice(&[0, 0, 4]);
    patch.extend_from_slice(&[0, 3]);
    patch.extend_from_slice(&[0xaa, 0xbb, 0xcc]);
    patch.extend_from_slice(b"EOF");
    assert!(patch_rom(&mut rom, &patch));
    assert_eq!(&rom[4..7], &[0xaa, 0xbb, 0xcc]);
    assert_eq!(rom[3], 0);
    assert_eq!(rom[7], 0);
}

#[test]
fn ips_patch_out_of_range_is_rejected() {
    let mut rom = vec![0u8; 4];
    let mut patch: Vec<u8> = Vec::new();
    patch.extend_from_slice(b"PATCH");
    patch.extend_from_slice(&[0, 0, 2]);
    patch.extend_from_slice(&[0, 3]);
    patch.extend_from_slice(&[0xaa, 0xbb, 0xcc]);
    patch.extend_from_slice(b"EOF");
    assert!(!patch_rom(&mut rom, &patch));
}

#[test]
fn ips_garbage_is_rejected() {
    let mut rom = vec![0u8; 4];
    let patch = vec![1u8, 2, 3];
    assert!(!patch_rom(&mut rom, &patch));
}

#[test]
fn mmc1_serial_commit() {
    let mut m = Mapper001::new(8, 1);
    assert_eq!(m.load_reg, 0x10);
    assert_eq!(m.control_reg, 0x1c);
    // five writes of 0x01, 0x00, 0x01, 0x00, 0x00 to 0xe000 commit
    // the value 0b00101 to the PRG register (address bits 13..14 = 3)
    for d in [0x01u8, 0x00, 0x01, 0x00, 0x00] {
        let r = m.cpu_map_write(0xe000, d);
        assert!(matches!(r, MapResult::DirectWrite));
    }
    // the load register is rearmed
    assert_eq!(m.load_reg, 0x10);
    // control mode 3 out of reset: switchable low bank, fixed last
    assert_eq!(m.control_reg, 0x1c);
    assert_eq!(m.prg_bank_select_16_lo, 5);
    assert_eq!(m.prg_bank_select_16_hi, 7);
    assert!(matches!(m.mirror(), Mirror::Horizontal));
}

#[test]
fn mmc1_reset_bit_rearms_serial() {
    let mut m = Mapper001::new(8, 1);
    m.cpu_map_write(0x8000, 0x01);
    m.cpu_map_write(0x8000, 0x80);
    assert_eq!(m.load_reg, 0x10);
    assert_eq!(m.control_reg, 0x1c | 0x0c);
}

#[test]
fn uxrom_bank_switch() {
    let mut m = Mapper002::new(4, 0);
    m.cpu_map_write(0x8000, 0x02);
    match m.cpu_map_read(0x8000) {
        MapResult::MapAddr(a) => assert_eq!(a, 2 * 0x4000),
        _ => panic!("expected a mapped address"),
    }
    // the high window stays fixed on the last bank
    match m.cpu_map_read(0xc000) {
        MapResult::MapAddr(a) => assert_eq!(a, 3 * 0x4000),
        _ => panic!("expected a mapped address"),
    }
}

#[test]
fn axrom_bank_and_mirror() {
    let mut m = Mapper007::new(8, 0);
    m.cpu_map_write(0x8000, 0x12);
    assert_eq!(m.prg_bank_select, 2);
    assert!(matches!(m.mirror(), Mirror::OneScreenHi));
}

#[test]
fn mmc3_scanline_irq() {
    let mut m = Mapper004::new(8, 8);
    // reload 2, enable
    m.cpu_map_write(0xc000, 0x02);
    m.cpu_map_write(0xc001, 0x00);
    m.cpu_map_write(0xe001, 0x00);
    m.on_scanline_end();  // counter 0 -> reload 2
    assert!(!m.irq_state());
    m.on_scanline_end();  // 2 -> 1
    assert!(!m.irq_state());
    m.on_scanline_end();  // 1 -> 0: line asserted
    assert!(m.irq_state());
    m.irq_clear();
    assert!(!m.irq_state());
    // an explicit disable clears the pending line too
    m.on_scanline_end();
    m.on_scanline_end();
    m.on_scanline_end();
    assert!(m.irq_state());
    m.cpu_map_write(0xe000, 0x00);
    assert!(!m.irq_state());
}
