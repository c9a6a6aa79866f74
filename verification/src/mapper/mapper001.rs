use vstd::prelude::*;
use crate::cartridge::Mirror;
use crate::mapper::{MapResult, Mapper};

verus! {

broadcast use crate::bitops::lemma_u16_and_le;

/// MMC1: a serial five-bit load register commits, on its fifth write,
/// to one of four internal registers selected by address bits 13..14.
pub struct Mapper001 {
    pub num_banks_prg: usize,
    pub num_banks_chr: usize,
    pub prg_ram: Vec<u8>,
    pub mirror_mode: Mirror,
    pub control_reg: u8,
    pub load_reg: u8,
    pub prg_bank_select_16_lo: usize,
    pub prg_bank_select_16_hi: usize,
    pub prg_bank_select_32: usize,
    pub chr_bank_select_4_lo: usize,
    pub chr_bank_select_4_hi: usize,
    pub chr_bank_select_8: usize,
}

/// One serial step: the data bit enters at bit 4 while the register
/// shifts right.
pub open spec fn m1_load_step(load: u8, data: u8) -> u8 {
    (load >> 1) | ((data & 0x01) << 4)
}

/// The PRG translation MMC1 applies to a CPU access: battery RAM
/// answers 0x6000..=0x7fff, above it the control register picks
/// 16 KiB or 32 KiB banking (a single-bank image falls back to its
/// one 16 KiB bank).
pub open spec fn spec_m1_cpu_map(m: &Mapper001, addr: u16) -> MapResult {
    if 0x6000 <= addr && addr < 0x8000 {
        MapResult::DirectRead(m.prg_ram@[(addr & 0x1fff) as int])
    } else if 0x8000 <= addr {
        if m.control_reg & 0x08 != 0 {
            if addr < 0xc000 {
                MapResult::MapAddr((m.prg_bank_select_16_lo * 0x4000 + (addr & 0x3fff) as usize) as usize)
            } else {
                MapResult::MapAddr((m.prg_bank_select_16_hi * 0x4000 + (addr & 0x3fff) as usize) as usize)
            }
        } else {
            if m.num_banks_prg >= 2 {
                MapResult::MapAddr((m.prg_bank_select_32 * 0x8000 + (addr & 0x7fff) as usize) as usize)
            } else {
                MapResult::MapAddr((addr & 0x3fff) as usize)
            }
        }
    } else {
        MapResult::Decline
    }
}

/// The CHR translation MMC1 applies: a RAM image passes through,
/// a ROM image banks in 4 KiB or 8 KiB units.
pub open spec fn spec_m1_ppu_map(m: &Mapper001, addr: u16) -> MapResult {
    if addr < 0x2000 {
        if m.num_banks_chr == 0 {
            MapResult::MapAddr(addr as usize)
        } else if m.control_reg & 0x10 != 0 {
            if addr < 0x1000 {
                MapResult::MapAddr((m.chr_bank_select_4_lo * 0x1000 + addr as usize) as usize)
            } else {
                MapResult::MapAddr((m.chr_bank_select_4_hi * 0x1000 + (addr & 0x0fff) as usize) as usize)
            }
        } else {
            MapResult::MapAddr((m.chr_bank_select_8 * 0x2000 + addr as usize) as usize)
        }
    } else {
        MapResult::Decline
    }
}

impl Mapper001 {
    pub open spec fn inv(&self) -> bool {
        &&& 1 <= self.num_banks_prg <= 256
        &&& self.num_banks_chr <= 256
        &&& self.prg_ram@.len() == 8192
        &&& self.prg_bank_select_16_lo < self.num_banks_prg
        &&& self.prg_bank_select_16_hi < self.num_banks_prg
        &&& (self.num_banks_prg >= 2 ==> self.prg_bank_select_32 < self.num_banks_prg / 2)
        &&& (self.num_banks_prg < 2 ==> self.prg_bank_select_32 == 0)
        &&& (self.num_banks_chr >= 1 ==> self.chr_bank_select_4_lo < self.num_banks_chr * 2
            && self.chr_bank_select_4_hi < self.num_banks_chr * 2
            && self.chr_bank_select_8 < self.num_banks_chr)
        &&& (self.num_banks_chr == 0 ==> self.chr_bank_select_4_lo == 0
            && self.chr_bank_select_4_hi == 0 && self.chr_bank_select_8 == 0)
    }

    pub fn new(num_banks_prg: usize, num_banks_chr: usize) -> (r: Mapper001)
        requires
            1 <= num_banks_prg <= 256,
            num_banks_chr <= 256,
        ensures
            r.inv(),
            r.num_banks_prg == num_banks_prg,
            r.num_banks_chr == num_banks_chr,
            r.control_reg == 0x1c,
            r.load_reg == 0x10,
            r.mirror_mode == Mirror::Horizontal,
            r.prg_bank_select_16_lo == 0,
            r.prg_bank_select_16_hi == num_banks_prg - 1,
            forall|i: int| 0 <= i < 8192 ==> r.prg_ram@[i] == 0,
    {
        Mapper001 {
            num_banks_prg,
            num_banks_chr,
            prg_ram: vec![0u8; 8192],
            mirror_mode: Mirror::Horizontal,
            control_reg: 0x1c,
            load_reg: 0x10,
            prg_bank_select_16_lo: 0,
            prg_bank_select_16_hi: num_banks_prg - 1,
            prg_bank_select_32: 0,
            chr_bank_select_4_lo: 0,
            chr_bank_select_4_hi: 0,
            chr_bank_select_8: 0,
        }
    }

    /// PRG translation: battery RAM answers 0x6000..=0x7fff directly;
    /// above it the control register picks 16 KiB or 32 KiB banking.
    pub fn cpu_map_read_ro(&self, addr: u16) -> (r: MapResult)
        requires
            self.inv(),
        ensures
            r == spec_m1_cpu_map(self, addr),
            r matches MapResult::MapAddr(ma) ==> ma < self.num_banks_prg * 0x4000,
    {
        if 0x6000 <= addr && addr < 0x8000 {
            MapResult::DirectRead(self.prg_ram[(addr & 0x1fff) as usize])
        } else if 0x8000 <= addr {
            if self.control_reg & 0x08 != 0 {
                // 16 KiB banking
                if addr < 0xc000 {
                    proof {
                        crate::bitops::lemma_bank_bound(
                            self.prg_bank_select_16_lo as int,
                            0x4000,
                            self.num_banks_prg as int,
                            (addr & 0x3fff) as int,
                        );
                    }
                    MapResult::MapAddr(self.prg_bank_select_16_lo * 0x4000 + (addr & 0x3fff) as usize)
                } else {
                    proof {
                        crate::bitops::lemma_bank_bound(
                            self.prg_bank_select_16_hi as int,
                            0x4000,
                            self.num_banks_prg as int,
                            (addr & 0x3fff) as int,
                        );
                    }
                    MapResult::MapAddr(self.prg_bank_select_16_hi * 0x4000 + (addr & 0x3fff) as usize)
                }
            } else {
                // 32 KiB banking; a single-bank image falls back to
                // its one 16 KiB bank
                if self.num_banks_prg >= 2 {
                    proof {
                        crate::bitops::lemma_bank_bound(
                            self.prg_bank_select_32 as int,
                            0x8000,
                            (self.num_banks_prg / 2) as int,
                            (addr & 0x7fff) as int,
                        );
                        assert((self.num_banks_prg / 2) * 0x8000 <= self.num_banks_prg * 0x4000)
                            by (nonlinear_arith);
                    }
                    MapResult::MapAddr(self.prg_bank_select_32 * 0x8000 + (addr & 0x7fff) as usize)
                } else {
                    MapResult::MapAddr((addr & 0x3fff) as usize)
                }
            }
        } else {
            MapResult::Decline
        }
    }

    pub fn cpu_map_read(&mut self, addr: u16) -> (r: MapResult)
        requires
            old(self).inv(),
        ensures
            *final(self) == *old(self),
            r == spec_m1_cpu_map(old(self), addr),
            r matches MapResult::MapAddr(ma) ==> ma < old(self).num_banks_prg * 0x4000,
    {
        self.cpu_map_read_ro(addr)
    }

    /// Serial port: bit 7 resets the load register and re-fixes the
    /// PRG mode; otherwise bits shift in, and the fifth write commits
    /// to the register selected by address bits 13..14.
    pub fn cpu_map_write(&mut self, addr: u16, data: u8) -> (r: MapResult)
        requires
            old(self).inv(),
        ensures
            final(self).inv(),
            final(self).num_banks_prg == old(self).num_banks_prg,
            final(self).num_banks_chr == old(self).num_banks_chr,
            addr < 0x6000 ==> r == MapResult::Decline && *final(self) == *old(self),
            0x6000 <= addr < 0x8000 ==> r == MapResult::DirectWrite && *final(self) == (Mapper001 {
                prg_ram: final(self).prg_ram,
                ..*old(self)
            }) && final(self).prg_ram@ == old(self).prg_ram@.update((addr & 0x1fff) as int, data),
            0x8000 <= addr ==> r == MapResult::DirectWrite,
            // the reset bit clears the serial state and ORs 0x0c into
            // the control register
            0x8000 <= addr && data & 0x80 != 0 ==> final(self).load_reg == 0x10
                && final(self).control_reg == (old(self).control_reg | 0x0c)
                && final(self).mirror_mode == old(self).mirror_mode,
            // an ordinary write with the register not yet full only
            // shifts a bit in
            0x8000 <= addr && data & 0x80 == 0 && old(self).load_reg & 0x01 == 0 ==> *final(self)
                == (Mapper001 {
                load_reg: m1_load_step(old(self).load_reg, data),
                ..*old(self)
            }),
            // the fifth bit commits and rearms the load register
            0x8000 <= addr && data & 0x80 == 0 && old(self).load_reg & 0x01 != 0 ==> {
                &&& final(self).load_reg == 0x10
                &&& ((addr >> 13) & 0x03 == 0 ==> final(self).control_reg == m1_load_step(
                    old(self).load_reg,
                    data,
                ) & 0x1f && final(self).mirror_mode == (if final(self).control_reg % 4 == 0 {
                    Mirror::OneScreenLo
                } else if final(self).control_reg % 4 == 1 {
                    Mirror::OneScreenHi
                } else if final(self).control_reg % 4 == 2 {
                    Mirror::Vertical
                } else {
                    Mirror::Horizontal
                }))
                &&& ((addr >> 13) & 0x03 != 0 ==> final(self).control_reg == old(self).control_reg
                    && final(self).mirror_mode == old(self).mirror_mode)
                &&& ((addr >> 13) & 0x03 == 1 ==> ((old(self).num_banks_chr > 0 && old(self).control_reg & 0x10 != 0 ==> final(self).chr_bank_select_4_lo == (m1_load_step(
                    old(self).load_reg,
                    data,
                ) as usize) % (((old(self).num_banks_chr * 2)) as usize) && final(self).chr_bank_select_8 == old(self).chr_bank_select_8) && (old(self).num_banks_chr > 0 && old(self).control_reg & 0x10
                    == 0 ==> final(self).chr_bank_select_8 == ((m1_load_step(old(self).load_reg, data)
                    >> 1) as usize) % old(self).num_banks_chr && final(self).chr_bank_select_4_lo
                    == old(self).chr_bank_select_4_lo) && (old(self).num_banks_chr == 0 ==> final(self).chr_bank_select_4_lo == old(self).chr_bank_select_4_lo && final(self).chr_bank_select_8 == old(self).chr_bank_select_8)))
                &&& ((addr >> 13) & 0x03 == 2 ==> ((old(self).num_banks_chr > 0 && old(self).control_reg & 0x10 != 0 ==> final(self).chr_bank_select_4_hi == (m1_load_step(
                    old(self).load_reg,
                    data,
                ) as usize) % (((old(self).num_banks_chr * 2)) as usize)) && (!(old(self).num_banks_chr > 0
                    && old(self).control_reg & 0x10 != 0) ==> final(self).chr_bank_select_4_hi
                    == old(self).chr_bank_select_4_hi)))
                &&& ((addr >> 13) & 0x03 == 3 && (old(self).control_reg >> 2) & 0x03 == 2 ==> {
                    &&& final(self).prg_bank_select_16_lo == 0
                    &&& final(self).prg_bank_select_16_hi == (m1_load_step(old(self).load_reg, data)
                        & 0x0f) as usize % old(self).num_banks_prg
                })
                &&& ((addr >> 13) & 0x03 == 3 && (old(self).control_reg >> 2) & 0x03 == 3 ==> {
                    &&& final(self).prg_bank_select_16_lo == (m1_load_step(old(self).load_reg, data)
                        & 0x0f) as usize % old(self).num_banks_prg
                    &&& final(self).prg_bank_select_16_hi == old(self).num_banks_prg - 1
                })
            },
    {
        if addr < 0x6000 {
            MapResult::Decline
        } else if addr < 0x8000 {
            self.prg_ram[(addr & 0x1fff) as usize] = data;
            MapResult::DirectWrite
        } else {
            if data & 0x80 != 0 {
                // reset serial loading
                self.load_reg = 0x10;
                self.control_reg |= 0x0c;
            } else if self.load_reg & 0x01 != 0 {
                // register is full: this bit completes the value
                let value = (self.load_reg >> 1) | ((data & 0x01) << 4);

                let target = (addr >> 13) & 0x03;
                if target == 0 {
                    self.control_reg = value & 0x1f;
                    self.mirror_mode = match self.control_reg % 4 {
                        0 => Mirror::OneScreenLo,
                        1 => Mirror::OneScreenHi,
                        2 => Mirror::Vertical,
                        _ => Mirror::Horizontal,
                    };
                } else if target == 1 {
                    // CHR bank low
                    if self.num_banks_chr > 0 {
                        if self.control_reg & 0x10 != 0 {
                            self.chr_bank_select_4_lo = value as usize % (self.num_banks_chr * 2);
                        } else {
                            self.chr_bank_select_8 = (value >> 1) as usize % self.num_banks_chr;
                        }
                    }
                } else if target == 2 {
                    // CHR bank high; only meaningful in 4 KiB mode
                    if self.num_banks_chr > 0 {
                        if self.control_reg & 0x10 != 0 {
                            self.chr_bank_select_4_hi = value as usize % (self.num_banks_chr * 2);
                        }
                    }
                } else {
                    // PRG bank configuration
                    let mode = (self.control_reg >> 2) & 0x03;
                    if mode == 0 || mode == 1 {
                        if self.num_banks_prg >= 2 {
                            self.prg_bank_select_32 = ((value & 0x0e) >> 1) as usize % (
                            self.num_banks_prg / 2);
                        }
                    } else if mode == 2 {
                        self.prg_bank_select_16_lo = 0;
                        self.prg_bank_select_16_hi = (value & 0x0f) as usize % self.num_banks_prg;
                    } else {
                        self.prg_bank_select_16_lo = (value & 0x0f) as usize % self.num_banks_prg;
                        self.prg_bank_select_16_hi = self.num_banks_prg - 1;
                    }
                }
                // rearm the serial register
                self.load_reg = 0x10;
            } else {
                self.load_reg = (self.load_reg >> 1) | ((data & 0x01) << 4);
            }
            MapResult::DirectWrite
        }
    }

    /// CHR translation: RAM images pass the address through, ROM
    /// images bank in 4 KiB or 8 KiB units.
    pub fn ppu_map_read(&mut self, addr: u16) -> (r: MapResult)
        requires
            old(self).inv(),
        ensures
            *final(self) == *old(self),
            r == spec_m1_ppu_map(old(self), addr),
            r matches MapResult::MapAddr(ma) ==> ma < (if old(self).num_banks_chr >= 1 {
                old(self).num_banks_chr * 0x2000
            } else {
                0x2000int
            }),
    {
        if addr < 0x2000 {
            if self.num_banks_chr == 0 {
                MapResult::MapAddr(addr as usize)
            } else if self.control_reg & 0x10 != 0 {
                // 4 KiB banking
                if addr < 0x1000 {
                    proof {
                        crate::bitops::lemma_bank_bound(
                            self.chr_bank_select_4_lo as int,
                            0x1000,
                            (self.num_banks_chr * 2) as int,
                            addr as int,
                        );
                        assert((self.num_banks_chr * 2) * 0x1000 == self.num_banks_chr * 0x2000)
                            by (nonlinear_arith);
                    }
                    MapResult::MapAddr(self.chr_bank_select_4_lo * 0x1000 + addr as usize)
                } else {
                    proof {
                        crate::bitops::lemma_bank_bound(
                            self.chr_bank_select_4_hi as int,
                            0x1000,
                            (self.num_banks_chr * 2) as int,
                            (addr & 0x0fff) as int,
                        );
                        assert((self.num_banks_chr * 2) * 0x1000 == self.num_banks_chr * 0x2000)
                            by (nonlinear_arith);
                    }
                    MapResult::MapAddr(self.chr_bank_select_4_hi * 0x1000 + (addr & 0x0fff) as usize)
                }
            } else {
                // 8 KiB banking
                proof {
                    crate::bitops::lemma_bank_bound(
                        self.chr_bank_select_8 as int,
                        0x2000,
                        self.num_banks_chr as int,
                        addr as int,
                    );
                }
                MapResult::MapAddr(self.chr_bank_select_8 * 0x2000 + addr as usize)
            }
        } else {
            MapResult::Decline
        }
    }

    pub fn ppu_map_write(&mut self, addr: u16, _data: u8) -> (r: MapResult)
        ensures
            *final(self) == *old(self),
            r == (if addr < 0x2000 && old(self).num_banks_chr == 0 {
                MapResult::MapAddr(addr as usize)
            } else {
                MapResult::Decline
            }),
    {
        if addr < 0x2000 && self.num_banks_chr == 0 {
            MapResult::MapAddr(addr as usize)
        } else {
            MapResult::Decline
        }
    }

    pub fn mirror(&self) -> (r: Mirror)
        ensures
            r == self.mirror_mode,
    {
        self.mirror_mode
    }

    /// Back to the power-on state: RAM cleared, serial register
    /// armed, last bank fixed high.
    pub fn reset(&mut self)
        requires
            old(self).inv(),
        ensures
            final(self).inv(),
            final(self).control_reg == 0x1c,
            final(self).load_reg == 0x10,
            final(self).mirror_mode == Mirror::Horizontal,
            final(self).prg_bank_select_16_lo == 0,
            final(self).prg_bank_select_16_hi == old(self).num_banks_prg - 1,
            final(self).num_banks_prg == old(self).num_banks_prg,
            final(self).num_banks_chr == old(self).num_banks_chr,
    {
        self.prg_ram = vec![0u8; 8192];

        self.mirror_mode = Mirror::Horizontal;
        self.control_reg = 0x1c;
        self.load_reg = 0x10;
        self.prg_bank_select_16_lo = 0;
        self.prg_bank_select_16_hi = self.num_banks_prg - 1;
        self.prg_bank_select_32 = 0;
        self.chr_bank_select_4_lo = 0;
        self.chr_bank_select_4_hi = 0;
        self.chr_bank_select_8 = 0;
    }

    /// Replace the battery RAM with a saved image of the right size.
    pub fn load_ram(&mut self, ram: &[u8])
        requires
            old(self).inv(),
        ensures
            final(self).inv(),
            ram@.len() == 8192 ==> final(self).prg_ram@ == ram@,
            ram@.len() != 8192 ==> *final(self) == *old(self),
            *final(self) == (Mapper001 { prg_ram: final(self).prg_ram, ..*old(self) }),
    {
        if self.prg_ram.len() == ram.len() {
            let mut copy: Vec<u8> = Vec::new();
            let mut i: usize = 0;
            while i < ram.len()
                invariant
                    i <= ram@.len(),
                    copy@ == ram@.take(i as int),
                decreases ram@.len() - i,
            {
                copy.push(ram[i]);
                i += 1;
            }
            proof {
                assert(ram@.take(ram@.len() as int) =~= ram@);
            }
            self.prg_ram = copy;
        }
    }

    /// A copy of the battery RAM for persistence.
    pub fn save_ram(&self) -> (r: Option<Vec<u8>>)
        requires
            self.inv(),
        ensures
            r matches Option::Some(v) && v@ == self.prg_ram@,
    {
        let mut copy: Vec<u8> = Vec::new();
        let mut i: usize = 0;
        while i < self.prg_ram.len()
            invariant
                self.inv(),
                i <= self.prg_ram@.len(),
                copy@ == self.prg_ram@.take(i as int),
            decreases self.prg_ram@.len() - i,
        {
            copy.push(self.prg_ram[i]);
            i += 1;
        }
        proof {
            assert(self.prg_ram@.take(self.prg_ram@.len() as int) =~= self.prg_ram@);
        }
        Some(copy)
    }

    pub(crate) fn inv_exec(&self) -> (r: bool)
        ensures
            r == self.inv(),
    {
        1 <= self.num_banks_prg && self.num_banks_prg <= 256 && self.num_banks_chr <= 256
            && self.prg_ram.len() == 8192 && self.prg_bank_select_16_lo < self.num_banks_prg
            && self.prg_bank_select_16_hi < self.num_banks_prg && (if self.num_banks_prg >= 2 {
            self.prg_bank_select_32 < self.num_banks_prg / 2
        } else {
            self.prg_bank_select_32 == 0
        }) && (if self.num_banks_chr >= 1 {
            self.chr_bank_select_4_lo < self.num_banks_chr * 2 && self.chr_bank_select_4_hi
                < self.num_banks_chr * 2 && self.chr_bank_select_8 < self.num_banks_chr
        } else {
            self.chr_bank_select_4_lo == 0 && self.chr_bank_select_4_hi == 0
                && self.chr_bank_select_8 == 0
        })
    }
}

impl Mapper for Mapper001 {
    fn cpu_map_read(&mut self, addr: u16) -> MapResult {
        if self.inv_exec() {
            Mapper001::cpu_map_read(self, addr)
        } else {
            MapResult::Decline
        }
    }

    fn cpu_map_read_ro(&self, addr: u16) -> MapResult {
        if self.inv_exec() {
            Mapper001::cpu_map_read_ro(self, addr)
        } else {
            MapResult::Decline
        }
    }

    fn cpu_map_write(&mut self, addr: u16, data: u8) -> MapResult {
        if self.inv_exec() {
            Mapper001::cpu_map_write(self, addr, data)
        } else {
            MapResult::Decline
        }
    }

    fn ppu_map_read(&mut self, addr: u16) -> MapResult {
        if self.inv_exec() {
            Mapper001::ppu_map_read(self, addr)
        } else {
            MapResult::Decline
        }
    }

    fn ppu_map_write(&mut self, addr: u16, data: u8) -> MapResult {
        Mapper001::ppu_map_write(self, addr, data)
    }

    fn mirror(&self) -> Mirror {
        Mapper001::mirror(self)
    }

    fn reset(&mut self) {
        if self.inv_exec() {
            Mapper001::reset(self)
        }
    }

    fn irq_state(&self) -> bool {
        false
    }

    fn irq_clear(&mut self) {
    }

    fn on_scanline_end(&mut self) {
    }
}

} // verus!
