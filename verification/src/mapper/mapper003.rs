use vstd::prelude::*;
use crate::cartridge::Mirror;
use crate::mapper::{MapResult, Mapper};

verus! {

broadcast use crate::bitops::lemma_u16_and_le;

/// CNROM: fixed PRG as in NROM, with an 8 KiB CHR bank switched by
/// writes into the PRG window.
pub struct Mapper003 {
    pub num_banks_prg: usize,
    pub num_banks_chr: usize,
    pub chr_bank_select: usize,
}

impl Mapper003 {
    pub open spec fn inv(&self) -> bool {
        &&& 1 <= self.num_banks_prg <= 256
        &&& self.num_banks_chr <= 256
        &&& (self.num_banks_chr >= 1 ==> self.chr_bank_select < self.num_banks_chr)
        &&& (self.num_banks_chr == 0 ==> self.chr_bank_select == 0)
    }

    pub fn new(num_banks_prg: usize, num_banks_chr: usize) -> (r: Mapper003)
        requires
            1 <= num_banks_prg <= 256,
            num_banks_chr <= 256,
        ensures
            r.inv(),
            r.num_banks_prg == num_banks_prg,
            r.num_banks_chr == num_banks_chr,
            r.chr_bank_select == 0,
    {
        Mapper003 { num_banks_prg, num_banks_chr, chr_bank_select: 0 }
    }

    pub open spec fn spec_cpu_map(&self, addr: u16) -> MapResult {
        if 0x8000 <= addr {
            if self.num_banks_prg > 1 {
                MapResult::MapAddr((addr & 0x7fff) as usize)
            } else {
                MapResult::MapAddr((addr & 0x3fff) as usize)
            }
        } else {
            MapResult::Decline
        }
    }

    pub fn cpu_map_read(&mut self, addr: u16) -> (r: MapResult)
        requires
            old(self).inv(),
        ensures
            *final(self) == *old(self),
            r == old(self).spec_cpu_map(addr),
            m3_prg_bounded(old(self), r),
    {
        self.cpu_map_read_ro(addr)
    }

    pub fn cpu_map_read_ro(&self, addr: u16) -> (r: MapResult)
        requires
            self.inv(),
        ensures
            r == self.spec_cpu_map(addr),
            m3_prg_bounded(self, r),
    {
        if 0x8000 <= addr {
            if self.num_banks_prg > 1 {
                MapResult::MapAddr((addr & 0x7fff) as usize)
            } else {
                MapResult::MapAddr((addr & 0x3fff) as usize)
            }
        } else {
            MapResult::Decline
        }
    }

    /// A write into the PRG window selects the CHR bank from the low
    /// two data bits.
    pub fn cpu_map_write(&mut self, addr: u16, data: u8) -> (r: MapResult)
        requires
            old(self).inv(),
        ensures
            final(self).inv(),
            r == MapResult::Decline,
            addr >= 0x8000 && old(self).num_banks_chr >= 1 ==> *final(self) == (Mapper003 {
                chr_bank_select: ((data & 0x03) as usize % old(self).num_banks_chr) as usize,
                ..*old(self)
            }),
            addr < 0x8000 || old(self).num_banks_chr == 0 ==> *final(self) == *old(self),
    {
        if addr >= 0x8000 && self.num_banks_chr >= 1 {
            self.chr_bank_select = (data & 0x03) as usize % self.num_banks_chr;
        }
        MapResult::Decline
    }

    pub fn ppu_map_read(&mut self, addr: u16) -> (r: MapResult)
        requires
            old(self).inv(),
        ensures
            *final(self) == *old(self),
            r == (if addr < 0x2000 {
                MapResult::MapAddr((old(self).chr_bank_select * 0x2000 + addr as usize) as usize)
            } else {
                MapResult::Decline
            }),
            r matches MapResult::MapAddr(ma) ==> ma < (if old(self).num_banks_chr >= 1 {
                old(self).num_banks_chr * 0x2000
            } else {
                0x2000int
            }),
    {
        if addr < 0x2000 {
            proof {
                if self.num_banks_chr >= 1 {
                    crate::bitops::lemma_bank_bound(
                        self.chr_bank_select as int,
                        0x2000,
                        self.num_banks_chr as int,
                        addr as int,
                    );
                }
            }
            MapResult::MapAddr(self.chr_bank_select * 0x2000 + addr as usize)
        } else {
            MapResult::Decline
        }
    }

    pub fn ppu_map_write(&mut self, _addr: u16, _data: u8) -> (r: MapResult)
        ensures
            *final(self) == *old(self),
            r == MapResult::Decline,
    {
        MapResult::Decline
    }

    pub fn mirror(&self) -> (r: Mirror)
        ensures
            r == Mirror::Hardware,
    {
        Mirror::Hardware
    }

    pub fn reset(&mut self)
        requires
            old(self).inv(),
        ensures
            final(self).inv(),
            *final(self) == (Mapper003 { chr_bank_select: 0, ..*old(self) }),
    {
        self.chr_bank_select = 0;
    }
}

/// A mapped CNROM CPU offset stays inside PRG memory.
pub open spec fn m3_prg_bounded(m: &Mapper003, r: MapResult) -> bool {
    r matches MapResult::MapAddr(ma) ==> ma < m.num_banks_prg * 0x4000
}

impl Mapper for Mapper003 {
    fn cpu_map_read(&mut self, addr: u16) -> MapResult {
        if self.inv_exec() {
            Mapper003::cpu_map_read(self, addr)
        } else {
            MapResult::Decline
        }
    }

    fn cpu_map_read_ro(&self, addr: u16) -> MapResult {
        if self.inv_exec() {
            Mapper003::cpu_map_read_ro(self, addr)
        } else {
            MapResult::Decline
        }
    }

    fn cpu_map_write(&mut self, addr: u16, data: u8) -> MapResult {
        if self.inv_exec() {
            Mapper003::cpu_map_write(self, addr, data)
        } else {
            MapResult::Decline
        }
    }

    fn ppu_map_read(&mut self, addr: u16) -> MapResult {
        if self.inv_exec() {
            Mapper003::ppu_map_read(self, addr)
        } else {
            MapResult::Decline
        }
    }

    fn ppu_map_write(&mut self, addr: u16, data: u8) -> MapResult {
        Mapper003::ppu_map_write(self, addr, data)
    }

    fn mirror(&self) -> Mirror {
        Mapper003::mirror(self)
    }

    fn reset(&mut self) {
        if self.inv_exec() {
            Mapper003::reset(self)
        }
    }

    fn irq_state(&self) -> bool {
        false
    }

    fn irq_clear(&mut self) {
    }

    fn on_scanline_end(&mut self) {
    }
}

impl Mapper003 {
    /// Runtime check of the invariant, for the trait surface that
    /// cannot assume it.
    pub(crate) fn inv_exec(&self) -> (r: bool)
        ensures
            r == self.inv(),
    {
        1 <= self.num_banks_prg && self.num_banks_prg <= 256 && self.num_banks_chr <= 256 && (
        if self.num_banks_chr >= 1 {
            self.chr_bank_select < self.num_banks_chr
        } else {
            self.chr_bank_select == 0
        })
    }
}

} // verus!
