use vstd::prelude::*;
use crate::cartridge::Mirror;
use crate::mapper::{MapResult, Mapper};

verus! {

broadcast use crate::bitops::lemma_u16_and_le;

/// UxROM: a switchable 16 KiB PRG bank at 0x8000 and the last bank
/// fixed at 0xc000.
pub struct Mapper002 {
    pub num_banks_prg: usize,
    pub num_banks_chr: usize,
    pub prg_bank_select_lo: usize,
    pub prg_bank_select_hi: usize,
}

impl Mapper002 {
    pub open spec fn inv(&self) -> bool {
        &&& 1 <= self.num_banks_prg <= 256
        &&& self.num_banks_chr <= 256
        &&& self.prg_bank_select_lo < self.num_banks_prg
        &&& self.prg_bank_select_hi < self.num_banks_prg
    }

    /// Runtime check of the invariant, for the trait surface that
    /// cannot assume it.
    pub(crate) fn inv_exec(&self) -> (r: bool)
        ensures
            r == self.inv(),
    {
        1 <= self.num_banks_prg && self.num_banks_prg <= 256 && self.num_banks_chr <= 256
            && self.prg_bank_select_lo < self.num_banks_prg
            && self.prg_bank_select_hi < self.num_banks_prg
    }

    pub fn new(num_banks_prg: usize, num_banks_chr: usize) -> (r: Mapper002)
        requires
            1 <= num_banks_prg <= 256,
            num_banks_chr <= 256,
        ensures
            r.inv(),
            r.num_banks_prg == num_banks_prg,
            r.num_banks_chr == num_banks_chr,
            r.prg_bank_select_lo == 0,
            r.prg_bank_select_hi == num_banks_prg - 1,
    {
        Mapper002 {
            num_banks_prg,
            num_banks_chr,
            prg_bank_select_lo: 0,
            prg_bank_select_hi: num_banks_prg - 1,
        }
    }

    /// The bank-relative translation of a CPU read.
    pub open spec fn spec_cpu_map(&self, addr: u16) -> MapResult {
        if 0x8000 <= addr < 0xc000 {
            MapResult::MapAddr((self.prg_bank_select_lo * 0x4000 + (addr & 0x3fff) as usize) as usize)
        } else if 0xc000 <= addr {
            MapResult::MapAddr((self.prg_bank_select_hi * 0x4000 + (addr & 0x3fff) as usize) as usize)
        } else {
            MapResult::Decline
        }
    }

    pub fn cpu_map_read(&mut self, addr: u16) -> (r: MapResult)
        requires
            old(self).inv(),
        ensures
            *final(self) == *old(self),
            r == old(self).spec_cpu_map(addr),
            m2_result_bounded(old(self), r),
    {
        self.cpu_map_read_ro(addr)
    }

    pub fn cpu_map_read_ro(&self, addr: u16) -> (r: MapResult)
        requires
            self.inv(),
        ensures
            r == self.spec_cpu_map(addr),
            m2_result_bounded(self, r),
    {
        if 0x8000 <= addr && addr < 0xc000 {
            proof {
                crate::bitops::lemma_bank_bound(
                    self.prg_bank_select_lo as int,
                    0x4000,
                    self.num_banks_prg as int,
                    (addr & 0x3fff) as int,
                );
            }
            MapResult::MapAddr(self.prg_bank_select_lo * 0x4000 + (addr & 0x3fff) as usize)
        } else if 0xc000 <= addr {
            proof {
                crate::bitops::lemma_bank_bound(
                    self.prg_bank_select_hi as int,
                    0x4000,
                    self.num_banks_prg as int,
                    (addr & 0x3fff) as int,
                );
            }
            MapResult::MapAddr(self.prg_bank_select_hi * 0x4000 + (addr & 0x3fff) as usize)
        } else {
            MapResult::Decline
        }
    }

    /// A write into 0x8000..=0xffff selects the low PRG bank from the
    /// data's low nibble; the write itself is not absorbed.
    pub fn cpu_map_write(&mut self, addr: u16, data: u8) -> (r: MapResult)
        requires
            old(self).inv(),
        ensures
            final(self).inv(),
            r == MapResult::Decline,
            addr >= 0x8000 ==> *final(self) == (Mapper002 {
                prg_bank_select_lo: ((data & 0x0f) as usize % old(self).num_banks_prg) as usize,
                ..*old(self)
            }),
            addr < 0x8000 ==> *final(self) == *old(self),
    {
        if addr >= 0x8000 {
            self.prg_bank_select_lo = (data & 0x0f) as usize % self.num_banks_prg;
        }
        MapResult::Decline
    }

    pub fn ppu_map_read(&mut self, addr: u16) -> (r: MapResult)
        requires
            old(self).inv(),
        ensures
            *final(self) == *old(self),
            r == (if addr < 0x2000 {
                MapResult::MapAddr(addr as usize)
            } else {
                MapResult::Decline
            }),
    {
        if addr < 0x2000 {
            MapResult::MapAddr(addr as usize)
        } else {
            MapResult::Decline
        }
    }

    pub fn ppu_map_write(&mut self, addr: u16, _data: u8) -> (r: MapResult)
        requires
            old(self).inv(),
        ensures
            *final(self) == *old(self),
            r == (if addr < 0x2000 && old(self).num_banks_chr == 0 {
                MapResult::MapAddr(addr as usize)
            } else {
                MapResult::Decline
            }),
    {
        if addr < 0x2000 && self.num_banks_chr == 0 {
            MapResult::MapAddr(addr as usize)
        } else {
            MapResult::Decline
        }
    }

    pub fn mirror(&self) -> (r: Mirror)
        ensures
            r == Mirror::Hardware,
    {
        Mirror::Hardware
    }

    pub fn reset(&mut self)
        requires
            old(self).inv(),
        ensures
            final(self).inv(),
            final(self).prg_bank_select_lo == 0,
            final(self).prg_bank_select_hi == old(self).num_banks_prg - 1,
            final(self).num_banks_prg == old(self).num_banks_prg,
            final(self).num_banks_chr == old(self).num_banks_chr,
    {
        self.prg_bank_select_lo = 0;
        self.prg_bank_select_hi = self.num_banks_prg - 1;
    }
}

/// A mapped UxROM CPU offset stays inside PRG memory.
pub open spec fn m2_result_bounded(m: &Mapper002, r: MapResult) -> bool {
    r matches MapResult::MapAddr(ma) ==> ma < m.num_banks_prg * 0x4000
}

impl Mapper for Mapper002 {
    fn cpu_map_read(&mut self, addr: u16) -> MapResult {
        if self.inv_exec() {
            Mapper002::cpu_map_read(self, addr)
        } else {
            MapResult::Decline
        }
    }

    fn cpu_map_read_ro(&self, addr: u16) -> MapResult {
        if self.inv_exec() {
            Mapper002::cpu_map_read_ro(self, addr)
        } else {
            MapResult::Decline
        }
    }

    fn cpu_map_write(&mut self, addr: u16, data: u8) -> MapResult {
        if self.inv_exec() {
            Mapper002::cpu_map_write(self, addr, data)
        } else {
            MapResult::Decline
        }
    }

    fn ppu_map_read(&mut self, addr: u16) -> MapResult {
        if self.inv_exec() {
            Mapper002::ppu_map_read(self, addr)
        } else {
            MapResult::Decline
        }
    }

    fn ppu_map_write(&mut self, addr: u16, data: u8) -> MapResult {
        if self.inv_exec() {
            Mapper002::ppu_map_write(self, addr, data)
        } else {
            MapResult::Decline
        }
    }

    fn mirror(&self) -> Mirror {
        Mapper002::mirror(self)
    }

    fn reset(&mut self) {
        if self.inv_exec() {
            Mapper002::reset(self)
        }
    }

    fn irq_state(&self) -> bool {
        false
    }

    fn irq_clear(&mut self) {
    }

    fn on_scanline_end(&mut self) {
    }
}

} // verus!
