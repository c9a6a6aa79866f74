use vstd::prelude::*;
use crate::cartridge::Mirror;
use crate::mapper::{MapResult, Mapper};

verus! {

broadcast use crate::bitops::lemma_u16_and_le;

/// NROM: no banking at all.  16 KiB PRG is mirrored across the upper
/// half of the CPU window; 32 KiB fills it.
pub struct Mapper000 {
    pub num_banks_prg: usize,
    pub num_banks_chr: usize,
}

/// Where an NROM CPU access in 0x8000..=0xffff lands in PRG memory.
pub open spec fn m0_prg_offset(num_banks_prg: usize, addr: u16) -> usize {
    if num_banks_prg > 1 {
        (addr & 0x7fff) as usize
    } else {
        (addr & 0x3fff) as usize
    }
}

impl Mapper000 {
    pub open spec fn inv(&self) -> bool {
        1 <= self.num_banks_prg <= 256 && self.num_banks_chr <= 256
    }

    pub fn new(num_banks_prg: usize, num_banks_chr: usize) -> (r: Mapper000)
        requires
            1 <= num_banks_prg <= 256,
            num_banks_chr <= 256,
        ensures
            r.num_banks_prg == num_banks_prg,
            r.num_banks_chr == num_banks_chr,
            r.inv(),
    {
        Mapper000 { num_banks_prg, num_banks_chr }
    }

    pub fn cpu_map_read(&mut self, addr: u16) -> (r: MapResult)
        requires
            old(self).inv(),
        ensures
            *final(self) == *old(self),
            r == old(self).spec_cpu_map(addr),
            m0_result_bounded(old(self), r),
    {
        self.cpu_map_read_ro(addr)
    }

    /// What every CPU-side access maps to: both reads and writes use
    /// the same translation.
    pub open spec fn spec_cpu_map(&self, addr: u16) -> MapResult {
        if 0x8000 <= addr {
            MapResult::MapAddr(m0_prg_offset(self.num_banks_prg, addr))
        } else {
            MapResult::Decline
        }
    }

    pub fn cpu_map_read_ro(&self, addr: u16) -> (r: MapResult)
        requires
            self.inv(),
        ensures
            r == self.spec_cpu_map(addr),
            m0_result_bounded(self, r),
    {
        match addr {
            0x8000..=0xffff => {
                if self.num_banks_prg > 1 {
                    MapResult::MapAddr((addr & 0x7fff) as usize)
                } else {
                    MapResult::MapAddr((addr & 0x3fff) as usize)
                }
            }
            _ => MapResult::Decline,
        }
    }

    pub fn cpu_map_write(&mut self, addr: u16, _data: u8) -> (r: MapResult)
        requires
            old(self).inv(),
        ensures
            *final(self) == *old(self),
            r == old(self).spec_cpu_map(addr),
            m0_result_bounded(old(self), r),
    {
        self.cpu_map_read_ro(addr)
    }

    pub fn ppu_map_read(&mut self, addr: u16) -> (r: MapResult)
        requires
            old(self).inv(),
        ensures
            *final(self) == *old(self),
            r == (if addr < 0x2000 {
                MapResult::MapAddr(addr as usize)
            } else {
                MapResult::Decline
            }),
    {
        match addr {
            0x0000..=0x1fff => MapResult::MapAddr(addr as usize),
            _ => MapResult::Decline,
        }
    }

    /// CHR is writable only when the ROM brought no CHR banks and the
    /// region is RAM.
    pub fn ppu_map_write(&mut self, addr: u16, _data: u8) -> (r: MapResult)
        requires
            old(self).inv(),
        ensures
            *final(self) == *old(self),
            r == (if addr < 0x2000 && old(self).num_banks_chr == 0 {
                MapResult::MapAddr(addr as usize)
            } else {
                MapResult::Decline
            }),
    {
        if addr < 0x2000 && self.num_banks_chr == 0 {
            MapResult::MapAddr(addr as usize)
        } else {
            MapResult::Decline
        }
    }

    pub fn mirror(&self) -> (r: Mirror)
        ensures
            r == Mirror::Hardware,
    {
        Mirror::Hardware
    }

    /// Runtime check of the invariant, for callers that rebuild a
    /// mapper from untrusted data.
    pub(crate) fn inv_exec(&self) -> (r: bool)
        ensures
            r == self.inv(),
    {
        1 <= self.num_banks_prg && self.num_banks_prg <= 256 && self.num_banks_chr <= 256
    }

    pub fn reset(&mut self)
        ensures
            *final(self) == *old(self),
    {
    }
}

/// A mapped NROM CPU offset stays inside PRG memory.
pub open spec fn m0_result_bounded(m: &Mapper000, r: MapResult) -> bool {
    r matches MapResult::MapAddr(ma) ==> ma < m.num_banks_prg * 0x4000
}

impl Mapper for Mapper000 {
    fn cpu_map_read(&mut self, addr: u16) -> MapResult {
        if self.num_banks_prg >= 1 && self.num_banks_prg <= 256 && self.num_banks_chr <= 256 {
            Mapper000::cpu_map_read(self, addr)
        } else {
            MapResult::Decline
        }
    }

    fn cpu_map_read_ro(&self, addr: u16) -> MapResult {
        if self.num_banks_prg >= 1 && self.num_banks_prg <= 256 && self.num_banks_chr <= 256 {
            Mapper000::cpu_map_read_ro(self, addr)
        } else {
            MapResult::Decline
        }
    }

    fn cpu_map_write(&mut self, addr: u16, data: u8) -> MapResult {
        if self.num_banks_prg >= 1 && self.num_banks_prg <= 256 && self.num_banks_chr <= 256 {
            Mapper000::cpu_map_write(self, addr, data)
        } else {
            MapResult::Decline
        }
    }

    fn ppu_map_read(&mut self, addr: u16) -> MapResult {
        if self.num_banks_prg >= 1 && self.num_banks_prg <= 256 && self.num_banks_chr <= 256 {
            Mapper000::ppu_map_read(self, addr)
        } else {
            MapResult::Decline
        }
    }

    fn ppu_map_write(&mut self, addr: u16, data: u8) -> MapResult {
        if self.num_banks_prg >= 1 && self.num_banks_prg <= 256 && self.num_banks_chr <= 256 {
            Mapper000::ppu_map_write(self, addr, data)
        } else {
            MapResult::Decline
        }
    }

    fn mirror(&self) -> Mirror {
        Mapper000::mirror(self)
    }

    fn reset(&mut self) {
        Mapper000::reset(self)
    }

    fn irq_state(&self) -> bool {
        false
    }

    fn irq_clear(&mut self) {
    }

    fn on_scanline_end(&mut self) {
    }
}

} // verus!
