use vstd::prelude::*;
use crate::cartridge::Mirror;
use crate::mapper::{MapResult, Mapper};

verus! {

broadcast use crate::bitops::lemma_u16_and_le;

/// AxROM: one switchable 32 KiB PRG bank, with single-screen
/// mirroring selected by the same write.
pub struct Mapper007 {
    pub num_banks_prg: usize,
    pub num_banks_chr: usize,
    pub prg_bank_select: usize,
    pub mirror_mode: Mirror,
}

impl Mapper007 {
    pub open spec fn inv(&self) -> bool {
        &&& 2 <= self.num_banks_prg <= 256
        &&& self.num_banks_chr <= 256
        &&& self.prg_bank_select < self.num_banks_prg / 2
    }

    pub fn new(num_banks_prg: usize, num_banks_chr: usize) -> (r: Mapper007)
        requires
            2 <= num_banks_prg <= 256,
            num_banks_chr <= 256,
        ensures
            r.inv(),
            r.num_banks_prg == num_banks_prg,
            r.num_banks_chr == num_banks_chr,
            r.prg_bank_select == 0,
            r.mirror_mode == Mirror::OneScreenLo,
    {
        Mapper007 {
            num_banks_prg,
            num_banks_chr,
            prg_bank_select: 0,
            mirror_mode: Mirror::OneScreenLo,
        }
    }

    pub open spec fn spec_cpu_map(&self, addr: u16) -> MapResult {
        if 0x8000 <= addr {
            MapResult::MapAddr((self.prg_bank_select * 0x8000 + (addr & 0x7fff) as usize) as usize)
        } else {
            MapResult::Decline
        }
    }

    pub fn cpu_map_read(&mut self, addr: u16) -> (r: MapResult)
        requires
            old(self).inv(),
        ensures
            *final(self) == *old(self),
            r == old(self).spec_cpu_map(addr),
            m7_prg_bounded(old(self), r),
    {
        self.cpu_map_read_ro(addr)
    }

    pub fn cpu_map_read_ro(&self, addr: u16) -> (r: MapResult)
        requires
            self.inv(),
        ensures
            r == self.spec_cpu_map(addr),
            m7_prg_bounded(self, r),
    {
        if 0x8000 <= addr {
            proof {
                crate::bitops::lemma_bank_bound(
                    self.prg_bank_select as int,
                    0x8000,
                    (self.num_banks_prg / 2) as int,
                    (addr & 0x7fff) as int,
                );
                assert((self.num_banks_prg / 2) * 0x8000 <= self.num_banks_prg * 0x4000)
                    by (nonlinear_arith);
            }
            MapResult::MapAddr(self.prg_bank_select * 0x8000 + (addr & 0x7fff) as usize)
        } else {
            MapResult::Decline
        }
    }

    /// A write into the PRG window selects the 32 KiB bank from the
    /// low three bits and single-screen mirroring from bit 4.
    pub fn cpu_map_write(&mut self, addr: u16, data: u8) -> (r: MapResult)
        requires
            old(self).inv(),
        ensures
            final(self).inv(),
            r == MapResult::Decline,
            addr >= 0x8000 ==> {
                &&& final(self).prg_bank_select == (data & 0x07) as usize % (old(self).num_banks_prg / 2)
                &&& final(self).mirror_mode == (if (data & 0x10) == 0 {
                    Mirror::OneScreenLo
                } else {
                    Mirror::OneScreenHi
                })
                &&& final(self).num_banks_prg == old(self).num_banks_prg
                &&& final(self).num_banks_chr == old(self).num_banks_chr
            },
            addr < 0x8000 ==> *final(self) == *old(self),
    {
        if addr >= 0x8000 {
            self.prg_bank_select = (data & 0x07) as usize % (self.num_banks_prg / 2);
            self.mirror_mode = if (data & 0x10) == 0 {
                Mirror::OneScreenLo
            } else {
                Mirror::OneScreenHi
            };
        }
        MapResult::Decline
    }

    pub fn ppu_map_read(&mut self, addr: u16) -> (r: MapResult)
        ensures
            *final(self) == *old(self),
            r == (if addr < 0x2000 {
                MapResult::MapAddr(addr as usize)
            } else {
                MapResult::Decline
            }),
    {
        if addr < 0x2000 {
            MapResult::MapAddr(addr as usize)
        } else {
            MapResult::Decline
        }
    }

    pub fn ppu_map_write(&mut self, addr: u16, _data: u8) -> (r: MapResult)
        ensures
            *final(self) == *old(self),
            r == (if addr < 0x2000 && old(self).num_banks_chr == 0 {
                MapResult::MapAddr(addr as usize)
            } else {
                MapResult::Decline
            }),
    {
        if addr < 0x2000 && self.num_banks_chr == 0 {
            MapResult::MapAddr(addr as usize)
        } else {
            MapResult::Decline
        }
    }

    pub fn mirror(&self) -> (r: Mirror)
        ensures
            r == self.mirror_mode,
    {
        self.mirror_mode
    }

    pub fn reset(&mut self)
        requires
            old(self).inv(),
        ensures
            final(self).inv(),
            *final(self) == (Mapper007 {
                prg_bank_select: 0,
                mirror_mode: Mirror::OneScreenLo,
                ..*old(self)
            }),
    {
        self.prg_bank_select = 0;
        self.mirror_mode = Mirror::OneScreenLo;
    }

    pub(crate) fn inv_exec(&self) -> (r: bool)
        ensures
            r == self.inv(),
    {
        2 <= self.num_banks_prg && self.num_banks_prg <= 256 && self.num_banks_chr <= 256
            && self.prg_bank_select < self.num_banks_prg / 2
    }
}

/// A mapped AxROM CPU offset stays inside PRG memory.
pub open spec fn m7_prg_bounded(m: &Mapper007, r: MapResult) -> bool {
    r matches MapResult::MapAddr(ma) ==> ma < m.num_banks_prg * 0x4000
}

impl Mapper for Mapper007 {
    fn cpu_map_read(&mut self, addr: u16) -> MapResult {
        if self.inv_exec() {
            Mapper007::cpu_map_read(self, addr)
        } else {
            MapResult::Decline
        }
    }

    fn cpu_map_read_ro(&self, addr: u16) -> MapResult {
        if self.inv_exec() {
            Mapper007::cpu_map_read_ro(self, addr)
        } else {
            MapResult::Decline
        }
    }

    fn cpu_map_write(&mut self, addr: u16, data: u8) -> MapResult {
        if self.inv_exec() {
            Mapper007::cpu_map_write(self, addr, data)
        } else {
            MapResult::Decline
        }
    }

    fn ppu_map_read(&mut self, addr: u16) -> MapResult {
        Mapper007::ppu_map_read(self, addr)
    }

    fn ppu_map_write(&mut self, addr: u16, data: u8) -> MapResult {
        Mapper007::ppu_map_write(self, addr, data)
    }

    fn mirror(&self) -> Mirror {
        Mapper007::mirror(self)
    }

    fn reset(&mut self) {
        if self.inv_exec() {
            Mapper007::reset(self)
        }
    }

    fn irq_state(&self) -> bool {
        false
    }

    fn irq_clear(&mut self) {
    }

    fn on_scanline_end(&mut self) {
    }
}

} // verus!
