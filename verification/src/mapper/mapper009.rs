use vstd::prelude::*;
use crate::cartridge::Mirror;
use crate::mapper::{MapResult, Mapper};

verus! {

broadcast use crate::bitops::lemma_u16_and_le;

/// MMC2: one switchable 8 KiB PRG bank followed by the last three
/// fixed banks, and two CHR latches flipped by reads of magic pattern
/// addresses.
pub struct Mapper009 {
    pub num_banks_prg_8k: usize,
    pub prg_ram: Vec<u8>,
    pub prg_bank_select_8k: usize,
    pub chr_bank_select_4k_lo_fd: usize,
    pub chr_bank_select_4k_lo_fe: usize,
    pub chr_bank_select_4k_hi_fd: usize,
    pub chr_bank_select_4k_hi_fe: usize,
    pub latch_lo: bool,
    pub latch_hi: bool,
    pub mirror_mode: Mirror,
    pub num_banks_chr: usize,
}

/// The PRG translation MMC2 applies: battery RAM at 0x6000, one
/// switchable 8 KiB bank at 0x8000, the last three banks fixed.
pub open spec fn spec_m9_cpu_map(m: &Mapper009, addr: u16) -> MapResult {
    if 0x6000 <= addr && addr < 0x8000 {
        MapResult::DirectRead(m.prg_ram@[(addr & 0x1fff) as int])
    } else if 0x8000 <= addr && addr < 0xa000 {
        MapResult::MapAddr((m.prg_bank_select_8k * 0x2000 + (addr & 0x1fff) as usize) as usize)
    } else if 0xa000 <= addr {
        MapResult::MapAddr(((m.num_banks_prg_8k - 3) * 0x2000 + (addr - 0xa000) as usize) as usize)
    } else {
        MapResult::Decline
    }
}

/// The CHR latches after a read at `addr`: reads in the two magic
/// windows flip them.
pub open spec fn spec_m9_latches(m: &Mapper009, addr: u16) -> (bool, bool) {
    let lo = if 0x0fd0 <= addr && addr <= 0x0fdf {
        false
    } else if 0x0fe0 <= addr && addr <= 0x0fef {
        true
    } else {
        m.latch_lo
    };
    let hi = if 0x1fd0 <= addr && addr <= 0x1fdf {
        false
    } else if 0x1fe0 <= addr && addr <= 0x1fef {
        true
    } else {
        m.latch_hi
    };
    (lo, hi)
}

/// CHR banks in 4 KiB units, with a RAM image counting as two.
pub open spec fn spec_m9_num_4k(m: &Mapper009) -> int {
    if m.num_banks_chr >= 1 {
        m.num_banks_chr * 2
    } else {
        2
    }
}

/// The CHR translation MMC2 applies, selected by the latches as the
/// same read leaves them.
pub open spec fn spec_m9_ppu_map(m: &Mapper009, addr: u16) -> MapResult {
    let lo = spec_m9_latches(m, addr).0;
    let hi = spec_m9_latches(m, addr).1;
    if addr < 0x1000 {
        let sel = (if lo {
            m.chr_bank_select_4k_lo_fe as int
        } else {
            m.chr_bank_select_4k_lo_fd as int
        }) % spec_m9_num_4k(m);
        MapResult::MapAddr((sel * 0x1000 + (addr & 0x0fff) as usize) as usize)
    } else if addr < 0x2000 {
        let sel = (if hi {
            m.chr_bank_select_4k_hi_fe as int
        } else {
            m.chr_bank_select_4k_hi_fd as int
        }) % spec_m9_num_4k(m);
        MapResult::MapAddr((sel * 0x1000 + (addr & 0x0fff) as usize) as usize)
    } else {
        MapResult::Decline
    }
}

impl Mapper009 {
    pub open spec fn inv(&self) -> bool {
        &&& 4 <= self.num_banks_prg_8k <= 512
        &&& self.num_banks_chr <= 256
        &&& self.prg_ram@.len() == 8192
        &&& self.prg_bank_select_8k < self.num_banks_prg_8k
        &&& self.chr_bank_select_4k_lo_fd < 32
        &&& self.chr_bank_select_4k_lo_fe < 32
        &&& self.chr_bank_select_4k_hi_fd < 32
        &&& self.chr_bank_select_4k_hi_fe < 32
    }

    pub fn new(num_banks_prg: usize, num_banks_chr: usize) -> (r: Mapper009)
        requires
            2 <= num_banks_prg <= 256,
            num_banks_chr <= 256,
        ensures
            r.inv(),
            r.num_banks_prg_8k == num_banks_prg * 2,
            r.num_banks_chr == num_banks_chr,
            r.prg_bank_select_8k == 0,
            !r.latch_lo,
            !r.latch_hi,
            r.mirror_mode == Mirror::Vertical,
    {
        Mapper009 {
            num_banks_prg_8k: num_banks_prg * 2,
            prg_ram: vec![0u8; 8192],
            prg_bank_select_8k: 0,
            chr_bank_select_4k_lo_fd: 0,
            chr_bank_select_4k_lo_fe: 0,
            chr_bank_select_4k_hi_fd: 0,
            chr_bank_select_4k_hi_fe: 0,
            latch_lo: false,
            latch_hi: false,
            mirror_mode: Mirror::Vertical,
            num_banks_chr,
        }
    }

    /// PRG translation: battery RAM at 0x6000, one switchable 8 KiB
    /// bank at 0x8000, the last three banks fixed above it.
    pub fn cpu_map_read_ro(&self, addr: u16) -> (r: MapResult)
        requires
            self.inv(),
        ensures
            r == spec_m9_cpu_map(self, addr),
            r matches MapResult::MapAddr(ma) ==> ma < self.num_banks_prg_8k * 0x2000,
    {
        if 0x6000 <= addr && addr < 0x8000 {
            MapResult::DirectRead(self.prg_ram[(addr & 0x1fff) as usize])
        } else if 0x8000 <= addr && addr < 0xa000 {
            proof {
                crate::bitops::lemma_bank_bound(
                    self.prg_bank_select_8k as int,
                    0x2000,
                    self.num_banks_prg_8k as int,
                    (addr & 0x1fff) as int,
                );
            }
            MapResult::MapAddr(self.prg_bank_select_8k * 0x2000 + (addr & 0x1fff) as usize)
        } else if 0xa000 <= addr {
            MapResult::MapAddr((self.num_banks_prg_8k - 3) * 0x2000 + (addr - 0xa000) as usize)
        } else {
            MapResult::Decline
        }
    }

    pub fn cpu_map_read(&mut self, addr: u16) -> (r: MapResult)
        requires
            old(self).inv(),
        ensures
            *final(self) == *old(self),
            r == spec_m9_cpu_map(old(self), addr),
            r matches MapResult::MapAddr(ma) ==> ma < old(self).num_banks_prg_8k * 0x2000,
    {
        self.cpu_map_read_ro(addr)
    }

    /// Register writes: PRG bank, the four CHR latch banks, and the
    /// mirroring select.
    pub fn cpu_map_write(&mut self, addr: u16, data: u8) -> (r: MapResult)
        requires
            old(self).inv(),
        ensures
            final(self).inv(),
            r == MapResult::Decline,
            0xa000 <= addr < 0xb000 ==> final(self).prg_bank_select_8k == (data & 0x0f) as usize
                % old(self).num_banks_prg_8k,
            0xf000 <= addr ==> final(self).mirror_mode == (if data & 0x01 != 0 {
                Mirror::Horizontal
            } else {
                Mirror::Vertical
            }),
            final(self).num_banks_prg_8k == old(self).num_banks_prg_8k,
            final(self).num_banks_chr == old(self).num_banks_chr,
            final(self).prg_ram@ == old(self).prg_ram@,
            final(self).latch_lo == old(self).latch_lo,
            final(self).latch_hi == old(self).latch_hi,
            addr < 0xa000 ==> *final(self) == *old(self),
    {
        if 0xa000 <= addr && addr < 0xb000 {
            self.prg_bank_select_8k = (data & 0x0f) as usize % self.num_banks_prg_8k;
        } else if 0xb000 <= addr && addr < 0xc000 {
            self.chr_bank_select_4k_lo_fd = (data & 0x1f) as usize;
        } else if 0xc000 <= addr && addr < 0xd000 {
            self.chr_bank_select_4k_lo_fe = (data & 0x1f) as usize;
        } else if 0xd000 <= addr && addr < 0xe000 {
            self.chr_bank_select_4k_hi_fd = (data & 0x1f) as usize;
        } else if 0xe000 <= addr && addr < 0xf000 {
            self.chr_bank_select_4k_hi_fe = (data & 0x1f) as usize;
        } else if 0xf000 <= addr {
            if data & 0x01 != 0 {
                self.mirror_mode = Mirror::Horizontal;
            } else {
                self.mirror_mode = Mirror::Vertical;
            }
        }
        proof {
            crate::bitops::lemma_u8_and_le(data, 0x1f);
        }
        MapResult::Decline
    }

    /// CHR translation.  A read of the latch windows at 0x0fd8/0x0fe8
    /// and 0x1fd8/0x1fe8 flips the corresponding latch; each half of
    /// the pattern space then banks by its latch.  Banks outside the
    /// CHR image wrap.
    pub fn ppu_map_read(&mut self, addr: u16) -> (r: MapResult)
        requires
            old(self).inv(),
        ensures
            final(self).inv(),
            addr >= 0x2000 ==> r == MapResult::Decline && *final(self) == *old(self),
            r == spec_m9_ppu_map(old(self), addr),
            final(self).latch_lo == spec_m9_latches(old(self), addr).0,
            final(self).latch_hi == spec_m9_latches(old(self), addr).1,
            r matches MapResult::MapAddr(ma) ==> ma < (if old(self).num_banks_chr >= 1 {
                old(self).num_banks_chr * 0x2000
            } else {
                0x2000int
            }),
            *final(self) == (Mapper009 {
                latch_lo: final(self).latch_lo,
                latch_hi: final(self).latch_hi,
                ..*old(self)
            }),
    {
        if 0x0fd0 <= addr && addr <= 0x0fdf {
            self.latch_lo = false;
        } else if 0x0fe0 <= addr && addr <= 0x0fef {
            self.latch_lo = true;
        } else if 0x1fd0 <= addr && addr <= 0x1fdf {
            self.latch_hi = false;
        } else if 0x1fe0 <= addr && addr <= 0x1fef {
            self.latch_hi = true;
        }

        let num_4k: usize = if self.num_banks_chr >= 1 {
            self.num_banks_chr * 2
        } else {
            2
        };
        if addr < 0x1000 {
            let sel = if self.latch_lo {
                self.chr_bank_select_4k_lo_fe % num_4k
            } else {
                self.chr_bank_select_4k_lo_fd % num_4k
            };
            proof {
                crate::bitops::lemma_bank_bound(sel as int, 0x1000, num_4k as int, (addr
                    & 0x0fff) as int);
                let ncb = self.num_banks_chr;
                assert(num_4k * 0x1000 <= (if ncb >= 1 {
                    ncb * 0x2000
                } else {
                    0x2000int
                })) by (nonlinear_arith)
                    requires
                        num_4k == (if ncb >= 1 {
                            ncb * 2
                        } else {
                            2int
                        }),
                ;
            }
            MapResult::MapAddr(sel * 0x1000 + (addr & 0x0fff) as usize)
        } else if addr < 0x2000 {
            let sel = if self.latch_hi {
                self.chr_bank_select_4k_hi_fe % num_4k
            } else {
                self.chr_bank_select_4k_hi_fd % num_4k
            };
            proof {
                crate::bitops::lemma_bank_bound(sel as int, 0x1000, num_4k as int, (addr
                    & 0x0fff) as int);
                let ncb = self.num_banks_chr;
                assert(num_4k * 0x1000 <= (if ncb >= 1 {
                    ncb * 0x2000
                } else {
                    0x2000int
                })) by (nonlinear_arith)
                    requires
                        num_4k == (if ncb >= 1 {
                            ncb * 2
                        } else {
                            2int
                        }),
                ;
            }
            MapResult::MapAddr(sel * 0x1000 + (addr & 0x0fff) as usize)
        } else {
            MapResult::Decline
        }
    }

    pub fn ppu_map_write(&mut self, _addr: u16, _data: u8) -> (r: MapResult)
        ensures
            *final(self) == *old(self),
            r == MapResult::Decline,
    {
        MapResult::Decline
    }

    pub fn mirror(&self) -> (r: Mirror)
        ensures
            r == self.mirror_mode,
    {
        self.mirror_mode
    }

    /// Replace the battery RAM with a saved image of the right size.
    pub fn load_ram(&mut self, ram: &[u8])
        requires
            old(self).inv(),
        ensures
            final(self).inv(),
            ram@.len() == 8192 ==> final(self).prg_ram@ == ram@,
            ram@.len() != 8192 ==> *final(self) == *old(self),
            *final(self) == (Mapper009 { prg_ram: final(self).prg_ram, ..*old(self) }),
    {
        if self.prg_ram.len() == ram.len() {
            let mut copy: Vec<u8> = Vec::new();
            let mut i: usize = 0;
            while i < ram.len()
                invariant
                    i <= ram@.len(),
                    copy@ == ram@.take(i as int),
                decreases ram@.len() - i,
            {
                copy.push(ram[i]);
                i += 1;
            }
            proof {
                assert(ram@.take(ram@.len() as int) =~= ram@);
            }
            self.prg_ram = copy;
        }
    }

    /// A copy of the battery RAM for persistence.
    pub fn save_ram(&self) -> (r: Option<Vec<u8>>)
        requires
            self.inv(),
        ensures
            r matches Option::Some(v) && v@ == self.prg_ram@,
    {
        let mut copy: Vec<u8> = Vec::new();
        let mut i: usize = 0;
        while i < self.prg_ram.len()
            invariant
                self.inv(),
                i <= self.prg_ram@.len(),
                copy@ == self.prg_ram@.take(i as int),
            decreases self.prg_ram@.len() - i,
        {
            copy.push(self.prg_ram[i]);
            i += 1;
        }
        proof {
            assert(self.prg_ram@.take(self.prg_ram@.len() as int) =~= self.prg_ram@);
        }
        Some(copy)
    }

    pub(crate) fn inv_exec(&self) -> (r: bool)
        ensures
            r == self.inv(),
    {
        4 <= self.num_banks_prg_8k && self.num_banks_prg_8k <= 512 && self.num_banks_chr <= 256
            && self.prg_ram.len() == 8192 && self.prg_bank_select_8k < self.num_banks_prg_8k
            && self.chr_bank_select_4k_lo_fd < 32 && self.chr_bank_select_4k_lo_fe < 32
            && self.chr_bank_select_4k_hi_fd < 32 && self.chr_bank_select_4k_hi_fe < 32
    }
}

impl Mapper for Mapper009 {
    fn cpu_map_read(&mut self, addr: u16) -> MapResult {
        if self.inv_exec() {
            Mapper009::cpu_map_read(self, addr)
        } else {
            MapResult::Decline
        }
    }

    fn cpu_map_read_ro(&self, addr: u16) -> MapResult {
        if self.inv_exec() {
            Mapper009::cpu_map_read_ro(self, addr)
        } else {
            MapResult::Decline
        }
    }

    fn cpu_map_write(&mut self, addr: u16, data: u8) -> MapResult {
        if self.inv_exec() {
            Mapper009::cpu_map_write(self, addr, data)
        } else {
            MapResult::Decline
        }
    }

    fn ppu_map_read(&mut self, addr: u16) -> MapResult {
        if self.inv_exec() {
            Mapper009::ppu_map_read(self, addr)
        } else {
            MapResult::Decline
        }
    }

    fn ppu_map_write(&mut self, addr: u16, data: u8) -> MapResult {
        Mapper009::ppu_map_write(self, addr, data)
    }

    fn mirror(&self) -> Mirror {
        Mapper009::mirror(self)
    }

    fn reset(&mut self) {
    }

    fn irq_state(&self) -> bool {
        false
    }

    fn irq_clear(&mut self) {
    }

    fn on_scanline_end(&mut self) {
    }
}

} // verus!
