use vstd::prelude::*;
use crate::cartridge::Mirror;
use crate::mapper::{MapResult, Mapper};

verus! {

broadcast use crate::bitops::lemma_u16_and_le, crate::bitops::lemma_u8_and_le, crate::bitops::lemma_u8_and_le_self;

/// MMC3: eight bank registers behind a target-select port, PRG in
/// four 8 KiB slots (two fixed), CHR in 1 KiB slots with an inversion
/// bit, and a scanline-counted IRQ.
pub struct Mapper004 {
    pub num_banks_prg: usize,
    pub num_banks_chr: usize,
    pub prg_ram: Vec<u8>,
    pub mirror_mode: Mirror,
    pub bank_reg: Vec<u8>,
    pub prg_bank_offset: Vec<usize>,
    pub chr_bank_offset: Vec<usize>,
    pub target_reg_idx: usize,
    pub prg_bank_mode: bool,
    pub chr_inversion: bool,
    pub irq_active: bool,
    pub irq_enable: bool,
    pub irq_update: bool,
    pub irq_counter: usize,
    pub irq_reload: usize,
}

/// CHR capacity in bytes: a bankless image is 8 KiB of RAM.
pub open spec fn m4_chr_cap(num_banks_chr: usize) -> int {
    if num_banks_chr >= 1 {
        num_banks_chr * 0x2000
    } else {
        0x2000
    }
}

/// CHR capacity in 1 KiB units.
pub open spec fn m4_chr_banks_1k(num_banks_chr: usize) -> int {
    if num_banks_chr >= 1 {
        num_banks_chr * 8
    } else {
        8
    }
}

/// The PRG translation MMC3 applies: battery RAM at 0x6000, then
/// four 8 KiB slots.
pub open spec fn spec_m4_cpu_map(m: &Mapper004, addr: u16) -> MapResult {
    if 0x6000 <= addr && addr < 0x8000 {
        MapResult::DirectRead(m.prg_ram@[(addr & 0x1fff) as int])
    } else if 0x8000 <= addr {
        MapResult::MapAddr((m.prg_bank_offset@[((addr - 0x8000) / 0x2000) as int] + (addr
            & 0x1fff) as usize) as usize)
    } else {
        MapResult::Decline
    }
}

/// The CHR translation MMC3 applies: eight 1 KiB slots.
pub open spec fn spec_m4_ppu_map(m: &Mapper004, addr: u16) -> MapResult {
    if addr < 0x2000 {
        MapResult::MapAddr((m.chr_bank_offset@[(addr / 0x400) as int] + (addr
            & 0x03ff) as usize) as usize)
    } else {
        MapResult::Decline
    }
}

/// One end-of-scanline tick of the MMC3 IRQ counter: at zero it
/// reloads; the step from one to zero asserts the line when enabled.
pub open spec fn spec_m4_scanline(m: Mapper004) -> Mapper004 {
    if m.irq_counter == 0 {
        Mapper004 { irq_counter: m.irq_reload, ..m }
    } else if m.irq_counter == 1 {
        Mapper004 { irq_counter: 0, irq_active: m.irq_active || m.irq_enable, ..m }
    } else {
        Mapper004 { irq_counter: (m.irq_counter - 1) as usize, ..m }
    }
}

impl Mapper004 {
    pub open spec fn inv(&self) -> bool {
        &&& 1 <= self.num_banks_prg <= 256
        &&& self.num_banks_chr <= 256
        &&& self.prg_ram@.len() == 8192
        &&& self.bank_reg@.len() == 8
        &&& self.prg_bank_offset@.len() == 4
        &&& self.chr_bank_offset@.len() == 8
        &&& self.target_reg_idx < 8
        &&& forall|i: int| 0 <= i < 4 ==> #[trigger] self.prg_bank_offset@[i] + 0x2000
            <= self.num_banks_prg * 0x4000
        &&& forall|i: int| 0 <= i < 8 ==> #[trigger] self.chr_bank_offset@[i] + 0x400
            <= m4_chr_cap(self.num_banks_chr)
        &&& forall|i: int| 0 <= i < 6 ==> ((#[trigger] self.bank_reg@[i]) as int)
            < m4_chr_banks_1k(self.num_banks_chr)
        &&& forall|i: int| 6 <= i < 8 ==> ((#[trigger] self.bank_reg@[i]) as int)
            < self.num_banks_prg * 2
    }

    pub fn new(num_banks_prg: usize, num_banks_chr: usize) -> (r: Mapper004)
        requires
            1 <= num_banks_prg <= 256,
            num_banks_chr <= 256,
        ensures
            r.inv(),
            r.num_banks_prg == num_banks_prg,
            r.num_banks_chr == num_banks_chr,
            r.mirror_mode == Mirror::Horizontal,
            !r.irq_active,
            !r.irq_enable,
            r.irq_counter == 0,
            r.irq_reload == 0,
    {
        let mut prg_bank_offset: Vec<usize> = Vec::new();
        prg_bank_offset.push(0);
        prg_bank_offset.push(0x2000);
        prg_bank_offset.push((num_banks_prg * 2 - 2) * 0x2000);
        prg_bank_offset.push((num_banks_prg * 2 - 1) * 0x2000);

        proof {
            assert(forall|i: int| 0 <= i < 4 ==> #[trigger] prg_bank_offset@[i] + 0x2000
                <= num_banks_prg * 0x4000);
        }
        Mapper004 {
            num_banks_prg,
            num_banks_chr,
            prg_ram: vec![0u8; 8192],
            mirror_mode: Mirror::Horizontal,
            bank_reg: vec![0u8; 8],
            prg_bank_offset,
            chr_bank_offset: vec![0usize; 8],
            target_reg_idx: 0,
            prg_bank_mode: false,
            chr_inversion: false,
            irq_active: false,
            irq_enable: false,
            irq_update: false,
            irq_counter: 0,
            irq_reload: 0,
        }
    }

    /// PRG translation: battery RAM at 0x6000, then four 8 KiB slots.
    pub fn cpu_map_read_ro(&self, addr: u16) -> (r: MapResult)
        requires
            self.inv(),
        ensures
            r == spec_m4_cpu_map(self, addr),
            r matches MapResult::MapAddr(ma) ==> ma < self.num_banks_prg * 0x4000,
    {
        if 0x6000 <= addr && addr < 0x8000 {
            MapResult::DirectRead(self.prg_ram[(addr & 0x1fff) as usize])
        } else if 0x8000 <= addr {
            let idx = ((addr - 0x8000) / 0x2000) as usize;
            MapResult::MapAddr(self.prg_bank_offset[idx] + (addr & 0x1fff) as usize)
        } else {
            MapResult::Decline
        }
    }

    pub fn cpu_map_read(&mut self, addr: u16) -> (r: MapResult)
        requires
            old(self).inv(),
        ensures
            *final(self) == *old(self),
            r == spec_m4_cpu_map(old(self), addr),
            r matches MapResult::MapAddr(ma) ==> ma < old(self).num_banks_prg * 0x4000,
    {
        self.cpu_map_read_ro(addr)
    }

    /// Register writes: bank select and bank data at 0x8000, mirroring
    /// and RAM protect at 0xa000, IRQ latch and reload at 0xc000, IRQ
    /// disable and enable at 0xe000.
    pub fn cpu_map_write(&mut self, addr: u16, data: u8) -> (r: MapResult)
        requires
            old(self).inv(),
        ensures
            final(self).inv(),
            final(self).num_banks_prg == old(self).num_banks_prg,
            final(self).num_banks_chr == old(self).num_banks_chr,
            addr < 0x6000 ==> r == MapResult::Decline && *final(self) == *old(self),
            0x6000 <= addr ==> r == MapResult::DirectWrite,
            0x6000 <= addr < 0x8000 ==> final(self).prg_ram@ == old(self).prg_ram@.update(
                (addr & 0x1fff) as int,
                data,
            ),
            // the bank-select port latches the target register and the
            // two mode bits without touching the offsets
            0x8000 <= addr < 0xa000 && addr % 2 == 0 ==> final(self).target_reg_idx == (data
                & 0x07) as usize && final(self).prg_bank_mode == (data & 0x40 != 0) && final(self).chr_inversion == (data & 0x80 != 0) && final(self).bank_reg@ == old(self).bank_reg@
                && final(self).prg_bank_offset@ == old(self).prg_bank_offset@ && final(self).chr_bank_offset@ == old(self).chr_bank_offset@,
            0xa000 <= addr < 0xc000 && addr % 2 == 0 ==> final(self).mirror_mode == (if data & 0x01
                != 0 {
                Mirror::Horizontal
            } else {
                Mirror::Vertical
            }),
            0xc000 <= addr < 0xe000 && addr % 2 == 0 ==> final(self).irq_reload == data as usize
                && final(self).irq_counter == old(self).irq_counter,
            0xc000 <= addr < 0xe000 && addr % 2 == 1 ==> final(self).irq_counter == 0
                && final(self).irq_reload == old(self).irq_reload,
            0xe000 <= addr && addr % 2 == 0 ==> !final(self).irq_enable && !final(self).irq_active,
            0xe000 <= addr && addr % 2 == 1 ==> final(self).irq_enable && final(self).irq_active
                == old(self).irq_active,
            addr < 0xc000 ==> final(self).irq_active == old(self).irq_active
                && final(self).irq_enable == old(self).irq_enable && final(self).irq_counter
                == old(self).irq_counter && final(self).irq_reload == old(self).irq_reload,
    {
        if addr < 0x6000 {
            MapResult::Decline
        } else if addr < 0x8000 {
            self.prg_ram[(addr & 0x1fff) as usize] = data;
            MapResult::DirectWrite
        } else if addr < 0xa000 {
            if addr % 2 == 0 {
                // bank select: target register, PRG mode, CHR inversion
                self.target_reg_idx = (data & 0x07) as usize;
                self.prg_bank_mode = data & 0x40 != 0;
                self.chr_inversion = data & 0x80 != 0;
            } else {
                // bank data: update the selected register, then
                // recompute every derived offset
                let nchr_1k: u16 = if self.num_banks_chr >= 1 {
                    (self.num_banks_chr * 8) as u16
                } else {
                    8
                };
                let nprg_8k: u16 = (self.num_banks_prg * 2) as u16;
                if self.target_reg_idx <= 5 {
                    self.bank_reg[self.target_reg_idx] = (data as u16 % nchr_1k) as u8;
                } else {
                    self.bank_reg[self.target_reg_idx] = (data as u16 % nprg_8k) as u8;
                }

                self.recompute_offsets();
            }
            MapResult::DirectWrite
        } else if addr < 0xc000 {
            if addr % 2 == 0 {
                self.mirror_mode = if data & 0x01 != 0 {
                    Mirror::Horizontal
                } else {
                    Mirror::Vertical
                };
            } else {
                // PRG RAM protect: not modelled
            }
            MapResult::DirectWrite
        } else if addr < 0xe000 {
            if addr % 2 == 0 {
                self.irq_reload = data as usize;
            } else {
                self.irq_counter = 0;
            }
            MapResult::DirectWrite
        } else {
            if addr % 2 == 0 {
                self.irq_enable = false;
                self.irq_active = false;
            } else {
                self.irq_enable = true;
            }
            MapResult::DirectWrite
        }
    }

    /// Rebuild the PRG and CHR slot offsets from the bank registers
    /// and the two mode bits.
    fn recompute_offsets(&mut self)
        requires
            old(self).inv(),
        ensures
            final(self).inv(),
            *final(self) == (Mapper004 {
                prg_bank_offset: final(self).prg_bank_offset,
                chr_bank_offset: final(self).chr_bank_offset,
                ..*old(self)
            }),
    {
        proof {
            let n1k = m4_chr_banks_1k(self.num_banks_chr);
            if self.num_banks_chr >= 1 {
                assert((self.num_banks_chr * 8) % 2 == 0) by (nonlinear_arith);
                assert((self.num_banks_chr * 8) * 0x400 == self.num_banks_chr * 0x2000)
                    by (nonlinear_arith);
            }
            assert forall|i: int| 0 <= i < 6 implies (((#[trigger] self.bank_reg@[i]) & 0xfe) as int)
                + 1 < n1k && ((self.bank_reg@[i] & 0xfe) as int) < n1k by {
                crate::bitops::lemma_even_pair_bound(self.bank_reg@[i], n1k as u16);
            }
            assert forall|k: int| 0 <= k < n1k implies (#[trigger] (k * 0x400)) + 0x400
                <= m4_chr_cap(self.num_banks_chr) by {
                crate::bitops::lemma_slot_bound(k, 0x400, n1k);
            }
            let n8k = self.num_banks_prg * 2;
            assert((self.num_banks_prg * 2) * 0x2000 == self.num_banks_prg * 0x4000)
                by (nonlinear_arith);
            assert forall|k: int| 0 <= k < n8k implies (#[trigger] (k * 0x2000)) + 0x2000
                <= self.num_banks_prg * 0x4000 by {
                crate::bitops::lemma_slot_bound(k, 0x2000, n8k);
            }
        }
        let r0 = self.bank_reg[0];
        let r1 = self.bank_reg[1];
        let r2 = self.bank_reg[2];
        let r3 = self.bank_reg[3];
        let r4 = self.bank_reg[4];
        let r5 = self.bank_reg[5];
        let r6 = self.bank_reg[6];
        let r7 = self.bank_reg[7];

        if self.chr_inversion {
            self.chr_bank_offset[0] = r2 as usize * 0x0400;
            self.chr_bank_offset[1] = r3 as usize * 0x0400;
            self.chr_bank_offset[2] = r4 as usize * 0x0400;
            self.chr_bank_offset[3] = r5 as usize * 0x0400;
            self.chr_bank_offset[4] = (r0 & 0xfe) as usize * 0x0400;
            self.chr_bank_offset[5] = ((r0 & 0xfe) + 1) as usize * 0x0400;
            self.chr_bank_offset[6] = (r1 & 0xfe) as usize * 0x0400;
            self.chr_bank_offset[7] = ((r1 & 0xfe) + 1) as usize * 0x0400;
        } else {
            self.chr_bank_offset[0] = (r0 & 0xfe) as usize * 0x0400;
            self.chr_bank_offset[1] = ((r0 & 0xfe) + 1) as usize * 0x0400;
            self.chr_bank_offset[2] = (r1 & 0xfe) as usize * 0x0400;
            self.chr_bank_offset[3] = ((r1 & 0xfe) + 1) as usize * 0x0400;
            self.chr_bank_offset[4] = r2 as usize * 0x0400;
            self.chr_bank_offset[5] = r3 as usize * 0x0400;
            self.chr_bank_offset[6] = r4 as usize * 0x0400;
            self.chr_bank_offset[7] = r5 as usize * 0x0400;
        }

        if self.prg_bank_mode {
            self.prg_bank_offset[2] = (r6 & 0x3f) as usize * 0x2000;
            self.prg_bank_offset[0] = (self.num_banks_prg * 2 - 2) * 0x2000;
        } else {
            self.prg_bank_offset[0] = (r6 & 0x3f) as usize * 0x2000;
            self.prg_bank_offset[2] = (self.num_banks_prg * 2 - 2) * 0x2000;
        }

        self.prg_bank_offset[1] = (r7 & 0x3f) as usize * 0x2000;
        self.prg_bank_offset[3] = (self.num_banks_prg * 2 - 1) * 0x2000;
    }

    /// CHR translation: eight 1 KiB slots.
    pub fn ppu_map_read(&mut self, addr: u16) -> (r: MapResult)
        requires
            old(self).inv(),
        ensures
            *final(self) == *old(self),
            r == spec_m4_ppu_map(old(self), addr),
            r matches MapResult::MapAddr(ma) ==> ma < m4_chr_cap(old(self).num_banks_chr),
    {
        if addr < 0x2000 {
            let idx = (addr / 0x400) as usize;
            MapResult::MapAddr(self.chr_bank_offset[idx] + (addr & 0x03ff) as usize)
        } else {
            MapResult::Decline
        }
    }

    pub fn ppu_map_write(&mut self, _addr: u16, _data: u8) -> (r: MapResult)
        ensures
            *final(self) == *old(self),
            r == MapResult::Decline,
    {
        MapResult::Decline
    }

    pub fn mirror(&self) -> (r: Mirror)
        ensures
            r == self.mirror_mode,
    {
        self.mirror_mode
    }

    pub fn reset(&mut self)
        requires
            old(self).inv(),
        ensures
            final(self).inv(),
            final(self).num_banks_prg == old(self).num_banks_prg,
            final(self).num_banks_chr == old(self).num_banks_chr,
            final(self).mirror_mode == Mirror::Horizontal,
            !final(self).irq_active,
            !final(self).irq_enable,
            final(self).irq_counter == 0,
            final(self).irq_reload == 0,
    {
        self.prg_ram = vec![0u8; 8192];
        self.mirror_mode = Mirror::Horizontal;
        self.prg_bank_mode = false;
        self.chr_inversion = false;

        self.bank_reg = vec![0u8; 8];
        let mut prg_bank_offset: Vec<usize> = Vec::new();
        prg_bank_offset.push(0);
        prg_bank_offset.push(0x2000);
        prg_bank_offset.push((self.num_banks_prg * 2 - 2) * 0x2000);
        prg_bank_offset.push((self.num_banks_prg * 2 - 1) * 0x2000);
        self.prg_bank_offset = prg_bank_offset;
        self.chr_bank_offset = vec![0usize; 8];
        self.target_reg_idx = 0;

        self.irq_active = false;
        self.irq_enable = false;
        self.irq_update = false;
        self.irq_counter = 0;
        self.irq_reload = 0;
    }

    pub fn irq_state(&self) -> (r: bool)
        ensures
            r == self.irq_active,
    {
        self.irq_active
    }

    pub fn irq_clear(&mut self)
        ensures
            *final(self) == (Mapper004 { irq_active: false, ..*old(self) }),
    {
        self.irq_active = false;
    }

    /// One end-of-scanline tick of the IRQ counter: at zero it
    /// reloads; the step from one to zero asserts the line when
    /// enabled.
    pub fn on_scanline_end(&mut self)
        ensures
            *final(self) == spec_m4_scanline(*old(self)),
    {
        if self.irq_counter == 0 {
            self.irq_counter = self.irq_reload;
        } else if self.irq_counter == 1 {
            if self.irq_enable {
                self.irq_active = true;
            }
            self.irq_counter -= 1;
        } else {
            self.irq_counter -= 1;
        }
    }

    /// Replace the battery RAM with a saved image of the right size.
    pub fn load_ram(&mut self, ram: &[u8])
        requires
            old(self).inv(),
        ensures
            final(self).inv(),
            ram@.len() == 8192 ==> final(self).prg_ram@ == ram@,
            ram@.len() != 8192 ==> *final(self) == *old(self),
            *final(self) == (Mapper004 { prg_ram: final(self).prg_ram, ..*old(self) }),
    {
        if self.prg_ram.len() == ram.len() {
            let mut copy: Vec<u8> = Vec::new();
            let mut i: usize = 0;
            while i < ram.len()
                invariant
                    i <= ram@.len(),
                    copy@ == ram@.take(i as int),
                decreases ram@.len() - i,
            {
                copy.push(ram[i]);
                i += 1;
            }
            proof {
                assert(ram@.take(ram@.len() as int) =~= ram@);
            }
            self.prg_ram = copy;
        }
    }

    /// A copy of the battery RAM for persistence.
    pub fn save_ram(&self) -> (r: Option<Vec<u8>>)
        requires
            self.inv(),
        ensures
            r matches Option::Some(v) && v@ == self.prg_ram@,
    {
        let mut copy: Vec<u8> = Vec::new();
        let mut i: usize = 0;
        while i < self.prg_ram.len()
            invariant
                self.inv(),
                i <= self.prg_ram@.len(),
                copy@ == self.prg_ram@.take(i as int),
            decreases self.prg_ram@.len() - i,
        {
            copy.push(self.prg_ram[i]);
            i += 1;
        }
        proof {
            assert(self.prg_ram@.take(self.prg_ram@.len() as int) =~= self.prg_ram@);
        }
        Some(copy)
    }

    pub(crate) fn inv_exec(&self) -> (r: bool)
        ensures
            r == self.inv(),
    {
        let scal: bool = 1 <= self.num_banks_prg && self.num_banks_prg <= 256
            && self.num_banks_chr <= 256 && self.prg_ram.len() == 8192 && self.bank_reg.len() == 8
            && self.prg_bank_offset.len() == 4 && self.chr_bank_offset.len() == 8
            && self.target_reg_idx < 8;
        if !scal {
            return false;
        }
        let n1k: usize = if self.num_banks_chr >= 1 {
            self.num_banks_chr * 8
        } else {
            8
        };
        let cap_prg: usize = self.num_banks_prg * 0x4000;
        let cap_chr: usize = if self.num_banks_chr >= 1 {
            self.num_banks_chr * 0x2000
        } else {
            0x2000
        };

        let mut ok_regs: bool = true;
        let mut i: usize = 0;
        while i < 6
            invariant
                self.bank_reg@.len() == 8,
                i <= 6,
                n1k == m4_chr_banks_1k(self.num_banks_chr),
                ok_regs == forall|j: int| 0 <= j < i ==> ((#[trigger] self.bank_reg@[j]) as int)
                    < m4_chr_banks_1k(self.num_banks_chr),
            decreases 6 - i,
        {
            if !((self.bank_reg[i] as usize) < n1k) {
                ok_regs = false;
            }
            i += 1;
        }
        let ok_prg_regs: bool = (self.bank_reg[6] as usize) < self.num_banks_prg * 2 && (
        self.bank_reg[7] as usize) < self.num_banks_prg * 2;

        let mut ok_prg: bool = true;
        let mut i: usize = 0;
        while i < 4
            invariant
                self.prg_bank_offset@.len() == 4,
                i <= 4,
                self.num_banks_prg <= 256,
                cap_prg == self.num_banks_prg * 0x4000,
                ok_prg == forall|j: int| 0 <= j < i ==> #[trigger] self.prg_bank_offset@[j]
                    + 0x2000 <= self.num_banks_prg * 0x4000,
            decreases 4 - i,
        {
            if !(self.prg_bank_offset[i] <= 0x400000 && self.prg_bank_offset[i] + 0x2000
                <= cap_prg) {
                ok_prg = false;
            }
            i += 1;
        }

        let mut ok_chr: bool = true;
        let mut i: usize = 0;
        while i < 8
            invariant
                self.chr_bank_offset@.len() == 8,
                i <= 8,
                self.num_banks_chr <= 256,
                cap_chr == m4_chr_cap(self.num_banks_chr),
                ok_chr == forall|j: int| 0 <= j < i ==> #[trigger] self.chr_bank_offset@[j] + 0x400
                    <= m4_chr_cap(self.num_banks_chr),
            decreases 8 - i,
        {
            if !(self.chr_bank_offset[i] <= 0x200000 && self.chr_bank_offset[i] + 0x400
                <= cap_chr) {
                ok_chr = false;
            }
            i += 1;
        }

        ok_regs && ok_prg_regs && ok_prg && ok_chr
    }
}

impl Mapper for Mapper004 {
    fn cpu_map_read(&mut self, addr: u16) -> MapResult {
        if self.inv_exec() {
            Mapper004::cpu_map_read(self, addr)
        } else {
            MapResult::Decline
        }
    }

    fn cpu_map_read_ro(&self, addr: u16) -> MapResult {
        if self.inv_exec() {
            Mapper004::cpu_map_read_ro(self, addr)
        } else {
            MapResult::Decline
        }
    }

    fn cpu_map_write(&mut self, addr: u16, data: u8) -> MapResult {
        if self.inv_exec() {
            Mapper004::cpu_map_write(self, addr, data)
        } else {
            MapResult::Decline
        }
    }

    fn ppu_map_read(&mut self, addr: u16) -> MapResult {
        if self.inv_exec() {
            Mapper004::ppu_map_read(self, addr)
        } else {
            MapResult::Decline
        }
    }

    fn ppu_map_write(&mut self, addr: u16, data: u8) -> MapResult {
        Mapper004::ppu_map_write(self, addr, data)
    }

    fn mirror(&self) -> Mirror {
        Mapper004::mirror(self)
    }

    fn reset(&mut self) {
        if self.inv_exec() {
            Mapper004::reset(self)
        }
    }

    fn irq_state(&self) -> bool {
        Mapper004::irq_state(self)
    }

    fn irq_clear(&mut self) {
        Mapper004::irq_clear(self)
    }

    fn on_scanline_end(&mut self) {
        Mapper004::on_scanline_end(self)
    }
}

} // verus!
