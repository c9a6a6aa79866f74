use vstd::prelude::*;
use crate::bus::CpuBus;

verus! {

/// A bare 64 KiB memory with no devices, for running the CPU on its
/// own.
pub struct DummyBus {
    pub ram: Vec<u8>,
}

impl DummyBus {
    pub open spec fn wf(&self) -> bool {
        self.ram@.len() == 0x10000
    }

    pub fn new() -> (r: DummyBus)
        ensures
            r.wf(),
            forall|i: int| 0 <= i < 0x10000 ==> r.ram@[i] == 0,
    {
        DummyBus { ram: vec![0u8; 0x10000] }
    }

    /// Load a program given as bytes into memory starting at `addr`.
    pub fn load(&mut self, bytes: &[u8], addr: u16)
        requires
            old(self).wf(),
            addr as int + bytes@.len() <= 0x10000,
        ensures
            final(self).wf(),
            forall|i: int| 0 <= i < bytes@.len() ==> final(self).ram@[addr as int + i] == bytes@[i],
            forall|i: int| 0 <= i < 0x10000 && !(addr as int <= i < addr as int + bytes@.len())
                ==> final(self).ram@[i] == old(self).ram@[i],
    {
        let mut offset: usize = 0;
        while offset < bytes.len()
            invariant
                self.wf(),
                addr as int + bytes@.len() <= 0x10000,
                offset <= bytes@.len(),
                forall|i: int| 0 <= i < offset ==> self.ram@[addr as int + i] == bytes@[i],
                forall|i: int| 0 <= i < 0x10000 && !(addr as int <= i < addr as int + offset)
                    ==> self.ram@[i] == old(self).ram@[i],
            decreases bytes@.len() - offset,
        {
            self.ram[addr as usize + offset] = bytes[offset];
            offset += 1;
        }
    }

    /// Load a program written as whitespace-separated hex byte tokens,
    /// starting at `addr`.  Tokens that overflow the memory end are
    /// dropped.
    pub fn load_from_str(&mut self, s: &str, addr: u16)
        requires
            old(self).wf(),
        ensures
            final(self).wf(),
    {
        let bytes = s.as_bytes();
        let mut idx: usize = 0;
        let mut cur: u8 = 0;
        let mut have: bool = false;
        let mut pos: usize = addr as usize;
        while idx < bytes.len()
            invariant
                self.wf(),
            decreases bytes@.len() - idx,
        {
            let b = bytes[idx];
            let digit: Option<u8> = if 0x30 <= b && b <= 0x39 {
                Some(b - 0x30)
            } else if 0x61 <= b && b <= 0x66 {
                Some(b - 0x61 + 10)
            } else if 0x41 <= b && b <= 0x46 {
                Some(b - 0x41 + 10)
            } else {
                None
            };
            match digit {
                Some(d) => {
                    cur = (cur << 4) | d;
                    have = true;
                }
                None => {
                    if have {
                        if pos < 0x10000 {
                            self.ram[pos] = cur;
                            pos += 1;
                        }
                        cur = 0;
                        have = false;
                    }
                }
            }
            idx += 1;
        }
        if have && pos < 0x10000 {
            self.ram[pos] = cur;
        }
    }

    /// Point the reset vector at `addr`.
    pub fn set_reset_vector(&mut self, addr: u16)
        requires
            old(self).wf(),
        ensures
            final(self).wf(),
            final(self).ram@[0xfffc] == (addr & 0x00ff) as u8,
            final(self).ram@[0xfffd] == ((addr >> 8) & 0x00ff) as u8,
            forall|i: int| 0 <= i < 0xfffc ==> final(self).ram@[i] == old(self).ram@[i],
    {
        self.ram[0xfffc] = (addr & 0x00ff) as u8;
        self.ram[0xfffd] = ((addr >> 8) & 0x00ff) as u8;
    }
}

impl CpuBus for DummyBus {
    open spec fn inv(&self) -> bool {
        self.wf()
    }

    open spec fn ppu_timing(&self) -> (i32, usize) {
        (0, 0)
    }

    open spec fn dma_view(&self) -> (Seq<crate::ppu::OamEntry>, (bool, bool, u8, u8, u8)) {
        (Seq::empty(), (false, false, 0, 0, 0))
    }

    open spec fn ram_view(&self) -> Seq<u8> {
        self.ram@
    }

    open spec fn read_spec(&self, addr: u16) -> Option<u8> {
        Some(self.ram@[addr as int])
    }

    open spec fn write_addr(&self, addr: u16) -> int {
        addr as int
    }

    fn cpu_write(&mut self, addr: u16, data: u8)
        ensures
            final(self).ram@ == old(self).ram@.update(addr as int, data),
    {
        self.ram[addr as usize] = data;
    }

    fn cpu_read(&mut self, addr: u16) -> (r: u8)
        ensures
            *final(self) == *old(self),
            r == old(self).ram@[addr as int],
    {
        self.ram[addr as usize]
    }

    fn cpu_read_ro(&self, addr: u16) -> (r: u8)
        ensures
            r == self.ram@[addr as int],
    {
        self.ram[addr as usize]
    }
}

} // verus!
