use vstd::prelude::*;
use crate::bus::CpuBus;
use crate::cpu::Cpu;

verus! {

/// A bare 64 KiB memory for running the CPU without the rest of the
/// console.
pub struct MemoryDebugCpu {
    pub ram: Vec<u8>,
}

impl MemoryDebugCpu {
    pub open spec fn wf(&self) -> bool {
        self.ram@.len() == 0x10000
    }

    pub fn new() -> (r: MemoryDebugCpu)
        ensures
            r.wf(),
            forall|i: int| 0 <= i < 0x10000 ==> r.ram@[i] == 0,
    {
        MemoryDebugCpu { ram: vec![0u8; 0x10000] }
    }
}

impl CpuBus for MemoryDebugCpu {
    open spec fn inv(&self) -> bool {
        self.wf()
    }

    open spec fn ppu_timing(&self) -> (i32, usize) {
        (0, 0)
    }

    open spec fn dma_view(&self) -> (Seq<crate::ppu::OamEntry>, (bool, bool, u8, u8, u8)) {
        (Seq::empty(), (false, false, 0, 0, 0))
    }

    open spec fn ram_view(&self) -> Seq<u8> {
        self.ram@
    }

    open spec fn read_spec(&self, addr: u16) -> Option<u8> {
        Some(self.ram@[addr as int])
    }

    open spec fn write_addr(&self, addr: u16) -> int {
        addr as int
    }

    fn cpu_write(&mut self, addr: u16, data: u8)
        ensures
            final(self).ram@ == old(self).ram@.update(addr as int, data),
    {
        self.ram[addr as usize] = data;
    }

    fn cpu_read(&mut self, addr: u16) -> (r: u8)
        ensures
            *final(self) == *old(self),
            r == old(self).ram@[addr as int],
    {
        self.ram[addr as usize]
    }

    fn cpu_read_ro(&self, addr: u16) -> (r: u8)
        ensures
            r == self.ram@[addr as int],
    {
        self.ram[addr as usize]
    }
}

/// A CPU wired to bare memory, for instruction-level debugging and
/// CPU test programs.
pub struct SystemDebugCpu {
    pub memory: MemoryDebugCpu,
    pub cpu: Cpu,
}

impl SystemDebugCpu {
    pub open spec fn wf(&self) -> bool {
        self.memory.wf()
    }

    pub fn new() -> (r: SystemDebugCpu)
        ensures
            r.wf(),
            r.cpu.cycles == 0,
            r.cpu.status == 0,
    {
        SystemDebugCpu { memory: MemoryDebugCpu::new(), cpu: Cpu::new() }
    }

    /// Load a program given as bytes at `addr`.
    pub fn load(&mut self, bytes: &[u8], addr: u16)
        requires
            old(self).wf(),
            addr as int + bytes@.len() <= 0x10000,
        ensures
            final(self).wf(),
            forall|i: int| 0 <= i < bytes@.len() ==> final(self).memory.ram@[addr as int + i]
                == bytes@[i],
            final(self).cpu == old(self).cpu,
    {
        let mut offset: usize = 0;
        while offset < bytes.len()
            invariant
                self.wf(),
                addr as int + bytes@.len() <= 0x10000,
                offset <= bytes@.len(),
                self.cpu == old(self).cpu,
                forall|i: int| 0 <= i < offset ==> self.memory.ram@[addr as int + i] == bytes@[i],
            decreases bytes@.len() - offset,
        {
            self.memory.ram[addr as usize + offset] = bytes[offset];
            offset += 1;
        }
    }

    /// Load a program written as whitespace-separated hex byte
    /// tokens.
    pub fn load_from_str(&mut self, s: &str, addr: u16)
        requires
            old(self).wf(),
        ensures
            final(self).wf(),
            final(self).cpu == old(self).cpu,
    {
        let bytes = s.as_bytes();
        let mut idx: usize = 0;
        let mut cur: u8 = 0;
        let mut have: bool = false;
        let mut pos: usize = addr as usize;
        while idx < bytes.len()
            invariant
                self.wf(),
                self.cpu == old(self).cpu,
            decreases bytes@.len() - idx,
        {
            let b = bytes[idx];
            let digit: Option<u8> = if 0x30 <= b && b <= 0x39 {
                Some(b - 0x30)
            } else if 0x61 <= b && b <= 0x66 {
                Some(b - 0x61 + 10)
            } else if 0x41 <= b && b <= 0x46 {
                Some(b - 0x41 + 10)
            } else {
                None
            };
            match digit {
                Some(d) => {
                    cur = (cur << 4) | d;
                    have = true;
                },
                None => {
                    if have {
                        if pos < 0x10000 {
                            self.memory.ram[pos] = cur;
                            pos += 1;
                        }
                        cur = 0;
                        have = false;
                    }
                },
            }
            idx += 1;
        }
        if have && pos < 0x10000 {
            self.memory.ram[pos] = cur;
        }
    }

    /// Point the reset vector at `addr`.
    pub fn set_reset_vector(&mut self, addr: u16)
        requires
            old(self).wf(),
        ensures
            final(self).wf(),
            final(self).memory.ram@[0xfffc] == (addr & 0x00ff) as u8,
            final(self).memory.ram@[0xfffd] == ((addr >> 8) & 0x00ff) as u8,
            final(self).cpu == old(self).cpu,
    {
        self.memory.ram[0xfffc] = (addr & 0x00ff) as u8;
        self.memory.ram[0xfffd] = ((addr >> 8) & 0x00ff) as u8;
    }

    /// Run the CPU to the next instruction boundary.
    pub fn cpu_step(&mut self)
        requires
            old(self).wf(),
        ensures
            final(self).wf(),
            final(self).cpu.cycles == 0,
    {
        let cpu = &mut self.cpu;
        cpu.clock(&mut self.memory);
        while self.cpu.cycles > 0
            invariant
                self.wf(),
            decreases self.cpu.cycles,
        {
            let cpu = &mut self.cpu;
            cpu.clock(&mut self.memory);
        }
    }

    pub fn cpu_reset(&mut self)
        requires
            old(self).wf(),
        ensures
            final(self).wf(),
            final(self).cpu.status == 0x20,
            final(self).cpu.stkp == 0xfd,
            final(self).cpu.cycles == 8,
            final(self).memory.ram@ == old(self).memory.ram@,
    {
        let cpu = &mut self.cpu;
        cpu.reset(&mut self.memory);
    }

    pub fn cpu_irq(&mut self)
        requires
            old(self).wf(),
        ensures
            final(self).wf(),
    {
        let cpu = &mut self.cpu;
        cpu.irq(&mut self.memory);
    }

    pub fn cpu_nmi(&mut self)
        requires
            old(self).wf(),
        ensures
            final(self).wf(),
            final(self).cpu.cycles == 8,
    {
        let cpu = &mut self.cpu;
        cpu.nmi(&mut self.memory);
    }

    /// Inspect one memory byte.
    pub fn read(&self, addr: u16) -> (r: u8)
        requires
            self.wf(),
        ensures
            r == self.memory.ram@[addr as int],
    {
        self.memory.ram[addr as usize]
    }
}

} // verus!
