pub mod dummy;

use vstd::prelude::*;
use crate::ppu::OamEntry;

verus! {

/// Read/write capability the CPU borrows for every memory access.
/// `inv` is the implementor's well-formedness condition; every access
/// preserves it.  The view functions name state that accesses cannot
/// disturb: the PPU timing point never moves under a register access,
/// the DMA latches and OAM only move under writes at 0x2000 and
/// above, and RAM only moves under writes.  `read_spec` gives the
/// value of every side-effect-free address (RAM and cartridge space);
/// a write below 0x2000 lands in RAM at `write_addr` and leaves the
/// rest of the readable map alone.
pub trait CpuBus {
    spec fn inv(&self) -> bool;

    spec fn ppu_timing(&self) -> (i32, usize);

    spec fn dma_view(&self) -> (Seq<OamEntry>, (bool, bool, u8, u8, u8));

    spec fn ram_view(&self) -> Seq<u8>;

    spec fn read_spec(&self, addr: u16) -> Option<u8>;

    spec fn write_addr(&self, addr: u16) -> int;

    fn cpu_write(&mut self, addr: u16, data: u8)
        requires
            old(self).inv(),
        ensures
            final(self).inv(),
            final(self).ppu_timing() == old(self).ppu_timing(),
            addr < 0x2000 ==> final(self).dma_view() == old(self).dma_view(),
            addr < 0x2000 ==> final(self).ram_view() == old(self).ram_view().update(
                old(self).write_addr(addr),
                data,
            ),
            addr < 0x2000 ==> forall|a: u16| a >= 0x2000 ==> #[trigger] final(self).read_spec(a)
                == old(self).read_spec(a),
            forall|a: u16| #[trigger] final(self).write_addr(a) == old(self).write_addr(a),
    ;

    fn cpu_read(&mut self, addr: u16) -> (r: u8)
        requires
            old(self).inv(),
        ensures
            final(self).inv(),
            final(self).ppu_timing() == old(self).ppu_timing(),
            final(self).dma_view() == old(self).dma_view(),
            final(self).ram_view() == old(self).ram_view(),
            old(self).read_spec(addr) matches Some(v) ==> r == v && (forall|a: u16|
                #[trigger] final(self).read_spec(a) == old(self).read_spec(a)),
    ;

    fn cpu_read_ro(&self, addr: u16) -> (r: u8)
        requires
            self.inv(),
        ensures
            self.read_spec(addr) matches Some(v) ==> r == v,
    ;
}

} // verus!
