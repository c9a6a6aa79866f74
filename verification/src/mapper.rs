pub mod mapper000;
pub mod mapper001;
pub mod mapper002;
pub mod mapper003;
pub mod mapper004;
pub mod mapper007;
pub mod mapper009;

use vstd::prelude::*;
use crate::cartridge::Mirror;

verus! {

/// Outcome of handing an address to a mapper: it may decline, map it
/// to an offset in PRG/CHR memory, answer the read itself, or absorb
/// the write.
#[derive(Copy, Clone, PartialEq, Eq, Structural, Debug)]
pub enum MapResult {
    Decline,
    MapAddr(usize),
    DirectRead(u8),
    DirectWrite,
}

/// The narrow capability every concrete mapper offers the cartridge.
pub trait Mapper {
    fn cpu_map_read(&mut self, addr: u16) -> MapResult;

    fn cpu_map_read_ro(&self, addr: u16) -> MapResult;

    fn cpu_map_write(&mut self, addr: u16, data: u8) -> MapResult;

    fn ppu_map_read(&mut self, addr: u16) -> MapResult;

    fn ppu_map_write(&mut self, addr: u16, data: u8) -> MapResult;

    fn mirror(&self) -> Mirror;

    fn reset(&mut self);

    fn irq_state(&self) -> bool;

    fn irq_clear(&mut self);

    fn on_scanline_end(&mut self);
}

} // verus!
