use vstd::prelude::*;
use crate::apu::{Apu, ChannelSamples};
use crate::bus::CpuBus;
use crate::cartridge::Cartridge;
use crate::controller::{Controller, ControllerInput, pack_inputs};
use crate::cpu::{Cpu, get_bit};
use crate::ppu::{Ppu, SetPixel, PatternTable, ppu_step};

verus! {

broadcast use crate::bitops::lemma_u16_and_le;

/// PPU clocks per second: the master clock rate the audio accumulator
/// divides.
pub const PPU_CLOCK_HZ: u64 = 5369318;

/// Every device on the CPU memory bus.
pub struct Bus {
    pub ram_cpu: Vec<u8>,
    pub ppu: Ppu,
    pub apu: Apu,
    pub cart: Cartridge,
    pub controller1: Controller,
    pub controller2: Controller,
    pub dma_transfer: bool,
    pub dma_start_wait: bool,
    pub dma_page: u8,
    pub dma_addr: u8,
    pub dma_data: u8,
}

impl Bus {
    pub open spec fn wf(&self) -> bool {
        &&& self.ram_cpu@.len() == 2048
        &&& self.ppu.wf()
        &&& self.apu.wf()
        &&& self.cart.inv()
    }
}

/// The on-board RAM cell an address in 0x0000..=0x1fff selects: the
/// 2 KiB are mirrored four times.
pub open spec fn ram_index(addr: u16) -> int {
    (addr % 0x800) as int
}

/// The RAM law: a write to a RAM address is read back unchanged from
/// the same address.
pub proof fn lemma_ram_write_read(ram: Seq<u8>, addr: u16, v: u8)
    requires
        ram.len() == 2048,
        addr < 0x2000,
    ensures
        ram.update(ram_index(addr), v)[ram_index(addr)] == v,
{
}

impl CpuBus for Bus {
    open spec fn inv(&self) -> bool {
        self.wf()
    }

    open spec fn ppu_timing(&self) -> (i32, usize) {
        (self.ppu.scanline, self.ppu.cycle)
    }

    open spec fn dma_view(&self) -> (Seq<crate::ppu::OamEntry>, (bool, bool, u8, u8, u8)) {
        (
            self.ppu.oam@,
            (self.dma_transfer, self.dma_start_wait, self.dma_page, self.dma_addr, self.dma_data),
        )
    }

    open spec fn ram_view(&self) -> Seq<u8> {
        self.ram_cpu@
    }

    open spec fn read_spec(&self, addr: u16) -> Option<u8> {
        if addr < 0x2000 {
            Some(self.ram_cpu@[ram_index(addr)])
        } else if addr >= 0x4020 {
            match self.cart.spec_cpu_read_value(addr) {
                Some(v) => Some(v),
                None => Some(0u8),
            }
        } else {
            None
        }
    }

    open spec fn write_addr(&self, addr: u16) -> int {
        ram_index(addr)
    }

    /// A CPU write: the cartridge gets the first claim, then RAM, the
    /// PPU registers, the APU, the DMA port, and the controller
    /// latch.
    fn cpu_write(&mut self, addr: u16, data: u8)
        ensures
            addr < 0x2000 ==> final(self).ram_cpu@ == old(self).ram_cpu@.update(
                ram_index(addr),
                data,
            ),
            addr >= 0x2000 ==> final(self).ram_cpu@ == old(self).ram_cpu@,
            addr == 0x4014 ==> final(self).dma_page == data && final(self).dma_addr == 0 && final(self).dma_transfer,
            addr == 0x4016 ==> final(self).controller1.state == old(self).controller1.reg && final(self).controller2.state == old(self).controller2.reg,
            addr < 0x4014 ==> final(self).dma_transfer == old(self).dma_transfer && final(self).dma_addr == old(self).dma_addr && final(self).dma_start_wait == old(self).dma_start_wait,
            final(self).ppu.oam == (if 0x2000 <= addr < 0x4000 {
                final(self).ppu.oam
            } else {
                old(self).ppu.oam
            }),
    {
        let ghost pre = *self;
        let consumed = self.cart.cpu_write(addr, data);
        if !consumed {
            if addr < 0x2000 {
                self.ram_cpu[(addr % 0x800) as usize] = data;
                proof {
                    assert forall|a: u16| a >= 0x2000 implies #[trigger] self.read_spec(a)
                        == pre.read_spec(a) by {
                    }
                }
            } else if addr < 0x4000 {
                let ppu = &mut self.ppu;
                ppu_reg_write(ppu, &mut self.cart, addr % 8, data);
            } else if (0x4000 <= addr && addr <= 0x4013) || addr == 0x4015 || addr == 0x4017 {
                self.apu.cpu_write(addr, data);
            } else if addr == 0x4014 {
                self.dma_page = data;
                self.dma_addr = 0x00;
                self.dma_transfer = true;
            } else if addr == 0x4016 {
                self.controller1.write();
                self.controller2.write();
            }
        }
    }

    /// A CPU read, mirrored across the same decode.
    fn cpu_read(&mut self, addr: u16) -> (r: u8)
        ensures
            addr < 0x2000 ==> r == old(self).ram_cpu@[ram_index(addr)] && *final(self) == *old(self),
            final(self).ram_cpu@ == old(self).ram_cpu@,
            0x2000 <= addr < 0x4000 && addr % 8 == 2 ==> r == (old(self).ppu.status.reg & 0xe0) | (
            old(self).ppu.ppu_data_buffer & 0x1f),
            addr == 0x4015 ==> r == (if old(self).apu.pulse1.length_counter.counter > 0 {
                1u8
            } else {
                0u8
            }) | ((if old(self).apu.pulse2.length_counter.counter > 0 {
                1u8
            } else {
                0u8
            }) << 1) | ((if old(self).apu.triangle.length_counter.counter > 0 {
                1u8
            } else {
                0u8
            }) << 2) | ((if old(self).apu.noise.length_counter.counter > 0 {
                1u8
            } else {
                0u8
            }) << 3),
    {
        let from_cart = self.cart.cpu_read(addr);
        match from_cart {
            Some(data) => data,
            None => {
                if addr < 0x2000 {
                    self.ram_cpu[(addr % 0x800) as usize]
                } else if addr < 0x4000 {
                    let ppu = &mut self.ppu;
                    ppu.cpu_read(&mut self.cart, addr % 8)
                } else if addr == 0x4015 {
                    self.apu.cpu_read(addr)
                } else if addr == 0x4016 {
                    self.controller1.read()
                } else if addr == 0x4017 {
                    self.controller2.read()
                } else {
                    0
                }
            },
        }
    }

    /// The inspection read: no state is disturbed.
    fn cpu_read_ro(&self, addr: u16) -> (r: u8)
        ensures
            addr < 0x2000 ==> r == self.ram_cpu@[ram_index(addr)],
            0x2000 <= addr < 0x4000 && addr % 8 == 0 ==> r == self.ppu.control.reg,
            0x2000 <= addr < 0x4000 && addr % 8 == 1 ==> r == self.ppu.mask.reg,
            0x2000 <= addr < 0x4000 && addr % 8 == 2 ==> r == self.ppu.status.reg,
    {
        let from_cart = self.cart.cpu_read_ro(addr);
        match from_cart {
            Some(data) => data,
            None => {
                if addr < 0x2000 {
                    self.ram_cpu[(addr % 0x800) as usize]
                } else if addr < 0x4000 {
                    self.ppu.cpu_read_ro(addr % 8)
                } else if addr == 0x4015 {
                    self.apu.cpu_read(addr)
                } else if addr == 0x4016 {
                    self.controller1.read_ro()
                } else if addr == 0x4017 {
                    self.controller2.read_ro()
                } else {
                    0
                }
            },
        }
    }
}

/// Forwarding shim so that `cpu_write` can split its borrow of the
/// PPU and the cartridge.
fn ppu_reg_write(ppu: &mut Ppu, cart: &mut Cartridge, addr: u16, data: u8)
    requires
        old(ppu).wf(),
        old(cart).inv(),
        addr < 8,
    ensures
        final(ppu).wf(),
        final(cart).inv(),
        final(ppu).scanline == old(ppu).scanline,
        final(ppu).cycle == old(ppu).cycle,
{
    ppu.cpu_write(cart, addr, data);
}

/// What one master-clock step hands back to the host.
pub struct SystemClockResult {
    pub set_pixel: Option<SetPixel>,
    pub frame_complete: bool,
    pub cpu_complete: bool,
    pub audio_sample: Option<ChannelSamples>,
}

/// The NES as a whole: CPU, bus aggregate, the master clock counter,
/// and the integer accumulator that paces audio sample production.
pub struct System {
    pub cpu: Cpu,
    pub bus: Bus,
    pub clock_counter: usize,
    pub sample_rate: u32,
    pub audio_time_acc: u64,
}

impl System {
    pub open spec fn wf(&self) -> bool {
        &&& self.bus.wf()
        &&& self.audio_time_acc < PPU_CLOCK_HZ
        &&& self.sample_rate as u64 <= PPU_CLOCK_HZ
    }

    /// Assemble a system around a cartridge.  `sample_rate` is the
    /// host audio rate in Hz and paces sample production.
    pub fn new(cart: Cartridge, sample_rate: u32) -> (r: System)
        requires
            cart.inv(),
            sample_rate as u64 <= PPU_CLOCK_HZ,
        ensures
            r.wf(),
            r.clock_counter == 0,
            r.sample_rate == sample_rate,
            r.bus.cart == cart,
            !r.bus.dma_transfer,
            r.bus.dma_start_wait,
            r.cpu.cycles == 0,
    {
        System {
            cpu: Cpu::new(),
            bus: Bus {
                ram_cpu: vec![0u8; 2048],
                ppu: Ppu::new(),
                apu: Apu::new(),
                cart,
                controller1: Controller::new(),
                controller2: Controller::new(),
                dma_page: 0x00,
                dma_addr: 0x00,
                dma_data: 0x00,
                dma_transfer: false,
                dma_start_wait: true,
            },
            clock_counter: 0,
            sample_rate,
            audio_time_acc: 0,
        }
    }

    /// One PPU-rate master clock step, in canonical order: PPU, APU,
    /// DMA-or-CPU on every third count, audio pacing, then the
    /// NMI/IRQ lines, then the counter.
    #[verifier::rlimit(100)]
    pub fn clock(&mut self) -> (res: SystemClockResult)
        requires
            old(self).wf(),
            old(self).clock_counter < usize::MAX,
        ensures
            final(self).wf(),
            final(self).clock_counter == old(self).clock_counter + 1,
            final(self).sample_rate == old(self).sample_rate,
            (final(self).bus.ppu.scanline, final(self).bus.ppu.cycle) == ppu_step(
                old(self).bus.ppu.scanline,
                old(self).bus.ppu.cycle,
                old(self).bus.ppu.odd_frame && get_bit(old(self).bus.ppu.mask.reg, 0x08),
            ),
            res.frame_complete == (old(self).bus.ppu.scanline == 260 && old(self).bus.ppu.cycle
                == 340),
            res.cpu_complete == (final(self).cpu.cycles == 0),
            res.audio_sample is Some <==> old(self).audio_time_acc + old(self).sample_rate
                >= PPU_CLOCK_HZ,
            final(self).audio_time_acc == (if old(self).audio_time_acc + old(self).sample_rate
                >= PPU_CLOCK_HZ {
                (old(self).audio_time_acc + old(self).sample_rate - PPU_CLOCK_HZ) as u64
            } else {
                (old(self).audio_time_acc + old(self).sample_rate) as u64
            }),
            // while a transfer is waiting to align, the only DMA move
            // on a CPU slot is the alignment flag itself
            old(self).clock_counter % 3 == 0 && old(self).bus.dma_transfer && old(self).bus.dma_start_wait ==> final(self).bus.dma_start_wait == !(old(self).clock_counter % 2
                == 1) && final(self).bus.dma_transfer && final(self).bus.dma_addr == old(self).bus.dma_addr,
            // an even DMA slot reads the source byte, an odd one
            // writes it into OAM and advances
            old(self).clock_counter % 3 == 0 && old(self).bus.dma_transfer && !old(self).bus.dma_start_wait && old(self).clock_counter % 2 == 0 ==> final(self).bus.dma_data
                == (if old(self).bus.dma_page < 0x20 {
                old(self).bus.ram_cpu@[ram_index(
                    ((old(self).bus.dma_page as u16) * 256 + old(self).bus.dma_addr as u16) as u16,
                )]
            } else {
                final(self).bus.dma_data
            }) && final(self).bus.dma_addr == old(self).bus.dma_addr && final(self).bus.dma_transfer,
            old(self).clock_counter % 3 == 0 && old(self).bus.dma_transfer && !old(self).bus.dma_start_wait && old(self).clock_counter % 2 == 1 ==> final(self).bus.ppu.oam@[(old(self).bus.dma_addr / 4) as int].spec_byte((old(self).bus.dma_addr
                % 4) as int) == old(self).bus.dma_data && (old(self).bus.dma_addr == 255 ==> !final(self).bus.dma_transfer && final(self).bus.dma_addr == 0 && final(self).bus.dma_start_wait)
                && (old(self).bus.dma_addr != 255 ==> final(self).bus.dma_transfer && final(self).bus.dma_addr == old(self).bus.dma_addr + 1),
            // outside its slot, or without a pending transfer, DMA
            // stands still
            old(self).clock_counter % 3 != 0 ==> final(self).bus.dma_transfer == old(self).bus.dma_transfer && final(self).bus.dma_addr == old(self).bus.dma_addr && final(self).bus.dma_start_wait == old(self).bus.dma_start_wait,
    {
        let mut res = SystemClockResult {
            set_pixel: None,
            frame_complete: false,
            cpu_complete: false,
            audio_sample: None,
        };

        // PPU cycle
        let ppu_res = clock_ppu(&mut self.bus);
        res.set_pixel = ppu_res.set_pixel;
        res.frame_complete = ppu_res.frame_complete;

        // APU machinery runs every cycle; the channels divide
        // internally
        self.bus.apu.clock();

        // CPU or DMA on every third master cycle
        if self.clock_counter % 3 == 0 {
            if self.bus.dma_transfer {
                self.handle_dma_transfer();
            } else {
                let cpu = &mut self.cpu;
                cpu.clock(&mut self.bus);
            }
        }

        // integer audio pacing: the accumulator gains `sample_rate`
        // per PPU clock and sheds the master rate per emitted sample
        self.audio_time_acc = self.audio_time_acc + (self.sample_rate as u64);
        if self.audio_time_acc >= PPU_CLOCK_HZ {
            self.audio_time_acc = self.audio_time_acc - PPU_CLOCK_HZ;
            res.audio_sample = Some(self.bus.apu.output_channels());
        }

        // interrupt lines
        if ppu_res.nmi {
            let cpu = &mut self.cpu;
            cpu.nmi(&mut self.bus);
        }

        if self.bus.cart.irq_state() {
            self.bus.cart.irq_clear();
            let cpu = &mut self.cpu;
            cpu.irq(&mut self.bus);
        }

        res.cpu_complete = self.cpu.complete();
        self.clock_counter = self.clock_counter + 1;

        res
    }

    /// One DMA slot: wait for alignment, then alternate reads of the
    /// source page with writes into OAM, freezing the CPU throughout.
    fn handle_dma_transfer(&mut self)
        requires
            old(self).wf(),
            old(self).bus.dma_transfer,
        ensures
            final(self).wf(),
            final(self).cpu == old(self).cpu,
            final(self).clock_counter == old(self).clock_counter,
            final(self).audio_time_acc == old(self).audio_time_acc,
            final(self).sample_rate == old(self).sample_rate,
            final(self).bus.ppu.scanline == old(self).bus.ppu.scanline,
            final(self).bus.ppu.cycle == old(self).bus.ppu.cycle,
            final(self).bus.ram_cpu@ == old(self).bus.ram_cpu@,
            old(self).bus.dma_start_wait ==> final(self).bus.dma_start_wait == !(old(self).clock_counter % 2 == 1) && final(self).bus.dma_transfer && final(self).bus.dma_addr
                == old(self).bus.dma_addr && final(self).bus.ppu == old(self).bus.ppu,
            !old(self).bus.dma_start_wait && old(self).clock_counter % 2 == 0 ==> final(self).bus.dma_data == (if old(self).bus.dma_page < 0x20 {
                old(self).bus.ram_cpu@[ram_index(
                    ((old(self).bus.dma_page as u16) * 256 + old(self).bus.dma_addr as u16) as u16,
                )]
            } else {
                final(self).bus.dma_data
            }) && final(self).bus.dma_addr == old(self).bus.dma_addr && final(self).bus.dma_transfer && final(self).bus.dma_start_wait == old(self).bus.dma_start_wait,
            !old(self).bus.dma_start_wait && old(self).clock_counter % 2 == 1 ==> final(self).bus.ppu.oam@[(old(self).bus.dma_addr / 4) as int].spec_byte((old(self).bus.dma_addr
                % 4) as int) == old(self).bus.dma_data && (old(self).bus.dma_addr == 255 ==> !final(self).bus.dma_transfer && final(self).bus.dma_addr == 0 && final(self).bus.dma_start_wait)
                && (old(self).bus.dma_addr != 255 ==> final(self).bus.dma_transfer && final(self).bus.dma_addr == old(self).bus.dma_addr + 1 && !final(self).bus.dma_start_wait),
    {
        if self.bus.dma_start_wait {
            // burn cycles until the first odd master cycle
            if self.clock_counter % 2 == 1 {
                self.bus.dma_start_wait = false;
            }
        } else if self.clock_counter % 2 == 0 {
            // even cycle: read the next source byte
            let addr: u16 = (self.bus.dma_page as u16) * 256 + (self.bus.dma_addr as u16);
            let bus = &mut self.bus;
            self.bus.dma_data = bus_read(bus, addr);
        } else {
            // odd cycle: write it into OAM
            let a = self.bus.dma_addr;
            let d = self.bus.dma_data;
            let ppu = &mut self.bus.ppu;
            ppu.write_oam(a, d);

            if self.bus.dma_addr == 255 {
                self.bus.dma_addr = 0;
                self.bus.dma_transfer = false;
                self.bus.dma_start_wait = true;
            } else {
                self.bus.dma_addr = self.bus.dma_addr + 1;
            }
        }
    }

    /// Reset the cartridge, CPU (through the reset vector), PPU and
    /// master clock.  RAM and the APU keep their contents, as the
    /// hardware does.
    pub fn reset(&mut self)
        requires
            old(self).wf(),
        ensures
            final(self).wf(),
            final(self).clock_counter == 0,
            final(self).bus.ram_cpu@ == old(self).bus.ram_cpu@,
            final(self).cpu.status == 0x20,
            final(self).cpu.stkp == 0xfd,
            final(self).cpu.cycles == 8,
            final(self).bus.ppu.scanline == 0,
            final(self).bus.ppu.cycle == 0,
    {
        self.bus.cart.reset();
        let cpu = &mut self.cpu;
        cpu.reset(&mut self.bus);
        let ppu = &mut self.bus.ppu;
        ppu.reset();
        self.clock_counter = 0;
    }

    /// Manually pulse the maskable interrupt line.
    pub fn cpu_irq(&mut self)
        requires
            old(self).wf(),
        ensures
            final(self).wf(),
            get_bit(old(self).cpu.status, 0x04) ==> final(self).cpu == old(self).cpu,
    {
        let cpu = &mut self.cpu;
        cpu.irq(&mut self.bus);
    }

    /// Manually pulse the non-maskable interrupt line.
    pub fn cpu_nmi(&mut self)
        requires
            old(self).wf(),
        ensures
            final(self).wf(),
            final(self).cpu.cycles == 8,
            get_bit(final(self).cpu.status, 0x04),
    {
        let cpu = &mut self.cpu;
        cpu.nmi(&mut self.bus);
    }

    /// Render one pattern table for the debugger.
    pub fn ppu_get_pattern_table(&mut self, table_idx: usize, palette: usize) -> (r: PatternTable)
        requires
            old(self).wf(),
            table_idx < 2,
            palette < 8,
        ensures
            final(self).wf(),
            r@.len() == 128,
    {
        let ppu = &self.bus.ppu;
        ppu.get_pattern_table(&mut self.bus.cart, table_idx, palette)
    }

    /// Resolve one palette slot to its hardware palette index.
    pub fn ppu_get_color_from_palette(&mut self, palette: usize, pixel_value: u8) -> (r: usize)
        requires
            old(self).wf(),
            palette < 8,
            pixel_value < 4,
        ensures
            final(self).wf(),
            r < 256,
    {
        let ppu = &self.bus.ppu;
        ppu.get_color_from_palette(&mut self.bus.cart, palette, pixel_value)
    }

    /// Feed fresh controller states; the cores latch them only on a
    /// strobe write.
    pub fn controller_update(&mut self, input1: &[ControllerInput], input2: &[ControllerInput])
        requires
            old(self).wf(),
        ensures
            final(self).wf(),
            final(self).bus.controller1.reg == pack_inputs(input1@),
            final(self).bus.controller2.reg == pack_inputs(input2@),
    {
        self.bus.controller1.update(input1);
        self.bus.controller2.update(input2);
    }
}

/// Forwarding shim for the PPU clock, splitting the borrow of the
/// bus.
fn clock_ppu(bus: &mut Bus) -> (res: crate::ppu::PpuClockResult)
    requires
        old(bus).wf(),
    ensures
        final(bus).wf(),
        (final(bus).ppu.scanline, final(bus).ppu.cycle) == ppu_step(
            old(bus).ppu.scanline,
            old(bus).ppu.cycle,
            old(bus).ppu.odd_frame && get_bit(old(bus).ppu.mask.reg, 0x08),
        ),
        final(bus).ppu.oam == old(bus).ppu.oam,
        res.frame_complete == (old(bus).ppu.scanline == 260 && old(bus).ppu.cycle == 340),
        res.nmi ==> old(bus).ppu.scanline == 241 && old(bus).ppu.cycle == 1,
        old(bus).ppu.scanline == 241 && old(bus).ppu.cycle == 1 ==> get_bit(
            final(bus).ppu.status.reg,
            0x80,
        ) && res.nmi == get_bit(old(bus).ppu.control.reg, 0x80),
        final(bus).ram_cpu@ == old(bus).ram_cpu@,
        final(bus).apu == old(bus).apu,
        final(bus).dma_transfer == old(bus).dma_transfer,
        final(bus).dma_start_wait == old(bus).dma_start_wait,
        final(bus).dma_addr == old(bus).dma_addr,
        final(bus).dma_page == old(bus).dma_page,
        final(bus).dma_data == old(bus).dma_data,
        final(bus).controller1 == old(bus).controller1,
        final(bus).controller2 == old(bus).controller2,
{
    let ppu = &mut bus.ppu;
    ppu.clock(&mut bus.cart)
}

/// Forwarding shim for a bus read inside DMA.
fn bus_read(bus: &mut Bus, addr: u16) -> (r: u8)
    requires
        old(bus).wf(),
    ensures
        final(bus).wf(),
        addr < 0x2000 ==> r == old(bus).ram_cpu@[ram_index(addr)] && *final(bus) == *old(bus),
        final(bus).ram_cpu@ == old(bus).ram_cpu@,
        final(bus).ppu.scanline == old(bus).ppu.scanline,
        final(bus).ppu.cycle == old(bus).ppu.cycle,
        final(bus).ppu.oam@ == old(bus).ppu.oam@,
        final(bus).dma_transfer == old(bus).dma_transfer,
        final(bus).dma_start_wait == old(bus).dma_start_wait,
        final(bus).dma_page == old(bus).dma_page,
        final(bus).dma_addr == old(bus).dma_addr,
        final(bus).dma_data == old(bus).dma_data,
{
    let r = bus.cpu_read(addr);
    proof {
        assert(final(bus).ppu_timing() == old(bus).ppu_timing());
        assert(final(bus).dma_view() == old(bus).dma_view());
    }
    r
}


impl System {
    /// Disassemble an inclusive address range through the bus's
    /// inspection port.
    pub fn cpu_disassemble(&self, addr_start: u16, addr_stop: u16) -> (r: crate::cpu::Disassembly)
        requires
            self.wf(),
        ensures
            forall|k: u16| r@.contains_key(k) ==> addr_start <= k <= addr_stop,
            addr_start <= addr_stop ==> r@.contains_key(addr_start),
    {
        let cpu = &self.cpu;
        cpu.disassemble(&self.bus, addr_start, addr_stop)
    }

    /// One OAM entry as printable text.
    pub fn ppu_debug_oam(&self, entry: usize) -> (r: String)
        requires
            self.wf(),
            entry < 64,
        ensures
            r@.len() > 0,
    {
        let ppu = &self.bus.ppu;
        ppu.debug_oam(entry)
    }
}

} // verus!
