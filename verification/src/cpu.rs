pub mod instr;

use vstd::prelude::*;
use crate::bus::CpuBus;
use crate::cpu::instr::{AddrMode, Instr, Op, instr_lookup};

verus! {

/// The flags of the 6502 status register.
#[derive(Copy, Clone, PartialEq, Eq, Structural, Debug)]
pub enum Flag {
    C,
    Z,
    I,
    D,
    B,
    U,
    V,
    N,
}

/// The status-register bit of each flag.
pub open spec fn flag_mask(f: Flag) -> u8 {
    match f {
        Flag::C => 0x01,
        Flag::Z => 0x02,
        Flag::I => 0x04,
        Flag::D => 0x08,
        Flag::B => 0x10,
        Flag::U => 0x20,
        Flag::V => 0x40,
        Flag::N => 0x80,
    }
}

/// Whether the bit selected by `mask` is set in `status`.
pub open spec fn get_bit(status: u8, mask: u8) -> bool {
    status & mask != 0
}

impl Flag {
    pub fn mask(&self) -> (r: u8)
        ensures
            r == flag_mask(*self),
    {
        match self {
            Flag::C => 1,
            Flag::Z => 2,
            Flag::I => 4,
            Flag::D => 8,
            Flag::B => 16,
            Flag::U => 32,
            Flag::V => 64,
            Flag::N => 128,
        }
    }

    pub fn ch(&self) -> (r: &'static str)
        ensures
            r@.len() == 1,
    {
        let r = match self {
            Flag::C => "C",
            Flag::Z => "Z",
            Flag::I => "I",
            Flag::D => "D",
            Flag::B => "B",
            Flag::U => "U",
            Flag::V => "V",
            Flag::N => "N",
        };
        proof {
            reveal_strlit("C");
            reveal_strlit("Z");
            reveal_strlit("I");
            reveal_strlit("D");
            reveal_strlit("B");
            reveal_strlit("U");
            reveal_strlit("V");
            reveal_strlit("N");
        }
        r
    }
}

/// The full unsigned sum an ADC computes: accumulator plus operand
/// plus carry-in, in a 16-bit temporary.
pub open spec fn adc_tmp(a: u8, m: u8, c: bool) -> u16 {
    (a as u16 + m as u16 + (if c { 1u16 } else { 0u16 })) as u16
}

/// The 16-bit temporary an SBC computes: accumulator plus the
/// one's-complement of the operand plus carry-in.
pub open spec fn sbc_tmp(a: u8, m: u8, c: bool) -> u16 {
    (a as u16 + (!m) as u16 + (if c { 1u16 } else { 0u16 })) as u16
}

/// Carry law of ADC: the carry-in temporary exceeds 0xff exactly when
/// the plain unsigned sum of accumulator, operand and carry does.
pub proof fn lemma_adc_carry(a: u8, m: u8, c: bool)
    ensures
        (adc_tmp(a, m, c) > 0xff) <==> (a + m + (if c { 1int } else { 0int }) > 0xff),
{
}

/// Overflow law of ADC: the hardware's sign-comparison formula raises
/// V exactly when the signed sum of accumulator, operand and carry
/// falls outside [-128, 127].
pub proof fn lemma_adc_signed_overflow(a: u8, m: u8, c: bool)
    by (bit_vector)
    ensures
        (!(a as u16 ^ m as u16) & (a as u16 ^ adc_tmp(a, m, c)) & 0x0080 != 0) <==> !(-128
            <= (a as i8) + (m as i8) + (if c { 1int } else { 0int }) <= 127),
{
}

/// Carry law of SBC: carry is left set exactly when the unsigned
/// difference needs no borrow.
pub proof fn lemma_sbc_carry(a: u8, m: u8, c: bool)
    by (bit_vector)
    ensures
        (sbc_tmp(a, m, c) > 0xff) <==> (a - m - (if c { 0int } else { 1int }) >= 0),
{
}

/// Overflow law of SBC: the complemented-operand formula raises V
/// exactly when the signed difference falls outside [-128, 127].
pub proof fn lemma_sbc_signed_overflow(a: u8, m: u8, c: bool)
    by (bit_vector)
    ensures
        ((a ^ m) & (a ^ (sbc_tmp(a, m, c) as u8)) & 0x80 != 0) <==> !(-128 <= (a as i8) - (
        m as i8) - (if c { 0int } else { 1int }) <= 127),
{
}

/// The branch target: the program counter plus the sign-extended
/// relative operand, wrapping mod 0x10000.
pub open spec fn branch_target(pc: u16, rel: u16) -> u16 {
    vstd::wrapping::u16_specs::wrapping_add(pc, rel)
}

/// The MOS 6502 CPU core: programmer-visible registers, plus the
/// pending-cycle counter and the operand/address latches of the
/// instruction in flight.
pub struct Cpu {
    pub a: u8,
    pub x: u8,
    pub y: u8,
    pub stkp: u8,
    pub pc: u16,
    pub status: u8,
    pub cycles: u8,
    pub fetched: u8,
    pub addr_abs: u16,
    pub addr_rel: u16,
}

impl Cpu {
    pub fn new() -> (r: Cpu)
        ensures
            r.a == 0,
            r.x == 0,
            r.y == 0,
            r.stkp == 0,
            r.pc == 0,
            r.status == 0,
            r.cycles == 0,
            r.fetched == 0,
            r.addr_abs == 0,
            r.addr_rel == 0,
    {
        Cpu {
            a: 0x00,
            x: 0x00,
            y: 0x00,
            stkp: 0x00,
            pc: 0x0000,
            status: 0x00,
            cycles: 0,
            fetched: 0x00,
            addr_abs: 0x0000,
            addr_rel: 0x0000,
        }
    }

    pub fn get_flag(&self, f: Flag) -> (r: bool)
        ensures
            r == get_bit(self.status, flag_mask(f)),
    {
        self.status & f.mask() != 0
    }

    /// Set or clear one status bit, leaving the other seven alone.
    pub fn set_flag(&mut self, f: Flag, v: bool)
        ensures
            *final(self) == (Cpu { status: final(self).status, ..*old(self) }),
            final(self).status == (if v {
                old(self).status | flag_mask(f)
            } else {
                old(self).status & !flag_mask(f)
            }),
            forall|m: u8| (m == 0x01 || m == 0x02 || m == 0x04 || m == 0x08 || m == 0x10
                || m == 0x20 || m == 0x40 || m == 0x80) ==> #[trigger] get_bit(final(self).status, m)
                == (if m == flag_mask(f) { v } else { get_bit(old(self).status, m) }),
    {
        let mask = f.mask();
        if v {
            self.status |= mask;
        } else {
            self.status &= !mask;
        }
        proof {
            let s = old(self).status;
            let t = self.status;
            let fm = flag_mask(f);
            assert forall|m: u8| (m == 0x01 || m == 0x02 || m == 0x04 || m == 0x08 || m == 0x10
                || m == 0x20 || m == 0x40 || m == 0x80) implies #[trigger] get_bit(t, m) == (if m
                == fm { v } else { get_bit(s, m) }) by {
                if v {
                    assert((s | fm) & m == (if m == fm { m } else { s & m })) by (bit_vector)
                        requires
                            (m == 0x01 || m == 0x02 || m == 0x04 || m == 0x08 || m == 0x10 || m
                                == 0x20 || m == 0x40 || m == 0x80),
                            (fm == 0x01 || fm == 0x02 || fm == 0x04 || fm == 0x08 || fm == 0x10
                                || fm == 0x20 || fm == 0x40 || fm == 0x80),
                    ;
                    assert(m != 0) by (bit_vector)
                        requires
                            m == 0x01 || m == 0x02 || m == 0x04 || m == 0x08 || m == 0x10 || m
                                == 0x20 || m == 0x40 || m == 0x80,
                    ;
                } else {
                    assert((s & !fm) & m == (if m == fm { 0u8 } else { s & m })) by (bit_vector)
                        requires
                            (m == 0x01 || m == 0x02 || m == 0x04 || m == 0x08 || m == 0x10 || m
                                == 0x20 || m == 0x40 || m == 0x80),
                            (fm == 0x01 || fm == 0x02 || fm == 0x04 || fm == 0x08 || fm == 0x10
                                || fm == 0x20 || fm == 0x40 || fm == 0x80),
                    ;
                }
            }
        }
    }

    /// True exactly at an instruction boundary.
    pub fn complete(&self) -> (r: bool)
        ensures
            r == (self.cycles == 0),
    {
        self.cycles == 0
    }

    /// Advance one CPU cycle.  At a cycle count of zero the next
    /// opcode is fetched and executed in full, and its cycle cost is
    /// charged; otherwise the count just burns down by one.
    pub fn clock<T: CpuBus>(&mut self, bus: &mut T)
        requires
            old(bus).inv(),
        ensures
            final(bus).inv(),
            final(bus).ppu_timing() == old(bus).ppu_timing(),
            old(self).cycles > 0 ==> *final(self) == (Cpu {
                cycles: (old(self).cycles - 1) as u8,
                ..*old(self)
            }) && *final(bus) == *old(bus),
            old(self).cycles == 0 ==> final(self).cycles >= 1,
            // at an instruction boundary the fetched opcode's table
            // cost is charged, give or take the conditional extras
            old(self).cycles == 0 ==> (old(bus).read_spec(old(self).pc) matches Some(op)
                ==> crate::cpu::instr::spec_cycles(op as int) - 1 <= final(self).cycles
                    <= crate::cpu::instr::spec_cycles(op as int) + 2),
    {
        if self.cycles == 0 {
            let opcode = bus.cpu_read(self.pc);
            self.pc = self.pc.wrapping_add(1);

            let instr = instr_lookup(opcode);
            self.cycles = instr.cycles;

            let add_cycle_addr = self.addr_mode(bus, &instr.addr_mode);
            let add_cycle_op = self.op(bus, opcode, &instr);
            if add_cycle_addr && add_cycle_op {
                self.cycles += 1;
            }
        }

        self.cycles -= 1;
    }

    /// Resolve the operand address for one addressing mode,
    /// consuming operand bytes at the program counter.
    fn addr_mode<T: CpuBus>(&mut self, bus: &mut T, addr_mode: &AddrMode) -> (add_cycle: bool)
        requires
            old(bus).inv(),
        ensures
            final(bus).inv(),
            final(bus).ppu_timing() == old(bus).ppu_timing(),
            final(self).cycles == old(self).cycles,
            final(self).a == old(self).a,
            final(self).x == old(self).x,
            final(self).y == old(self).y,
            final(self).stkp == old(self).stkp,
            final(self).status == old(self).status,
            *addr_mode == AddrMode::Imp ==> final(self).fetched == old(self).a
                && final(self).pc == old(self).pc && !add_cycle,
            *addr_mode == AddrMode::Imm ==> final(self).addr_abs == old(self).pc
                && final(self).pc == vstd::wrapping::u16_specs::wrapping_add(old(self).pc, 1)
                && !add_cycle,
            *addr_mode == AddrMode::Zp0 || *addr_mode == AddrMode::Zpx || *addr_mode
                == AddrMode::Zpy ==> final(self).addr_abs < 0x100 && !add_cycle,
            *addr_mode == AddrMode::Rel ==> (final(self).addr_rel < 0x80 || final(self).addr_rel
                >= 0xff80) && !add_cycle,
    {
        match *addr_mode {
            AddrMode::Imp => {
                self.fetched = self.a;
                false
            }
            AddrMode::Imm => {
                self.addr_abs = self.pc;
                self.pc = self.pc.wrapping_add(1);
                false
            }
            AddrMode::Zp0 => {
                self.addr_abs = bus.cpu_read(self.pc) as u16;
                self.pc = self.pc.wrapping_add(1);
                false
            }
            AddrMode::Zpx => {
                let t = bus.cpu_read(self.pc) as u16 + self.x as u16;
                proof {
                    assert(t & 0x00ff < 0x100) by (bit_vector);
                }
                self.addr_abs = t & 0x00ff;
                self.pc = self.pc.wrapping_add(1);
                false
            }
            AddrMode::Zpy => {
                let t = bus.cpu_read(self.pc) as u16 + self.y as u16;
                proof {
                    assert(t & 0x00ff < 0x100) by (bit_vector);
                }
                self.addr_abs = t & 0x00ff;
                self.pc = self.pc.wrapping_add(1);
                false
            }
            AddrMode::Rel => {
                let r = bus.cpu_read(self.pc) as u16;
                self.pc = self.pc.wrapping_add(1);
                self.addr_rel = if r & 0x80 > 0 {
                    r | 0xff00
                } else {
                    r
                };
                proof {
                    let r0 = r;
                    assert((r0 & 0x80 > 0 ==> (r0 | 0xff00) >= 0xff80) && (!(r0 & 0x80 > 0) && r0
                        < 0x100 ==> r0 < 0x80)) by (bit_vector);
                }
                false
            }
            AddrMode::Abs => {
                let lo = bus.cpu_read(self.pc) as u16;
                self.pc = self.pc.wrapping_add(1);
                let hi = bus.cpu_read(self.pc) as u16;
                self.pc = self.pc.wrapping_add(1);

                self.addr_abs = (hi << 8) | lo;

                false
            }
            AddrMode::Abx => {
                let lo = bus.cpu_read(self.pc) as u16;
                self.pc = self.pc.wrapping_add(1);
                let hi = bus.cpu_read(self.pc) as u16;
                self.pc = self.pc.wrapping_add(1);

                self.addr_abs = ((hi << 8) | lo).wrapping_add(self.x as u16);

                // an extra cycle is owed when the sum crossed a page
                (self.addr_abs & 0xff00) != (hi << 8)
            }
            AddrMode::Aby => {
                let lo = bus.cpu_read(self.pc) as u16;
                self.pc = self.pc.wrapping_add(1);
                let hi = bus.cpu_read(self.pc) as u16;
                self.pc = self.pc.wrapping_add(1);

                self.addr_abs = ((hi << 8) | lo).wrapping_add(self.y as u16);

                (self.addr_abs & 0xff00) != (hi << 8)
            }
            AddrMode::Ind => {
                let ptr_lo = bus.cpu_read(self.pc) as u16;
                self.pc = self.pc.wrapping_add(1);
                let ptr_hi = bus.cpu_read(self.pc) as u16;
                self.pc = self.pc.wrapping_add(1);

                let ptr = (ptr_hi << 8) | ptr_lo;

                if ptr_lo == 0x00ff {
                    // page-boundary hardware bug: the high byte is read
                    // from the start of the same page
                    self.addr_abs = ((bus.cpu_read(ptr & 0xff00) as u16) << 8) | bus.cpu_read(
                        ptr,
                    ) as u16;
                } else {
                    self.addr_abs = ((bus.cpu_read(ptr.wrapping_add(1)) as u16) << 8) | bus.cpu_read(
                        ptr,
                    ) as u16;
                }
                false
            }
            AddrMode::Izx => {
                let t = bus.cpu_read(self.pc) as u16;
                self.pc = self.pc.wrapping_add(1);

                let lo = bus.cpu_read((t + self.x as u16) & 0x00ff) as u16;
                let hi = bus.cpu_read((t + self.x as u16 + 1) & 0x00ff) as u16;

                self.addr_abs = (hi << 8) | lo;

                false
            }
            AddrMode::Izy => {
                let t = bus.cpu_read(self.pc) as u16;
                self.pc = self.pc.wrapping_add(1);

                let lo = bus.cpu_read(t & 0x00ff) as u16;
                let hi = bus.cpu_read((t + 1) & 0x00ff) as u16;

                self.addr_abs = ((hi << 8) | lo).wrapping_add(self.y as u16);

                (self.addr_abs & 0xff00) != (hi << 8)
            }
        }
    }

    /// Read the operand for the instruction in flight into the
    /// `fetched` latch; implied mode keeps what addressing put there.
    fn fetch<T: CpuBus>(&mut self, bus: &mut T, addr_mode: &AddrMode) -> (r: u8)
        requires
            old(bus).inv(),
        ensures
            final(bus).inv(),
            final(bus).ppu_timing() == old(bus).ppu_timing(),
            r == final(self).fetched,
            *final(self) == (Cpu { fetched: final(self).fetched, ..*old(self) }),
            *addr_mode == AddrMode::Imp ==> final(self).fetched == old(self).fetched,
    {
        if *addr_mode != AddrMode::Imp {
            self.fetched = bus.cpu_read(self.addr_abs);
        }
        self.fetched
    }

    /// A taken branch: one extra cycle, one more on a page cross, and
    /// the program counter moves to the relative target.
    fn branch(&mut self)
        requires
            old(self).cycles <= 100,
        ensures
            final(self).pc == branch_target(old(self).pc, old(self).addr_rel),
            final(self).addr_abs == final(self).pc,
            old(self).cycles + 1 <= final(self).cycles <= old(self).cycles + 2,
            *final(self) == (Cpu {
                pc: final(self).pc,
                addr_abs: final(self).addr_abs,
                cycles: final(self).cycles,
                ..*old(self)
            }),
    {
        self.cycles += 1;
        self.addr_abs = self.pc.wrapping_add(self.addr_rel);

        if (self.addr_abs & 0xff00) != (self.pc & 0xff00) {
            self.cycles += 1;
        }

        self.pc = self.addr_abs;
    }

    /// Execute one decoded operation.  The returned flag reports
    /// whether the operation can add the page-cross cycle.
    #[verifier::rlimit(100)]
    fn op<T: CpuBus>(&mut self, bus: &mut T, opcode: u8, instr: &Instr) -> (add_cycle: bool)
        requires
            old(bus).inv(),
            old(self).cycles <= 100,
        ensures
            final(bus).inv(),
            final(bus).ppu_timing() == old(bus).ppu_timing(),
            old(self).cycles <= final(self).cycles <= old(self).cycles + 2,
            // ADC: unsigned carry out, and signed overflow by the
            // sign-comparison formula
            instr.op == Op::Adc ==> {
                let t = adc_tmp(old(self).a, final(self).fetched, get_bit(old(self).status, 0x01));
                &&& final(self).a == (t & 0x00ff) as u8
                &&& get_bit(final(self).status, 0x01) == (t > 0x00ff)
                &&& get_bit(final(self).status, 0x02) == (t & 0x00ff == 0)
                &&& get_bit(final(self).status, 0x80) == (t & 0x0080 != 0)
                &&& get_bit(final(self).status, 0x40) == (!(old(self).a as u16 ^ final(self).fetched as u16)
                    & (old(self).a as u16 ^ t) & 0x0080 != 0)
            },
            // SBC over the complemented operand
            instr.op == Op::Sbc ==> {
                let t = sbc_tmp(old(self).a, final(self).fetched, get_bit(old(self).status, 0x01));
                &&& final(self).a == t as u8
                &&& get_bit(final(self).status, 0x01) == (t > 0x00ff)
                &&& get_bit(final(self).status, 0x02) == (t & 0x00ff == 0)
                &&& get_bit(final(self).status, 0x80) == (t & 0x0080 != 0)
                &&& get_bit(final(self).status, 0x40) == ((old(self).a ^ final(self).fetched)
                    & (old(self).a ^ (t as u8)) & 0x80 != 0)
            },
            // compares set carry exactly when the register is >= the operand
            instr.op == Op::Cmp ==> get_bit(final(self).status, 0x01) == (old(self).a
                >= final(self).fetched) && final(self).a == old(self).a,
            instr.op == Op::Cpx ==> get_bit(final(self).status, 0x01) == (old(self).x
                >= final(self).fetched),
            instr.op == Op::Cpy ==> get_bit(final(self).status, 0x01) == (old(self).y
                >= final(self).fetched),
            // stack pulls of the status register force the unused bit
            instr.op == Op::Plp ==> get_bit(final(self).status, 0x20),
            // RTI drops B from the pulled value and forces the unused bit
            instr.op == Op::Rti ==> !get_bit(final(self).status, 0x10) && get_bit(
                final(self).status,
                0x20,
            ),
            // PHP pushes with B and U forced set, then drops both live bits
            instr.op == Op::Php ==> !get_bit(final(self).status, 0x10) && !get_bit(
                final(self).status,
                0x20,
            ),
            instr.op == Op::Brk ==> get_bit(final(self).status, 0x04) && !get_bit(
                final(self).status,
                0x10,
            ),
            // loads and logical operations with their Z/N updates
            instr.op == Op::Lda ==> final(self).a == final(self).fetched && get_bit(
                final(self).status,
                0x02,
            ) == (final(self).a == 0) && get_bit(final(self).status, 0x80) == (final(self).a & 0x80
                != 0),
            instr.op == Op::Ldx ==> final(self).x == final(self).fetched && get_bit(
                final(self).status,
                0x02,
            ) == (final(self).x == 0),
            instr.op == Op::Ldy ==> final(self).y == final(self).fetched && get_bit(
                final(self).status,
                0x02,
            ) == (final(self).y == 0),
            instr.op == Op::And ==> final(self).a == (old(self).a & final(self).fetched),
            instr.op == Op::Ora ==> final(self).a == (old(self).a | final(self).fetched),
            instr.op == Op::Eor ==> final(self).a == (old(self).a ^ final(self).fetched),
            instr.op == Op::Bit ==> get_bit(final(self).status, 0x02) == (old(self).a
                & final(self).fetched == 0) && get_bit(final(self).status, 0x80) == (
            final(self).fetched & 0x80 != 0) && get_bit(final(self).status, 0x40) == (
            final(self).fetched & 0x40 != 0),
            // shifts and rotates: carry takes the bit shifted out, and
            // implied mode lands the result in the accumulator
            instr.op == Op::Asl ==> {
                let t = ((final(self).fetched as u16) << 1) as u16;
                &&& get_bit(final(self).status, 0x01) == ((t & 0xff00) > 0)
                &&& get_bit(final(self).status, 0x02) == ((t & 0x00ff) == 0)
                &&& get_bit(final(self).status, 0x80) == (t & 0x0080 != 0)
                &&& (instr.addr_mode == AddrMode::Imp ==> final(self).a == ((t & 0x00ff) as u8))
            },
            instr.op == Op::Lsr && instr.addr_mode == AddrMode::Imp ==> final(self).a == (
            old(self).a >> 1) && get_bit(final(self).status, 0x01) == (old(self).a & 0x01 > 0)
                && get_bit(final(self).status, 0x02) == (old(self).a >> 1 == 0) && !get_bit(
                final(self).status,
                0x80,
            ),
            instr.op == Op::Lsr && instr.addr_mode != AddrMode::Imp ==> get_bit(
                final(self).status,
                0x01,
            ) == (final(self).fetched & 0x01 > 0) && !get_bit(final(self).status, 0x80)
                && final(self).a == old(self).a,
            instr.op == Op::Rol ==> {
                let t = ((((final(self).fetched as u16) << 1) as u16) | (if get_bit(
                    old(self).status,
                    0x01,
                ) {
                    1u16
                } else {
                    0u16
                }));
                &&& get_bit(final(self).status, 0x01) == (t & 0xff00 != 0)
                &&& get_bit(final(self).status, 0x02) == (t & 0x00ff == 0)
                &&& get_bit(final(self).status, 0x80) == (t & 0x0080 != 0)
                &&& (instr.addr_mode == AddrMode::Imp ==> final(self).a == ((t & 0x00ff) as u8))
            },
            instr.op == Op::Ror ==> {
                let t = (((final(self).fetched as u16) >> 1) | ((if get_bit(old(self).status, 0x01) {
                    1u16
                } else {
                    0u16
                }) << 7));
                &&& get_bit(final(self).status, 0x01) == (final(self).fetched & 0x01 != 0)
                &&& get_bit(final(self).status, 0x02) == (t & 0x00ff == 0)
                &&& get_bit(final(self).status, 0x80) == (t & 0x0080 != 0)
                &&& (instr.addr_mode == AddrMode::Imp ==> final(self).a == ((t & 0x00ff) as u8))
            },
            // memory steps write back through the bus; the flags
            // follow the stepped value
            instr.op == Op::Dec ==> get_bit(final(self).status, 0x02)
                == (vstd::wrapping::u8_specs::wrapping_sub(final(self).fetched, 1) == 0) && get_bit(
                final(self).status,
                0x80,
            ) == (vstd::wrapping::u8_specs::wrapping_sub(final(self).fetched, 1) & 0x80 != 0)
                && final(self).a == old(self).a,
            instr.op == Op::Inc ==> get_bit(final(self).status, 0x02)
                == (vstd::wrapping::u8_specs::wrapping_add(final(self).fetched, 1) == 0) && get_bit(
                final(self).status,
                0x80,
            ) == (vstd::wrapping::u8_specs::wrapping_add(final(self).fetched, 1) & 0x80 != 0)
                && final(self).a == old(self).a,
            // stack pulls and returns move the stack pointer up and
            // keep the flags consistent with what arrived
            instr.op == Op::Pla ==> final(self).stkp == vstd::wrapping::u8_specs::wrapping_add(
                old(self).stkp,
                1,
            ) && get_bit(final(self).status, 0x02) == (final(self).a == 0) && get_bit(
                final(self).status,
                0x80,
            ) == (final(self).a & 0x80 != 0),
            instr.op == Op::Rts ==> final(self).stkp == vstd::wrapping::u8_specs::wrapping_add(
                old(self).stkp,
                2,
            ) && final(self).a == old(self).a && final(self).status == old(self).status,
            // register steps
            instr.op == Op::Inx ==> final(self).x == vstd::wrapping::u8_specs::wrapping_add(
                old(self).x,
                1,
            ),
            instr.op == Op::Dex ==> final(self).x == vstd::wrapping::u8_specs::wrapping_sub(
                old(self).x,
                1,
            ),
            instr.op == Op::Iny ==> final(self).y == vstd::wrapping::u8_specs::wrapping_add(
                old(self).y,
                1,
            ),
            instr.op == Op::Dey ==> final(self).y == vstd::wrapping::u8_specs::wrapping_sub(
                old(self).y,
                1,
            ),
            // transfers
            instr.op == Op::Tax ==> final(self).x == old(self).a,
            instr.op == Op::Tay ==> final(self).y == old(self).a,
            instr.op == Op::Tsx ==> final(self).x == old(self).stkp,
            instr.op == Op::Txa ==> final(self).a == old(self).x,
            instr.op == Op::Tya ==> final(self).a == old(self).y,
            instr.op == Op::Txs ==> final(self).stkp == old(self).x && final(self).status
                == old(self).status,
            // flag instructions change exactly their flag
            instr.op == Op::Clc ==> !get_bit(final(self).status, 0x01),
            instr.op == Op::Sec ==> get_bit(final(self).status, 0x01),
            instr.op == Op::Cld ==> !get_bit(final(self).status, 0x08),
            instr.op == Op::Sed ==> get_bit(final(self).status, 0x08),
            instr.op == Op::Cli ==> !get_bit(final(self).status, 0x04),
            instr.op == Op::Sei ==> get_bit(final(self).status, 0x04),
            instr.op == Op::Clv ==> !get_bit(final(self).status, 0x40),
            // jumps and stores
            instr.op == Op::Jmp ==> final(self).pc == old(self).addr_abs,
            instr.op == Op::Jsr ==> final(self).pc == old(self).addr_abs && final(self).stkp
                == vstd::wrapping::u8_specs::wrapping_sub(old(self).stkp, 2),
            instr.op == Op::Sta || instr.op == Op::Stx || instr.op == Op::Sty ==> *final(self)
                == *old(self),
            instr.op == Op::Pha ==> *final(self) == (Cpu {
                stkp: vstd::wrapping::u8_specs::wrapping_sub(old(self).stkp, 1),
                ..*old(self)
            }),
            // untaken branches change nothing; taken ones go to the
            // relative target and cost one or two cycles
            instr.op == Op::Bcc ==> branch_post(old(self), final(self), !get_bit(old(self).status, 0x01)),
            instr.op == Op::Bcs ==> branch_post(old(self), final(self), get_bit(old(self).status, 0x01)),
            instr.op == Op::Bne ==> branch_post(old(self), final(self), !get_bit(old(self).status, 0x02)),
            instr.op == Op::Beq ==> branch_post(old(self), final(self), get_bit(old(self).status, 0x02)),
            instr.op == Op::Bpl ==> branch_post(old(self), final(self), !get_bit(old(self).status, 0x80)),
            instr.op == Op::Bmi ==> branch_post(old(self), final(self), get_bit(old(self).status, 0x80)),
            instr.op == Op::Bvc ==> branch_post(old(self), final(self), !get_bit(old(self).status, 0x40)),
            instr.op == Op::Bvs ==> branch_post(old(self), final(self), get_bit(old(self).status, 0x40)),
            instr.op == Op::Nop ==> add_cycle == (opcode == 0x1c || opcode == 0x3c || opcode
                == 0x5c || opcode == 0x7c || opcode == 0xdc || opcode == 0xfc) && *final(self)
                == *old(self),
            instr.op == Op::Xxx ==> !add_cycle && *final(self) == *old(self),
    {
        match instr.op {
            Op::Adc => {
                self.fetch(bus, &instr.addr_mode);
                let c: u16 = if self.get_flag(Flag::C) {
                    1
                } else {
                    0
                };
                let tmp: u16 = self.a as u16 + self.fetched as u16 + c;
                self.set_flag(Flag::C, tmp > 0x00ff);
                self.set_flag(Flag::Z, tmp & 0x00ff == 0);
                self.set_flag(Flag::N, tmp & 0x0080 != 0);
                self.set_flag(
                    Flag::V,
                    !(self.a as u16 ^ self.fetched as u16) & (self.a as u16 ^ tmp) & 0x0080 != 0,
                );
                self.a = (tmp & 0x00ff) as u8;
                true
            }
            Op::And => {
                self.fetch(bus, &instr.addr_mode);
                self.a &= self.fetched;
                self.set_flag(Flag::Z, self.a == 0x00);
                self.set_flag(Flag::N, self.a & 0x80 != 0);
                true
            }
            Op::Asl => {
                self.fetch(bus, &instr.addr_mode);
                let tmp = (self.fetched as u16) << 1;
                self.set_flag(Flag::C, (tmp & 0xff00) > 0);
                self.set_flag(Flag::Z, (tmp & 0x00ff) == 0);
                self.set_flag(Flag::N, tmp & 0x0080 != 0);

                if instr.addr_mode == AddrMode::Imp {
                    self.a = (tmp & 0x00ff) as u8;
                } else {
                    bus.cpu_write(self.addr_abs, (tmp & 0x00ff) as u8);
                }

                false
            }
            Op::Bcc => {
                if !self.get_flag(Flag::C) {
                    self.branch();
                }
                false
            }
            Op::Bcs => {
                if self.get_flag(Flag::C) {
                    self.branch();
                }
                false
            }
            Op::Beq => {
                if self.get_flag(Flag::Z) {
                    self.branch();
                }
                false
            }
            Op::Bit => {
                self.fetch(bus, &instr.addr_mode);
                let tmp = self.a & self.fetched;
                self.set_flag(Flag::Z, tmp == 0x00);
                self.set_flag(Flag::N, self.fetched & 0x80 != 0);
                self.set_flag(Flag::V, self.fetched & 0x40 != 0);
                false
            }
            Op::Bmi => {
                if self.get_flag(Flag::N) {
                    self.branch();
                }
                false
            }
            Op::Bne => {
                if !self.get_flag(Flag::Z) {
                    self.branch();
                }
                false
            }
            Op::Bpl => {
                if !self.get_flag(Flag::N) {
                    self.branch();
                }
                false
            }
            Op::Brk => {
                // software interrupt: push the return address and the
                // status with B set, then take the IRQ vector
                self.pc = self.pc.wrapping_add(1);

                self.set_flag(Flag::I, true);
                bus.cpu_write(0x0100 + self.stkp as u16, ((self.pc >> 8) & 0x00ff) as u8);
                self.stkp = self.stkp.wrapping_sub(1);
                bus.cpu_write(0x0100 + self.stkp as u16, (self.pc & 0x00ff) as u8);
                self.stkp = self.stkp.wrapping_sub(1);

                self.set_flag(Flag::B, true);
                bus.cpu_write(0x0100 + self.stkp as u16, self.status);
                self.stkp = self.stkp.wrapping_sub(1);
                self.set_flag(Flag::B, false);

                let lo = bus.cpu_read(0xfffe) as u16;
                let hi = bus.cpu_read(0xffff) as u16;
                self.pc = (hi << 8) | lo;

                false
            }
            Op::Bvc => {
                if !self.get_flag(Flag::V) {
                    self.branch();
                }
                false
            }
            Op::Bvs => {
                if self.get_flag(Flag::V) {
                    self.branch();
                }
                false
            }
            Op::Clc => {
                self.set_flag(Flag::C, false);
                false
            }
            Op::Cld => {
                self.set_flag(Flag::D, false);
                false
            }
            Op::Cli => {
                self.set_flag(Flag::I, false);
                false
            }
            Op::Clv => {
                self.set_flag(Flag::V, false);
                false
            }
            Op::Cmp => {
                self.fetch(bus, &instr.addr_mode);
                let tmp = (self.a as u16).wrapping_sub(self.fetched as u16);
                self.set_flag(Flag::C, self.a >= self.fetched);
                self.set_flag(Flag::Z, tmp & 0x00ff == 0);
                self.set_flag(Flag::N, tmp & 0x0080 != 0);
                true
            }
            Op::Cpx => {
                self.fetch(bus, &instr.addr_mode);
                let tmp = (self.x as u16).wrapping_sub(self.fetched as u16);
                self.set_flag(Flag::C, self.x >= self.fetched);
                self.set_flag(Flag::Z, tmp & 0x00ff == 0);
                self.set_flag(Flag::N, tmp & 0x0080 != 0);
                false
            }
            Op::Cpy => {
                self.fetch(bus, &instr.addr_mode);
                let tmp = (self.y as u16).wrapping_sub(self.fetched as u16);
                self.set_flag(Flag::C, self.y >= self.fetched);
                self.set_flag(Flag::Z, tmp & 0x00ff == 0);
                self.set_flag(Flag::N, tmp & 0x0080 != 0);
                false
            }
            Op::Dec => {
                self.fetch(bus, &instr.addr_mode);
                let tmp = self.fetched.wrapping_sub(1);
                bus.cpu_write(self.addr_abs, tmp);
                self.set_flag(Flag::Z, tmp == 0);
                self.set_flag(Flag::N, tmp & 0x80 != 0);
                false
            }
            Op::Dex => {
                self.x = self.x.wrapping_sub(1);
                self.set_flag(Flag::Z, self.x == 0);
                self.set_flag(Flag::N, self.x & 0x80 != 0);
                false
            }
            Op::Dey => {
                self.y = self.y.wrapping_sub(1);
                self.set_flag(Flag::Z, self.y == 0);
                self.set_flag(Flag::N, self.y & 0x80 != 0);
                false
            }
            Op::Eor => {
                self.fetch(bus, &instr.addr_mode);
                self.a ^= self.fetched;
                self.set_flag(Flag::Z, self.a == 0x00);
                self.set_flag(Flag::N, self.a & 0x80 != 0);
                true
            }
            Op::Inc => {
                self.fetch(bus, &instr.addr_mode);
                let tmp = self.fetched.wrapping_add(1);
                bus.cpu_write(self.addr_abs, tmp);
                self.set_flag(Flag::Z, tmp == 0);
                self.set_flag(Flag::N, tmp & 0x80 != 0);
                false
            }
            Op::Inx => {
                self.x = self.x.wrapping_add(1);
                self.set_flag(Flag::Z, self.x == 0);
                self.set_flag(Flag::N, self.x & 0x80 != 0);
                false
            }
            Op::Iny => {
                self.y = self.y.wrapping_add(1);
                self.set_flag(Flag::Z, self.y == 0);
                self.set_flag(Flag::N, self.y & 0x80 != 0);
                false
            }
            Op::Jmp => {
                self.pc = self.addr_abs;
                false
            }
            Op::Jsr => {
                self.pc = self.pc.wrapping_sub(1);

                bus.cpu_write(0x0100 + self.stkp as u16, ((self.pc >> 8) & 0x00ff) as u8);
                self.stkp = self.stkp.wrapping_sub(1);
                bus.cpu_write(0x0100 + self.stkp as u16, (self.pc & 0x00ff) as u8);
                self.stkp = self.stkp.wrapping_sub(1);

                self.pc = self.addr_abs;
                false
            }
            Op::Lda => {
                self.fetch(bus, &instr.addr_mode);
                self.a = self.fetched;
                self.set_flag(Flag::Z, self.a == 0);
                self.set_flag(Flag::N, self.a & 0x80 != 0);
                true
            }
            Op::Ldx => {
                self.fetch(bus, &instr.addr_mode);
                self.x = self.fetched;
                self.set_flag(Flag::Z, self.x == 0);
                self.set_flag(Flag::N, self.x & 0x80 != 0);
                true
            }
            Op::Ldy => {
                self.fetch(bus, &instr.addr_mode);
                self.y = self.fetched;
                self.set_flag(Flag::Z, self.y == 0);
                self.set_flag(Flag::N, self.y & 0x80 != 0);
                true
            }
            Op::Lsr => {
                self.fetch(bus, &instr.addr_mode);

                if instr.addr_mode == AddrMode::Imp {
                    self.set_flag(Flag::C, self.a & 0x01 > 0);
                    let tmp = self.a >> 1;
                    self.set_flag(Flag::Z, tmp == 0);
                    self.set_flag(Flag::N, false);
                    self.a = tmp;
                } else {
                    self.set_flag(Flag::C, self.fetched & 0x01 > 0);
                    let tmp = self.fetched >> 1;
                    self.set_flag(Flag::Z, tmp == 0);
                    self.set_flag(Flag::N, false);
                    bus.cpu_write(self.addr_abs, tmp);
                }
                false
            }
            Op::Nop => {
                // some unofficial NOP variants owe the page-cross cycle
                matches!(opcode, 0x1c | 0x3c | 0x5c | 0x7c | 0xdc | 0xfc)
            }
            Op::Ora => {
                self.fetch(bus, &instr.addr_mode);
                self.a |= self.fetched;
                self.set_flag(Flag::Z, self.a == 0x00);
                self.set_flag(Flag::N, self.a & 0x80 != 0);
                true
            }
            Op::Pha => {
                bus.cpu_write(0x0100 + self.stkp as u16, self.a);
                self.stkp = self.stkp.wrapping_sub(1);
                false
            }
            Op::Php => {
                bus.cpu_write(
                    0x0100 + self.stkp as u16,
                    self.status | Flag::B.mask() | Flag::U.mask(),
                );
                self.set_flag(Flag::B, false);
                self.set_flag(Flag::U, false);
                self.stkp = self.stkp.wrapping_sub(1);
                false
            }
            Op::Pla => {
                self.stkp = self.stkp.wrapping_add(1);
                self.a = bus.cpu_read(0x0100 + self.stkp as u16);
                self.set_flag(Flag::Z, self.a == 0x00);
                self.set_flag(Flag::N, self.a & 0x80 != 0);
                false
            }
            Op::Plp => {
                self.stkp = self.stkp.wrapping_add(1);
                self.status = bus.cpu_read(0x0100 + self.stkp as u16);
                self.set_flag(Flag::U, true);
                false
            }
            Op::Rol => {
                self.fetch(bus, &instr.addr_mode);
                let c: u16 = if self.get_flag(Flag::C) {
                    1
                } else {
                    0
                };
                let tmp = ((self.fetched as u16) << 1) | c;
                self.set_flag(Flag::C, tmp & 0xff00 != 0);
                self.set_flag(Flag::Z, tmp & 0x00ff == 0);
                self.set_flag(Flag::N, tmp & 0x0080 != 0);
                if instr.addr_mode == AddrMode::Imp {
                    self.a = (tmp & 0x00ff) as u8;
                } else {
                    bus.cpu_write(self.addr_abs, (tmp & 0x00ff) as u8);
                }
                false
            }
            Op::Ror => {
                self.fetch(bus, &instr.addr_mode);
                let c: u16 = if self.get_flag(Flag::C) {
                    1
                } else {
                    0
                };
                let tmp = ((self.fetched as u16) >> 1) | (c << 7);
                self.set_flag(Flag::C, self.fetched & 0x01 != 0);
                self.set_flag(Flag::Z, tmp & 0x00ff == 0);
                self.set_flag(Flag::N, tmp & 0x0080 != 0);
                if instr.addr_mode == AddrMode::Imp {
                    self.a = (tmp & 0x00ff) as u8;
                } else {
                    bus.cpu_write(self.addr_abs, (tmp & 0x00ff) as u8);
                }
                false
            }
            Op::Rti => {
                self.stkp = self.stkp.wrapping_add(1);
                self.status = bus.cpu_read(0x0100 + self.stkp as u16);
                self.set_flag(Flag::B, false);
                self.set_flag(Flag::U, true);

                self.stkp = self.stkp.wrapping_add(1);
                let lo = bus.cpu_read(0x100 + self.stkp as u16) as u16;
                self.stkp = self.stkp.wrapping_add(1);
                let hi = bus.cpu_read(0x100 + self.stkp as u16) as u16;
                self.pc = (hi << 8) | lo;
                false
            }
            Op::Rts => {
                self.stkp = self.stkp.wrapping_add(1);
                let lo = bus.cpu_read(0x100 + self.stkp as u16) as u16;
                self.stkp = self.stkp.wrapping_add(1);
                let hi = bus.cpu_read(0x100 + self.stkp as u16) as u16;
                self.pc = ((hi << 8) | lo).wrapping_add(1);
                false
            }
            Op::Sbc => {
                self.fetch(bus, &instr.addr_mode);
                let c: u16 = if self.get_flag(Flag::C) {
                    1
                } else {
                    0
                };
                let tmp: u16 = self.a as u16 + (!self.fetched) as u16 + c;

                self.set_flag(Flag::C, tmp > 0x00ff);
                self.set_flag(Flag::Z, tmp & 0x00ff == 0);
                self.set_flag(
                    Flag::V,
                    (self.a ^ self.fetched) & (self.a ^ (tmp as u8)) & 0x80 != 0,
                );
                self.set_flag(Flag::N, tmp & 0x0080 != 0);
                self.a = tmp as u8;
                true
            }
            Op::Sec => {
                self.set_flag(Flag::C, true);
                false
            }
            Op::Sed => {
                self.set_flag(Flag::D, true);
                false
            }
            Op::Sei => {
                self.set_flag(Flag::I, true);
                false
            }
            Op::Sta => {
                bus.cpu_write(self.addr_abs, self.a);
                false
            }
            Op::Stx => {
                bus.cpu_write(self.addr_abs, self.x);
                false
            }
            Op::Sty => {
                bus.cpu_write(self.addr_abs, self.y);
                false
            }
            Op::Tax => {
                self.x = self.a;
                self.set_flag(Flag::Z, self.x == 0);
                self.set_flag(Flag::N, self.x & 0x80 != 0);
                false
            }
            Op::Tay => {
                self.y = self.a;
                self.set_flag(Flag::Z, self.y == 0);
                self.set_flag(Flag::N, self.y & 0x80 != 0);
                false
            }
            Op::Tsx => {
                self.x = self.stkp;
                self.set_flag(Flag::Z, self.x == 0);
                self.set_flag(Flag::N, self.x & 0x80 != 0);
                false
            }
            Op::Txa => {
                self.a = self.x;
                self.set_flag(Flag::Z, self.a == 0);
                self.set_flag(Flag::N, self.a & 0x80 != 0);
                false
            }
            Op::Txs => {
                self.stkp = self.x;
                false
            }
            Op::Tya => {
                self.a = self.y;
                self.set_flag(Flag::Z, self.a == 0);
                self.set_flag(Flag::N, self.a & 0x80 != 0);
                false
            }
            Op::Xxx => false,
        }
    }

    /// Reset: registers cleared, stack pointer at 0xfd, only the
    /// unused status bit set, and the program counter read from the
    /// reset vector at 0xfffc.
    pub fn reset<T: CpuBus>(&mut self, bus: &mut T)
        requires
            old(bus).inv(),
        ensures
            final(bus).inv(),
            final(bus).ppu_timing() == old(bus).ppu_timing(),
            final(bus).dma_view() == old(bus).dma_view(),
            final(bus).ram_view() == old(bus).ram_view(),
            final(self).a == 0,
            final(self).x == 0,
            final(self).y == 0,
            final(self).stkp == 0xfd,
            final(self).status == 0x20,
            get_bit(final(self).status, 0x20),
            final(self).addr_rel == 0,
            final(self).addr_abs == 0,
            final(self).fetched == 0,
            final(self).cycles == 8,
            // the program counter loads from the reset vector
            old(bus).read_spec(0xfffc) matches Some(lo) ==> (old(bus).read_spec(0xfffd)
                matches Some(hi) ==> final(self).pc == (((hi as u16) << 8) | (lo as u16))),
    {
        self.a = 0x00;
        self.x = 0x00;
        self.y = 0x00;
        self.stkp = 0xfd;
        self.status = 0x20;

        self.addr_abs = 0xfffc;
        let lo = bus.cpu_read(self.addr_abs) as u16;
        let hi = bus.cpu_read(self.addr_abs + 1) as u16;
        self.pc = (hi << 8) | lo;

        self.addr_rel = 0x0000;
        self.addr_abs = 0x0000;
        self.fetched = 0x00;

        self.cycles = 8;
        proof {
            assert(get_bit(0x20u8, 0x20u8)) by (bit_vector);
        }
    }

    /// Maskable interrupt: honored only while the I flag is clear.
    /// The return address and status (B clear, U set) are pushed, I is
    /// set, and the vector at 0xfffe is taken; seven cycles.
    pub fn irq<T: CpuBus>(&mut self, bus: &mut T)
        requires
            old(bus).inv(),
        ensures
            final(bus).inv(),
            final(bus).ppu_timing() == old(bus).ppu_timing(),
            final(bus).dma_view() == old(bus).dma_view(),
            get_bit(old(self).status, 0x04) ==> *final(self) == *old(self) && *final(bus) == *old(
                bus,
            ),
            !get_bit(old(self).status, 0x04) ==> {
                &&& get_bit(final(self).status, 0x04)
                &&& get_bit(final(self).status, 0x20)
                &&& !get_bit(final(self).status, 0x10)
                &&& final(self).status == (((old(self).status & !0x10) | 0x20) | 0x04)
                &&& final(self).cycles == 7
                &&& final(self).stkp == vstd::wrapping::u8_specs::wrapping_sub(old(self).stkp, 3)
                &&& final(self).a == old(self).a
                &&& final(self).x == old(self).x
                &&& final(self).y == old(self).y
                &&& final(bus).ram_view() == old(bus).ram_view().update(
                    old(bus).write_addr((0x0100 + old(self).stkp as u16) as u16),
                    ((old(self).pc >> 8) & 0x00ff) as u8,
                ).update(
                    old(bus).write_addr((0x0100 + vstd::wrapping::u8_specs::wrapping_sub(
                        old(self).stkp,
                        1,
                    ) as u16) as u16),
                    (old(self).pc & 0x00ff) as u8,
                ).update(
                    old(bus).write_addr((0x0100 + vstd::wrapping::u8_specs::wrapping_sub(
                        old(self).stkp,
                        2,
                    ) as u16) as u16),
                    (((old(self).status & !0x10) | 0x20) | 0x04),
                )
                &&& (old(bus).read_spec(0xfffe) matches Some(lo) ==> (old(bus).read_spec(0xffff)
                    matches Some(hi) ==> final(self).pc == (((hi as u16) << 8) | (lo as u16))))
            },
    {
        if !self.get_flag(Flag::I) {
            bus.cpu_write(0x0100 + self.stkp as u16, ((self.pc >> 8) & 0x00ff) as u8);
            self.stkp = self.stkp.wrapping_sub(1);
            bus.cpu_write(0x0100 + self.stkp as u16, (self.pc & 0x00ff) as u8);
            self.stkp = self.stkp.wrapping_sub(1);

            self.set_flag(Flag::B, false);
            self.set_flag(Flag::U, true);
            self.set_flag(Flag::I, true);
            bus.cpu_write(0x0100 + self.stkp as u16, self.status);
            self.stkp = self.stkp.wrapping_sub(1);

            self.addr_abs = 0xfffe;
            let lo = bus.cpu_read(self.addr_abs) as u16;
            let hi = bus.cpu_read(self.addr_abs + 1) as u16;
            self.pc = (hi << 8) | lo;

            self.cycles = 7;
        }
    }

    /// Non-maskable interrupt: always honored; same sequence as IRQ
    /// with the vector at 0xfffa and eight cycles.
    pub fn nmi<T: CpuBus>(&mut self, bus: &mut T)
        requires
            old(bus).inv(),
        ensures
            final(bus).inv(),
            final(bus).ppu_timing() == old(bus).ppu_timing(),
            final(bus).dma_view() == old(bus).dma_view(),
            get_bit(final(self).status, 0x04),
            get_bit(final(self).status, 0x20),
            !get_bit(final(self).status, 0x10),
            final(self).status == (((old(self).status & !0x10) | 0x20) | 0x04),
            final(self).cycles == 8,
            final(self).stkp == vstd::wrapping::u8_specs::wrapping_sub(old(self).stkp, 3),
            final(self).a == old(self).a,
            final(self).x == old(self).x,
            final(self).y == old(self).y,
            // the return address and the pushed status land on the
            // stack page
            final(bus).ram_view() == old(bus).ram_view().update(
                old(bus).write_addr((0x0100 + old(self).stkp as u16) as u16),
                ((old(self).pc >> 8) & 0x00ff) as u8,
            ).update(
                old(bus).write_addr((0x0100 + vstd::wrapping::u8_specs::wrapping_sub(
                    old(self).stkp,
                    1,
                ) as u16) as u16),
                (old(self).pc & 0x00ff) as u8,
            ).update(
                old(bus).write_addr((0x0100 + vstd::wrapping::u8_specs::wrapping_sub(
                    old(self).stkp,
                    2,
                ) as u16) as u16),
                (((old(self).status & !0x10) | 0x20) | 0x04),
            ),
            old(bus).read_spec(0xfffa) matches Some(lo) ==> (old(bus).read_spec(0xfffb)
                matches Some(hi) ==> final(self).pc == (((hi as u16) << 8) | (lo as u16))),
    {
        bus.cpu_write(0x0100 + self.stkp as u16, ((self.pc >> 8) & 0x00ff) as u8);
        self.stkp = self.stkp.wrapping_sub(1);
        bus.cpu_write(0x0100 + self.stkp as u16, (self.pc & 0x00ff) as u8);
        self.stkp = self.stkp.wrapping_sub(1);

        self.set_flag(Flag::B, false);
        self.set_flag(Flag::U, true);
        self.set_flag(Flag::I, true);
        bus.cpu_write(0x0100 + self.stkp as u16, self.status);
        self.stkp = self.stkp.wrapping_sub(1);

        self.addr_abs = 0xfffa;
        let lo = bus.cpu_read(self.addr_abs) as u16;
        let hi = bus.cpu_read(self.addr_abs + 1) as u16;
        self.pc = (hi << 8) | lo;

        self.cycles = 8;
    }
}

impl Default for Cpu {
    fn default() -> (r: Cpu)
        ensures
            r.pc == 0,
            r.cycles == 0,
    {
        Cpu::new()
    }
}

/// Relation between the CPU before and after a conditional branch
/// instruction whose condition evaluated to `taken`.
pub open spec fn branch_post(pre: &Cpu, post: &Cpu, taken: bool) -> bool {
    if taken {
        &&& post.pc == branch_target(pre.pc, pre.addr_rel)
        &&& pre.cycles + 1 <= post.cycles <= pre.cycles + 2
        &&& *post == (Cpu { pc: post.pc, addr_abs: post.addr_abs, cycles: post.cycles, ..*pre })
    } else {
        *post == *pre
    }
}


/// A disassembly: printable text for each instruction-start address.
pub type Disassembly = std::collections::BTreeMap<u16, String>;

impl Cpu {
    /// Disassemble the inclusive address range, reading through the
    /// inspection port so no device state is disturbed.  Every key of
    /// the result is an instruction start inside the range, beginning
    /// at `addr_start`; wherever the bus has a fixed value, each key
    /// advances by its opcode's instruction length.
    pub fn disassemble<T: CpuBus>(&self, bus: &T, addr_start: u16, addr_stop: u16) -> (r:
        Disassembly)
        requires
            bus.inv(),
        ensures
            forall|k: u16| r@.contains_key(k) ==> addr_start <= k <= addr_stop,
            addr_start <= addr_stop ==> r@.contains_key(addr_start),
            forall|k: u16| #[trigger] r@.contains_key(k) ==> (bus.read_spec(k) matches Some(op)
                ==> (k + crate::cpu::instr::instr_len(crate::cpu::instr::spec_addr_mode(op as int))
                    > addr_stop as int || r@.contains_key(
                    (k + crate::cpu::instr::instr_len(
                        crate::cpu::instr::spec_addr_mode(op as int),
                    )) as u16,
                ))),
    {
        let mut addr: u32 = addr_start as u32;
        let mut disasm: Disassembly = std::collections::BTreeMap::new();
        while addr <= addr_stop as u32
            invariant
                bus.inv(),
                addr_start as u32 <= addr <= 0x10002,
                forall|k: u16| disasm@.contains_key(k) ==> addr_start <= k <= addr_stop,
                addr > addr_start as u32 && addr_start <= addr_stop ==> disasm@.contains_key(
                    addr_start,
                ),
                forall|k: u16| #[trigger] disasm@.contains_key(k) ==> (bus.read_spec(k)
                    matches Some(op) ==> (k + crate::cpu::instr::instr_len(
                    crate::cpu::instr::spec_addr_mode(op as int),
                ) > addr_stop as int || disasm@.contains_key(
                    (k + crate::cpu::instr::instr_len(
                        crate::cpu::instr::spec_addr_mode(op as int),
                    )) as u16,
                ) || k + crate::cpu::instr::instr_len(
                    crate::cpu::instr::spec_addr_mode(op as int),
                ) == addr)),
            decreases 0x10004 - addr,
        {
            let line_addr = (addr % 0x10000) as u16;
            let mut s = String::new();
            s.append("$");
            crate::hexfmt::push_hex16(&mut s, line_addr);
            s.append(": ");

            let opcode = bus.cpu_read_ro((addr % 0x10000) as u16);
            addr = addr + 1;

            let instr = instr_lookup(opcode);

            s.append(instr.name);
            s.append(" ");

            match instr.addr_mode {
                AddrMode::Imp => {
                    s.append("{IMP}");
                },
                AddrMode::Imm => {
                    let value = bus.cpu_read_ro((addr % 0x10000) as u16);
                    addr = addr + 1;
                    s.append("#$");
                    crate::hexfmt::push_hex8(&mut s, value);
                    s.append(" {IMM}");
                },
                AddrMode::Zp0 => {
                    let value = bus.cpu_read_ro((addr % 0x10000) as u16);
                    addr = addr + 1;
                    s.append("$");
                    crate::hexfmt::push_hex8(&mut s, value);
                    s.append(" {ZP0}");
                },
                AddrMode::Zpx => {
                    let value = bus.cpu_read_ro((addr % 0x10000) as u16);
                    addr = addr + 1;
                    s.append("$");
                    crate::hexfmt::push_hex8(&mut s, value);
                    s.append(", X {ZPX}");
                },
                AddrMode::Zpy => {
                    let value = bus.cpu_read_ro((addr % 0x10000) as u16);
                    addr = addr + 1;
                    s.append("$");
                    crate::hexfmt::push_hex8(&mut s, value);
                    s.append(", Y {ZPY}");
                },
                AddrMode::Rel => {
                    let v = bus.cpu_read_ro((addr % 0x10000) as u16);
                    let value: u16 = if v & 0x80 > 0 {
                        (v as u16) | 0xff00
                    } else {
                        v as u16
                    };
                    addr = addr + 1;
                    let value_abs = ((addr % 0x10000) as u16).wrapping_add(value);
                    s.append("$");
                    crate::hexfmt::push_hex8(&mut s, v);
                    s.append(" [$");
                    crate::hexfmt::push_hex16(&mut s, value_abs);
                    s.append("] {REL}");
                },
                AddrMode::Abs => {
                    let lo = bus.cpu_read_ro((addr % 0x10000) as u16) as u16;
                    addr = addr + 1;
                    let hi = bus.cpu_read_ro((addr % 0x10000) as u16) as u16;
                    addr = addr + 1;
                    s.append("$");
                    crate::hexfmt::push_hex16(&mut s, (hi << 8) | lo);
                    s.append(" {ABS}");
                },
                AddrMode::Abx => {
                    let lo = bus.cpu_read_ro((addr % 0x10000) as u16) as u16;
                    addr = addr + 1;
                    let hi = bus.cpu_read_ro((addr % 0x10000) as u16) as u16;
                    addr = addr + 1;
                    s.append("$");
                    crate::hexfmt::push_hex16(&mut s, (hi << 8) | lo);
                    s.append(", X {ABX}");
                },
                AddrMode::Aby => {
                    let lo = bus.cpu_read_ro((addr % 0x10000) as u16) as u16;
                    addr = addr + 1;
                    let hi = bus.cpu_read_ro((addr % 0x10000) as u16) as u16;
                    addr = addr + 1;
                    s.append("$");
                    crate::hexfmt::push_hex16(&mut s, (hi << 8) | lo);
                    s.append(", Y {ABY}");
                },
                AddrMode::Ind => {
                    let lo = bus.cpu_read_ro((addr % 0x10000) as u16) as u16;
                    addr = addr + 1;
                    let hi = bus.cpu_read_ro((addr % 0x10000) as u16) as u16;
                    addr = addr + 1;
                    s.append("($");
                    crate::hexfmt::push_hex16(&mut s, (hi << 8) | lo);
                    s.append(") {IND}");
                },
                AddrMode::Izx => {
                    let value = bus.cpu_read_ro((addr % 0x10000) as u16);
                    addr = addr + 1;
                    s.append("($");
                    crate::hexfmt::push_hex8(&mut s, value);
                    s.append("), X {IZX}");
                },
                AddrMode::Izy => {
                    let value = bus.cpu_read_ro((addr % 0x10000) as u16);
                    addr = addr + 1;
                    s.append("($");
                    crate::hexfmt::push_hex8(&mut s, value);
                    s.append("), Y {IZY}");
                },
            }

            disasm.insert(line_addr, s);
            proof {
                assert(line_addr == addr_start || addr_start <= line_addr <= addr_stop);
            }
        }
        disasm
    }
}

} // verus!
