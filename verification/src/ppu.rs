use vstd::prelude::*;
use crate::cartridge::{Cartridge, Mirror};
use crate::cpu::get_bit;

verus! {

broadcast use crate::bitops::lemma_u16_and_le, crate::bitops::lemma_u8_and_le,
    crate::bitops::lemma_usize_and_le;

/// Status register flags: the three defined bits.
pub enum StatusRegFlag {
    SpriteOverflow,
    SpriteZeroHit,
    VerticalBlank,
}

pub open spec fn status_mask(f: StatusRegFlag) -> u8 {
    match f {
        StatusRegFlag::SpriteOverflow => 0x20,
        StatusRegFlag::SpriteZeroHit => 0x40,
        StatusRegFlag::VerticalBlank => 0x80,
    }
}

/// The status register.  The low five bits are open bus.
pub struct StatusReg {
    pub reg: u8,
}

impl StatusReg {
    pub fn get_flag(&self, f: StatusRegFlag) -> (r: bool)
        ensures
            r == get_bit(self.reg, status_mask(f)),
    {
        self.reg & self.mask_of(&f) != 0
    }

    fn mask_of(&self, f: &StatusRegFlag) -> (r: u8)
        ensures
            r == status_mask(*f),
    {
        match f {
            StatusRegFlag::SpriteOverflow => 0x20,
            StatusRegFlag::SpriteZeroHit => 0x40,
            StatusRegFlag::VerticalBlank => 0x80,
        }
    }

    pub fn set_flag(&mut self, f: StatusRegFlag, v: bool)
        ensures
            final(self).reg == (if v {
                old(self).reg | status_mask(f)
            } else {
                old(self).reg & !status_mask(f)
            }),
            forall|m: u8| (m == 0x01 || m == 0x02 || m == 0x04 || m == 0x08 || m == 0x10 || m
                == 0x20 || m == 0x40 || m == 0x80) ==> #[trigger] get_bit(final(self).reg, m) == (
            if m == status_mask(f) { v } else { get_bit(old(self).reg, m) }),
    {
        let mask = self.mask_of(&f);
        if v {
            self.reg |= mask;
        } else {
            self.reg &= !mask;
        }
        proof {
            let s = old(self).reg;
            let fm = status_mask(f);
            assert forall|m: u8| (m == 0x01 || m == 0x02 || m == 0x04 || m == 0x08 || m == 0x10
                || m == 0x20 || m == 0x40 || m == 0x80) implies #[trigger] get_bit(self.reg, m) == (
            if m == fm { v } else { get_bit(s, m) }) by {
                crate::bitops::lemma_onehot_update(s, fm, m);
            }
        }
    }
}

/// Mask register flags.
pub enum MaskRegFlag {
    Grayscale,
    RenderBgLeft,
    RenderSpritesLeft,
    RenderBg,
    RenderSprites,
    EnhanceRed,
    EnhanceGreen,
    EnhanceBlue,
}

pub open spec fn mask_mask(f: MaskRegFlag) -> u8 {
    match f {
        MaskRegFlag::Grayscale => 0x01,
        MaskRegFlag::RenderBgLeft => 0x02,
        MaskRegFlag::RenderSpritesLeft => 0x04,
        MaskRegFlag::RenderBg => 0x08,
        MaskRegFlag::RenderSprites => 0x10,
        MaskRegFlag::EnhanceRed => 0x20,
        MaskRegFlag::EnhanceGreen => 0x40,
        MaskRegFlag::EnhanceBlue => 0x80,
    }
}

/// The mask register, controlling rendering.
pub struct MaskReg {
    pub reg: u8,
}

impl MaskReg {
    pub fn get_flag(&self, f: MaskRegFlag) -> (r: bool)
        ensures
            r == get_bit(self.reg, mask_mask(f)),
    {
        let m: u8 = match f {
            MaskRegFlag::Grayscale => 0x01,
            MaskRegFlag::RenderBgLeft => 0x02,
            MaskRegFlag::RenderSpritesLeft => 0x04,
            MaskRegFlag::RenderBg => 0x08,
            MaskRegFlag::RenderSprites => 0x10,
            MaskRegFlag::EnhanceRed => 0x20,
            MaskRegFlag::EnhanceGreen => 0x40,
            MaskRegFlag::EnhanceBlue => 0x80,
        };
        self.reg & m != 0
    }
}

/// Control register flags.
pub enum ControlRegFlag {
    NametableX,
    NametableY,
    IncrementMode,
    PatternSprite,
    PatternBg,
    SpriteSize,
    SlaveMode,
    EnableNmi,
}

pub open spec fn control_mask(f: ControlRegFlag) -> u8 {
    match f {
        ControlRegFlag::NametableX => 0x01,
        ControlRegFlag::NametableY => 0x02,
        ControlRegFlag::IncrementMode => 0x04,
        ControlRegFlag::PatternSprite => 0x08,
        ControlRegFlag::PatternBg => 0x10,
        ControlRegFlag::SpriteSize => 0x20,
        ControlRegFlag::SlaveMode => 0x40,
        ControlRegFlag::EnableNmi => 0x80,
    }
}

/// The control register.
pub struct ControlReg {
    pub reg: u8,
}

impl ControlReg {
    pub fn get_flag(&self, f: ControlRegFlag) -> (r: bool)
        ensures
            r == get_bit(self.reg, control_mask(f)),
    {
        let m: u8 = match f {
            ControlRegFlag::NametableX => 0x01,
            ControlRegFlag::NametableY => 0x02,
            ControlRegFlag::IncrementMode => 0x04,
            ControlRegFlag::PatternSprite => 0x08,
            ControlRegFlag::PatternBg => 0x10,
            ControlRegFlag::SpriteSize => 0x20,
            ControlRegFlag::SlaveMode => 0x40,
            ControlRegFlag::EnableNmi => 0x80,
        };
        self.reg & m != 0
    }
}

/// The 15-bit loopy VRAM address with its packed fields:
/// `0yyy NNYY YYYX XXXX`.
pub struct LoopyReg {
    pub reg: u16,
}

impl LoopyReg {
    pub fn coarse_x(&self) -> (r: u16)
        ensures
            r == self.reg & 0x001f,
            r < 32,
    {
        self.reg & 0x001f
    }

    pub fn set_coarse_x(&mut self, v: u16)
        ensures
            final(self).reg == (old(self).reg & 0xffe0) | (v & 0x001f),
    {
        self.reg = (self.reg & 0xffe0) | (v & 0x001f);
    }

    pub fn coarse_y(&self) -> (r: u16)
        ensures
            r == (self.reg & 0x03e0) >> 5,
            r < 32,
    {
        let rg = self.reg;
        proof {
            assert((rg & 0x03e0) >> 5 < 32) by (bit_vector);
        }
        (rg & 0x03e0) >> 5
    }

    pub fn set_coarse_y(&mut self, v: u16)
        ensures
            final(self).reg == (old(self).reg & 0xfc1f) | ((v << 5) & 0x03e0),
    {
        self.reg = (self.reg & 0xfc1f) | ((v << 5) & 0x03e0);
    }

    pub fn nametable_x(&self) -> (r: u16)
        ensures
            r == (self.reg & 0x0400) >> 10,
            r < 2,
    {
        let rg = self.reg;
        proof {
            assert((rg & 0x0400) >> 10 < 2) by (bit_vector);
        }
        (rg & 0x0400) >> 10
    }

    pub fn set_nametable_x(&mut self, v: u16)
        ensures
            final(self).reg == (old(self).reg & 0xfbff) | ((v << 10) & 0x0400),
    {
        self.reg = (self.reg & 0xfbff) | ((v << 10) & 0x0400);
    }

    pub fn flip_nametable_x(&mut self)
        ensures
            final(self).reg == (old(self).reg & 0xfbff) | (((if (old(self).reg & 0x0400) >> 10 != 0 {
                0u16
            } else {
                1u16
            }) << 10) & 0x0400),
    {
        let v: u16 = if self.nametable_x() != 0 {
            0
        } else {
            1
        };
        self.set_nametable_x(v);
    }

    pub fn nametable_y(&self) -> (r: u16)
        ensures
            r == (self.reg & 0x0800) >> 11,
            r < 2,
    {
        let rg = self.reg;
        proof {
            assert((rg & 0x0800) >> 11 < 2) by (bit_vector);
        }
        (rg & 0x0800) >> 11
    }

    pub fn set_nametable_y(&mut self, v: u16)
        ensures
            final(self).reg == (old(self).reg & 0xf7ff) | ((v << 11) & 0x0800),
    {
        self.reg = (self.reg & 0xf7ff) | ((v << 11) & 0x0800);
    }

    pub fn flip_nametable_y(&mut self)
        ensures
            final(self).reg == (old(self).reg & 0xf7ff) | (((if (old(self).reg & 0x0800) >> 11 != 0 {
                0u16
            } else {
                1u16
            }) << 11) & 0x0800),
    {
        let v: u16 = if self.nametable_y() != 0 {
            0
        } else {
            1
        };
        self.set_nametable_y(v);
    }

    pub fn fine_y(&self) -> (r: u16)
        ensures
            r == (self.reg & 0x7000) >> 12,
            r < 8,
    {
        let rg = self.reg;
        proof {
            assert((rg & 0x7000) >> 12 < 8) by (bit_vector);
        }
        (rg & 0x7000) >> 12
    }

    pub fn set_fine_y(&mut self, v: u16)
        ensures
            final(self).reg == (old(self).reg & 0x8fff) | ((v << 12) & 0x7000),
    {
        self.reg = (self.reg & 0x8fff) | ((v << 12) & 0x7000);
    }
}

/// One sprite of object attribute memory: Y position, tile id,
/// attributes, X position.
#[derive(Copy, Clone, PartialEq, Eq, Structural, Debug)]
pub struct OamEntry {
    pub y: u8,
    pub id: u8,
    pub attrib: u8,
    pub x: u8,
}

impl OamEntry {
    pub fn y(&self) -> (r: u8)
        ensures
            r == self.y,
    {
        self.y
    }

    pub fn id(&self) -> (r: u8)
        ensures
            r == self.id,
    {
        self.id
    }

    pub fn attrib(&self) -> (r: u8)
        ensures
            r == self.attrib,
    {
        self.attrib
    }

    pub fn x(&self) -> (r: u8)
        ensures
            r == self.x,
    {
        self.x
    }

    pub fn dec_x(&mut self)
        requires
            old(self).x > 0,
        ensures
            *final(self) == (OamEntry { x: (old(self).x - 1) as u8, ..*old(self) }),
    {
        self.x = self.x - 1;
    }

    pub fn clear(&mut self, v: u8)
        ensures
            final(self).y == v,
            final(self).id == v,
            final(self).attrib == v,
            final(self).x == v,
    {
        self.y = v;
        self.id = v;
        self.attrib = v;
        self.x = v;
    }

    /// The sprite byte at offset `k & 3`, in OAM layout order.
    pub open spec fn spec_byte(&self, k: int) -> u8 {
        if k == 0 {
            self.y
        } else if k == 1 {
            self.id
        } else if k == 2 {
            self.attrib
        } else {
            self.x
        }
    }

    pub fn get_byte(&self, k: u8) -> (r: u8)
        ensures
            r == self.spec_byte((k % 4) as int),
    {
        match k % 4 {
            0 => self.y,
            1 => self.id,
            2 => self.attrib,
            _ => self.x,
        }
    }

    pub fn set_byte(&mut self, k: u8, v: u8)
        ensures
            final(self).spec_byte((k % 4) as int) == v,
            forall|j: int| 0 <= j < 4 && j != (k % 4) as int ==> final(self).spec_byte(j)
                == old(self).spec_byte(j),
    {
        match k % 4 {
            0 => {
                self.y = v;
            },
            1 => {
                self.id = v;
            },
            2 => {
                self.attrib = v;
            },
            _ => {
                self.x = v;
            },
        }
    }
}

/// The index into palette RAM for a PPU address in 0x3f00..=0x3fff:
/// five low bits, with the four sprite backdrop entries folded onto
/// the background ones.
pub open spec fn palette_index(addr: u16) -> int {
    let a = addr % 32;
    if a == 0x10 || a == 0x14 || a == 0x18 || a == 0x1c {
        a - 0x10
    } else {
        a as int
    }
}

/// The palette mirroring law: the write-only backdrop mirrors at
/// 0x3f10, 0x3f14, 0x3f18 and 0x3f1c land on 0x3f00, 0x3f04, 0x3f08
/// and 0x3f0c.
pub proof fn lemma_palette_mirror()
    ensures
        palette_index(0x3f10) == palette_index(0x3f00),
        palette_index(0x3f14) == palette_index(0x3f04),
        palette_index(0x3f18) == palette_index(0x3f08),
        palette_index(0x3f1c) == palette_index(0x3f0c),
{
}

pub fn palette_index_exec(addr: u16) -> (r: usize)
    ensures
        r == palette_index(addr),
        r < 32,
{
    let a = (addr % 32) as usize;
    if a == 0x10 || a == 0x14 || a == 0x18 || a == 0x1c {
        a - 0x10
    } else {
        a
    }
}

/// The physical nametable bank (0 or 1) that a folded VRAM address
/// selects under a mirroring policy, or nothing when the policy is
/// the unreachable hardware sentinel.
pub open spec fn spec_nt_bank(m: Mirror, a: u16) -> Option<int> {
    match m {
        Mirror::Vertical => {
            if a % 0x800 < 0x400 {
                Some(0)
            } else {
                Some(1)
            }
        },
        Mirror::Horizontal => {
            if a % 0x1000 < 0x800 {
                Some(0)
            } else {
                Some(1)
            }
        },
        Mirror::OneScreenLo => Some(0),
        Mirror::OneScreenHi => Some(1),
        Mirror::Hardware => None,
    }
}

/// The flat index into the two physical nametables for a VRAM address
/// in 0x2000..=0x3eff.
pub open spec fn spec_nt_index(m: Mirror, addr: u16) -> Option<int> {
    match spec_nt_bank(m, (addr % 0x1000) as u16) {
        Some(b) => Some(b * 0x400 + (addr % 0x400)),
        None => None,
    }
}

fn nt_index(m: Mirror, addr: u16) -> (r: Option<usize>)
    ensures
        r matches Some(i) ==> Some(i as int) == spec_nt_index(m, addr) && i < 2048,
        r is None <==> spec_nt_index(m, addr) is None,
{
    let a = addr % 0x1000;
    let off = (addr % 0x400) as usize;
    match m {
        Mirror::Vertical => {
            if a % 0x800 < 0x400 {
                Some(off)
            } else {
                Some(0x400 + off)
            }
        },
        Mirror::Horizontal => {
            if a < 0x800 {
                Some(off)
            } else {
                Some(0x400 + off)
            }
        },
        Mirror::OneScreenLo => Some(off),
        Mirror::OneScreenHi => Some(0x400 + off),
        Mirror::Hardware => None,
    }
}

/// The visible-pixel position of a timing point, if any.
pub open spec fn spec_visible(scanline: i32, cycle: usize) -> Option<(usize, usize)> {
    if 0 <= scanline < 240 && 1 <= cycle <= 256 {
        Some((scanline as usize, (cycle - 1) as usize))
    } else {
        None
    }
}

pub fn visible(scanline: i32, cycle: usize) -> (r: Option<(usize, usize)>)
    ensures
        r == spec_visible(scanline, cycle),
{
    if scanline >= 0 && scanline < 240 && cycle >= 1 && cycle <= 256 {
        Some((scanline as usize, cycle - 1))
    } else {
        None
    }
}

/// Composition of one visible pixel from the background and sprite
/// pipelines: transparent background yields the sprite, transparent
/// sprite yields the background, both opaque resolve by the sprite's
/// priority bit, and both transparent fall back to the backdrop.
pub open spec fn spec_compose_pixel(
    bg_palette: u8,
    bg_idx: u8,
    fg_palette: u8,
    fg_idx: u8,
    fg_priority: bool,
) -> (u8, u8) {
    if bg_idx == 0 && fg_idx == 0 {
        (0u8, 0u8)
    } else if bg_idx == 0 {
        (fg_palette, fg_idx)
    } else if fg_idx == 0 {
        (bg_palette, bg_idx)
    } else if fg_priority {
        (fg_palette, fg_idx)
    } else {
        (bg_palette, bg_idx)
    }
}

/// The two clauses of the composition law: doubly transparent pixels
/// always pick the backdrop, and a priority sprite over an opaque
/// background always wins.
pub proof fn lemma_compose_pixel(bg_palette: u8, bg_idx: u8, fg_palette: u8, fg_idx: u8, prio: bool)
    ensures
        bg_idx == 0 && fg_idx == 0 ==> spec_compose_pixel(bg_palette, bg_idx, fg_palette, fg_idx, prio)
            == (0u8, 0u8),
        bg_idx > 0 && fg_idx > 0 && prio ==> spec_compose_pixel(
            bg_palette,
            bg_idx,
            fg_palette,
            fg_idx,
            prio,
        ) == (fg_palette, fg_idx),
{
}

pub fn compose_pixel(bg_palette: u8, bg_idx: u8, fg_palette: u8, fg_idx: u8, fg_priority: bool) -> (r:
    (u8, u8))
    ensures
        r == spec_compose_pixel(bg_palette, bg_idx, fg_palette, fg_idx, fg_priority),
{
    if bg_idx == 0 && fg_idx == 0 {
        (0, 0)
    } else if bg_idx == 0 {
        (fg_palette, fg_idx)
    } else if fg_idx == 0 {
        (bg_palette, bg_idx)
    } else if fg_priority {
        (fg_palette, fg_idx)
    } else {
        (bg_palette, bg_idx)
    }
}

/// What one PPU clock hands back to the system.
pub struct PpuClockResult {
    pub nmi: bool,
    pub set_pixel: Option<SetPixel>,
    pub frame_complete: bool,
}

/// One pixel for the host: position and hardware palette index.
pub struct SetPixel {
    pub pos: (usize, usize),
    pub color: usize,
}

/// The canonical successor of a PPU timing point.  On an odd frame
/// transition with background rendering on, the dot at (0, 0) is
/// elided and the step goes straight to (0, 2).
pub open spec fn ppu_step(scanline: i32, cycle: usize, skip_dot: bool) -> (i32, usize) {
    if scanline == 0 && cycle == 0 && skip_dot {
        (0i32, 2usize)
    } else if cycle + 1 >= 341 {
        if scanline + 1 >= 261 {
            (-1i32, 0usize)
        } else {
            ((scanline + 1) as i32, 0usize)
        }
    } else {
        (scanline, (cycle + 1) as usize)
    }
}

/// The loopy register after the horizontal scroll step: coarse X
/// advances, wrapping into the neighbouring nametable at 31.
pub open spec fn spec_inc_scroll_x(reg: u16) -> u16 {
    if reg & 0x001f == 31 {
        let r1 = (reg & 0xffe0) | (0u16 & 0x001f);
        (r1 & 0xfbff) | (((if (r1 & 0x0400) >> 10 != 0 {
            0u16
        } else {
            1u16
        }) << 10) & 0x0400)
    } else {
        (reg & 0xffe0) | (((((reg & 0x001f) + 1) as u16)) & 0x001f)
    }
}

/// The loopy register after the vertical scroll step: fine Y
/// advances, wrapping into coarse Y, which skips the attribute rows
/// at 31 and flips the vertical nametable at 29.
pub open spec fn spec_inc_scroll_y(reg: u16) -> u16 {
    if (reg & 0x7000) >> 12 < 7 {
        (reg & 0x8fff) | ((((((reg & 0x7000) >> 12) + 1) as u16) << 12) & 0x7000)
    } else {
        let r1 = (reg & 0x8fff) | ((0u16 << 12) & 0x7000);
        let cy = (r1 & 0x03e0) >> 5;
        if cy == 29 {
            let r2 = (r1 & 0xfc1f) | ((0u16 << 5) & 0x03e0);
            (r2 & 0xf7ff) | (((if (r2 & 0x0800) >> 11 != 0 {
                0u16
            } else {
                1u16
            }) << 11) & 0x0800)
        } else if cy == 31 {
            (r1 & 0xfc1f) | ((0u16 << 5) & 0x03e0)
        } else {
            (r1 & 0xfc1f) | ((((cy + 1) as u16) << 5) & 0x03e0)
        }
    }
}

/// `v` after the horizontal bits of `t` are copied in.
pub open spec fn spec_transfer_x(v: u16, t: u16) -> u16 {
    let r1 = (v & 0xfbff) | ((((t & 0x0400) >> 10) << 10) & 0x0400);
    (r1 & 0xffe0) | ((t & 0x001f) & 0x001f)
}

/// `v` after the vertical bits of `t` are copied in.
pub open spec fn spec_transfer_y(v: u16, t: u16) -> u16 {
    let r1 = (v & 0x8fff) | ((((t & 0x7000) >> 12) << 12) & 0x7000);
    let r2 = (r1 & 0xf7ff) | ((((t & 0x0800) >> 11) << 11) & 0x0800);
    (r2 & 0xfc1f) | ((((t & 0x03e0) >> 5) << 5) & 0x03e0)
}

/// Whether either rendering layer is enabled in the mask register.
pub open spec fn spec_rendering_on(mask: u8) -> bool {
    get_bit(mask, 0x08) || get_bit(mask, 0x10)
}

/// The 2C02 picture processing unit.
pub struct Ppu {
    pub tbl_pattern: Vec<u8>,
    pub tbl_name: Vec<u8>,
    pub tbl_palette: Vec<u8>,
    pub scanline: i32,
    pub cycle: usize,
    pub control: ControlReg,
    pub mask: MaskReg,
    pub status: StatusReg,
    pub vram_addr: LoopyReg,
    pub tram_addr: LoopyReg,
    pub fine_x: u8,
    pub address_latch: bool,
    pub ppu_data_buffer: u8,
    pub bg_next_tile_id: u8,
    pub bg_next_tile_attrib: u8,
    pub bg_next_tile_lsb: u8,
    pub bg_next_tile_msb: u8,
    pub bg_shifter_pattern_lo: u16,
    pub bg_shifter_pattern_hi: u16,
    pub bg_shifter_attrib_lo: u16,
    pub bg_shifter_attrib_hi: u16,
    pub oam: Vec<OamEntry>,
    pub oam_addr: u8,
    pub sprite_scanline: Vec<OamEntry>,
    pub sprite_count: usize,
    pub sprite_shifter_pattern_lo: Vec<u8>,
    pub sprite_shifter_pattern_hi: Vec<u8>,
    pub sprite_zero_hit_possible: bool,
    pub sprite_zero_rendered: bool,
    pub odd_frame: bool,
}

impl Ppu {
    /// Structural well-formedness: memory sizes and the timing grid.
    pub open spec fn wf(&self) -> bool {
        &&& self.tbl_pattern@.len() == 8192
        &&& self.tbl_name@.len() == 2048
        &&& self.tbl_palette@.len() == 32
        &&& self.oam@.len() == 64
        &&& self.sprite_scanline@.len() == 8
        &&& self.sprite_shifter_pattern_lo@.len() == 8
        &&& self.sprite_shifter_pattern_hi@.len() == 8
        &&& self.sprite_count <= 8
        &&& -1 <= self.scanline <= 260
        &&& self.cycle <= 340
    }

    pub fn new() -> (r: Ppu)
        ensures
            r.wf(),
            r.scanline == 0,
            r.cycle == 0,
            !r.odd_frame,
            r.status.reg == 0,
            r.mask.reg == 0,
            r.control.reg == 0,
            r.vram_addr.reg == 0,
            r.tram_addr.reg == 0,
            !r.address_latch,
            forall|i: int| 0 <= i < 32 ==> r.tbl_palette@[i] == 0,
    {
        let mut oam: Vec<OamEntry> = Vec::new();
        let mut i: usize = 0;
        while i < 64
            invariant
                oam@.len() == i,
                i <= 64,
            decreases 64 - i,
        {
            oam.push(OamEntry { y: 0, id: 0, attrib: 0, x: 0 });
            i += 1;
        }
        let mut sprite_scanline: Vec<OamEntry> = Vec::new();
        let mut i: usize = 0;
        while i < 8
            invariant
                sprite_scanline@.len() == i,
                i <= 8,
            decreases 8 - i,
        {
            sprite_scanline.push(OamEntry { y: 0, id: 0, attrib: 0, x: 0 });
            i += 1;
        }
        Ppu {
            tbl_pattern: vec![0u8; 8192],
            tbl_name: vec![0u8; 2048],
            tbl_palette: vec![0u8; 32],
            cycle: 0,
            scanline: 0,
            control: ControlReg { reg: 0x00 },
            mask: MaskReg { reg: 0x00 },
            status: StatusReg { reg: 0x00 },
            vram_addr: LoopyReg { reg: 0x0000 },
            tram_addr: LoopyReg { reg: 0x0000 },
            fine_x: 0x00,
            address_latch: false,
            ppu_data_buffer: 0x00,
            bg_next_tile_id: 0x00,
            bg_next_tile_attrib: 0x00,
            bg_next_tile_lsb: 0x00,
            bg_next_tile_msb: 0x00,
            bg_shifter_pattern_lo: 0x0000,
            bg_shifter_pattern_hi: 0x0000,
            bg_shifter_attrib_lo: 0x0000,
            bg_shifter_attrib_hi: 0x0000,
            oam,
            oam_addr: 0x00,
            sprite_scanline,
            sprite_count: 0,
            sprite_shifter_pattern_lo: vec![0u8; 8],
            sprite_shifter_pattern_hi: vec![0u8; 8],
            sprite_zero_hit_possible: false,
            sprite_zero_rendered: false,
            odd_frame: false,
        }
    }

    /// Reset to the power-on register state.  OAM and the memories
    /// are cleared as well.
    pub fn reset(&mut self)
        requires
            old(self).wf(),
        ensures
            final(self).wf(),
            final(self).scanline == 0,
            final(self).cycle == 0,
            final(self).status.reg == 0,
            final(self).mask.reg == 0,
            final(self).control.reg == 0,
            final(self).vram_addr.reg == 0,
            final(self).tram_addr.reg == 0,
            !final(self).address_latch,
            !final(self).odd_frame,
            final(self).tbl_pattern@ == old(self).tbl_pattern@,
            final(self).tbl_name@ == old(self).tbl_name@,
            final(self).tbl_palette@ == old(self).tbl_palette@,
    {
        self.fine_x = 0x00;
        self.address_latch = false;
        self.ppu_data_buffer = 0x00;
        self.scanline = 0;
        self.cycle = 0;
        self.bg_next_tile_id = 0x00;
        self.bg_next_tile_attrib = 0x00;
        self.bg_next_tile_lsb = 0x00;
        self.bg_next_tile_msb = 0x00;
        self.bg_shifter_pattern_lo = 0x0000;
        self.bg_shifter_pattern_hi = 0x0000;
        self.bg_shifter_attrib_lo = 0x0000;
        self.bg_shifter_attrib_hi = 0x0000;
        self.status.reg = 0x00;
        self.mask.reg = 0x00;
        self.control.reg = 0x00;
        self.vram_addr.reg = 0x0000;
        self.tram_addr.reg = 0x0000;
        let ghost s0 = *self;
        let mut i: usize = 0;
        while i < 64
            invariant
                self.oam@.len() == 64,
                i <= 64,
                *self == (Ppu { oam: self.oam, ..s0 }),
            decreases 64 - i,
        {
            self.oam[i] = OamEntry { y: 0, id: 0, attrib: 0, x: 0 };
            i += 1;
        }
        self.oam_addr = 0x00;
        let ghost s1 = *self;
        let mut i: usize = 0;
        while i < 8
            invariant
                self.sprite_scanline@.len() == 8,
                self.sprite_shifter_pattern_lo@.len() == 8,
                self.sprite_shifter_pattern_hi@.len() == 8,
                i <= 8,
                *self == (Ppu {
                    sprite_scanline: self.sprite_scanline,
                    sprite_shifter_pattern_lo: self.sprite_shifter_pattern_lo,
                    sprite_shifter_pattern_hi: self.sprite_shifter_pattern_hi,
                    ..s1
                }),
            decreases 8 - i,
        {
            self.sprite_scanline[i] = OamEntry { y: 0, id: 0, attrib: 0, x: 0 };
            self.sprite_shifter_pattern_lo[i] = 0;
            self.sprite_shifter_pattern_hi[i] = 0;
            i += 1;
        }
        self.sprite_count = 0;
        self.sprite_zero_hit_possible = false;
        self.sprite_zero_rendered = false;
        self.odd_frame = false;
    }

    /// Horizontal scroll step at the end of each tile fetch: coarse X
    /// advances, wrapping into the neighbouring nametable.
    pub fn increment_scroll_x(&mut self)
        ensures
            final(self).vram_addr.reg == (if spec_rendering_on(old(self).mask.reg) {
                spec_inc_scroll_x(old(self).vram_addr.reg)
            } else {
                old(self).vram_addr.reg
            }),
            *final(self) == (Ppu { vram_addr: final(self).vram_addr, ..*old(self) }),
    {
        if self.mask.get_flag(MaskRegFlag::RenderBg) || self.mask.get_flag(
            MaskRegFlag::RenderSprites,
        ) {
            if self.vram_addr.coarse_x() == 31 {
                self.vram_addr.set_coarse_x(0);
                self.vram_addr.flip_nametable_x();
            } else {
                let cx = self.vram_addr.coarse_x();
                self.vram_addr.set_coarse_x(cx + 1);
            }
        }
    }

    /// Vertical scroll step at dot 256: fine Y advances, wrapping
    /// into coarse Y, which skips the attribute rows and flips the
    /// vertical nametable at row 29.
    pub fn increment_scroll_y(&mut self)
        ensures
            final(self).vram_addr.reg == (if spec_rendering_on(old(self).mask.reg) {
                spec_inc_scroll_y(old(self).vram_addr.reg)
            } else {
                old(self).vram_addr.reg
            }),
            *final(self) == (Ppu { vram_addr: final(self).vram_addr, ..*old(self) }),
    {
        if self.mask.get_flag(MaskRegFlag::RenderBg) || self.mask.get_flag(
            MaskRegFlag::RenderSprites,
        ) {
            if self.vram_addr.fine_y() < 7 {
                let fy = self.vram_addr.fine_y();
                self.vram_addr.set_fine_y(fy + 1);
            } else {
                self.vram_addr.set_fine_y(0);
                let cy = self.vram_addr.coarse_y();
                if cy == 29 {
                    self.vram_addr.set_coarse_y(0);
                    self.vram_addr.flip_nametable_y();
                } else if cy == 31 {
                    self.vram_addr.set_coarse_y(0);
                } else {
                    self.vram_addr.set_coarse_y(cy + 1);
                }
            }
        }
    }

    /// At dot 257 the horizontal bits of `t` move into `v`.
    pub fn transfer_address_x(&mut self)
        ensures
            final(self).vram_addr.reg == (if spec_rendering_on(old(self).mask.reg) {
                spec_transfer_x(old(self).vram_addr.reg, old(self).tram_addr.reg)
            } else {
                old(self).vram_addr.reg
            }),
            *final(self) == (Ppu { vram_addr: final(self).vram_addr, ..*old(self) }),
    {
        if self.mask.get_flag(MaskRegFlag::RenderBg) || self.mask.get_flag(
            MaskRegFlag::RenderSprites,
        ) {
            let ntx = self.tram_addr.nametable_x();
            self.vram_addr.set_nametable_x(ntx);
            let cx = self.tram_addr.coarse_x();
            self.vram_addr.set_coarse_x(cx);
        }
    }

    /// On the pre-render scanline the vertical bits of `t` move into
    /// `v`.
    pub fn transfer_address_y(&mut self)
        ensures
            final(self).vram_addr.reg == (if spec_rendering_on(old(self).mask.reg) {
                spec_transfer_y(old(self).vram_addr.reg, old(self).tram_addr.reg)
            } else {
                old(self).vram_addr.reg
            }),
            *final(self) == (Ppu { vram_addr: final(self).vram_addr, ..*old(self) }),
    {
        if self.mask.get_flag(MaskRegFlag::RenderBg) || self.mask.get_flag(
            MaskRegFlag::RenderSprites,
        ) {
            let fy = self.tram_addr.fine_y();
            self.vram_addr.set_fine_y(fy);
            let nty = self.tram_addr.nametable_y();
            self.vram_addr.set_nametable_y(nty);
            let cy = self.tram_addr.coarse_y();
            self.vram_addr.set_coarse_y(cy);
        }
    }

    /// Move the fetched tile row into the low bytes of the background
    /// shifters.
    pub fn load_bg_shifters(&mut self)
        ensures
            final(self).bg_shifter_pattern_lo == (old(self).bg_shifter_pattern_lo & 0xff00) | (
            old(self).bg_next_tile_lsb as u16),
            final(self).bg_shifter_pattern_hi == (old(self).bg_shifter_pattern_hi & 0xff00) | (
            old(self).bg_next_tile_msb as u16),
            final(self).bg_shifter_attrib_lo == (old(self).bg_shifter_attrib_lo & 0xff00) | (
            if old(self).bg_next_tile_attrib & 0b01 != 0 {
                0xffu16
            } else {
                0x00u16
            }),
            final(self).bg_shifter_attrib_hi == (old(self).bg_shifter_attrib_hi & 0xff00) | (
            if old(self).bg_next_tile_attrib & 0b10 != 0 {
                0xffu16
            } else {
                0x00u16
            }),
            *final(self) == (Ppu {
                bg_shifter_pattern_lo: final(self).bg_shifter_pattern_lo,
                bg_shifter_pattern_hi: final(self).bg_shifter_pattern_hi,
                bg_shifter_attrib_lo: final(self).bg_shifter_attrib_lo,
                bg_shifter_attrib_hi: final(self).bg_shifter_attrib_hi,
                ..*old(self)
            }),
    {
        self.bg_shifter_pattern_lo = (self.bg_shifter_pattern_lo & 0xff00) | (
        self.bg_next_tile_lsb as u16);
        self.bg_shifter_pattern_hi = (self.bg_shifter_pattern_hi & 0xff00) | (
        self.bg_next_tile_msb as u16);

        let tmp: u16 = if (self.bg_next_tile_attrib & 0b01) != 0 {
            0xff
        } else {
            0x00
        };
        self.bg_shifter_attrib_lo = (self.bg_shifter_attrib_lo & 0xff00) | tmp;
        let tmp: u16 = if (self.bg_next_tile_attrib & 0b10) != 0 {
            0xff
        } else {
            0x00
        };
        self.bg_shifter_attrib_hi = (self.bg_shifter_attrib_hi & 0xff00) | tmp;
    }

    /// Shift the background pipeline one dot, and count the selected
    /// sprites toward their X positions: a sprite still waiting has
    /// its X stepped down; one that has arrived shifts its pattern
    /// out.
    pub fn update_shifters(&mut self)
        requires
            old(self).wf(),
        ensures
            final(self).wf(),
            final(self).oam == old(self).oam,
            final(self).bg_shifter_pattern_lo == (if get_bit(old(self).mask.reg, 0x08) {
                (old(self).bg_shifter_pattern_lo << 1) as u16
            } else {
                old(self).bg_shifter_pattern_lo
            }),
            final(self).bg_shifter_pattern_hi == (if get_bit(old(self).mask.reg, 0x08) {
                (old(self).bg_shifter_pattern_hi << 1) as u16
            } else {
                old(self).bg_shifter_pattern_hi
            }),
            final(self).bg_shifter_attrib_lo == (if get_bit(old(self).mask.reg, 0x08) {
                (old(self).bg_shifter_attrib_lo << 1) as u16
            } else {
                old(self).bg_shifter_attrib_lo
            }),
            final(self).bg_shifter_attrib_hi == (if get_bit(old(self).mask.reg, 0x08) {
                (old(self).bg_shifter_attrib_hi << 1) as u16
            } else {
                old(self).bg_shifter_attrib_hi
            }),
            !(get_bit(old(self).mask.reg, 0x10) && 1 <= old(self).cycle < 258) ==> final(self).sprite_scanline == old(self).sprite_scanline && final(self).sprite_shifter_pattern_lo
                == old(self).sprite_shifter_pattern_lo && final(self).sprite_shifter_pattern_hi
                == old(self).sprite_shifter_pattern_hi,
            get_bit(old(self).mask.reg, 0x10) && 1 <= old(self).cycle < 258 ==> {
                &&& forall|i: int| 0 <= i < old(self).sprite_count
                    ==> #[trigger] final(self).sprite_scanline@[i] == (
                    if old(self).sprite_scanline@[i].x > 0 {
                        OamEntry { x: (old(self).sprite_scanline@[i].x - 1) as u8, ..old(self).sprite_scanline@[i] }
                    } else {
                        old(self).sprite_scanline@[i]
                    })
                &&& forall|i: int| 0 <= i < old(self).sprite_count
                    ==> #[trigger] final(self).sprite_shifter_pattern_lo@[i] == (
                    if old(self).sprite_scanline@[i].x == 0 {
                        (old(self).sprite_shifter_pattern_lo@[i] << 1) as u8
                    } else {
                        old(self).sprite_shifter_pattern_lo@[i]
                    })
                &&& forall|i: int| 0 <= i < old(self).sprite_count
                    ==> #[trigger] final(self).sprite_shifter_pattern_hi@[i] == (
                    if old(self).sprite_scanline@[i].x == 0 {
                        (old(self).sprite_shifter_pattern_hi@[i] << 1) as u8
                    } else {
                        old(self).sprite_shifter_pattern_hi@[i]
                    })
                &&& forall|i: int| old(self).sprite_count <= i < 8
                    ==> #[trigger] final(self).sprite_scanline@[i] == old(self).sprite_scanline@[i]
                        && final(self).sprite_shifter_pattern_lo@[i] == old(self).sprite_shifter_pattern_lo@[i] && final(self).sprite_shifter_pattern_hi@[i]
                        == old(self).sprite_shifter_pattern_hi@[i]
            },
            *final(self) == (Ppu {
                bg_shifter_pattern_lo: final(self).bg_shifter_pattern_lo,
                bg_shifter_pattern_hi: final(self).bg_shifter_pattern_hi,
                bg_shifter_attrib_lo: final(self).bg_shifter_attrib_lo,
                bg_shifter_attrib_hi: final(self).bg_shifter_attrib_hi,
                sprite_scanline: final(self).sprite_scanline,
                sprite_shifter_pattern_lo: final(self).sprite_shifter_pattern_lo,
                sprite_shifter_pattern_hi: final(self).sprite_shifter_pattern_hi,
                ..*old(self)
            }),
    {
        if self.mask.get_flag(MaskRegFlag::RenderBg) {
            self.bg_shifter_pattern_lo = self.bg_shifter_pattern_lo << 1;
            self.bg_shifter_pattern_hi = self.bg_shifter_pattern_hi << 1;
            self.bg_shifter_attrib_lo = self.bg_shifter_attrib_lo << 1;
            self.bg_shifter_attrib_hi = self.bg_shifter_attrib_hi << 1;
        }

        let ghost p1 = *self;
        if self.mask.get_flag(MaskRegFlag::RenderSprites) && self.cycle >= 1 && self.cycle < 258 {
            let mut i: usize = 0;
            while i < self.sprite_count
                invariant
                    self.wf(),
                    self.sprite_count <= 8,
                    i <= self.sprite_count,
                    self.sprite_count == p1.sprite_count,
                    p1.sprite_scanline@.len() == 8,
                    p1.sprite_shifter_pattern_lo@.len() == 8,
                    p1.sprite_shifter_pattern_hi@.len() == 8,
                    forall|j: int| 0 <= j < i ==> #[trigger] self.sprite_scanline@[j] == (
                    if p1.sprite_scanline@[j].x > 0 {
                        OamEntry { x: (p1.sprite_scanline@[j].x - 1) as u8, ..p1.sprite_scanline@[j] }
                    } else {
                        p1.sprite_scanline@[j]
                    }),
                    forall|j: int| 0 <= j < i ==> #[trigger] self.sprite_shifter_pattern_lo@[j]
                        == (if p1.sprite_scanline@[j].x == 0 {
                        (p1.sprite_shifter_pattern_lo@[j] << 1) as u8
                    } else {
                        p1.sprite_shifter_pattern_lo@[j]
                    }),
                    forall|j: int| 0 <= j < i ==> #[trigger] self.sprite_shifter_pattern_hi@[j]
                        == (if p1.sprite_scanline@[j].x == 0 {
                        (p1.sprite_shifter_pattern_hi@[j] << 1) as u8
                    } else {
                        p1.sprite_shifter_pattern_hi@[j]
                    }),
                    forall|j: int| i <= j < 8 ==> #[trigger] self.sprite_scanline@[j]
                        == p1.sprite_scanline@[j],
                    forall|j: int| i <= j < 8 ==> #[trigger] self.sprite_shifter_pattern_lo@[j]
                        == p1.sprite_shifter_pattern_lo@[j],
                    forall|j: int| i <= j < 8 ==> #[trigger] self.sprite_shifter_pattern_hi@[j]
                        == p1.sprite_shifter_pattern_hi@[j],
                    *self == (Ppu {
                        sprite_scanline: self.sprite_scanline,
                        sprite_shifter_pattern_lo: self.sprite_shifter_pattern_lo,
                        sprite_shifter_pattern_hi: self.sprite_shifter_pattern_hi,
                        ..p1
                    }),
                decreases self.sprite_count - i,
            {
                if self.sprite_scanline[i].x() > 0 {
                    let e = self.sprite_scanline[i];
                    self.sprite_scanline[i] = OamEntry { x: e.x - 1, ..e };
                } else {
                    self.sprite_shifter_pattern_lo[i] = self.sprite_shifter_pattern_lo[i] << 1;
                    self.sprite_shifter_pattern_hi[i] = self.sprite_shifter_pattern_hi[i] << 1;
                }
                i += 1;
            }
            proof {
                assert(self.sprite_scanline@ =~= self.sprite_scanline@);
            }
        }
    }

    /// Write one byte of object attribute memory at a flat address.
    pub fn write_oam(&mut self, addr: u8, data: u8)
        requires
            old(self).wf(),
        ensures
            final(self).wf(),
            final(self).oam@[(addr / 4) as int].spec_byte((addr % 4) as int) == data,
            forall|j: int| 0 <= j < 64 && j != (addr / 4) as int ==> final(self).oam@[j]
                == old(self).oam@[j],
            forall|k: int| 0 <= k < 4 && k != (addr % 4) as int
                ==> #[trigger] final(self).oam@[(addr / 4) as int].spec_byte(k) == old(self).oam@[(addr / 4) as int].spec_byte(k),
            *final(self) == (Ppu { oam: final(self).oam, ..*old(self) }),
    {
        let entry = (addr / 4) as usize;
        let offset = addr % 4;
        let mut e = self.oam[entry];
        e.set_byte(offset, data);
        self.oam[entry] = e;
    }

    /// Read one byte of object attribute memory at a flat address.
    pub fn read_oam(&self, addr: u8) -> (r: u8)
        requires
            self.wf(),
        ensures
            r == self.oam@[(addr / 4) as int].spec_byte((addr % 4) as int),
    {
        let entry = (addr / 4) as usize;
        let offset = addr % 4;
        self.oam[entry].get_byte(offset)
    }
}


impl Ppu {
    /// A read on the PPU's own bus: pattern tables (usually from the
    /// cartridge), nametables folded by the mirroring policy, and
    /// palette RAM with its mirrored backdrop entries.
    pub fn ppu_read(&self, cart: &mut Cartridge, addr: u16) -> (r: u8)
        requires
            self.wf(),
            old(cart).inv(),
        ensures
            final(cart).inv(),
            addr & 0x3fff >= 0x3f00 ==> r == self.tbl_palette@[palette_index((addr & 0x3fff) as u16)],
            0x2000 <= addr & 0x3fff < 0x3f00 ==> Some(r) == spec_nt_read(self, final(cart), (addr
                & 0x3fff) as u16),
            final(cart).mem_prg@ == old(cart).mem_prg@,
            final(cart).mem_chr@ == old(cart).mem_chr@,
            final(cart).hw_mirror == old(cart).hw_mirror,
            addr & 0x3fff >= 0x2000 ==> *final(cart) == *old(cart),
    {
        let a = addr & 0x3fff;

        let from_cart = cart.ppu_read(a);
        match from_cart {
            Some(data) => data,
            None => {
                if a < 0x2000 {
                    self.tbl_pattern[(a & 0x1fff) as usize]
                } else if a < 0x3f00 {
                    match nt_index(cart.mirror(), a) {
                        Some(i) => self.tbl_name[i],
                        None => 0x00,
                    }
                } else {
                    self.tbl_palette[palette_index_exec(a)]
                }
            },
        }
    }

    /// A write on the PPU's own bus, with the same decoding as reads.
    pub fn ppu_write(&mut self, cart: &mut Cartridge, addr: u16, data: u8)
        requires
            old(self).wf(),
            old(cart).inv(),
        ensures
            final(self).wf(),
            final(cart).inv(),
            addr & 0x3fff >= 0x3f00 ==> final(self).tbl_palette@ == old(self).tbl_palette@.update(
                palette_index((addr & 0x3fff) as u16),
                data,
            ) && final(self).tbl_name@ == old(self).tbl_name@,
            addr & 0x3fff < 0x3f00 ==> final(self).tbl_palette@ == old(self).tbl_palette@,
            0x2000 <= addr & 0x3fff < 0x3f00 ==> final(self).tbl_pattern@ == old(
                self,
            ).tbl_pattern@ && (match spec_nt_index(old(cart).spec_mirror(), (addr & 0x3fff) as u16) {
                Some(i) => final(self).tbl_name@ == old(self).tbl_name@.update(i, data),
                None => final(self).tbl_name@ == old(self).tbl_name@,
            }),
            addr & 0x3fff < 0x2000 ==> final(self).tbl_name@ == old(self).tbl_name@ && (if old(
                cart,
            ).mapper.spec_chr_writable((addr & 0x3fff) as u16) {
                final(cart).mem_chr@ == old(cart).mem_chr@.update((addr & 0x3fff) as int, data)
                    && final(self).tbl_pattern@ == old(self).tbl_pattern@
            } else {
                final(cart).mem_chr@ == old(cart).mem_chr@ && final(self).tbl_pattern@ == old(
                    self,
                ).tbl_pattern@.update(((addr & 0x3fff) & 0x1fff) as int, data)
            }),
            final(cart).mapper == old(cart).mapper,
            *final(self) == (Ppu {
                tbl_pattern: final(self).tbl_pattern,
                tbl_name: final(self).tbl_name,
                tbl_palette: final(self).tbl_palette,
                ..*old(self)
            }),
            final(cart).mem_prg@ == old(cart).mem_prg@,
            final(cart).hw_mirror == old(cart).hw_mirror,
    {
        let a = addr & 0x3fff;

        let consumed = cart.ppu_write(a, data);
        if !consumed {
            if a < 0x2000 {
                self.tbl_pattern[(a & 0x1fff) as usize] = data;
            } else if a < 0x3f00 {
                match nt_index(cart.mirror(), a) {
                    Some(i) => {
                        self.tbl_name[i] = data;
                    },
                    None => {},
                }
            } else {
                let i = palette_index_exec(a);
                self.tbl_palette[i] = data;
            }
        }
    }

    /// CPU-visible register read at the low three address bits.
    /// Reading the status register returns the three flag bits over
    /// stale buffer contents and clears both the vblank flag and the
    /// write latch.  Reading PPU data goes through the one-read-delay
    /// buffer; the palette range is returned without the delay, and
    /// the buffer then refills from the nametable the palette address
    /// mirrors over.
    pub fn cpu_read(&mut self, cart: &mut Cartridge, addr: u16) -> (r: u8)
        requires
            old(self).wf(),
            old(cart).inv(),
            addr < 8,
        ensures
            final(self).wf(),
            final(cart).inv(),
            final(self).oam == old(self).oam,
            final(self).control == old(self).control,
            final(self).mask == old(self).mask,
            final(self).scanline == old(self).scanline,
            final(self).cycle == old(self).cycle,
            addr == 2 ==> r == (old(self).status.reg & 0xe0) | (old(self).ppu_data_buffer & 0x1f)
                && !get_bit(final(self).status.reg, 0x80) && !final(self).address_latch
                && get_bit(final(self).status.reg, 0x40) == get_bit(old(self).status.reg, 0x40),
            addr == 4 ==> r == old(self).oam@[(old(self).oam_addr / 4) as int].spec_byte((
            old(self).oam_addr % 4) as int) && *final(self) == *old(self),
            addr == 7 ==> final(self).vram_addr.reg == vstd::wrapping::u16_specs::wrapping_add(
                old(self).vram_addr.reg,
                if get_bit(old(self).control.reg, 0x04) { 32 } else { 1 },
            ),
            addr == 7 && old(self).vram_addr.reg & 0x3fff >= 0x3f00 ==> r == old(self).tbl_palette@[palette_index((old(self).vram_addr.reg & 0x3fff) as u16)] && Some(
                final(self).ppu_data_buffer,
            ) == spec_nt_read(old(self), final(cart), (old(self).vram_addr.reg & 0x2fff) as u16),
            addr == 7 && old(self).vram_addr.reg & 0x3fff < 0x3f00 ==> r == old(self).ppu_data_buffer,
            addr == 7 && 0x2000 <= old(self).vram_addr.reg & 0x3fff < 0x3f00 ==> Some(
                final(self).ppu_data_buffer,
            ) == spec_nt_read(old(self), final(cart), (old(self).vram_addr.reg & 0x3fff) as u16),
            addr == 0 || addr == 1 || addr == 3 || addr == 5 || addr == 6 ==> r == 0 && *final(self)
                == *old(self),
    {
        if addr == 2 {
            let data = (self.status.reg & 0xe0) | (self.ppu_data_buffer & 0x1f);
            self.status.set_flag(StatusRegFlag::VerticalBlank, false);
            self.address_latch = false;
            data
        } else if addr == 4 {
            self.read_oam(self.oam_addr)
        } else if addr == 7 {
            let v = self.vram_addr.reg;
            let data: u8;
            if (v & 0x3fff) >= 0x3f00 {
                // palette reads skip the delay; the buffer refills
                // from the nametable the palette address mirrors over
                proof {
                    assert((v & 0x2fff) & 0x3fff == (v & 0x2fff) && 0x2000 <= (v & 0x2fff)
                        < 0x3f00) by (bit_vector)
                        requires
                            v & 0x3fff >= 0x3f00,
                    ;
                }
                data = self.ppu_read(cart, v);
                self.ppu_data_buffer = self.ppu_read(cart, v & 0x2fff);
            } else {
                data = self.ppu_data_buffer;
                self.ppu_data_buffer = self.ppu_read(cart, v);
            }
            let step: u16 = if self.control.get_flag(ControlRegFlag::IncrementMode) {
                32
            } else {
                1
            };
            self.vram_addr.reg = v.wrapping_add(step);
            data
        } else {
            0x00
        }
    }

    /// The inspection twin of `cpu_read`: no state changes, and the
    /// write-only registers read back their raw values.
    pub fn cpu_read_ro(&self, addr: u16) -> (r: u8)
        requires
            addr < 8,
        ensures
            addr == 0 ==> r == self.control.reg,
            addr == 1 ==> r == self.mask.reg,
            addr == 2 ==> r == self.status.reg,
            addr >= 3 ==> r == 0,
    {
        if addr == 0 {
            self.control.reg
        } else if addr == 1 {
            self.mask.reg
        } else if addr == 2 {
            self.status.reg
        } else {
            0x00
        }
    }

    /// CPU-visible register write at the low three address bits.
    pub fn cpu_write(&mut self, cart: &mut Cartridge, addr: u16, data: u8)
        requires
            old(self).wf(),
            old(cart).inv(),
            addr < 8,
        ensures
            final(self).wf(),
            final(cart).inv(),
            final(self).scanline == old(self).scanline,
            final(self).cycle == old(self).cycle,
            addr == 0 ==> final(self).control.reg == data && *final(self) == (Ppu {
                control: final(self).control,
                tram_addr: final(self).tram_addr,
                ..*old(self)
            }),
            addr == 1 ==> *final(self) == (Ppu { mask: MaskReg { reg: data }, ..*old(self) }),
            addr == 3 ==> *final(self) == (Ppu { oam_addr: data, ..*old(self) }),
            addr == 4 ==> final(self).oam@[(old(self).oam_addr / 4) as int].spec_byte((
            old(self).oam_addr % 4) as int) == data && *final(self) == (Ppu {
                oam: final(self).oam,
                ..*old(self)
            }),
            addr == 5 && !old(self).address_latch ==> final(self).fine_x == data % 8
                && final(self).tram_addr.reg == (old(self).tram_addr.reg & 0xffe0) | (((data
                / 8) as u16) & 0x001f) && final(self).address_latch && final(self).vram_addr
                == old(self).vram_addr,
            addr == 5 && old(self).address_latch ==> final(self).tram_addr.reg == (((
            old(self).tram_addr.reg & 0x8fff) | ((((data % 8) as u16) << 12) & 0x7000)) & 0xfc1f)
                | ((((data / 8) as u16) << 5) & 0x03e0) && !final(self).address_latch && final(self).vram_addr == old(self).vram_addr,
            addr == 6 && !old(self).address_latch ==> final(self).tram_addr.reg == (((((
            data & 0x3f) as u16) * 256) as u16) | (old(self).tram_addr.reg & 0x00ff))
                && final(self).address_latch && final(self).vram_addr == old(self).vram_addr,
            addr == 6 && old(self).address_latch ==> final(self).tram_addr.reg == ((
            old(self).tram_addr.reg & 0xff00) | data as u16) && final(self).vram_addr.reg
                == final(self).tram_addr.reg && !final(self).address_latch,
            addr == 2 ==> *final(self) == *old(self),
            final(self).tbl_palette@ == (if addr == 7 && old(self).vram_addr.reg & 0x3fff
                >= 0x3f00 {
                old(self).tbl_palette@.update(
                    palette_index((old(self).vram_addr.reg & 0x3fff) as u16),
                    data,
                )
            } else {
                old(self).tbl_palette@
            }),
            addr == 7 ==> final(self).vram_addr.reg == vstd::wrapping::u16_specs::wrapping_add(
                old(self).vram_addr.reg,
                if get_bit(old(self).control.reg, 0x04) { 32 } else { 1 },
            ),
    {
        if addr == 0 {
            self.control.reg = data;
            let ntx: u16 = if self.control.get_flag(ControlRegFlag::NametableX) {
                1
            } else {
                0
            };
            self.tram_addr.set_nametable_x(ntx);
            let nty: u16 = if self.control.get_flag(ControlRegFlag::NametableY) {
                1
            } else {
                0
            };
            self.tram_addr.set_nametable_y(nty);
        } else if addr == 1 {
            self.mask.reg = data;
        } else if addr == 3 {
            self.oam_addr = data;
        } else if addr == 4 {
            let a = self.oam_addr;
            self.write_oam(a, data);
        } else if addr == 5 {
            if !self.address_latch {
                self.fine_x = data % 8;
                self.tram_addr.set_coarse_x((data / 8) as u16);
                self.address_latch = true;
            } else {
                self.tram_addr.set_fine_y((data % 8) as u16);
                self.tram_addr.set_coarse_y((data / 8) as u16);
                self.address_latch = false;
            }
        } else if addr == 6 {
            if !self.address_latch {
                self.tram_addr.reg = (((data & 0x3f) as u16) * 256) | (self.tram_addr.reg & 0x00ff);
                self.address_latch = true;
            } else {
                self.tram_addr.reg = (self.tram_addr.reg & 0xff00) | (data as u16);
                self.vram_addr.reg = self.tram_addr.reg;
                self.address_latch = false;
            }
        } else if addr == 7 {
            let v = self.vram_addr.reg;
            self.ppu_write(cart, v, data);
            let step: u16 = if self.control.get_flag(ControlRegFlag::IncrementMode) {
                32
            } else {
                1
            };
            self.vram_addr.reg = self.vram_addr.reg.wrapping_add(step);
        }
    }

    /// The hardware palette index stored for one palette slot.
    pub fn get_color_from_palette(&self, cart: &mut Cartridge, palette: usize, pixel_value: u8) -> (r:
        usize)
        requires
            self.wf(),
            old(cart).inv(),
            palette < 8,
            pixel_value < 4,
        ensures
            final(cart).inv(),
            r == self.tbl_palette@[palette_index((0x3f00 + (palette as u16) * 4
                + pixel_value as u16) as u16)],
            r < 256,
            *final(cart) == *old(cart),
    {
        let offset: u16 = 0x3f00 + (palette as u16) * 4 + (pixel_value as u16);
        proof {
            assert(offset & 0x3fff == offset) by (bit_vector)
                requires
                    0x3f00 <= offset < 0x3f24,
            ;
        }
        let color_idx = self.ppu_read(cart, offset);
        color_idx as usize
    }

    /// Render one full pattern table through a palette, as a 128 by
    /// 128 grid of hardware palette indices.
    pub fn get_pattern_table(&self, cart: &mut Cartridge, table_idx: usize, palette: usize) -> (r:
        PatternTable)
        requires
            self.wf(),
            old(cart).inv(),
            table_idx < 2,
            palette < 8,
        ensures
            final(cart).inv(),
            r@.len() == 128,
            forall|i: int| 0 <= i < 128 ==> (#[trigger] r@[i])@.len() == 128,
    {
        let mut table: PatternTable = Vec::new();
        let mut i: usize = 0;
        while i < 128
            invariant
                table@.len() == i,
                i <= 128,
                forall|j: int| 0 <= j < i ==> (#[trigger] table@[j])@.len() == 128,
            decreases 128 - i,
        {
            table.push(vec![0usize; 128]);
            i += 1;
        }

        let mut tile_y: usize = 0;
        while tile_y < 16
            invariant
                self.wf(),
                cart.inv(),
                table@.len() == 128,
                table_idx < 2,
                palette < 8,
                tile_y <= 16,
                forall|j: int| 0 <= j < 128 ==> (#[trigger] table@[j])@.len() == 128,
            decreases 16 - tile_y,
        {
            let mut tile_x: usize = 0;
            while tile_x < 16
                invariant
                    self.wf(),
                    cart.inv(),
                    table@.len() == 128,
                    table_idx < 2,
                    palette < 8,
                    tile_y < 16,
                    tile_x <= 16,
                    forall|j: int| 0 <= j < 128 ==> (#[trigger] table@[j])@.len() == 128,
                decreases 16 - tile_x,
            {
                let offset: usize = tile_y * 256 + tile_x * 16;

                let mut row: usize = 0;
                while row < 8
                    invariant
                        self.wf(),
                        cart.inv(),
                        table@.len() == 128,
                        table_idx < 2,
                        palette < 8,
                        tile_y < 16,
                        tile_x < 16,
                        row <= 8,
                        offset == tile_y * 256 + tile_x * 16,
                        forall|j: int| 0 <= j < 128 ==> (#[trigger] table@[j])@.len() == 128,
                    decreases 8 - row,
                {
                    let mut tile_lsb = self.ppu_read(
                        cart,
                        (table_idx * 0x1000 + offset + row) as u16,
                    );
                    let mut tile_msb = self.ppu_read(
                        cart,
                        (table_idx * 0x1000 + offset + row + 8) as u16,
                    );

                    let mut col: usize = 0;
                    while col < 8
                        invariant
                            self.wf(),
                            cart.inv(),
                            table@.len() == 128,
                            table_idx < 2,
                            palette < 8,
                            tile_y < 16,
                            tile_x < 16,
                            row < 8,
                            col <= 8,
                            forall|j: int| 0 <= j < 128 ==> (#[trigger] table@[j])@.len() == 128,
                        decreases 8 - col,
                    {
                        let pixel_value: u8 = (tile_lsb % 2) * 2 + (tile_msb % 2);
                        tile_lsb = tile_lsb / 2;
                        tile_msb = tile_msb / 2;

                        let pos_x = tile_x * 8 + (7 - col);
                        let pos_y = tile_y * 8 + row;
                        let color = self.get_color_from_palette(cart, palette, pixel_value);
                        let mut r = table[pos_y].clone();
                        r[pos_x] = color;
                        table[pos_y] = r;
                        proof {
                            assert(forall|j: int| 0 <= j < 128 && j != pos_y as int ==> (
                            #[trigger] table@[j])@.len() == 128);
                        }
                        col += 1;
                    }
                    row += 1;
                }
                tile_x += 1;
            }
            tile_y += 1;
        }
        table
    }
}

/// Per-pixel hardware palette indices of one rendered pattern table.
pub type PatternTable = Vec<Vec<usize>>;

/// What a nametable-space read returns, if the mirroring policy
/// resolves: the byte of the selected physical bank.
pub open spec fn spec_nt_read(ppu: &Ppu, cart: &Cartridge, a: u16) -> Option<u8> {
    match spec_nt_index(cart.spec_mirror(), a) {
        Some(i) => Some(ppu.tbl_name@[i]),
        None => Some(0u8),
    }
}


impl Ppu {
    /// One dot of the rendering pipeline.  Advances the timing point
    /// by exactly one canonical step (eliding the dot at (0, 0) on
    /// odd frame transitions while background rendering is on), runs
    /// the background fetch and sprite pipelines, sets the vblank
    /// flag at (241, 1) -- requesting an NMI when enabled -- and
    /// clears the status flags at (-1, 1).
    #[verifier::rlimit(100)]
    pub fn clock(&mut self, cart: &mut Cartridge) -> (res: PpuClockResult)
        requires
            old(self).wf(),
            old(cart).inv(),
        ensures
            final(self).wf(),
            final(cart).inv(),
            (final(self).scanline, final(self).cycle) == ppu_step(
                old(self).scanline,
                old(self).cycle,
                old(self).odd_frame && get_bit(old(self).mask.reg, 0x08),
            ),
            final(self).odd_frame == (if old(self).scanline == 260 && old(self).cycle == 340 {
                !old(self).odd_frame
            } else {
                old(self).odd_frame
            }),
            final(self).oam == old(self).oam,
            final(self).control == old(self).control,
            final(self).mask == old(self).mask,
            final(self).oam_addr == old(self).oam_addr,
            final(self).tbl_pattern@ == old(self).tbl_pattern@,
            final(self).tbl_name@ == old(self).tbl_name@,
            final(self).tbl_palette@ == old(self).tbl_palette@,
            final(cart).mem_prg@ == old(cart).mem_prg@,
            final(cart).mem_chr@ == old(cart).mem_chr@,
            res.frame_complete == (old(self).scanline == 260 && old(self).cycle == 340),
            old(self).scanline == 241 && old(self).cycle == 1 ==> get_bit(
                final(self).status.reg,
                0x80,
            ) && res.nmi == get_bit(old(self).control.reg, 0x80),
            res.nmi ==> old(self).scanline == 241 && old(self).cycle == 1 && get_bit(
                old(self).control.reg,
                0x80,
            ),
            old(self).scanline == -1 && old(self).cycle == 1 ==> !get_bit(
                final(self).status.reg,
                0x80,
            ) && !get_bit(final(self).status.reg, 0x40) && !get_bit(final(self).status.reg, 0x20),
            // a pixel is emitted exactly on visible dots, at the dot's
            // own position
            ({
                let c1: usize = if old(self).scanline == 0 && old(self).cycle == 0 && old(
                    self,
                ).odd_frame && get_bit(old(self).mask.reg, 0x08) {
                    1
                } else {
                    old(self).cycle
                };
                &&& (res.set_pixel is Some <==> spec_visible(old(self).scanline, c1) is Some)
                &&& (res.set_pixel matches Some(p) ==> Some(p.pos) == spec_visible(
                    old(self).scanline,
                    c1,
                ) && p.color < 256)
            }),
    {
        let mut res = PpuClockResult { nmi: false, set_pixel: None, frame_complete: false };
        let ghost c0 = *cart;
        let ghost p0 = *self;

        if -1 <= self.scanline && self.scanline <= 239 {
            if self.scanline == 0 && self.cycle == 0 && self.odd_frame && self.mask.get_flag(
                MaskRegFlag::RenderBg,
            ) {
                // odd-frame dot skip on the frame transition
                self.cycle = 1;
            }

            if self.scanline == -1 && self.cycle == 1 {
                // new frame: clear the status flags and the sprite
                // shifters
                self.status.set_flag(StatusRegFlag::VerticalBlank, false);
                self.status.set_flag(StatusRegFlag::SpriteZeroHit, false);
                self.status.set_flag(StatusRegFlag::SpriteOverflow, false);

                let mut i: usize = 0;
                while i < 8
                    invariant
                        self.wf(),
                        i <= 8,
                        self.oam == p0.oam,
                        self.control == p0.control,
                        self.mask == p0.mask,
                        self.oam_addr == p0.oam_addr,
                        self.tbl_pattern@ == p0.tbl_pattern@,
                        self.tbl_name@ == p0.tbl_name@,
                        self.tbl_palette@ == p0.tbl_palette@,
                        self.scanline == p0.scanline,
                        self.cycle == p0.cycle,
                        self.odd_frame == p0.odd_frame,
                        self.status.reg == (((p0.status.reg & !0x80) & !0x40) & !0x20),
                    decreases 8 - i,
                {
                    self.sprite_shifter_pattern_lo[i] = 0;
                    self.sprite_shifter_pattern_hi[i] = 0;
                    i += 1;
                }
            }

            if (self.cycle >= 2 && self.cycle < 258) || (self.cycle >= 321 && self.cycle < 338) {
                self.update_shifters();

                let phase = (self.cycle - 1) % 8;
                if phase == 0 {
                    self.load_bg_shifters();
                    let v = self.vram_addr.reg;
                    self.bg_next_tile_id = self.ppu_read(cart, 0x2000 | (v & 0x0fff));
                } else if phase == 2 {
                    let nty = self.vram_addr.nametable_y();
                    let ntx = self.vram_addr.nametable_x();
                    let cy = self.vram_addr.coarse_y();
                    let cx = self.vram_addr.coarse_x();
                    let read_addr: u16 = 0x23c0 + nty * 0x800 + ntx * 0x400 + (cy / 4) * 8 + cx
                        / 4;
                    self.bg_next_tile_attrib = self.ppu_read(cart, read_addr);

                    if cy % 4 >= 2 {
                        self.bg_next_tile_attrib = self.bg_next_tile_attrib / 16;
                    }
                    if cx % 4 >= 2 {
                        self.bg_next_tile_attrib = self.bg_next_tile_attrib / 4;
                    }
                    self.bg_next_tile_attrib = self.bg_next_tile_attrib % 4;
                } else if phase == 4 {
                    let base: u16 = if self.control.get_flag(ControlRegFlag::PatternBg) {
                        0x1000
                    } else {
                        0
                    };
                    let fy = self.vram_addr.fine_y();
                    let read_addr: u16 = base + (self.bg_next_tile_id as u16) * 16 + fy;
                    self.bg_next_tile_lsb = self.ppu_read(cart, read_addr);
                } else if phase == 6 {
                    let base: u16 = if self.control.get_flag(ControlRegFlag::PatternBg) {
                        0x1000
                    } else {
                        0
                    };
                    let fy = self.vram_addr.fine_y();
                    let read_addr: u16 = base + (self.bg_next_tile_id as u16) * 16 + fy + 8;
                    self.bg_next_tile_msb = self.ppu_read(cart, read_addr);
                } else if phase == 7 {
                    self.increment_scroll_x();
                }
            }

            if self.cycle == 256 {
                self.increment_scroll_y();
            }

            if self.cycle == 257 {
                self.load_bg_shifters();
                self.transfer_address_x();
            }

            if self.cycle == 338 || self.cycle == 340 {
                let v = self.vram_addr.reg;
                self.bg_next_tile_id = self.ppu_read(cart, 0x2000 | (v & 0x0fff));
            }

            if self.scanline == -1 && self.cycle >= 280 && self.cycle < 305 {
                self.transfer_address_y();
            }

            // sprite evaluation for the next scanline
            if self.cycle == 257 && self.scanline >= 0 {
                let mut i: usize = 0;
                while i < 8
                    invariant
                        self.wf(),
                        i <= 8,
                        self.oam == p0.oam,
                        self.control == p0.control,
                        self.mask == p0.mask,
                        self.oam_addr == p0.oam_addr,
                        self.tbl_pattern@ == p0.tbl_pattern@,
                        self.tbl_name@ == p0.tbl_name@,
                        self.tbl_palette@ == p0.tbl_palette@,
                        self.scanline == p0.scanline,
                        self.cycle == p0.cycle,
                        self.odd_frame == p0.odd_frame,
                        self.status == p0.status,
                    decreases 8 - i,
                {
                    let mut e = self.sprite_scanline[i];
                    e.clear(0xff);
                    self.sprite_scanline[i] = e;
                    i += 1;
                }

                self.sprite_count = 0;
                let sprite_size: i32 = if self.control.get_flag(ControlRegFlag::SpriteSize) {
                    16
                } else {
                    8
                };
                self.sprite_zero_hit_possible = false;
                let mut i: usize = 0;
                while i < 64
                    invariant
                        self.wf(),
                        i <= 64,
                        self.oam == p0.oam,
                        self.control == p0.control,
                        self.mask == p0.mask,
                        self.oam_addr == p0.oam_addr,
                        self.tbl_pattern@ == p0.tbl_pattern@,
                        self.tbl_name@ == p0.tbl_name@,
                        self.tbl_palette@ == p0.tbl_palette@,
                        self.scanline == p0.scanline,
                        self.cycle == p0.cycle,
                        self.odd_frame == p0.odd_frame,
                        self.status == p0.status,
                        -1 <= self.scanline <= 260,
                    decreases 64 - i,
                {
                    let entry = self.oam[i];
                    let diff: i32 = self.scanline - (entry.y as i32);
                    if diff >= 0 && diff < sprite_size && self.sprite_count < 8 {
                        if i == 0 {
                            self.sprite_zero_hit_possible = true;
                        }
                        let c = self.sprite_count;
                        self.sprite_scanline[c] = entry;
                        self.sprite_count = c + 1;
                    }
                    i += 1;
                }
                let overflow = self.sprite_count >= 8;
                self.status.set_flag(StatusRegFlag::SpriteOverflow, overflow);
            }

            // sprite pattern fetches for the next scanline
            if self.cycle == 340 {
                let mut i: usize = 0;
                while i < self.sprite_count
                    invariant
                        self.wf(),
                        i <= self.sprite_count,
                        cart.inv(),
                        cart.mem_prg@ == c0.mem_prg@,
                        cart.mem_chr@ == c0.mem_chr@,
                        self.oam == p0.oam,
                        self.control == p0.control,
                        self.mask == p0.mask,
                        self.oam_addr == p0.oam_addr,
                        self.tbl_pattern@ == p0.tbl_pattern@,
                        self.tbl_name@ == p0.tbl_name@,
                        self.tbl_palette@ == p0.tbl_palette@,
                        self.scanline == p0.scanline,
                        self.cycle == p0.cycle,
                        self.odd_frame == p0.odd_frame,
                        self.status == p0.status,
                        -1 <= self.scanline <= 260,
                    decreases self.sprite_count - i,
                {
                    let s = self.sprite_scanline[i];
                    let diff: i32 = self.scanline - (s.y as i32);
                    let sd: u16 = if diff >= 0 && diff < 512 {
                        diff as u16
                    } else {
                        0
                    };

                    let sprite_pattern_addr_lo: u16 = if !self.control.get_flag(
                        ControlRegFlag::SpriteSize,
                    ) {
                        // 8x8 sprites
                        let base: u16 = if self.control.get_flag(ControlRegFlag::PatternSprite) {
                            0x1000
                        } else {
                            0
                        };
                        if s.attrib & 0x80 == 0 {
                            base + (s.id as u16) * 16 + sd % 8
                        } else {
                            base + (s.id as u16) * 16 + (7 - sd % 8)
                        }
                    } else {
                        // 8x16 sprites: the low id bit picks the table
                        let base: u16 = ((s.id & 0x01) as u16) * 0x1000;
                        if s.attrib & 0x80 == 0 {
                            if sd < 8 {
                                base + ((s.id & 0xfe) as u16) * 16 + sd % 8
                            } else {
                                base + (((s.id & 0xfe) as u16) + 1) * 16 + sd % 8
                            }
                        } else {
                            if sd < 8 {
                                base + (((s.id & 0xfe) as u16) + 1) * 16 + (7 - sd % 8)
                            } else {
                                base + ((s.id & 0xfe) as u16) * 16 + (7 - sd % 8)
                            }
                        }
                    };
                    let sprite_pattern_addr_hi: u16 = sprite_pattern_addr_lo + 8;
                    let bits_lo = self.ppu_read(cart, sprite_pattern_addr_lo);
                    let bits_hi = self.ppu_read(cart, sprite_pattern_addr_hi);

                    let (bits_lo, bits_hi) = if s.attrib & 0x40 > 0 {
                        (reverse_bits8(bits_lo), reverse_bits8(bits_hi))
                    } else {
                        (bits_lo, bits_hi)
                    };

                    self.sprite_shifter_pattern_lo[i] = bits_lo;
                    self.sprite_shifter_pattern_hi[i] = bits_hi;
                    i += 1;
                }
            }

            if self.cycle == 260 && (self.mask.get_flag(MaskRegFlag::RenderBg)
                || self.mask.get_flag(MaskRegFlag::RenderSprites)) {
                cart.on_scanline_end();
            }
        } else if self.scanline == 240 {
            // post-render scanline: idle
        } else {
            if self.scanline == 241 && self.cycle == 1 {
                // vblank begins
                self.status.set_flag(StatusRegFlag::VerticalBlank, true);
                if self.control.get_flag(ControlRegFlag::EnableNmi) {
                    res.nmi = true;
                }
            }
        }

        if let Some(pos) = visible(self.scanline, self.cycle) {
            let color = self.render_pixel(cart);
            res.set_pixel = Some(SetPixel { pos, color });
        }

        self.cycle += 1;
        if self.cycle >= 341 {
            self.cycle = 0;
            self.scanline = self.scanline + 1;
            if self.scanline >= 261 {
                self.scanline = -1;
                res.frame_complete = true;
                self.odd_frame = !self.odd_frame;
            }
        }

        res
    }
}

/// The byte with its bits in reverse order.
pub open spec fn spec_reverse_bits8(x: u8) -> u8 {
    ((x & 0x01) << 7) | ((x & 0x02) << 5) | ((x & 0x04) << 3) | ((x & 0x08) << 1) | ((x & 0x10)
        >> 1) | ((x & 0x20) >> 3) | ((x & 0x40) >> 5) | ((x & 0x80) >> 7)
}

/// Reverse the bit order of a byte, as the horizontal sprite flip
/// needs.
pub fn reverse_bits8(x: u8) -> (r: u8)
    ensures
        r == spec_reverse_bits8(x),
{
    ((x & 0x01) << 7) | ((x & 0x02) << 5) | ((x & 0x04) << 3) | ((x & 0x08) << 1) | ((x & 0x10)
        >> 1) | ((x & 0x20) >> 3) | ((x & 0x40) >> 5) | ((x & 0x80) >> 7)
}


impl Ppu {
    /// One OAM entry as printable text: position, tile id and
    /// attributes.
    pub fn debug_oam(&self, entry: usize) -> (r: String)
        requires
            self.wf(),
            entry < 64,
        ensures
            r@.len() > 0,
    {
        let e = self.oam[entry];
        let mut s = String::new();
        crate::hexfmt::push_hex8(&mut s, entry as u8);
        s.append(": (");
        crate::hexfmt::push_dec3(&mut s, e.x);
        s.append(", ");
        crate::hexfmt::push_dec3(&mut s, e.y);
        s.append(") ID: ");
        crate::hexfmt::push_hex8(&mut s, e.id);
        s.append(" AT: ");
        crate::hexfmt::push_hex8(&mut s, e.attrib);
        s
    }
}


/// The background pixel the shifters select under fine X: palette
/// group and pattern index, both zero while background rendering is
/// off.
pub open spec fn spec_bg_pixel(p: &Ppu) -> (u8, u8) {
    if get_bit(p.mask.reg, 0x08) {
        let fx = if p.fine_x < 16 {
            p.fine_x as u16
        } else {
            0
        };
        let mux = 0x8000u16 >> fx;
        let idx = ((if p.bg_shifter_pattern_hi & mux != 0 {
            1u8
        } else {
            0u8
        }) * 2 + (if p.bg_shifter_pattern_lo & mux != 0 {
            1u8
        } else {
            0u8
        })) as u8;
        let pal = ((if p.bg_shifter_attrib_hi & mux != 0 {
            1u8
        } else {
            0u8
        }) * 2 + (if p.bg_shifter_attrib_lo & mux != 0 {
            1u8
        } else {
            0u8
        })) as u8;
        (pal, idx)
    } else {
        (0u8, 0u8)
    }
}

/// The sprite the foreground sampler settles on, scanning from slot
/// `i` with the latches holding `cur`: every sprite whose X has
/// counted down updates the latches, and the scan stops at the first
/// opaque one.
pub open spec fn spec_fg_scan(p: &Ppu, i: int, cur: (u8, u8, bool)) -> (u8, u8, bool)
    decreases 8 - i,
{
    if i < 0 || i >= p.sprite_count as int || i >= 8 {
        cur
    } else if p.sprite_scanline@[i].x == 0 {
        let idx = ((if p.sprite_shifter_pattern_hi@[i] & 0x80 != 0 {
            1u8
        } else {
            0u8
        }) * 2 + (if p.sprite_shifter_pattern_lo@[i] & 0x80 != 0 {
            1u8
        } else {
            0u8
        })) as u8;
        let nxt = (
            ((p.sprite_scanline@[i].attrib % 4) + 4) as u8,
            idx,
            p.sprite_scanline@[i].attrib & 0x20 == 0,
        );
        if idx != 0 {
            nxt
        } else {
            spec_fg_scan(p, i + 1, nxt)
        }
    } else {
        spec_fg_scan(p, i + 1, cur)
    }
}

/// The foreground pixel: palette group, pattern index and priority,
/// all zero while sprite rendering is off.
pub open spec fn spec_fg_pixel(p: &Ppu) -> (u8, u8, bool) {
    if get_bit(p.mask.reg, 0x10) {
        spec_fg_scan(p, 0, (0u8, 0u8, false))
    } else {
        (0u8, 0u8, false)
    }
}

impl Ppu {
    /// Compose one visible pixel: background and sprite pipelines are
    /// sampled, sprite-zero hit is detected, and the hardware palette
    /// index of the winning layer is returned.
    #[verifier::rlimit(100)]
    fn render_pixel(&mut self, cart: &mut Cartridge) -> (color: usize)
        requires
            old(self).wf(),
            old(cart).inv(),
        ensures
            final(self).wf(),
            final(cart).inv(),
            color < 256,
            // the emitted index is the palette entry the composition
            // of the two sampled pixels selects
            ({
                let bg = spec_bg_pixel(old(self));
                let fg = spec_fg_pixel(old(self));
                let comp = spec_compose_pixel(bg.0, bg.1, fg.0, fg.1, fg.2);
                color == old(self).tbl_palette@[palette_index(
                    (0x3f00 + (comp.0 as u16) * 4 + (comp.1 as u16)) as u16,
                )]
            }),
            *final(self) == (Ppu {
                status: final(self).status,
                sprite_zero_rendered: final(self).sprite_zero_rendered,
                ..*old(self)
            }),
            get_bit(final(self).status.reg, 0x80) == get_bit(old(self).status.reg, 0x80),
            get_bit(final(self).status.reg, 0x20) == get_bit(old(self).status.reg, 0x20),
            get_bit(old(self).status.reg, 0x40) ==> get_bit(final(self).status.reg, 0x40),
            *final(cart) == *old(cart),
    {
        // background pixel
        let (bg_palette, bg_palette_idx) = if self.mask.get_flag(MaskRegFlag::RenderBg) {
            let fx = if self.fine_x < 16 {
                self.fine_x as u16
            } else {
                0
            };
            let bit_mux: u16 = 0x8000 >> fx;

            let p0_pixel: u8 = if (self.bg_shifter_pattern_lo & bit_mux) != 0 {
                1
            } else {
                0
            };
            let p1_pixel: u8 = if (self.bg_shifter_pattern_hi & bit_mux) != 0 {
                1
            } else {
                0
            };
            let bg_palette_idx = p1_pixel * 2 + p0_pixel;

            let bg_pal0: u8 = if (self.bg_shifter_attrib_lo & bit_mux) != 0 {
                1
            } else {
                0
            };
            let bg_pal1: u8 = if (self.bg_shifter_attrib_hi & bit_mux) != 0 {
                1
            } else {
                0
            };
            let bg_palette = bg_pal1 * 2 + bg_pal0;
            (bg_palette, bg_palette_idx)
        } else {
            (0u8, 0u8)
        };

        // foreground pixel: the first selected sprite whose X has
        // counted down and whose pixel is opaque
        let (fg_palette, fg_palette_idx, fg_priority) = if self.mask.get_flag(
            MaskRegFlag::RenderSprites,
        ) {
            self.sprite_zero_rendered = false;

            let ghost p1 = *self;
            let mut fg_palette: u8 = 0x00;
            let mut fg_palette_idx: u8 = 0x00;
            let mut fg_priority: bool = false;
            let mut found: bool = false;
            let mut i: usize = 0;
            while i < self.sprite_count && !found
                invariant
                    self.wf(),
                    i <= self.sprite_count,
                    fg_palette < 8,
                    fg_palette_idx < 4,
                    *self == (Ppu { sprite_zero_rendered: self.sprite_zero_rendered, ..p1 }),
                    p1 == (Ppu { sprite_zero_rendered: false, ..*old(self) }),
                    spec_fg_scan(old(self), 0, (0u8, 0u8, false)) == (if found {
                        (fg_palette, fg_palette_idx, fg_priority)
                    } else {
                        spec_fg_scan(old(self), i as int, (fg_palette, fg_palette_idx, fg_priority))
                    }),
                    found ==> fg_palette_idx != 0,
                decreases self.sprite_count - i,
            {
                let ghost acc = (fg_palette, fg_palette_idx, fg_priority);
                if self.sprite_scanline[i].x == 0 {
                    let lo: u8 = if (self.sprite_shifter_pattern_lo[i] & 0x80) != 0 {
                        1
                    } else {
                        0
                    };
                    let hi: u8 = if (self.sprite_shifter_pattern_hi[i] & 0x80) != 0 {
                        1
                    } else {
                        0
                    };
                    fg_palette_idx = hi * 2 + lo;

                    fg_palette = (self.sprite_scanline[i].attrib % 4) + 4;
                    fg_priority = (self.sprite_scanline[i].attrib & 0x20) == 0;

                    if fg_palette_idx != 0 {
                        if i == 0 {
                            self.sprite_zero_rendered = true;
                        }
                        found = true;
                    }
                    proof {
                        assert(i < old(self).sprite_count);
                        assert(old(self).sprite_scanline@[i as int].x == 0);
                        assert(spec_fg_scan(old(self), i as int, acc) == (if fg_palette_idx != 0 {
                            (fg_palette, fg_palette_idx, fg_priority)
                        } else {
                            spec_fg_scan(
                                old(self),
                                i + 1,
                                (fg_palette, fg_palette_idx, fg_priority),
                            )
                        })) by {
                            reveal_with_fuel(spec_fg_scan, 2);
                        }
                    }
                } else {
                    proof {
                        assert(i < old(self).sprite_count);
                        assert(old(self).sprite_scanline@[i as int].x != 0);
                        assert(spec_fg_scan(old(self), i as int, acc) == spec_fg_scan(
                            old(self),
                            i + 1,
                            acc,
                        )) by {
                            reveal_with_fuel(spec_fg_scan, 2);
                        }
                    }
                }
                i += 1;
            }
            (fg_palette, fg_palette_idx, fg_priority)
        } else {
            (0u8, 0u8, false)
        };

        // sprite-zero hit detection
        if bg_palette_idx > 0 && fg_palette_idx > 0 {
            if self.sprite_zero_hit_possible && self.sprite_zero_rendered && self.mask.get_flag(
                MaskRegFlag::RenderBg,
            ) && self.mask.get_flag(MaskRegFlag::RenderSprites) {
                if !(self.mask.get_flag(MaskRegFlag::RenderBgLeft) || self.mask.get_flag(
                    MaskRegFlag::RenderSpritesLeft,
                )) {
                    if self.cycle >= 9 && self.cycle < 258 {
                        self.status.set_flag(StatusRegFlag::SpriteZeroHit, true);
                    }
                } else {
                    if self.cycle >= 1 && self.cycle < 258 {
                        self.status.set_flag(StatusRegFlag::SpriteZeroHit, true);
                    }
                }
            }
        }

        let (palette, palette_idx) = compose_pixel(
            bg_palette,
            bg_palette_idx,
            fg_palette,
            fg_palette_idx,
            fg_priority,
        );

        self.get_color_from_palette(cart, palette as usize, palette_idx)
    }
}

} // verus!
