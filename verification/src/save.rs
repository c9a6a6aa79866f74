use vstd::prelude::*;
use crate::apu::{Apu, FrameCounter, FrameCounterMode};
use crate::apu::misc::{Envelope, LengthCounter, Sequencer, Timer};
use crate::apu::noise::{Noise, ShiftReg};
use crate::apu::pulse::{Pulse, Sweep};
use crate::apu::triangle::{LinearCounter, Triangle};
use crate::cartridge::{Cartridge, Mirror, MapperKind};
use crate::controller::Controller;
use crate::cpu::Cpu;
use crate::mapper::mapper000::Mapper000;
use crate::mapper::mapper001::Mapper001;
use crate::mapper::mapper002::Mapper002;
use crate::mapper::mapper003::Mapper003;
use crate::mapper::mapper004::Mapper004;
use crate::mapper::mapper007::Mapper007;
use crate::mapper::mapper009::Mapper009;
use crate::ppu::{ControlReg, LoopyReg, MaskReg, OamEntry, Ppu, StatusReg};
use crate::system::{Bus, System};

verus! {

fn push_u8(out: &mut Vec<u8>, v: u8)
    ensures
        final(out)@.len() == old(out)@.len() + 1,
{
    out.push(v);
}

fn push_bool(out: &mut Vec<u8>, v: bool)
    ensures
        final(out)@.len() == old(out)@.len() + 1,
{
    out.push(if v { 1 } else { 0 });
}

fn push_u16(out: &mut Vec<u8>, v: u16)
    ensures
        final(out)@.len() == old(out)@.len() + 2,
{
    out.push((v % 256) as u8);
    out.push((v / 256) as u8);
}

fn push_u32(out: &mut Vec<u8>, v: u32)
    ensures
        final(out)@.len() == old(out)@.len() + 4,
{
    out.push((v % 256) as u8);
    out.push(((v / 0x100) % 256) as u8);
    out.push(((v / 0x10000) % 256) as u8);
    out.push((v / 0x1000000) as u8);
}

fn push_u64(out: &mut Vec<u8>, v: u64)
    ensures
        final(out)@.len() == old(out)@.len() + 8,
{
    push_u32(out, (v % 0x100000000) as u32);
    push_u32(out, (v / 0x100000000) as u32);
}

fn push_bytes(out: &mut Vec<u8>, v: &Vec<u8>)
    ensures
        final(out)@.len() >= old(out)@.len() + 4,
{
    let n = v.len();
    push_u32(out, n as u32);
    let mut i: usize = 0;
    while i < n
        invariant
            n == v@.len(),
            out@.len() >= old(out)@.len() + 4,
        decreases n - i,
    {
        out.push(v[i]);
        i += 1;
    }
}

fn rd_u8(b: &Vec<u8>, pos: &mut usize) -> Option<u8> {
    if *pos < b.len() {
        let v = b[*pos];
        *pos = *pos + 1;
        Some(v)
    } else {
        None
    }
}

fn rd_bool(b: &Vec<u8>, pos: &mut usize) -> Option<bool> {
    match rd_u8(b, pos) {
        Some(v) => Some(v != 0),
        None => None,
    }
}

fn rd_u16(b: &Vec<u8>, pos: &mut usize) -> Option<u16> {
    let lo = rd_u8(b, pos)?;
    let hi = rd_u8(b, pos)?;
    Some((lo as u16) + (hi as u16) * 256)
}

fn rd_u32(b: &Vec<u8>, pos: &mut usize) -> Option<u32> {
    let b0 = rd_u8(b, pos)?;
    let b1 = rd_u8(b, pos)?;
    let b2 = rd_u8(b, pos)?;
    let b3 = rd_u8(b, pos)?;
    Some((b0 as u32) + (b1 as u32) * 0x100 + (b2 as u32) * 0x10000 + (b3 as u32) * 0x1000000)
}

fn rd_u64(b: &Vec<u8>, pos: &mut usize) -> Option<u64> {
    let lo = rd_u32(b, pos)?;
    let hi = rd_u32(b, pos)?;
    Some((lo as u64) + (hi as u64) * 0x100000000)
}

fn rd_bytes(b: &Vec<u8>, pos: &mut usize) -> Option<Vec<u8>> {
    let n32 = rd_u32(b, pos)?;
    let n = n32 as usize;
    let mut out: Vec<u8> = Vec::new();
    let mut i: usize = 0;
    while i < n
        decreases n - i,
    {
        let v = rd_u8(b, pos)?;
        out.push(v);
        i += 1;
    }
    Some(out)
}

fn rd_bytes_exact(b: &Vec<u8>, pos: &mut usize, want: usize) -> (r: Option<Vec<u8>>)
    ensures
        r matches Some(v) ==> v@.len() == want,
{
    let v = rd_bytes(b, pos)?;
    if v.len() == want {
        Some(v)
    } else {
        None
    }
}

/// The one-character string of a lowercase hex digit's ASCII code.
fn ascii_hex_str(c: u8) -> &'static str {
    match c {
        0x30 => "0",
        0x31 => "1",
        0x32 => "2",
        0x33 => "3",
        0x34 => "4",
        0x35 => "5",
        0x36 => "6",
        0x37 => "7",
        0x38 => "8",
        0x39 => "9",
        0x61 => "a",
        0x62 => "b",
        0x63 => "c",
        0x64 => "d",
        0x65 => "e",
        _ => "f",
    }
}

fn save_envelope(out: &mut Vec<u8>, e: &Envelope) {
    push_bool(out, e.flag_start);
    push_bool(out, e.flag_loop);
    push_bool(out, e.flag_const);
    push_u8(out, e.divider);
    push_u8(out, e.decay_level);
    push_u8(out, e.volume);
}

fn restore_envelope(b: &Vec<u8>, pos: &mut usize) -> Option<Envelope> {
    Some(
        Envelope {
            flag_start: rd_bool(b, pos)?,
            flag_loop: rd_bool(b, pos)?,
            flag_const: rd_bool(b, pos)?,
            divider: rd_u8(b, pos)?,
            decay_level: rd_u8(b, pos)?,
            volume: rd_u8(b, pos)?,
        },
    )
}

fn save_timer(out: &mut Vec<u8>, t: &Timer) {
    push_u16(out, t.period);
    push_u16(out, t.cur);
}

fn restore_timer(b: &Vec<u8>, pos: &mut usize) -> Option<Timer> {
    Some(Timer { period: rd_u16(b, pos)?, cur: rd_u16(b, pos)? })
}

fn save_lc(out: &mut Vec<u8>, l: &LengthCounter) {
    push_u8(out, l.counter);
    push_bool(out, l.halt);
    push_bool(out, l.enable);
}

fn restore_lc(b: &Vec<u8>, pos: &mut usize) -> Option<LengthCounter> {
    Some(
        LengthCounter { counter: rd_u8(b, pos)?, halt: rd_bool(b, pos)?, enable: rd_bool(b, pos)? },
    )
}

fn save_pulse(out: &mut Vec<u8>, p: &Pulse) {
    save_envelope(out, &p.envelope);
    push_bool(out, p.sweep.flag_enabled);
    push_bool(out, p.sweep.flag_negate);
    push_bool(out, p.sweep.flag_reload);
    push_u16(out, p.sweep.target_period);
    push_u16(out, p.sweep.cur_period);
    push_u32(out, p.sweep.shift_count as u32);
    push_u16(out, p.sweep.neg_offset);
    push_u8(out, p.sweep.divider);
    push_u8(out, p.sweep.divider_reload);
    save_timer(out, &p.timer);
    push_u8(out, p.sequencer.seq);
    push_u32(out, p.sequencer.pos);
    save_lc(out, &p.length_counter);
}

fn restore_pulse(b: &Vec<u8>, pos: &mut usize) -> Option<Pulse> {
    let envelope = restore_envelope(b, pos)?;
    let sweep = Sweep {
        flag_enabled: rd_bool(b, pos)?,
        flag_negate: rd_bool(b, pos)?,
        flag_reload: rd_bool(b, pos)?,
        target_period: rd_u16(b, pos)?,
        cur_period: rd_u16(b, pos)?,
        shift_count: rd_u32(b, pos)? as usize,
        neg_offset: rd_u16(b, pos)?,
        divider: rd_u8(b, pos)?,
        divider_reload: rd_u8(b, pos)?,
    };
    let timer = restore_timer(b, pos)?;
    let sequencer = Sequencer { seq: rd_u8(b, pos)?, pos: rd_u32(b, pos)? };
    let length_counter = restore_lc(b, pos)?;
    Some(Pulse { envelope, sweep, timer, sequencer, length_counter })
}

fn save_triangle(out: &mut Vec<u8>, t: &Triangle) {
    save_timer(out, &t.timer);
    push_bool(out, t.linear_counter.flag_reload);
    push_bool(out, t.linear_counter.flag_control);
    push_u8(out, t.linear_counter.reload);
    push_u8(out, t.linear_counter.counter);
    save_lc(out, &t.length_counter);
    push_u32(out, t.sequencer.pos as u32);
}

fn restore_triangle(b: &Vec<u8>, pos: &mut usize) -> Option<Triangle> {
    let timer = restore_timer(b, pos)?;
    let linear_counter = LinearCounter {
        flag_reload: rd_bool(b, pos)?,
        flag_control: rd_bool(b, pos)?,
        reload: rd_u8(b, pos)?,
        counter: rd_u8(b, pos)?,
    };
    let length_counter = restore_lc(b, pos)?;
    let sequencer = crate::apu::triangle::Sequencer { pos: rd_u32(b, pos)? as usize };
    Some(Triangle { timer, linear_counter, length_counter, sequencer })
}

fn save_noise(out: &mut Vec<u8>, n: &Noise) {
    save_envelope(out, &n.envelope);
    save_timer(out, &n.timer);
    push_u16(out, n.shift_reg.reg);
    push_bool(out, n.shift_reg.flag_mode);
    save_lc(out, &n.length_counter);
}

fn restore_noise(b: &Vec<u8>, pos: &mut usize) -> Option<Noise> {
    let envelope = restore_envelope(b, pos)?;
    let timer = restore_timer(b, pos)?;
    let shift_reg = ShiftReg { reg: rd_u16(b, pos)?, flag_mode: rd_bool(b, pos)? };
    let length_counter = restore_lc(b, pos)?;
    Some(Noise { envelope, timer, shift_reg, length_counter })
}

fn save_apu(out: &mut Vec<u8>, a: &Apu) {
    save_pulse(out, &a.pulse1);
    save_pulse(out, &a.pulse2);
    save_triangle(out, &a.triangle);
    save_noise(out, &a.noise);
    push_bool(out, a.frame_counter.flag_irq_inhibit);
    push_bool(out, a.frame_counter.mode == FrameCounterMode::Step5);
    push_u32(out, a.frame_counter.ppu_clock_counter as u32);
}

fn restore_apu(b: &Vec<u8>, pos: &mut usize) -> (r: Option<Apu>)
    ensures
        r matches Some(a) ==> a.wf(),
{
    let pulse1 = restore_pulse(b, pos)?;
    let pulse2 = restore_pulse(b, pos)?;
    let triangle = restore_triangle(b, pos)?;
    let noise = restore_noise(b, pos)?;
    let flag_irq_inhibit = rd_bool(b, pos)?;
    let step5 = rd_bool(b, pos)?;
    let counter = rd_u32(b, pos)? as usize;
    if counter >= 111846 {
        return None;
    }
    Some(
        Apu {
            pulse1,
            pulse2,
            triangle,
            noise,
            frame_counter: FrameCounter {
                flag_irq_inhibit,
                mode: if step5 {
                    FrameCounterMode::Step5
                } else {
                    FrameCounterMode::Step4
                },
                ppu_clock_counter: counter,
            },
        },
    )
}

fn save_oam_entry(out: &mut Vec<u8>, e: &OamEntry) {
    push_u8(out, e.y);
    push_u8(out, e.id);
    push_u8(out, e.attrib);
    push_u8(out, e.x);
}

fn restore_oam_entry(b: &Vec<u8>, pos: &mut usize) -> Option<OamEntry> {
    Some(
        OamEntry {
            y: rd_u8(b, pos)?,
            id: rd_u8(b, pos)?,
            attrib: rd_u8(b, pos)?,
            x: rd_u8(b, pos)?,
        },
    )
}

fn save_ppu(out: &mut Vec<u8>, p: &Ppu)
    requires
        p.wf(),
{
    push_bytes(out, &p.tbl_pattern);
    push_bytes(out, &p.tbl_name);
    push_bytes(out, &p.tbl_palette);
    push_u32(out, (p.scanline + 1) as u32);
    push_u32(out, p.cycle as u32);
    push_u8(out, p.control.reg);
    push_u8(out, p.mask.reg);
    push_u8(out, p.status.reg);
    push_u16(out, p.vram_addr.reg);
    push_u16(out, p.tram_addr.reg);
    push_u8(out, p.fine_x);
    push_bool(out, p.address_latch);
    push_u8(out, p.ppu_data_buffer);
    push_u8(out, p.bg_next_tile_id);
    push_u8(out, p.bg_next_tile_attrib);
    push_u8(out, p.bg_next_tile_lsb);
    push_u8(out, p.bg_next_tile_msb);
    push_u16(out, p.bg_shifter_pattern_lo);
    push_u16(out, p.bg_shifter_pattern_hi);
    push_u16(out, p.bg_shifter_attrib_lo);
    push_u16(out, p.bg_shifter_attrib_hi);
    let mut i: usize = 0;
    while i < 64
        invariant
            p.wf(),
            i <= 64,
        decreases 64 - i,
    {
        save_oam_entry(out, &p.oam[i]);
        i += 1;
    }
    push_u8(out, p.oam_addr);
    let mut i: usize = 0;
    while i < 8
        invariant
            p.wf(),
            i <= 8,
        decreases 8 - i,
    {
        save_oam_entry(out, &p.sprite_scanline[i]);
        push_u8(out, p.sprite_shifter_pattern_lo[i]);
        push_u8(out, p.sprite_shifter_pattern_hi[i]);
        i += 1;
    }
    push_u8(out, p.sprite_count as u8);
    push_bool(out, p.sprite_zero_hit_possible);
    push_bool(out, p.sprite_zero_rendered);
    push_bool(out, p.odd_frame);
}

fn restore_ppu(b: &Vec<u8>, pos: &mut usize) -> (r: Option<Ppu>)
    ensures
        r matches Some(p) ==> p.wf(),
{
    let tbl_pattern = rd_bytes_exact(b, pos, 8192)?;
    let tbl_name = rd_bytes_exact(b, pos, 2048)?;
    let tbl_palette = rd_bytes_exact(b, pos, 32)?;
    let scanline_raw = rd_u32(b, pos)?;
    if scanline_raw > 261 {
        return None;
    }
    let scanline: i32 = (scanline_raw as i32) - 1;
    let cycle_raw = rd_u32(b, pos)?;
    if cycle_raw > 340 {
        return None;
    }
    let cycle = cycle_raw as usize;
    let control = ControlReg { reg: rd_u8(b, pos)? };
    let mask = MaskReg { reg: rd_u8(b, pos)? };
    let status = StatusReg { reg: rd_u8(b, pos)? };
    let vram_addr = LoopyReg { reg: rd_u16(b, pos)? };
    let tram_addr = LoopyReg { reg: rd_u16(b, pos)? };
    let fine_x = rd_u8(b, pos)?;
    let address_latch = rd_bool(b, pos)?;
    let ppu_data_buffer = rd_u8(b, pos)?;
    let bg_next_tile_id = rd_u8(b, pos)?;
    let bg_next_tile_attrib = rd_u8(b, pos)?;
    let bg_next_tile_lsb = rd_u8(b, pos)?;
    let bg_next_tile_msb = rd_u8(b, pos)?;
    let bg_shifter_pattern_lo = rd_u16(b, pos)?;
    let bg_shifter_pattern_hi = rd_u16(b, pos)?;
    let bg_shifter_attrib_lo = rd_u16(b, pos)?;
    let bg_shifter_attrib_hi = rd_u16(b, pos)?;
    let mut oam: Vec<OamEntry> = Vec::new();
    let mut i: usize = 0;
    while i < 64
        invariant
            oam@.len() == i,
            i <= 64,
        decreases 64 - i,
    {
        let e = restore_oam_entry(b, pos)?;
        oam.push(e);
        i += 1;
    }
    let oam_addr = rd_u8(b, pos)?;
    let mut sprite_scanline: Vec<OamEntry> = Vec::new();
    let mut sprite_shifter_pattern_lo: Vec<u8> = Vec::new();
    let mut sprite_shifter_pattern_hi: Vec<u8> = Vec::new();
    let mut i: usize = 0;
    while i < 8
        invariant
            sprite_scanline@.len() == i,
            sprite_shifter_pattern_lo@.len() == i,
            sprite_shifter_pattern_hi@.len() == i,
            i <= 8,
        decreases 8 - i,
    {
        let e = restore_oam_entry(b, pos)?;
        sprite_scanline.push(e);
        let lo = rd_u8(b, pos)?;
        sprite_shifter_pattern_lo.push(lo);
        let hi = rd_u8(b, pos)?;
        sprite_shifter_pattern_hi.push(hi);
        i += 1;
    }
    let sprite_count_raw = rd_u8(b, pos)?;
    if sprite_count_raw > 8 {
        return None;
    }
    let sprite_zero_hit_possible = rd_bool(b, pos)?;
    let sprite_zero_rendered = rd_bool(b, pos)?;
    let odd_frame = rd_bool(b, pos)?;
    Some(
        Ppu {
            tbl_pattern,
            tbl_name,
            tbl_palette,
            scanline,
            cycle,
            control,
            mask,
            status,
            vram_addr,
            tram_addr,
            fine_x,
            address_latch,
            ppu_data_buffer,
            bg_next_tile_id,
            bg_next_tile_attrib,
            bg_next_tile_lsb,
            bg_next_tile_msb,
            bg_shifter_pattern_lo,
            bg_shifter_pattern_hi,
            bg_shifter_attrib_lo,
            bg_shifter_attrib_hi,
            oam,
            oam_addr,
            sprite_scanline,
            sprite_count: sprite_count_raw as usize,
            sprite_shifter_pattern_lo,
            sprite_shifter_pattern_hi,
            sprite_zero_hit_possible,
            sprite_zero_rendered,
            odd_frame,
        },
    )
}

fn save_cpu(out: &mut Vec<u8>, c: &Cpu)
    ensures
        final(out)@.len() == old(out)@.len() + 13,
{
    push_u8(out, c.a);
    push_u8(out, c.x);
    push_u8(out, c.y);
    push_u8(out, c.stkp);
    push_u16(out, c.pc);
    push_u8(out, c.status);
    push_u8(out, c.cycles);
    push_u8(out, c.fetched);
    push_u16(out, c.addr_abs);
    push_u16(out, c.addr_rel);
}

fn restore_cpu(b: &Vec<u8>, pos: &mut usize) -> Option<Cpu> {
    Some(
        Cpu {
            a: rd_u8(b, pos)?,
            x: rd_u8(b, pos)?,
            y: rd_u8(b, pos)?,
            stkp: rd_u8(b, pos)?,
            pc: rd_u16(b, pos)?,
            status: rd_u8(b, pos)?,
            cycles: rd_u8(b, pos)?,
            fetched: rd_u8(b, pos)?,
            addr_abs: rd_u16(b, pos)?,
            addr_rel: rd_u16(b, pos)?,
        },
    )
}

fn save_mirror(out: &mut Vec<u8>, m: &Mirror) {
    let t: u8 = match m {
        Mirror::Hardware => 0,
        Mirror::Vertical => 1,
        Mirror::Horizontal => 2,
        Mirror::OneScreenLo => 3,
        Mirror::OneScreenHi => 4,
    };
    push_u8(out, t);
}

fn restore_mirror(b: &Vec<u8>, pos: &mut usize) -> Option<Mirror> {
    match rd_u8(b, pos)? {
        0 => Some(Mirror::Hardware),
        1 => Some(Mirror::Vertical),
        2 => Some(Mirror::Horizontal),
        3 => Some(Mirror::OneScreenLo),
        4 => Some(Mirror::OneScreenHi),
        _ => None,
    }
}

fn save_mapper(out: &mut Vec<u8>, m: &MapperKind) {
    match m {
        MapperKind::M000(m) => {
            push_u8(out, 0);
            push_u32(out, m.num_banks_prg as u32);
            push_u32(out, m.num_banks_chr as u32);
        },
        MapperKind::M001(m) => {
            push_u8(out, 1);
            push_u32(out, m.num_banks_prg as u32);
            push_u32(out, m.num_banks_chr as u32);
            push_bytes(out, &m.prg_ram);
            save_mirror(out, &m.mirror_mode);
            push_u8(out, m.control_reg);
            push_u8(out, m.load_reg);
            push_u32(out, m.prg_bank_select_16_lo as u32);
            push_u32(out, m.prg_bank_select_16_hi as u32);
            push_u32(out, m.prg_bank_select_32 as u32);
            push_u32(out, m.chr_bank_select_4_lo as u32);
            push_u32(out, m.chr_bank_select_4_hi as u32);
            push_u32(out, m.chr_bank_select_8 as u32);
        },
        MapperKind::M002(m) => {
            push_u8(out, 2);
            push_u32(out, m.num_banks_prg as u32);
            push_u32(out, m.num_banks_chr as u32);
            push_u32(out, m.prg_bank_select_lo as u32);
            push_u32(out, m.prg_bank_select_hi as u32);
        },
        MapperKind::M003(m) => {
            push_u8(out, 3);
            push_u32(out, m.num_banks_prg as u32);
            push_u32(out, m.num_banks_chr as u32);
            push_u32(out, m.chr_bank_select as u32);
        },
        MapperKind::M004(m) => {
            push_u8(out, 4);
            push_u32(out, m.num_banks_prg as u32);
            push_u32(out, m.num_banks_chr as u32);
            push_bytes(out, &m.prg_ram);
            save_mirror(out, &m.mirror_mode);
            push_bytes(out, &m.bank_reg);
            let mut i: usize = 0;
            while i < m.prg_bank_offset.len()
                decreases m.prg_bank_offset.len() - i,
            {
                push_u32(out, m.prg_bank_offset[i] as u32);
                i += 1;
            }
            let mut i: usize = 0;
            while i < m.chr_bank_offset.len()
                decreases m.chr_bank_offset.len() - i,
            {
                push_u32(out, m.chr_bank_offset[i] as u32);
                i += 1;
            }
            push_u8(out, m.target_reg_idx as u8);
            push_bool(out, m.prg_bank_mode);
            push_bool(out, m.chr_inversion);
            push_bool(out, m.irq_active);
            push_bool(out, m.irq_enable);
            push_bool(out, m.irq_update);
            push_u32(out, m.irq_counter as u32);
            push_u32(out, m.irq_reload as u32);
        },
        MapperKind::M007(m) => {
            push_u8(out, 7);
            push_u32(out, m.num_banks_prg as u32);
            push_u32(out, m.num_banks_chr as u32);
            push_u32(out, m.prg_bank_select as u32);
            save_mirror(out, &m.mirror_mode);
        },
        MapperKind::M009(m) => {
            push_u8(out, 9);
            push_u32(out, m.num_banks_prg_8k as u32);
            push_u32(out, m.num_banks_chr as u32);
            push_bytes(out, &m.prg_ram);
            push_u32(out, m.prg_bank_select_8k as u32);
            push_u32(out, m.chr_bank_select_4k_lo_fd as u32);
            push_u32(out, m.chr_bank_select_4k_lo_fe as u32);
            push_u32(out, m.chr_bank_select_4k_hi_fd as u32);
            push_u32(out, m.chr_bank_select_4k_hi_fe as u32);
            push_bool(out, m.latch_lo);
            push_bool(out, m.latch_hi);
            save_mirror(out, &m.mirror_mode);
        },
    }
}

fn restore_mapper(b: &Vec<u8>, pos: &mut usize) -> Option<MapperKind> {
    let tag = rd_u8(b, pos)?;
    if tag == 0 {
        let num_banks_prg = rd_u32(b, pos)? as usize;
        let num_banks_chr = rd_u32(b, pos)? as usize;
        Some(MapperKind::M000(Mapper000 { num_banks_prg, num_banks_chr }))
    } else if tag == 1 {
        let num_banks_prg = rd_u32(b, pos)? as usize;
        let num_banks_chr = rd_u32(b, pos)? as usize;
        let prg_ram = rd_bytes_exact(b, pos, 8192)?;
        let mirror_mode = restore_mirror(b, pos)?;
        let control_reg = rd_u8(b, pos)?;
        let load_reg = rd_u8(b, pos)?;
        Some(
            MapperKind::M001(
                Mapper001 {
                    num_banks_prg,
                    num_banks_chr,
                    prg_ram,
                    mirror_mode,
                    control_reg,
                    load_reg,
                    prg_bank_select_16_lo: rd_u32(b, pos)? as usize,
                    prg_bank_select_16_hi: rd_u32(b, pos)? as usize,
                    prg_bank_select_32: rd_u32(b, pos)? as usize,
                    chr_bank_select_4_lo: rd_u32(b, pos)? as usize,
                    chr_bank_select_4_hi: rd_u32(b, pos)? as usize,
                    chr_bank_select_8: rd_u32(b, pos)? as usize,
                },
            ),
        )
    } else if tag == 2 {
        Some(
            MapperKind::M002(
                Mapper002 {
                    num_banks_prg: rd_u32(b, pos)? as usize,
                    num_banks_chr: rd_u32(b, pos)? as usize,
                    prg_bank_select_lo: rd_u32(b, pos)? as usize,
                    prg_bank_select_hi: rd_u32(b, pos)? as usize,
                },
            ),
        )
    } else if tag == 3 {
        Some(
            MapperKind::M003(
                Mapper003 {
                    num_banks_prg: rd_u32(b, pos)? as usize,
                    num_banks_chr: rd_u32(b, pos)? as usize,
                    chr_bank_select: rd_u32(b, pos)? as usize,
                },
            ),
        )
    } else if tag == 4 {
        let num_banks_prg = rd_u32(b, pos)? as usize;
        let num_banks_chr = rd_u32(b, pos)? as usize;
        let prg_ram = rd_bytes_exact(b, pos, 8192)?;
        let mirror_mode = restore_mirror(b, pos)?;
        let bank_reg = rd_bytes_exact(b, pos, 8)?;
        let mut prg_bank_offset: Vec<usize> = Vec::new();
        let mut i: usize = 0;
        while i < 4
            decreases 4 - i,
        {
            let v = rd_u32(b, pos)?;
            prg_bank_offset.push(v as usize);
            i += 1;
        }
        let mut chr_bank_offset: Vec<usize> = Vec::new();
        let mut i: usize = 0;
        while i < 8
            decreases 8 - i,
        {
            let v = rd_u32(b, pos)?;
            chr_bank_offset.push(v as usize);
            i += 1;
        }
        Some(
            MapperKind::M004(
                Mapper004 {
                    num_banks_prg,
                    num_banks_chr,
                    prg_ram,
                    mirror_mode,
                    bank_reg,
                    prg_bank_offset,
                    chr_bank_offset,
                    target_reg_idx: rd_u8(b, pos)? as usize,
                    prg_bank_mode: rd_bool(b, pos)?,
                    chr_inversion: rd_bool(b, pos)?,
                    irq_active: rd_bool(b, pos)?,
                    irq_enable: rd_bool(b, pos)?,
                    irq_update: rd_bool(b, pos)?,
                    irq_counter: rd_u32(b, pos)? as usize,
                    irq_reload: rd_u32(b, pos)? as usize,
                },
            ),
        )
    } else if tag == 7 {
        Some(
            MapperKind::M007(
                Mapper007 {
                    num_banks_prg: rd_u32(b, pos)? as usize,
                    num_banks_chr: rd_u32(b, pos)? as usize,
                    prg_bank_select: rd_u32(b, pos)? as usize,
                    mirror_mode: restore_mirror(b, pos)?,
                },
            ),
        )
    } else if tag == 9 {
        let num_banks_prg_8k = rd_u32(b, pos)? as usize;
        let num_banks_chr = rd_u32(b, pos)? as usize;
        let prg_ram = rd_bytes_exact(b, pos, 8192)?;
        Some(
            MapperKind::M009(
                Mapper009 {
                    num_banks_prg_8k,
                    prg_ram,
                    prg_bank_select_8k: rd_u32(b, pos)? as usize,
                    chr_bank_select_4k_lo_fd: rd_u32(b, pos)? as usize,
                    chr_bank_select_4k_lo_fe: rd_u32(b, pos)? as usize,
                    chr_bank_select_4k_hi_fd: rd_u32(b, pos)? as usize,
                    chr_bank_select_4k_hi_fe: rd_u32(b, pos)? as usize,
                    latch_lo: rd_bool(b, pos)?,
                    latch_hi: rd_bool(b, pos)?,
                    mirror_mode: restore_mirror(b, pos)?,
                    num_banks_chr,
                },
            ),
        )
    } else {
        None
    }
}

fn save_cartridge(out: &mut Vec<u8>, c: &Cartridge) {
    let digest = c.sha1_digest.as_str().as_bytes();
    push_u32(out, digest.len() as u32);
    let mut i: usize = 0;
    while i < digest.len()
        decreases digest.len() - i,
    {
        push_u8(out, digest[i]);
        i += 1;
    }
    push_bytes(out, &c.mem_prg);
    push_bytes(out, &c.mem_chr);
    save_mirror(out, &c.hw_mirror);
    save_mapper(out, &c.mapper);
}

fn restore_cartridge(b: &Vec<u8>, pos: &mut usize) -> (r: Option<Cartridge>)
    ensures
        r matches Some(c) ==> c.inv(),
{
    let digest_len = rd_u32(b, pos)? as usize;
    let mut sha1_digest = String::new();
    let mut i: usize = 0;
    while i < digest_len
        decreases digest_len - i,
    {
        let c = rd_u8(b, pos)?;
        sha1_digest.append(ascii_hex_str(c));
        i += 1;
    }
    let mem_prg = rd_bytes(b, pos)?;
    let mem_chr = rd_bytes(b, pos)?;
    let hw_mirror = restore_mirror(b, pos)?;
    let mapper = restore_mapper(b, pos)?;
    let c = Cartridge { sha1_digest, mem_prg, mem_chr, hw_mirror, mapper };
    if c.inv_exec() {
        Some(c)
    } else {
        None
    }
}

fn save_controller(out: &mut Vec<u8>, c: &Controller) {
    push_u8(out, c.reg);
    push_u8(out, c.state);
}

fn restore_controller(b: &Vec<u8>, pos: &mut usize) -> Option<Controller> {
    Some(Controller { reg: rd_u8(b, pos)?, state: rd_u8(b, pos)? })
}

/// Serialize the full system state: CPU, every device on the bus,
/// the mapper's internal state, all memories, DMA latches, the clock
/// counter and the audio accumulator.
pub fn save_state(s: &System) -> (r: Vec<u8>)
    requires
        s.wf(),
    ensures
        r@.len() >= 13,
{
    let mut out: Vec<u8> = Vec::new();
    save_cpu(&mut out, &s.cpu);
    push_bytes(&mut out, &s.bus.ram_cpu);
    save_ppu(&mut out, &s.bus.ppu);
    save_apu(&mut out, &s.bus.apu);
    save_cartridge(&mut out, &s.bus.cart);
    save_controller(&mut out, &s.bus.controller1);
    save_controller(&mut out, &s.bus.controller2);
    push_bool(&mut out, s.bus.dma_transfer);
    push_bool(&mut out, s.bus.dma_start_wait);
    push_u8(&mut out, s.bus.dma_page);
    push_u8(&mut out, s.bus.dma_addr);
    push_u8(&mut out, s.bus.dma_data);
    push_u64(&mut out, s.clock_counter as u64);
    push_u32(&mut out, s.sample_rate);
    push_u64(&mut out, s.audio_time_acc);
    out
}

/// Rebuild a system from its serialized form.  Images that are
/// truncated, or whose shapes or ranges do not fit the machine, are
/// rejected, so everything returned is well formed.
pub fn restore_state(bytes: &Vec<u8>) -> (r: Option<System>)
    ensures
        r matches Some(s) ==> s.wf(),
{
    let mut pos: usize = 0;
    let cpu = restore_cpu(bytes, &mut pos)?;
    let ram_cpu = rd_bytes_exact(bytes, &mut pos, 2048)?;
    let ppu = restore_ppu(bytes, &mut pos)?;
    let apu = restore_apu(bytes, &mut pos)?;
    let cart = restore_cartridge(bytes, &mut pos)?;
    let controller1 = restore_controller(bytes, &mut pos)?;
    let controller2 = restore_controller(bytes, &mut pos)?;
    let dma_transfer = rd_bool(bytes, &mut pos)?;
    let dma_start_wait = rd_bool(bytes, &mut pos)?;
    let dma_page = rd_u8(bytes, &mut pos)?;
    let dma_addr = rd_u8(bytes, &mut pos)?;
    let dma_data = rd_u8(bytes, &mut pos)?;
    let clock_counter = rd_u64(bytes, &mut pos)? as usize;
    let sample_rate = rd_u32(bytes, &mut pos)?;
    let audio_time_acc = rd_u64(bytes, &mut pos)?;
    if !(audio_time_acc < crate::system::PPU_CLOCK_HZ && sample_rate as u64
        <= crate::system::PPU_CLOCK_HZ) {
        return None;
    }
    Some(
        System {
            cpu,
            bus: Bus {
                ram_cpu,
                ppu,
                apu,
                cart,
                controller1,
                controller2,
                dma_transfer,
                dma_start_wait,
                dma_page,
                dma_addr,
                dma_data,
            },
            clock_counter,
            sample_rate,
            audio_time_acc,
        },
    )
}

} // verus!
