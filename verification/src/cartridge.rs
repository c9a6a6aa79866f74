use vstd::prelude::*;
use crate::mapper::MapResult;
use crate::mapper::mapper000::Mapper000;
use crate::mapper::mapper001::{Mapper001, spec_m1_cpu_map, spec_m1_ppu_map};
use crate::mapper::mapper002::Mapper002;
use crate::mapper::mapper003::Mapper003;
use crate::mapper::mapper004::{Mapper004, spec_m4_cpu_map, spec_m4_ppu_map, spec_m4_scanline};
use crate::mapper::mapper007::Mapper007;
use crate::mapper::mapper009::{Mapper009, spec_m9_cpu_map, spec_m9_latches, spec_m9_ppu_map};

verus! {

broadcast use crate::bitops::lemma_u16_and_le;

/// Nametable mirroring policy.  `Hardware` defers to the solder-pad
/// setting read from the ROM header.
#[derive(Copy, Clone, PartialEq, Eq, Structural, Debug)]
pub enum Mirror {
    Hardware,
    Vertical,
    Horizontal,
    OneScreenLo,
    OneScreenHi,
}

/// Why a ROM image was rejected.
#[derive(Copy, Clone, PartialEq, Eq, Structural, Debug)]
pub enum CartridgeError {
    TooShort,
    BadMagic,
    UnsupportedMapper(u8),
    BadBankCount,
    BadPatch,
}

/// The 40-character hex digest that sha1_smol computes for a byte
/// sequence.
pub uninterp spec fn sha1_hex_of(data: Seq<u8>) -> Seq<char>;

/// Relies on sha1_smol's Sha1::from, Sha1::digest and the Digest
/// display form: forty lowercase hex digits that depend on the bytes
/// alone.
#[verifier::external_body]
fn sha1_hex(data: &Vec<u8>) -> (r: String)
    ensures
        r@ == sha1_hex_of(data@),
        r@.len() == 40,
{
    sha1_smol::Sha1::from(data.as_slice()).digest().to_string()
}

/// What ips::Patch::parse reads out of a patch image: the hunks as
/// (offset, payload) pairs with run-length encoding expanded, and the
/// optional truncation length.
pub uninterp spec fn ips_patch_of(b: Seq<u8>) -> Option<(Seq<(nat, Seq<u8>)>, Option<nat>)>;

/// Relies on ips::Patch::parse together with the hunk accessors
/// offset and payload and with Patch::truncation; the result depends
/// on the patch bytes alone.
#[verifier::external_body]
fn parse_ips_patch(bytes: &Vec<u8>) -> (r: Option<(Vec<(usize, Vec<u8>)>, Option<usize>)>)
    ensures
        r is Some <==> ips_patch_of(bytes@) is Some,
        r matches Some(p) ==> (ips_patch_of(bytes@) matches Some(q) && p.0@.len() == q.0.len() && (
        forall|i: int|
            0 <= i < q.0.len() ==> p.0@[i].0 as nat == q.0[i].0 && p.0@[i].1@ == q.0[i].1) && (p.1
            is Some <==> q.1 is Some) && (p.1 matches Some(t) ==> q.1 == Some(t as nat))),
{
    match ips::Patch::parse(bytes) {
        Ok(patch) => {
            let hunks = patch.hunks().iter().map(|h| (h.offset(), h.payload().to_vec())).collect();
            Some((hunks, patch.truncation()))
        }
        Err(_) => None,
    }
}

/// The ROM image after one hunk: `payload` overwrites the bytes at
/// `offset`, when it fits.
pub open spec fn spec_apply_hunk(rom: Seq<u8>, offset: nat, payload: Seq<u8>) -> Seq<u8> {
    if offset + payload.len() <= rom.len() {
        rom.map(
            |i: int, b: u8|
                if offset <= i < offset + payload.len() {
                    payload[i - offset]
                } else {
                    b
                },
    )
    } else {
        rom
    }
}

/// The ROM image after the first `n` hunks.
pub open spec fn spec_apply_hunks(rom: Seq<u8>, hunks: Seq<(nat, Seq<u8>)>, n: int) -> Seq<u8>
    decreases n,
{
    if n <= 0 {
        rom
    } else {
        spec_apply_hunk(
            spec_apply_hunks(rom, hunks, n - 1),
            hunks[n - 1].0,
            hunks[n - 1].1,
        )
    }
}

/// Whether every hunk lands inside the ROM image.
pub open spec fn hunks_in_range(rom_len: nat, hunks: Seq<(nat, Seq<u8>)>) -> bool {
    forall|i: int| 0 <= i < hunks.len() ==> (#[trigger] hunks[i]).0 + hunks[i].1.len() <= rom_len
}

/// Overwrite `rom` with each hunk in order; false when a hunk lies
/// outside the image, in which case the image is only partly patched
/// and should be discarded.
pub fn apply_hunks(rom: &mut Vec<u8>, hunks: &Vec<(usize, Vec<u8>)>) -> (ok: bool)
    ensures
        ok == hunks_in_range(
            old(rom)@.len(),
            hunks@.map_values(|h: (usize, Vec<u8>)| (h.0 as nat, h.1@)),
        ),
        ok ==> final(rom)@ == spec_apply_hunks(
            old(rom)@,
            hunks@.map_values(|h: (usize, Vec<u8>)| (h.0 as nat, h.1@)),
            hunks@.len() as int,
        ),
        final(rom)@.len() == old(rom)@.len(),
{
    let ghost ghunks = hunks@.map_values(|h: (usize, Vec<u8>)| (h.0 as nat, h.1@));
    let mut n: usize = 0;
    let mut ok: bool = true;
    while n < hunks.len()
        invariant
            n <= hunks@.len(),
            ghunks == hunks@.map_values(|h: (usize, Vec<u8>)| (h.0 as nat, h.1@)),
            rom@.len() == old(rom)@.len(),
            ok ==> hunks_in_range(old(rom)@.len(), ghunks.take(n as int)) && rom@
                == spec_apply_hunks(old(rom)@, ghunks, n as int),
            !ok ==> !hunks_in_range(old(rom)@.len(), ghunks),
        decreases hunks@.len() - n,
    {
        let offset = hunks[n].0;
        let len = hunks[n].1.len();
        let fits = offset <= rom.len() && len <= rom.len() - offset;
        if fits {
            let ghost rom0 = rom@;
            let mut j: usize = 0;
            while j < len
                invariant
                    j <= len,
                    len == hunks@[n as int].1@.len(),
                    n < hunks@.len(),
                    offset == hunks@[n as int].0,
                    offset + len <= rom@.len(),
                    offset + len <= usize::MAX,
                    rom@.len() == rom0.len(),
                    forall|i: int| offset <= i < offset + j ==> rom@[i] == hunks@[n as int].1@[i
                        - offset],
                    forall|i: int| 0 <= i < rom@.len() && !(offset <= i < offset + j)
                        ==> rom@[i] == rom0[i],
                decreases len - j,
            {
                self_set(rom, offset + j, hunks[n].1[j]);
                j += 1;
            }
            proof {
                assert(rom@ =~= spec_apply_hunk(rom0, ghunks[n as int].0, ghunks[n as int].1));
                if ok {
                    assert forall|i: int| 0 <= i < n + 1 implies (#[trigger] ghunks.take(n
                        + 1)[i]).0 + ghunks.take(n + 1)[i].1.len() <= old(rom)@.len() by {
                        if i < n {
                            assert(ghunks.take(n as int)[i] == ghunks.take(n + 1)[i]);
                            assert(hunks_in_range(old(rom)@.len(), ghunks.take(n as int)));
                        }
                    }
                }
            }
        } else {
            proof {
                if ok {
                    assert(!((ghunks[n as int]).0 + ghunks[n as int].1.len()
                        <= old(rom)@.len()));
                    assert(!hunks_in_range(old(rom)@.len(), ghunks));
                }
            }
            ok = false;
        }
        n += 1;
    }
    proof {
        assert(ghunks.take(ghunks.len() as int) =~= ghunks);
    }
    ok
}

/// Write one byte of a vector in place.
fn self_set(v: &mut Vec<u8>, i: usize, b: u8)
    requires
        i < old(v)@.len(),
    ensures
        final(v)@ == old(v)@.update(i as int, b),
{
    v[i] = b;
}

/// The ROM image a patch produces, or nothing when the patch is
/// rejected.
pub open spec fn spec_patched_rom(rom: Seq<u8>, patch: Seq<u8>) -> Option<Seq<u8>> {
    match ips_patch_of(patch) {
        Some(p) => {
            if hunks_in_range(rom.len(), p.0) {
                let full = spec_apply_hunks(rom, p.0, p.0.len() as int);
                match p.1 {
                    Some(t) => Some(full.take(if t <= full.len() { t as int } else { full.len() as int })),
                    None => Some(full),
                }
            } else {
                None
            }
        },
        None => None,
    }
}

/// Apply an IPS patch image to a ROM image: every hunk is written in
/// order and a truncation extension shortens the result.  False when
/// the patch does not parse or a hunk lies outside the ROM, in which
/// case the ROM must be discarded.
pub fn patch_rom(rom: &mut Vec<u8>, patch: &Vec<u8>) -> (ok: bool)
    ensures
        ok <==> spec_patched_rom(old(rom)@, patch@) is Some,
        ok ==> Some(final(rom)@) == spec_patched_rom(old(rom)@, patch@),
{
    let parsed = parse_ips_patch(patch);
    match parsed {
        Some(p) => {
            proof {
                let q = ips_patch_of(patch@).unwrap();
                assert(p.0@.map_values(|h: (usize, Vec<u8>)| (h.0 as nat, h.1@)) =~~= q.0);
            }
            let ok = apply_hunks(rom, &p.0);
            if ok {
                match p.1 {
                    Some(t) => {
                        if t < rom.len() {
                            rom.truncate(t);
                        }
                        proof {
                            let full = spec_apply_hunks(
                                old(rom)@,
                                ips_patch_of(patch@).unwrap().0,
                                ips_patch_of(patch@).unwrap().0.len() as int,
                            );
                            assert(rom@ =~= full.take(
                                if t as nat <= full.len() {
                                    t as int
                                } else {
                                    full.len() as int
                                },
                            ));
                        }
                    },
                    None => {},
                }
                true
            } else {
                false
            }
        },
        None => false,
    }
}

/// The sixteen-byte iNES header.
pub struct CartridgeHeader {
    pub prg_rom_chunks: u8,
    pub chr_rom_chunks: u8,
    pub mapper1: u8,
    pub mapper2: u8,
}

impl CartridgeHeader {
    /// Read the header fields out of the first sixteen bytes, after
    /// checking the magic.
    pub fn load(bytes: &Vec<u8>) -> (r: Result<CartridgeHeader, CartridgeError>)
        ensures
            bytes@.len() < 16 ==> r == Result::<CartridgeHeader, CartridgeError>::Err(
                CartridgeError::TooShort,
            ),
            bytes@.len() >= 16 && !(bytes@[0] == 0x4e && bytes@[1] == 0x45 && bytes@[2] == 0x53
                && bytes@[3] == 0x1a) ==> r == Result::<CartridgeHeader, CartridgeError>::Err(
                CartridgeError::BadMagic,
            ),
            bytes@.len() >= 16 && bytes@[0] == 0x4e && bytes@[1] == 0x45 && bytes@[2] == 0x53
                && bytes@[3] == 0x1a ==> (r matches Result::Ok(h) && h.prg_rom_chunks == bytes@[4]
                && h.chr_rom_chunks == bytes@[5] && h.mapper1 == bytes@[6] && h.mapper2
                == bytes@[7]),
    {
        if bytes.len() < 16 {
            return Err(CartridgeError::TooShort);
        }
        if !(bytes[0] == 0x4e && bytes[1] == 0x45 && bytes[2] == 0x53 && bytes[3] == 0x1a) {
            return Err(CartridgeError::BadMagic);
        }
        Ok(
            CartridgeHeader {
                prg_rom_chunks: bytes[4],
                chr_rom_chunks: bytes[5],
                mapper1: bytes[6],
                mapper2: bytes[7],
            },
        )
    }
}

/// The concrete address-mapping hardware of a cartridge.
pub enum MapperKind {
    M000(Mapper000),
    M001(Mapper001),
    M002(Mapper002),
    M003(Mapper003),
    M004(Mapper004),
    M007(Mapper007),
    M009(Mapper009),
}

impl MapperKind {
    /// The mapper's own well-formedness, together with the bank
    /// counts it was built for.
    pub open spec fn inv(&self) -> bool {
        match self {
            MapperKind::M000(m) => m.inv(),
            MapperKind::M001(m) => m.inv(),
            MapperKind::M002(m) => m.inv(),
            MapperKind::M003(m) => m.inv(),
            MapperKind::M004(m) => m.inv(),
            MapperKind::M007(m) => m.inv(),
            MapperKind::M009(m) => m.inv(),
        }
    }

    /// The pure CPU-side translation the mapper applies now.
    pub open spec fn spec_cpu_translate(&self, addr: u16) -> MapResult {
        match self {
            MapperKind::M000(m) => m.spec_cpu_map(addr),
            MapperKind::M001(m) => spec_m1_cpu_map(m, addr),
            MapperKind::M002(m) => m.spec_cpu_map(addr),
            MapperKind::M003(m) => m.spec_cpu_map(addr),
            MapperKind::M004(m) => spec_m4_cpu_map(m, addr),
            MapperKind::M007(m) => m.spec_cpu_map(addr),
            MapperKind::M009(m) => spec_m9_cpu_map(m, addr),
        }
    }

    /// The PPU-side translation a read goes through (selected by the
    /// state the read leaves, for the MMC2 latches).
    pub open spec fn spec_ppu_translate(&self, addr: u16) -> MapResult {
        match self {
            MapperKind::M000(_) => if addr < 0x2000 {
                MapResult::MapAddr(addr as usize)
            } else {
                MapResult::Decline
            },
            MapperKind::M001(m) => spec_m1_ppu_map(m, addr),
            MapperKind::M002(_) => if addr < 0x2000 {
                MapResult::MapAddr(addr as usize)
            } else {
                MapResult::Decline
            },
            MapperKind::M003(m) => if addr < 0x2000 {
                MapResult::MapAddr((m.chr_bank_select * 0x2000 + addr as usize) as usize)
            } else {
                MapResult::Decline
            },
            MapperKind::M004(m) => spec_m4_ppu_map(m, addr),
            MapperKind::M007(_) => if addr < 0x2000 {
                MapResult::MapAddr(addr as usize)
            } else {
                MapResult::Decline
            },
            MapperKind::M009(m) => spec_m9_ppu_map(m, addr),
        }
    }

    /// The mapper state a PPU-side read leaves behind: only the MMC2
    /// latches can move.
    pub open spec fn spec_ppu_read_post(&self, addr: u16) -> MapperKind {
        match self {
            MapperKind::M009(m) => MapperKind::M009(
                Mapper009 {
                    latch_lo: spec_m9_latches(m, addr).0,
                    latch_hi: spec_m9_latches(m, addr).1,
                    ..*m
                },
            ),
            _ => *self,
        }
    }

    /// Whether the mapper consumes a CPU write at `addr`, by mapping
    /// it into PRG memory or absorbing it into a register or RAM.
    pub open spec fn spec_cpu_write_consumed(&self, addr: u16) -> bool {
        match self {
            MapperKind::M000(_) => addr >= 0x8000,
            MapperKind::M001(_) => addr >= 0x6000,
            MapperKind::M002(_) => false,
            MapperKind::M003(_) => false,
            MapperKind::M004(_) => addr >= 0x6000,
            MapperKind::M007(_) => false,
            MapperKind::M009(_) => false,
        }
    }

    /// Whether a PPU write at `addr` lands in CHR memory: only when
    /// the image brought no CHR banks and the region is RAM.
    pub open spec fn spec_chr_writable(&self, addr: u16) -> bool {
        addr < 0x2000 && match self {
            MapperKind::M000(m) => m.num_banks_chr == 0,
            MapperKind::M001(m) => m.num_banks_chr == 0,
            MapperKind::M002(m) => m.num_banks_chr == 0,
            MapperKind::M003(_) => false,
            MapperKind::M004(_) => false,
            MapperKind::M007(m) => m.num_banks_chr == 0,
            MapperKind::M009(_) => false,
        }
    }

    /// PRG bytes the mapper may address.
    pub open spec fn prg_cap(&self) -> int {
        match self {
            MapperKind::M000(m) => m.num_banks_prg * 0x4000,
            MapperKind::M001(m) => m.num_banks_prg * 0x4000,
            MapperKind::M002(m) => m.num_banks_prg * 0x4000,
            MapperKind::M003(m) => m.num_banks_prg * 0x4000,
            MapperKind::M004(m) => m.num_banks_prg * 0x4000,
            MapperKind::M007(m) => m.num_banks_prg * 0x4000,
            MapperKind::M009(m) => m.num_banks_prg_8k * 0x2000,
        }
    }

    /// CHR bytes the mapper may address: a bankless image is 8 KiB of
    /// RAM.
    pub open spec fn chr_cap(&self) -> int {
        let n = match self {
            MapperKind::M000(m) => m.num_banks_chr,
            MapperKind::M001(m) => m.num_banks_chr,
            MapperKind::M002(m) => m.num_banks_chr,
            MapperKind::M003(m) => m.num_banks_chr,
            MapperKind::M004(m) => m.num_banks_chr,
            MapperKind::M007(m) => m.num_banks_chr,
            MapperKind::M009(m) => m.num_banks_chr,
        };
        if n >= 1 {
            n * 0x2000
        } else {
            0x2000
        }
    }
}

/// The trainer gap between header and PRG, from the trainer flag.
pub open spec fn ines_trainer(b: Seq<u8>) -> int {
    if b[6] & 0x04 != 0 {
        512
    } else {
        0
    }
}

/// The mapper id packed into the two flag bytes.
pub open spec fn ines_mapper_id(b: Seq<u8>) -> u8 {
    ((b[7] >> 4) << 4) | (b[6] >> 4)
}

/// PRG size in bytes: 16 KiB units.
pub open spec fn ines_prg_len(b: Seq<u8>) -> int {
    b[4] * 0x4000
}

/// CHR size in bytes: 8 KiB units.
pub open spec fn ines_chr_len(b: Seq<u8>) -> int {
    b[5] * 0x2000
}

/// Whether an iNES image is well formed: the magic, at least one PRG
/// bank, a supported mapper (with the two-bank floor where the
/// mapper fixes several banks), and both memory segments present.
pub open spec fn ines_ok(b: Seq<u8>) -> bool {
    &&& b.len() >= 16
    &&& b[0] == 0x4e && b[1] == 0x45 && b[2] == 0x53 && b[3] == 0x1a
    &&& b[4] != 0
    &&& {
        let id = ines_mapper_id(b);
        ||| id == 0 || id == 1 || id == 2 || id == 3 || id == 4
        ||| ((id == 7 || id == 9) && b[4] >= 2)
    }
    &&& 16 + ines_trainer(b) + ines_prg_len(b) + (if b[5] == 0 {
        0int
    } else {
        ines_chr_len(b)
    }) <= b.len()
}

/// The mapper a loaded image carries: the right variant, fresh out of
/// construction for the header's bank counts.
pub open spec fn spec_mapper_for(m: &MapperKind, id: u8, npb: int, ncb: int) -> bool {
    match m {
        MapperKind::M000(m) => id == 0 && m.num_banks_prg == npb && m.num_banks_chr == ncb,
        MapperKind::M001(m) => id == 1 && m.num_banks_prg == npb && m.num_banks_chr == ncb
            && m.control_reg == 0x1c && m.load_reg == 0x10,
        MapperKind::M002(m) => id == 2 && m.num_banks_prg == npb && m.num_banks_chr == ncb,
        MapperKind::M003(m) => id == 3 && m.num_banks_prg == npb && m.num_banks_chr == ncb,
        MapperKind::M004(m) => id == 4 && m.num_banks_prg == npb && m.num_banks_chr == ncb,
        MapperKind::M007(m) => id == 7 && m.num_banks_prg == npb && m.num_banks_chr == ncb,
        MapperKind::M009(m) => id == 9 && m.num_banks_prg_8k == npb * 2 && m.num_banks_chr == ncb,
    }
}

/// A cartridge: its memories, its identity digest, the header's
/// mirroring hint, and the mapper the accesses go through.
pub struct Cartridge {
    pub sha1_digest: String,
    pub mem_prg: Vec<u8>,
    pub mem_chr: Vec<u8>,
    pub hw_mirror: Mirror,
    pub mapper: MapperKind,
}

impl Cartridge {
    /// What a CPU read returns through the mapper: mapped offsets
    /// index PRG memory, register space answers directly, everything
    /// else is declined.
    pub open spec fn spec_cpu_read_value(&self, addr: u16) -> Option<u8> {
        match self.mapper.spec_cpu_translate(addr) {
            MapResult::MapAddr(o) => Some(self.mem_prg@[o as int]),
            MapResult::DirectRead(v) => Some(v),
            MapResult::DirectWrite => None,
            MapResult::Decline => None,
        }
    }

    /// What a PPU read returns through the mapper.
    pub open spec fn spec_ppu_read_value(&self, addr: u16) -> Option<u8> {
        match self.mapper.spec_ppu_translate(addr) {
            MapResult::MapAddr(o) => Some(self.mem_chr@[o as int]),
            MapResult::DirectRead(v) => Some(v),
            MapResult::DirectWrite => None,
            MapResult::Decline => None,
        }
    }

    pub open spec fn inv(&self) -> bool {
        &&& self.mapper.inv()
        &&& self.mem_prg@.len() == self.mapper.prg_cap()
        &&& self.mem_chr@.len() == self.mapper.chr_cap()
        &&& (self.hw_mirror == Mirror::Vertical || self.hw_mirror == Mirror::Horizontal)
    }

    /// Build a cartridge from an iNES image.  The header is checked,
    /// an optional 512-byte trainer is skipped, PRG and CHR follow,
    /// and the content digest identifies the image.
    #[verifier::rlimit(100)]
    pub fn from_bytes(bytes: &Vec<u8>) -> (r: Result<Cartridge, CartridgeError>)
        ensures
            r is Ok <==> ines_ok(bytes@),
            bytes@.len() < 16 ==> r == Result::<Cartridge, CartridgeError>::Err(
                CartridgeError::TooShort,
            ),
            r matches Result::Ok(c) ==> {
                &&& c.inv()
                &&& c.sha1_digest@ == sha1_hex_of(bytes@.skip(16))
                &&& c.hw_mirror == (if bytes@[6] & 0x01 != 0 {
                    Mirror::Vertical
                } else {
                    Mirror::Horizontal
                })
                &&& c.mem_prg@ == bytes@.subrange(
                    16 + ines_trainer(bytes@),
                    16 + ines_trainer(bytes@) + ines_prg_len(bytes@),
                )
                &&& (bytes@[5] != 0 ==> c.mem_chr@ == bytes@.subrange(
                    16 + ines_trainer(bytes@) + ines_prg_len(bytes@),
                    16 + ines_trainer(bytes@) + ines_prg_len(bytes@) + ines_chr_len(bytes@),
                ))
                &&& (bytes@[5] == 0 ==> c.mem_chr@.len() == 8192 && forall|i: int|
                    0 <= i < 8192 ==> c.mem_chr@[i] == 0)
                &&& spec_mapper_for(
                    &c.mapper,
                    ines_mapper_id(bytes@),
                    bytes@[4] as int,
                    bytes@[5] as int,
                )
            },
    {
        let header = match CartridgeHeader::load(bytes) {
            Ok(h) => h,
            Err(e) => {
                return Err(e);
            },
        };

        // identity: digest of everything after the header
        let mut data: Vec<u8> = Vec::new();
        let mut i: usize = 16;
        while i < bytes.len()
            invariant
                16 <= i <= bytes@.len(),
                bytes@.len() >= 16,
                data@ == bytes@.subrange(16, i as int),
            decreases bytes@.len() - i,
        {
            let b = bytes[i];
            data.push(b);
            proof {
                assert(data@ =~= bytes@.subrange(16, i + 1));
            }
            i += 1;
        }
        proof {
            assert(data@ =~= bytes@.skip(16));
        }
        let sha1_digest = sha1_hex(&data);

        // a trainer, when present, sits between header and PRG
        let trainer: usize = if header.mapper1 & 0x04 != 0 {
            512
        } else {
            0
        };

        let mapper_id = ((header.mapper2 >> 4) << 4) | (header.mapper1 >> 4);
        let hw_mirror = if header.mapper1 & 0x01 != 0 {
            Mirror::Vertical
        } else {
            Mirror::Horizontal
        };

        let num_banks_prg = header.prg_rom_chunks as usize;
        let num_banks_chr = header.chr_rom_chunks as usize;
        if num_banks_prg == 0 {
            return Err(CartridgeError::BadBankCount);
        }

        let prg_len: usize = num_banks_prg * 0x4000;
        let chr_len: usize = num_banks_chr * 0x2000;

        let prg_start: usize = trainer;
        if data.len() < prg_start {
            return Err(CartridgeError::TooShort);
        }
        if data.len() - prg_start < prg_len {
            return Err(CartridgeError::TooShort);
        }
        let chr_start: usize = prg_start + prg_len;
        if num_banks_chr > 0 && data.len() - chr_start < chr_len {
            return Err(CartridgeError::TooShort);
        }

        let mapper: MapperKind = if mapper_id == 0 {
            MapperKind::M000(Mapper000::new(num_banks_prg, num_banks_chr))
        } else if mapper_id == 1 {
            MapperKind::M001(Mapper001::new(num_banks_prg, num_banks_chr))
        } else if mapper_id == 2 {
            MapperKind::M002(Mapper002::new(num_banks_prg, num_banks_chr))
        } else if mapper_id == 3 {
            MapperKind::M003(Mapper003::new(num_banks_prg, num_banks_chr))
        } else if mapper_id == 4 {
            MapperKind::M004(Mapper004::new(num_banks_prg, num_banks_chr))
        } else if mapper_id == 7 {
            if num_banks_prg < 2 {
                return Err(CartridgeError::BadBankCount);
            }
            MapperKind::M007(Mapper007::new(num_banks_prg, num_banks_chr))
        } else if mapper_id == 9 {
            if num_banks_prg < 2 {
                return Err(CartridgeError::BadBankCount);
            }
            MapperKind::M009(Mapper009::new(num_banks_prg, num_banks_chr))
        } else {
            return Err(CartridgeError::UnsupportedMapper(mapper_id));
        };

        let mut mem_prg: Vec<u8> = Vec::new();
        let mut i: usize = 0;
        while i < prg_len
            invariant
                i <= prg_len,
                mem_prg@.len() == i,
                prg_start + prg_len <= data@.len(),
                data@.len() <= usize::MAX,
                mem_prg@ == data@.subrange(prg_start as int, prg_start + i),
            decreases prg_len - i,
        {
            let b = data[prg_start + i];
            mem_prg.push(b);
            proof {
                assert(mem_prg@ =~= data@.subrange(prg_start as int, prg_start + i + 1));
            }
            i += 1;
        }

        let mut mem_chr: Vec<u8> = Vec::new();
        if num_banks_chr == 0 {
            // no CHR banks: the region is 8 KiB of RAM
            mem_chr = vec![0u8; 8192];
        } else {
            let mut i: usize = 0;
            while i < chr_len
                invariant
                    i <= chr_len,
                    mem_chr@.len() == i,
                    chr_start + chr_len <= data@.len(),
                    data@.len() <= usize::MAX,
                    mem_chr@ == data@.subrange(chr_start as int, chr_start + i),
                decreases chr_len - i,
            {
                let b = data[chr_start + i];
                mem_chr.push(b);
                proof {
                    assert(mem_chr@ =~= data@.subrange(chr_start as int, chr_start + i + 1));
                }
                i += 1;
            }
        }

        proof {
            assert(mem_prg@ =~= bytes@.subrange(
                16 + ines_trainer(bytes@),
                16 + ines_trainer(bytes@) + ines_prg_len(bytes@),
            ));
            if header.chr_rom_chunks != 0 {
                assert(mem_chr@ =~= bytes@.subrange(
                    16 + ines_trainer(bytes@) + ines_prg_len(bytes@),
                    16 + ines_trainer(bytes@) + ines_prg_len(bytes@) + ines_chr_len(bytes@),
                ));
            }
        }
        Ok(Cartridge { sha1_digest, mem_prg, mem_chr, hw_mirror, mapper })
    }

    /// A CPU read through the mapper: mapped offsets index PRG
    /// memory, register space answers directly, anything below the
    /// cartridge window is declined.
    pub fn cpu_read(&mut self, addr: u16) -> (r: Option<u8>)
        requires
            old(self).inv(),
        ensures
            final(self).inv(),
            *final(self) == *old(self),
            r == old(self).spec_cpu_read_value(addr),
            addr < 0x6000 ==> r is None,
    {
        let res = match &mut self.mapper {
            MapperKind::M000(m) => m.cpu_map_read(addr),
            MapperKind::M001(m) => m.cpu_map_read(addr),
            MapperKind::M002(m) => m.cpu_map_read(addr),
            MapperKind::M003(m) => m.cpu_map_read(addr),
            MapperKind::M004(m) => m.cpu_map_read(addr),
            MapperKind::M007(m) => m.cpu_map_read(addr),
            MapperKind::M009(m) => m.cpu_map_read(addr),
        };
        match res {
            MapResult::MapAddr(mapped_addr) => Some(self.mem_prg[mapped_addr]),
            MapResult::DirectRead(v) => Some(v),
            _ => None,
        }
    }

    /// The read-only twin of `cpu_read`, for inspection.
    pub fn cpu_read_ro(&self, addr: u16) -> (r: Option<u8>)
        requires
            self.inv(),
        ensures
            r == self.spec_cpu_read_value(addr),
            addr < 0x6000 ==> r is None,
    {
        let res = match &self.mapper {
            MapperKind::M000(m) => m.cpu_map_read_ro(addr),
            MapperKind::M001(m) => m.cpu_map_read_ro(addr),
            MapperKind::M002(m) => m.cpu_map_read_ro(addr),
            MapperKind::M003(m) => m.cpu_map_read_ro(addr),
            MapperKind::M004(m) => m.cpu_map_read_ro(addr),
            MapperKind::M007(m) => m.cpu_map_read_ro(addr),
            MapperKind::M009(m) => m.cpu_map_read_ro(addr),
        };
        match res {
            MapResult::MapAddr(mapped_addr) => Some(self.mem_prg[mapped_addr]),
            MapResult::DirectRead(v) => Some(v),
            _ => None,
        }
    }

    /// A CPU write through the mapper: true when the cartridge
    /// consumed it (into PRG memory, battery RAM or a mapper
    /// register).
    pub fn cpu_write(&mut self, addr: u16, data: u8) -> (r: bool)
        requires
            old(self).inv(),
        ensures
            final(self).inv(),
            r == old(self).mapper.spec_cpu_write_consumed(addr),
            addr < 0x6000 ==> r == false && *final(self) == *old(self),
            final(self).mem_chr@ == old(self).mem_chr@,
            final(self).hw_mirror == old(self).hw_mirror,
            final(self).mem_prg@.len() == old(self).mem_prg@.len(),
            old(self).mapper matches MapperKind::M000(m) ==> (addr >= 0x8000 ==> final(self).mem_prg@
                == old(self).mem_prg@.update(
                crate::mapper::mapper000::m0_prg_offset(m.num_banks_prg, addr) as int,
                data,
            )) && (addr < 0x8000 ==> final(self).mem_prg@ == old(self).mem_prg@),
            !(old(self).mapper is M000) ==> final(self).mem_prg@ == old(self).mem_prg@,
    {
        let res = match &mut self.mapper {
            MapperKind::M000(m) => m.cpu_map_write(addr, data),
            MapperKind::M001(m) => m.cpu_map_write(addr, data),
            MapperKind::M002(m) => m.cpu_map_write(addr, data),
            MapperKind::M003(m) => m.cpu_map_write(addr, data),
            MapperKind::M004(m) => m.cpu_map_write(addr, data),
            MapperKind::M007(m) => m.cpu_map_write(addr, data),
            MapperKind::M009(m) => m.cpu_map_write(addr, data),
        };
        match res {
            MapResult::MapAddr(mapped_addr) => {
                if mapped_addr < self.mem_prg.len() {
                    self.mem_prg[mapped_addr] = data;
                }
                true
            },
            MapResult::DirectWrite => true,
            _ => false,
        }
    }

    /// A PPU read through the mapper: mapped offsets index CHR
    /// memory; the nametable space above 0x1fff is declined.
    pub fn ppu_read(&mut self, addr: u16) -> (r: Option<u8>)
        requires
            old(self).inv(),
        ensures
            final(self).inv(),
            r == old(self).spec_ppu_read_value(addr),
            final(self).mapper == old(self).mapper.spec_ppu_read_post(addr),
            addr >= 0x2000 ==> r is None && *final(self) == *old(self),
            final(self).mem_prg@ == old(self).mem_prg@,
            final(self).mem_chr@ == old(self).mem_chr@,
            final(self).hw_mirror == old(self).hw_mirror,
    {
        let res = match &mut self.mapper {
            MapperKind::M000(m) => m.ppu_map_read(addr),
            MapperKind::M001(m) => m.ppu_map_read(addr),
            MapperKind::M002(m) => m.ppu_map_read(addr),
            MapperKind::M003(m) => m.ppu_map_read(addr),
            MapperKind::M004(m) => m.ppu_map_read(addr),
            MapperKind::M007(m) => m.ppu_map_read(addr),
            MapperKind::M009(m) => m.ppu_map_read(addr),
        };
        match res {
            MapResult::MapAddr(mapped_addr) => Some(self.mem_chr[mapped_addr]),
            MapResult::DirectRead(v) => Some(v),
            _ => None,
        }
    }

    /// A PPU write through the mapper: true when it landed in CHR
    /// RAM.
    pub fn ppu_write(&mut self, addr: u16, data: u8) -> (r: bool)
        requires
            old(self).inv(),
        ensures
            final(self).inv(),
            r == old(self).mapper.spec_chr_writable(addr),
            final(self).mapper == old(self).mapper,
            addr >= 0x2000 ==> r == false,
            final(self).mem_prg@ == old(self).mem_prg@,
            final(self).hw_mirror == old(self).hw_mirror,
            old(self).mapper.spec_chr_writable(addr) ==> final(self).mem_chr@ == old(self).mem_chr@.update(addr as int, data),
            !old(self).mapper.spec_chr_writable(addr) ==> final(self).mem_chr@ == old(self).mem_chr@,
    {
        let res = match &mut self.mapper {
            MapperKind::M000(m) => m.ppu_map_write(addr, data),
            MapperKind::M001(m) => m.ppu_map_write(addr, data),
            MapperKind::M002(m) => m.ppu_map_write(addr, data),
            MapperKind::M003(m) => m.ppu_map_write(addr, data),
            MapperKind::M004(m) => m.ppu_map_write(addr, data),
            MapperKind::M007(m) => m.ppu_map_write(addr, data),
            MapperKind::M009(m) => m.ppu_map_write(addr, data),
        };
        match res {
            MapResult::MapAddr(mapped_addr) => {
                if mapped_addr < self.mem_chr.len() {
                    self.mem_chr[mapped_addr] = data;
                }
                true
            },
            MapResult::DirectWrite => true,
            _ => false,
        }
    }

    /// The mirroring policy the mapper dictates now, with the
    /// hardware hint as the fallback.
    pub open spec fn spec_mirror(&self) -> Mirror {
        let m = match self.mapper {
            MapperKind::M000(_) => Mirror::Hardware,
            MapperKind::M001(m) => m.mirror_mode,
            MapperKind::M002(_) => Mirror::Hardware,
            MapperKind::M003(_) => Mirror::Hardware,
            MapperKind::M004(m) => m.mirror_mode,
            MapperKind::M007(m) => m.mirror_mode,
            MapperKind::M009(m) => m.mirror_mode,
        };
        if m == Mirror::Hardware {
            self.hw_mirror
        } else {
            m
        }
    }

    pub fn mirror(&self) -> (r: Mirror)
        ensures
            r == self.spec_mirror(),
            r != Mirror::Hardware || self.hw_mirror == Mirror::Hardware,
    {
        let m = match &self.mapper {
            MapperKind::M000(m) => m.mirror(),
            MapperKind::M001(m) => m.mirror(),
            MapperKind::M002(m) => m.mirror(),
            MapperKind::M003(m) => m.mirror(),
            MapperKind::M004(m) => m.mirror(),
            MapperKind::M007(m) => m.mirror(),
            MapperKind::M009(m) => m.mirror(),
        };
        if m == Mirror::Hardware {
            self.hw_mirror
        } else {
            m
        }
    }

    /// The PPU's end-of-scanline notification, which drives the MMC3
    /// IRQ counter.
    pub fn on_scanline_end(&mut self)
        requires
            old(self).inv(),
        ensures
            final(self).inv(),
            final(self).mem_prg@ == old(self).mem_prg@,
            final(self).mem_chr@ == old(self).mem_chr@,
            !(old(self).mapper is M004) ==> *final(self) == *old(self),
            old(self).mapper matches MapperKind::M004(m) ==> final(self).mapper
                == MapperKind::M004(spec_m4_scanline(m)) && *final(self) == (Cartridge {
                mapper: final(self).mapper,
                ..*old(self)
            }),
            (old(self).mapper matches MapperKind::M004(m) && m.irq_counter == 1 && m.irq_enable)
                ==> final(self).irq_state_spec(),
    {
        match &mut self.mapper {
            MapperKind::M004(m) => m.on_scanline_end(),
            _ => {},
        }
    }

    /// Whether the mapper is asserting the IRQ line.
    pub open spec fn irq_state_spec(&self) -> bool {
        match self.mapper {
            MapperKind::M004(m) => m.irq_active,
            _ => false,
        }
    }

    pub fn irq_state(&self) -> (r: bool)
        ensures
            r == self.irq_state_spec(),
    {
        match &self.mapper {
            MapperKind::M004(m) => m.irq_state(),
            _ => false,
        }
    }

    pub fn irq_clear(&mut self)
        requires
            old(self).inv(),
        ensures
            final(self).inv(),
            !final(self).irq_state_spec(),
            final(self).mem_prg@ == old(self).mem_prg@,
            final(self).mem_chr@ == old(self).mem_chr@,
    {
        match &mut self.mapper {
            MapperKind::M004(m) => m.irq_clear(),
            _ => {},
        }
    }

    /// Runtime check of the cartridge invariant, for callers that
    /// rebuild a cartridge from untrusted data.
    pub(crate) fn inv_exec(&self) -> (r: bool)
        ensures
            r == self.inv(),
    {
        let mapper_ok: bool = match &self.mapper {
            MapperKind::M000(m) => m.inv_exec(),
            MapperKind::M001(m) => m.inv_exec(),
            MapperKind::M002(m) => m.inv_exec(),
            MapperKind::M003(m) => m.inv_exec(),
            MapperKind::M004(m) => m.inv_exec(),
            MapperKind::M007(m) => m.inv_exec(),
            MapperKind::M009(m) => m.inv_exec(),
        };
        if !mapper_ok {
            return false;
        }
        let prg_cap: usize = match &self.mapper {
            MapperKind::M000(m) => m.num_banks_prg * 0x4000,
            MapperKind::M001(m) => m.num_banks_prg * 0x4000,
            MapperKind::M002(m) => m.num_banks_prg * 0x4000,
            MapperKind::M003(m) => m.num_banks_prg * 0x4000,
            MapperKind::M004(m) => m.num_banks_prg * 0x4000,
            MapperKind::M007(m) => m.num_banks_prg * 0x4000,
            MapperKind::M009(m) => m.num_banks_prg_8k * 0x2000,
        };
        let ncb: usize = match &self.mapper {
            MapperKind::M000(m) => m.num_banks_chr,
            MapperKind::M001(m) => m.num_banks_chr,
            MapperKind::M002(m) => m.num_banks_chr,
            MapperKind::M003(m) => m.num_banks_chr,
            MapperKind::M004(m) => m.num_banks_chr,
            MapperKind::M007(m) => m.num_banks_chr,
            MapperKind::M009(m) => m.num_banks_chr,
        };
        let chr_cap: usize = if ncb >= 1 {
            ncb * 0x2000
        } else {
            0x2000
        };
        self.mem_prg.len() == prg_cap && self.mem_chr.len() == chr_cap && (matches!(
            self.hw_mirror,
            Mirror::Vertical,
        ) || matches!(self.hw_mirror, Mirror::Horizontal))
    }

    /// Reset the mapper to its power-on state.
    pub fn reset(&mut self)
        requires
            old(self).inv(),
        ensures
            final(self).inv(),
            final(self).mem_prg@ == old(self).mem_prg@,
            final(self).mem_chr@ == old(self).mem_chr@,
            final(self).hw_mirror == old(self).hw_mirror,
    {
        match &mut self.mapper {
            MapperKind::M000(m) => m.reset(),
            MapperKind::M001(m) => m.reset(),
            MapperKind::M002(m) => m.reset(),
            MapperKind::M003(m) => m.reset(),
            MapperKind::M004(m) => m.reset(),
            MapperKind::M007(m) => m.reset(),
            MapperKind::M009(m) => {},
        }
    }
}

} // verus!
