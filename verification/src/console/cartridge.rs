pub mod mappers;

use vstd::prelude::*;
use crate::console::cartridge::mappers::{
    Mapper, Mapper000, Mapper000View, Mapper001, Mapper001View, MapperError, Mirroring, chunks,
    copy_range,
};

verus! {

/// The mappers this cartridge implementation supports.
pub enum CartMapper {
    Nrom(Mapper000),
    Mmc1(Mapper001),
}

/// Abstract contents of a cartridge.
pub enum CartridgeView {
    Nrom(Mapper000View),
    Mmc1(Mapper001View),
}

impl View for CartMapper {
    type V = CartridgeView;

    open spec fn view(&self) -> CartridgeView {
        match self {
            CartMapper::Nrom(m) => CartridgeView::Nrom(m@),
            CartMapper::Mmc1(m) => CartridgeView::Mmc1(m@),
        }
    }
}

impl CartridgeView {
    pub open spec fn wf(self) -> bool {
        match self {
            CartridgeView::Nrom(m) => m.wf(),
            CartridgeView::Mmc1(m) => m.wf(),
        }
    }

    pub open spec fn cpu_readable(self, addr: u16) -> bool {
        match self {
            CartridgeView::Nrom(m) => m.cpu_readable(addr),
            CartridgeView::Mmc1(m) => m.cpu_readable(addr),
        }
    }

    pub open spec fn cpu_value(self, addr: u16) -> u8 {
        match self {
            CartridgeView::Nrom(m) => m.cpu_value(addr),
            CartridgeView::Mmc1(m) => m.cpu_value(addr),
        }
    }

    pub open spec fn cpu_writable(self, addr: u16) -> bool {
        match self {
            CartridgeView::Nrom(m) => true,
            CartridgeView::Mmc1(m) => addr >= 0x6000,
        }
    }

    pub open spec fn after_cpu_write(self, addr: u16, data: u8) -> CartridgeView {
        match self {
            CartridgeView::Nrom(m) => CartridgeView::Nrom(m.after_cpu_write(addr, data)),
            CartridgeView::Mmc1(m) => CartridgeView::Mmc1(m.after_cpu_write(addr, data)),
        }
    }

    pub open spec fn ppu_accessible(self, addr: u16) -> bool {
        match self {
            CartridgeView::Nrom(m) => m.ppu_accessible(addr),
            CartridgeView::Mmc1(m) => m.ppu_accessible(addr),
        }
    }

    pub open spec fn ppu_value(self, addr: u16) -> u8 {
        match self {
            CartridgeView::Nrom(m) => m.ppu_value(addr),
            CartridgeView::Mmc1(m) => m.ppu_value(addr),
        }
    }

    pub open spec fn after_ppu_write(self, addr: u16, data: u8) -> CartridgeView {
        match self {
            CartridgeView::Nrom(m) => CartridgeView::Nrom(m.after_ppu_write(addr, data)),
            CartridgeView::Mmc1(m) => CartridgeView::Mmc1(m.after_ppu_write(addr, data)),
        }
    }

    /// Every CPU address from 0x8000 up is served by program ROM.
    pub open spec fn prg_complete(self) -> bool {
        match self {
            CartridgeView::Nrom(m) => m.prg_rom.len() > 0,
            CartridgeView::Mmc1(m) => m.prg_banks.len() > 0 && forall|i: int|
                0 <= i < m.prg_banks.len() ==> #[trigger] m.prg_banks[i].len() == 0x4000,
        }
    }

    /// Every pattern address below 0x2000 is served.
    pub open spec fn chr_complete(self) -> bool {
        match self {
            CartridgeView::Nrom(m) => if m.chr_ram.len() > 0 {
                m.chr_ram.len() >= 0x2000
            } else {
                m.chr_rom.len() >= 0x2000
            },
            CartridgeView::Mmc1(m) => forall|i: int|
                0 <= i < m.chr_banks.len() ==> #[trigger] m.chr_banks[i].len() == 0x2000,
        }
    }

    /// The cartridge can serve every access the picture processor makes: the whole
    /// pattern table and the nametable arrangement.
    pub open spec fn ppu_ready(self) -> bool {
        &&& self.wf()
        &&& self.chr_complete()
        &&& self.mirror_supported()
    }

    /// The cartridge can serve every access the console makes while running.
    pub open spec fn playable(self) -> bool {
        &&& self.wf()
        &&& self.prg_complete()
        &&& self.chr_complete()
        &&& self.mirror_supported()
    }

    /// CPU and PPU writes keep a playable cartridge playable.
    pub proof fn lemma_writes_keep_playable(self, addr: u16, data: u8)
        requires
            self.playable(),
        ensures
            self.cpu_writable(addr) ==> self.after_cpu_write(addr, data).playable(),
            addr < 0x2000 ==> self.after_ppu_write(addr, data).playable(),
    {
        match self {
            CartridgeView::Nrom(m) => {
                let n = m.after_cpu_write(addr, data);
                assert(n.prg_ram.len() == 0x2000);
                assert(n.prg_rom == m.prg_rom);
                assert(self.after_cpu_write(addr, data) == CartridgeView::Nrom(n));
                assert(n.wf());
                assert(CartridgeView::Nrom(n).wf());
                assert(CartridgeView::Nrom(n).prg_complete());
                assert(CartridgeView::Nrom(n).chr_complete());
                assert(CartridgeView::Nrom(n).mirror_supported());
            },
            CartridgeView::Mmc1(m) => {
                if self.cpu_writable(addr) {
                    let n = m.after_cpu_write(addr, data);
                    assert(n.prg_banks == m.prg_banks);
                    assert(n.chr_banks == m.chr_banks);
                    assert forall|i: int| 0 <= i < 4 implies #[trigger] n.prg_ram_banks[i].len() == 0x2000 by {
                        if 0x6000 <= addr <= 0x7FFF {
                            if i == m.prg_ram_bank {
                            }
                        }
                    }
                    lemma_mmc1_buffer_bounds(m, data);
                    mappers::lemma_usize_masks();
                    assert(n.wf());
                    assert(n.mirroring != Mirroring::FourScreen);
                }
                if addr < 0x2000 {
                    let n = m.after_ppu_write(addr, data);
                    let b = m.chr_bank_for(addr);
                    assert forall|i: int| 0 <= i < n.chr_banks.len() implies #[trigger] n.chr_banks[i].len() == 0x2000 by {
                        if i == b {
                        }
                    }
                }
            },
        }
    }

    pub proof fn lemma_chr_complete_accessible(self, addr: u16)
        requires
            self.wf(),
            self.chr_complete(),
            addr < 0x2000,
        ensures
            self.ppu_accessible(addr),
    {
        match self {
            CartridgeView::Nrom(m) => {},
            CartridgeView::Mmc1(m) => {
                let b = m.chr_bank_for(addr);
                assert(0 <= b < m.chr_banks.len());
                assert(m.chr_banks[b].len() == 0x2000);
            },
        }
    }

    pub proof fn lemma_prg_complete_readable(self, addr: u16)
        requires
            self.wf(),
            self.prg_complete(),
            addr >= 0x8000,
        ensures
            self.cpu_readable(addr),
    {
        match self {
            CartridgeView::Nrom(m) => {},
            CartridgeView::Mmc1(m) => {
                let b = m.prg_bank_for(addr);
                assert(0 <= b < m.prg_banks.len());
                assert(m.prg_banks[b].len() == 0x4000);
            },
        }
    }

    pub open spec fn mirror_supported(self) -> bool {
        match self {
            CartridgeView::Nrom(m) => m.mirror_supported(),
            CartridgeView::Mmc1(m) => m.mirror_supported(),
        }
    }

    pub open spec fn vram_index(self, addr: u16) -> usize {
        match self {
            CartridgeView::Nrom(m) => m.vram_index(addr),
            CartridgeView::Mmc1(m) => m.vram_index(addr),
        }
    }
}

/// Builds the mapper with the given iNES number.
pub fn get_mapper(
    mapper: u8,
    prg_rom: Vec<u8>,
    chr_rom: Vec<u8>,
    chr_ram_size: usize,
    mirroring: Mirroring,
) -> (r: Result<CartMapper, MapperError>)
    requires
        prg_rom@.len() <= 0x7FFF_0000,
        chr_rom@.len() <= 0x7FFF_0000,
    ensures
        mapper > 1 <==> r == Err::<CartMapper, MapperError>(MapperError::Unsupported(mapper)),
        mapper == 0 ==> (r matches Ok(CartMapper::Nrom(m)) && m@ == (Mapper000View {
            prg_rom: prg_rom@,
            chr_rom: chr_rom@,
            prg_ram: Seq::new(0x2000, |i: int| 0u8),
            chr_ram: Seq::new(chr_ram_size as nat, |i: int| 0u8),
            mirroring,
        })),
        mapper == 1 ==> (r matches Ok(CartMapper::Mmc1(m)) && mmc1_initial(m@, prg_rom@, chr_rom@,
            mirroring)),
{
    if mapper == 0 {
        Ok(CartMapper::Nrom(Mapper000::new(prg_rom, chr_rom, chr_ram_size, mirroring)))
    } else if mapper == 1 {
        Ok(CartMapper::Mmc1(Mapper001::new(prg_rom.as_slice(), chr_rom.as_slice(), chr_ram_size, mirroring)))
    } else {
        Err(MapperError::Unsupported(mapper))
    }
}

/// The power-on state of MMC1 built from the given ROM images.
pub open spec fn mmc1_initial(m: Mapper001View, prg_rom: Seq<u8>, chr_rom: Seq<u8>, mirroring: Mirroring) -> bool {
    &&& m.wf()
    &&& m.prg_banks == chunks(prg_rom, 0x4000)
    &&& m.chr_banks == (if chr_rom.len() == 0 {
        Seq::new(16, |i: int| Seq::new(0x2000, |j: int| 0u8))
    } else {
        chunks(chr_rom, 0x2000)
    })
    &&& m.prg_ram_banks == Seq::new(4, |i: int| Seq::new(0x2000, |j: int| 0u8))
    &&& m.mirroring == mirroring
    &&& m.buffer == 0
    &&& m.bit_idx == 0
    &&& m.prg_bank0 == 0
    &&& m.prg_bank1 == 1
    &&& m.prg_ram_bank == 0
    &&& m.chr_bank0 == 0
    &&& m.chr_bank1 == 1
    &&& !m.chr_independent_banks
    &&& m.prg_mode == mappers::Mapper001PrgMode::FixLast
}

/// The serial buffer stays within five bits and the bank registers within range.
proof fn lemma_mmc1_buffer_bounds(m: Mapper001View, data: u8)
    requires
        m.wf(),
    ensures
        (m.buffer | (((data as usize) & 0x01) << m.bit_idx)) < 32,
{
    let b = m.buffer;
    let i = m.bit_idx;
    assert(b < 32 && i < 5 ==> (b | (((data as usize) & 0x01) << i)) < 32) by (bit_vector);
}

/// Why a ROM image could not be loaded.
#[derive(Clone, Copy, PartialEq, Eq, Structural, Debug)]
pub enum CartridgeError {
    /// The image does not start with the iNES tag.
    NotINes,
    /// The header is in NES 2.0 format.
    Nes2Unsupported,
    /// The header names a mapper that is not implemented.
    UnsupportedMapper(u8),
}

pub const INES_TAG: [u8; 4] = [0x4E, 0x45, 0x53, 0x1A];

pub const PRG_ROM_BANK_SIZE: usize = 0x4000;

pub const CHR_ROM_BANK_SIZE: usize = 0x2000;

pub const CHR_RAM_BANK_SIZE: usize = 0x2000;

pub open spec fn has_ines_tag(rom: Seq<u8>) -> bool {
    rom.len() >= 4 && rom[0] == 0x4E && rom[1] == 0x45 && rom[2] == 0x53 && rom[3] == 0x1A
}

pub open spec fn ines_version(rom: Seq<u8>) -> u8 {
    (rom[7] >> 2) & 0x3
}

pub open spec fn ines_mapper(rom: Seq<u8>) -> u8 {
    (rom[7] & 0xF0) | (rom[6] >> 4)
}

pub open spec fn ines_mirroring(rom: Seq<u8>) -> Mirroring {
    if rom[6] & 0x8 != 0 {
        Mirroring::FourScreen
    } else if rom[6] & 0x1 != 0 {
        Mirroring::Vertical
    } else {
        Mirroring::Horizontal
    }
}

pub open spec fn ines_prg_size(rom: Seq<u8>) -> int {
    rom[4] as int * 0x4000
}

pub open spec fn ines_chr_size(rom: Seq<u8>) -> int {
    rom[5] as int * 0x2000
}

/// Program ROM starts after the 16-byte header and the optional 512-byte trainer.
pub open spec fn ines_prg_start(rom: Seq<u8>) -> int {
    16 + if rom[6] & 0x4 != 0 { 512int } else { 0int }
}

pub open spec fn ines_prg(rom: Seq<u8>) -> Seq<u8> {
    rom.subrange(ines_prg_start(rom), ines_prg_start(rom) + ines_prg_size(rom))
}

pub open spec fn ines_chr(rom: Seq<u8>) -> Seq<u8> {
    let s = ines_prg_start(rom) + ines_prg_size(rom);
    rom.subrange(s, s + ines_chr_size(rom))
}

/// Pattern RAM is provided exactly when the image has no pattern ROM.
pub open spec fn ines_chr_ram_size(rom: Seq<u8>) -> usize {
    if ines_chr_size(rom) == 0 { 0x2000 } else { 0 }
}

/// The image is long enough for every part its header announces.
pub open spec fn ines_complete(rom: Seq<u8>) -> bool {
    &&& rom.len() >= 4
    &&& has_ines_tag(rom) ==> rom.len() >= 8
    &&& (has_ines_tag(rom) && ines_version(rom) == 0) ==> rom.len() >= ines_prg_start(rom)
        + ines_prg_size(rom) + ines_chr_size(rom)
}

/// Checks [`ines_complete`]: whether loading the image reads only bytes it has.
pub fn ines_image_complete(rom: &Vec<u8>) -> (r: bool)
    ensures
        r == ines_complete(rom@),
{
    if rom.len() < 4 {
        return false;
    }
    if !(rom[0] == 0x4E && rom[1] == 0x45 && rom[2] == 0x53 && rom[3] == 0x1A) {
        return true;
    }
    if rom.len() < 8 {
        return false;
    }
    if (rom[7] >> 2) & 0x3 != 0 {
        return true;
    }
    let prg_rom_start: usize = 16 + if rom[6] & 0x4 != 0 { 512 } else { 0 };
    let needed = prg_rom_start + rom[4] as usize * PRG_ROM_BANK_SIZE + rom[5] as usize * CHR_ROM_BANK_SIZE;
    rom.len() >= needed
}

/// Whether `c` is the cartridge an iNES image loads as: a supported header, and the
/// mapper in its power-on state over the image's ROM banks.
pub open spec fn loaded_from(c: CartridgeView, rom: Seq<u8>) -> bool {
    &&& has_ines_tag(rom)
    &&& ines_version(rom) == 0
    &&& ines_mapper(rom) <= 1
    &&& ines_mapper(rom) == 0 ==> c == CartridgeView::Nrom(
        Mapper000View {
            prg_rom: ines_prg(rom),
            chr_rom: ines_chr(rom),
            prg_ram: Seq::new(0x2000, |i: int| 0u8),
            chr_ram: Seq::new(ines_chr_ram_size(rom) as nat, |i: int| 0u8),
            mirroring: ines_mirroring(rom),
        },
    )
    &&& ines_mapper(rom) == 1 ==> (c matches CartridgeView::Mmc1(m) && mmc1_initial(
        m,
        ines_prg(rom),
        ines_chr(rom),
        ines_mirroring(rom),
    ))
}

/// An image loads as at most one cartridge.
pub proof fn lemma_loaded_unique(c1: CartridgeView, c2: CartridgeView, rom: Seq<u8>)
    requires
        loaded_from(c1, rom),
        loaded_from(c2, rom),
    ensures
        c1 == c2,
{
    if ines_mapper(rom) == 1 {
        let m1 = c1->Mmc1_0;
        let m2 = c2->Mmc1_0;
        assert(m1 == m2);
    }
}

pub struct Cartridge {
    pub mapper: CartMapper,
}

impl View for Cartridge {
    type V = CartridgeView;

    open spec fn view(&self) -> CartridgeView {
        self.mapper@
    }
}

impl Cartridge {
    /// Loads an iNES image.
    pub fn new(rom: Vec<u8>) -> (r: Result<Self, CartridgeError>)
        requires
            ines_complete(rom@),
        ensures
            !has_ines_tag(rom@) <==> r == Err::<Cartridge, CartridgeError>(CartridgeError::NotINes),
            has_ines_tag(rom@) && ines_version(rom@) != 0 <==> r == Err::<Cartridge, CartridgeError>(
                CartridgeError::Nes2Unsupported),
            has_ines_tag(rom@) && ines_version(rom@) == 0 && ines_mapper(rom@) > 1 <==> r == Err::<
                Cartridge,
                CartridgeError,
            >(CartridgeError::UnsupportedMapper(ines_mapper(rom@))),
            has_ines_tag(rom@) && ines_version(rom@) == 0 && ines_mapper(rom@) == 0 ==> (r matches Ok(c)
                && c@ == CartridgeView::Nrom(
                Mapper000View {
                    prg_rom: ines_prg(rom@),
                    chr_rom: ines_chr(rom@),
                    prg_ram: Seq::new(0x2000, |i: int| 0u8),
                    chr_ram: Seq::new(ines_chr_ram_size(rom@) as nat, |i: int| 0u8),
                    mirroring: ines_mirroring(rom@),
                },
            )),
            has_ines_tag(rom@) && ines_version(rom@) == 0 && ines_mapper(rom@) == 1 ==> (r matches Ok(c)
                && (c@ matches CartridgeView::Mmc1(m) && mmc1_initial(
                m,
                ines_prg(rom@),
                ines_chr(rom@),
                ines_mirroring(rom@),
            ))),
            r matches Ok(c) ==> c@.wf() && loaded_from(c@, rom@),
    {
        if !(rom[0] == INES_TAG[0] && rom[1] == INES_TAG[1] && rom[2] == INES_TAG[2] && rom[3]
            == INES_TAG[3]) {
            return Err(CartridgeError::NotINes);
        }
        let ines_ver = (rom[7] >> 2) & 0b11;
        if ines_ver != 0 {
            return Err(CartridgeError::Nes2Unsupported);
        }
        let mapper = (rom[7] & 0xF0) | (rom[6] >> 4);
        let four_screen = rom[6] & 0b1000 != 0;
        let vertical_mirroring = rom[6] & 0b1 != 0;
        let mirroring = if four_screen {
            Mirroring::FourScreen
        } else if vertical_mirroring {
            Mirroring::Vertical
        } else {
            Mirroring::Horizontal
        };
        let prg_rom_size = rom[4] as usize * PRG_ROM_BANK_SIZE;
        let chr_rom_size = rom[5] as usize * CHR_ROM_BANK_SIZE;
        let skip_trainer = rom[6] & 0b100 != 0;
        let prg_rom_start: usize = 16 + if skip_trainer { 512 } else { 0 };
        let chr_rom_start = prg_rom_start + prg_rom_size;
        let chr_rom = copy_range(rom.as_slice(), chr_rom_start, chr_rom_size);
        let chr_ram_size: usize = if chr_rom_size == 0 { CHR_RAM_BANK_SIZE } else { 0 };
        let prg_rom = copy_range(rom.as_slice(), prg_rom_start, prg_rom_size);
        match get_mapper(mapper, prg_rom, chr_rom, chr_ram_size, mirroring) {
            Ok(m) => Ok(Cartridge { mapper: m }),
            Err(_) => Err(CartridgeError::UnsupportedMapper(mapper)),
        }
    }

    /// Whether a CPU read of `addr` is served.
    pub fn can_read_cpu(&self, addr: u16) -> (r: bool)
        requires
            self@.wf(),
        ensures
            r == self@.cpu_readable(addr),
    {
        match &self.mapper {
            CartMapper::Nrom(m) => addr < 0x8000 || m.prg_rom.len() > 0,
            CartMapper::Mmc1(m) => {
                if 0x6000 <= addr && addr <= 0x7FFF {
                    true
                } else if addr >= 0x8000 {
                    if m.prg_banks.len() == 0 {
                        false
                    } else {
                        let b = m.prg_bank_index(addr);
                        proof {
                            assert(m@.prg_banks[b as int] == m.prg_banks@[b as int]@);
                        }
                        (addr as usize) % 0x4000 < m.prg_banks[b].len()
                    }
                } else {
                    false
                }
            },
        }
    }

    /// Whether a CPU write of `addr` is served.
    pub fn can_write_cpu(&self, addr: u16) -> (r: bool)
        ensures
            r == self@.cpu_writable(addr),
    {
        match &self.mapper {
            CartMapper::Nrom(m) => true,
            CartMapper::Mmc1(m) => addr >= 0x6000,
        }
    }

    /// Whether the console can run this cartridge: program ROM at every address from
    /// 0x8000, a full pattern table, and a mirroring arrangement the mapper supports.
    pub fn is_playable(&self) -> (r: bool)
        requires
            self@.wf(),
        ensures
            r == self@.playable(),
    {
        match &self.mapper {
            CartMapper::Nrom(m) => {
                let chr_ok = if m.chr_ram.len() > 0 {
                    m.chr_ram.len() >= 0x2000
                } else {
                    m.chr_rom.len() >= 0x2000
                };
                m.prg_rom.len() > 0 && chr_ok && (m.mirroring == Mirroring::Vertical || m.mirroring
                    == Mirroring::Horizontal)
            },
            CartMapper::Mmc1(m) => {
                if m.prg_banks.len() == 0 || m.mirroring == Mirroring::FourScreen {
                    return false;
                }
                let mut i: usize = 0;
                while i < m.prg_banks.len()
                    invariant
                        self@ == CartridgeView::Mmc1(m@),
                        i <= m.prg_banks@.len(),
                        forall|j: int| 0 <= j < i ==> #[trigger] m@.prg_banks[j].len() == 0x4000,
                    decreases m.prg_banks@.len() - i,
                {
                    proof {
                        assert(m@.prg_banks[i as int] == m.prg_banks@[i as int]@);
                    }
                    if m.prg_banks[i].len() != 0x4000 {
                        proof {
                            assert(self@ == CartridgeView::Mmc1(m@));
                            assert(m@.prg_banks[i as int].len() != 0x4000);
                            assert(!self@.prg_complete());
                        }
                        return false;
                    }
                    i += 1;
                }
                let mut k: usize = 0;
                while k < m.chr_banks.len()
                    invariant
                        self@ == CartridgeView::Mmc1(m@),
                        k <= m.chr_banks@.len(),
                        forall|j: int| 0 <= j < k ==> #[trigger] m@.chr_banks[j].len() == 0x2000,
                    decreases m.chr_banks@.len() - k,
                {
                    proof {
                        assert(m@.chr_banks[k as int] == m.chr_banks@[k as int]@);
                    }
                    if m.chr_banks[k].len() != 0x2000 {
                        proof {
                            assert(self@ == CartridgeView::Mmc1(m@));
                            assert(m@.chr_banks[k as int].len() != 0x2000);
                            assert(!self@.chr_complete());
                        }
                        return false;
                    }
                    k += 1;
                }
                true
            },
        }
    }

    pub fn read_cpu(&mut self, addr: u16) -> (r: u8)
        requires
            old(self)@.wf(),
            old(self)@.cpu_readable(addr),
        ensures
            final(self)@ == old(self)@,
            r == old(self)@.cpu_value(addr),
    {
        match &mut self.mapper {
            CartMapper::Nrom(m) => m.read_cpu(addr),
            CartMapper::Mmc1(m) => m.read_cpu(addr),
        }
    }

    pub fn write_cpu(&mut self, addr: u16, data: u8)
        requires
            old(self)@.wf(),
            old(self)@.cpu_writable(addr),
        ensures
            final(self)@ == old(self)@.after_cpu_write(addr, data),
            final(self)@.wf(),
    {
        match &mut self.mapper {
            CartMapper::Nrom(m) => m.write_cpu(addr, data),
            CartMapper::Mmc1(m) => m.write_cpu(addr, data),
        }
    }

    pub fn read_ppu(&mut self, addr: u16) -> (r: u8)
        requires
            old(self)@.wf(),
            addr < 0x2000,
            old(self)@.ppu_accessible(addr),
        ensures
            final(self)@ == old(self)@,
            r == old(self)@.ppu_value(addr),
    {
        match &mut self.mapper {
            CartMapper::Nrom(m) => m.read_ppu(addr),
            CartMapper::Mmc1(m) => m.read_ppu(addr),
        }
    }

    pub fn write_ppu(&mut self, addr: u16, data: u8)
        requires
            old(self)@.wf(),
            addr < 0x2000,
            old(self)@.ppu_accessible(addr),
        ensures
            final(self)@ == old(self)@.after_ppu_write(addr, data),
            final(self)@.wf(),
    {
        match &mut self.mapper {
            CartMapper::Nrom(m) => m.write_ppu(addr, data),
            CartMapper::Mmc1(m) => m.write_ppu(addr, data),
        }
    }

    pub fn mirror_vram_addr(&mut self, addr: u16) -> (r: usize)
        requires
            old(self)@.wf(),
            old(self)@.mirror_supported(),
        ensures
            final(self)@ == old(self)@,
            r == old(self)@.vram_index(addr),
            r < 0x800,
    {
        match &self.mapper {
            CartMapper::Nrom(m) => m.mirror_vram(addr),
            CartMapper::Mmc1(m) => m.mirror_vram(addr),
        }
    }

    pub fn irq_active(&self) -> (r: bool)
        ensures
            r == false,
    {
        match &self.mapper {
            CartMapper::Nrom(m) => m.irq_active(),
            CartMapper::Mmc1(m) => m.irq_active(),
        }
    }
}

} // verus!
