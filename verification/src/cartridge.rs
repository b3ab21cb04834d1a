use vstd::prelude::*;
use crate::console::cartridge::{
    has_ines_tag, ines_chr, ines_chr_size, ines_mapper, ines_prg, ines_prg_size, ines_prg_start,
    ines_version,
};
use crate::bits::lemma_masks;
use crate::console::cartridge::mappers::copy_range;

verus! {

/// How the four nametables share the two kilobytes of VRAM.
#[derive(Clone, Copy, PartialEq, Eq, Structural, Debug)]
pub enum Mirroring {
    Vertical,
    Horizontal,
    FourScreen,
}

/// Mapper 0 (NROM): fixed program ROM, 8 kB of program RAM, pattern ROM or RAM.
pub struct Mapper000 {
    pub prg_rom: Vec<u8>,
    pub prg_ram: Vec<u8>,
    pub chr_rom: Vec<u8>,
    pub chr_ram: Vec<u8>,
    pub mirroring: Mirroring,
}

/// A cartridge: its mapper and the memory behind it.
pub struct Cartridge {
    pub mapper: Mapper000,
}

/// Abstract contents of a cartridge.
pub struct CartridgeView {
    pub prg_rom: Seq<u8>,
    pub prg_ram: Seq<u8>,
    pub chr_rom: Seq<u8>,
    pub chr_ram: Seq<u8>,
    pub mirroring: Mirroring,
}

impl View for Cartridge {
    type V = CartridgeView;

    open spec fn view(&self) -> CartridgeView {
        CartridgeView {
            prg_rom: self.mapper.prg_rom@,
            prg_ram: self.mapper.prg_ram@,
            chr_rom: self.mapper.chr_rom@,
            chr_ram: self.mapper.chr_ram@,
            mirroring: self.mapper.mirroring,
        }
    }
}

pub const PRG_ROM_BANK_SIZE: usize = 0x4000;
pub const CHR_ROM_BANK_SIZE: usize = 0x2000;
pub const PRG_RAM_BANK_SIZE: usize = 0x2000;
pub const CHR_RAM_BANK_SIZE: usize = 0x2000;

/// Index in VRAM of nametable address `addr` under mirroring `m` (see the PPU's
/// nametable mirroring).
pub open spec fn vram_index(m: Mirroring, addr: u16) -> int {
    let vram_idx = (addr & 0x2FFF) - 0x2000;
    let table = vram_idx / 0x400;
    match m {
        Mirroring::Vertical => if table == 2 || table == 3 {
            vram_idx - 0x800
        } else {
            vram_idx
        },
        Mirroring::Horizontal => if table == 1 || table == 2 {
            vram_idx - 0x400
        } else if table == 3 {
            vram_idx - 0x800
        } else {
            vram_idx
        },
        Mirroring::FourScreen => vram_idx,
    }
}

impl CartridgeView {
    pub open spec fn wf(self) -> bool {
        self.prg_ram.len() == 0x2000
    }

    /// Pattern memory in use: the RAM when there is any, else the ROM.
    pub open spec fn chr(self) -> Seq<u8> {
        if self.chr_ram.len() > 0 {
            self.chr_ram
        } else {
            self.chr_rom
        }
    }

    pub open spec fn cpu_value(self, addr: u16) -> u8 {
        if 0x6000 <= addr <= 0x7FFF {
            self.prg_ram[addr - 0x6000]
        } else if addr >= 0x8000 {
            self.prg_rom[(addr - 0x8000) % (self.prg_rom.len() as int)]
        } else {
            0
        }
    }

    pub open spec fn after_cpu_write(self, addr: u16, data: u8) -> CartridgeView {
        if 0x6000 <= addr <= 0x7FFF {
            CartridgeView { prg_ram: self.prg_ram.update(addr - 0x6000, data), ..self }
        } else {
            self
        }
    }

    pub open spec fn after_ppu_write(self, addr: u16, data: u8) -> CartridgeView {
        if self.chr_ram.len() > 0 {
            CartridgeView { chr_ram: self.chr_ram.update(addr as int, data), ..self }
        } else {
            CartridgeView { chr_rom: self.chr_rom.update(addr as int, data), ..self }
        }
    }
}

/// The image is long enough for what loading it reads.
pub open spec fn image_complete(raw: Seq<u8>) -> bool {
    &&& raw.len() >= 4
    &&& has_ines_tag(raw) ==> raw.len() >= 8
    &&& (has_ines_tag(raw) && ines_version(raw) == 0) ==> raw.len() >= ines_prg_start(raw)
        + ines_prg_size(raw) + ines_chr_size(raw)
}

/// The mirroring an iNES header selects.
pub open spec fn header_mirroring(raw: Seq<u8>) -> Mirroring {
    if raw[6] & 0x8 != 0 {
        Mirroring::FourScreen
    } else if raw[6] & 0x1 != 0 {
        Mirroring::Vertical
    } else {
        Mirroring::Horizontal
    }
}

impl Cartridge {
    /// Loads an iNES image for mapper 0.
    pub fn new(raw: Vec<u8>) -> (r: Result<Self, String>)
        requires
            image_complete(raw@),
            has_ines_tag(raw@) ==> ines_mapper(raw@) == 0,
        ensures
            !has_ines_tag(raw@) <==> (r is Err && r->Err_0@ == "File is not in iNES file format"@),
            has_ines_tag(raw@) && ines_version(raw@) != 0 <==> (r is Err && r->Err_0@
                == "NES2.0 format is not supported (for now)"@),
            has_ines_tag(raw@) && ines_version(raw@) == 0 <==> r is Ok,
            r matches Ok(c) ==> c@ == (CartridgeView {
                prg_rom: ines_prg(raw@),
                prg_ram: Seq::new(0x2000, |i: int| 0u8),
                chr_rom: ines_chr(raw@),
                chr_ram: Seq::new(if ines_chr_size(raw@) == 0 { 0x2000 } else { 0 }, |i: int| 0u8),
                mirroring: header_mirroring(raw@),
            }),
    {
        proof {
            reveal_strlit("File is not in iNES file format");
            reveal_strlit("NES2.0 format is not supported (for now)");
            assert("File is not in iNES file format"@[0] != "NES2.0 format is not supported (for now)"@[0]);
        }
        if !(raw[0] == 0x4E && raw[1] == 0x45 && raw[2] == 0x53 && raw[3] == 0x1A) {
            return Err(String::from_str("File is not in iNES file format"));
        }
        let ines_ver = (raw[7] >> 2) & 0b11;
        if ines_ver != 0 {
            return Err(String::from_str("NES2.0 format is not supported (for now)"));
        }
        let four_screen = raw[6] & 0b1000 != 0;
        let vertical_mirroring = raw[6] & 0b1 != 0;
        let mirroring = if four_screen {
            Mirroring::FourScreen
        } else if vertical_mirroring {
            Mirroring::Vertical
        } else {
            Mirroring::Horizontal
        };
        let prg_rom_size = raw[4] as usize * PRG_ROM_BANK_SIZE;
        let chr_rom_size = raw[5] as usize * CHR_ROM_BANK_SIZE;
        let skip_trainer = raw[6] & 0b100 != 0;
        let prg_rom_start: usize = 16 + if skip_trainer { 512 } else { 0 };
        let chr_rom_start = prg_rom_start + prg_rom_size;
        let chr_rom = copy_range(raw.as_slice(), chr_rom_start, chr_rom_size);
        let chr_ram_size: usize = if chr_rom_size == 0 { CHR_RAM_BANK_SIZE } else { 0 };
        let prg_rom = copy_range(raw.as_slice(), prg_rom_start, prg_rom_size);
        let mapper = Mapper000 {
            prg_rom,
            prg_ram: vec![0; PRG_RAM_BANK_SIZE],
            chr_rom,
            chr_ram: vec![0; chr_ram_size],
            mirroring,
        };
        let c = Cartridge { mapper };
        proof {
            assert(c.mapper.prg_ram@ =~= Seq::new(0x2000, |i: int| 0u8));
            assert(c.mapper.chr_ram@ =~= Seq::new(if ines_chr_size(raw@) == 0 { 0x2000 } else { 0 }, |i: int| 0u8));
        }
        Ok(c)
    }

    /// A CPU read: program RAM at 0x6000-0x7FFF, program ROM (repeated) from 0x8000,
    /// 0 elsewhere.
    pub fn read_cpu(&mut self, addr: u16) -> (r: u8)
        requires
            old(self)@.wf(),
            addr >= 0x8000 ==> old(self)@.prg_rom.len() > 0,
        ensures
            r == old(self)@.cpu_value(addr),
            *final(self) == *old(self),
    {
        if 0x6000 <= addr && addr <= 0x7FFF {
            self.mapper.prg_ram[(addr - 0x6000) as usize]
        } else if addr >= 0x8000 {
            self.mapper.prg_rom[(addr - 0x8000) as usize % self.mapper.prg_rom.len()]
        } else {
            0
        }
    }

    /// A CPU write: only program RAM takes it.
    pub fn write_cpu(&mut self, addr: u16, data: u8)
        requires
            old(self)@.wf(),
        ensures
            final(self)@ == old(self)@.after_cpu_write(addr, data),
            final(self)@.wf(),
    {
        if 0x6000 <= addr && addr <= 0x7FFF {
            self.mapper.prg_ram.set((addr - 0x6000) as usize, data);
        }
    }

    /// A PPU read of pattern memory.
    pub fn read_ppu(&mut self, addr: u16) -> (r: u8)
        requires
            addr < old(self)@.chr().len(),
        ensures
            r == old(self)@.chr()[addr as int],
            *final(self) == *old(self),
    {
        if self.mapper.chr_ram.len() > 0 {
            self.mapper.chr_ram[addr as usize]
        } else {
            self.mapper.chr_rom[addr as usize]
        }
    }

    /// A PPU write of pattern memory (ROM included).
    pub fn write_ppu(&mut self, addr: u16, data: u8)
        requires
            addr < old(self)@.chr().len(),
        ensures
            final(self)@ == old(self)@.after_ppu_write(addr, data),
    {
        if self.mapper.chr_ram.len() > 0 {
            self.mapper.chr_ram.set(addr as usize, data);
        } else {
            self.mapper.chr_rom.set(addr as usize, data);
        }
    }

    /// Translates a nametable address to its place in VRAM under the cartridge's
    /// mirroring.
    pub fn mirror_vram_addr(&mut self, addr: u16) -> (r: usize)
        requires
            (addr & 0x2FFF) >= 0x2000,
        ensures
            r == vram_index(old(self)@.mirroring, addr),
            *final(self) == *old(self),
    {
        let mirror_half = addr & 0x2FFF;
        proof {
            lemma_masks();
        }
        let vram_idx = mirror_half - 0x2000;
        let table = vram_idx / 0x400;
        match self.mapper.mirroring {
            Mirroring::Vertical => if table == 2 || table == 3 {
                (vram_idx - 0x800) as usize
            } else {
                vram_idx as usize
            },
            Mirroring::Horizontal => if table == 1 || table == 2 {
                (vram_idx - 0x400) as usize
            } else if table == 3 {
                (vram_idx - 0x800) as usize
            } else {
                vram_idx as usize
            },
            Mirroring::FourScreen => vram_idx as usize,
        }
    }
}

} // verus!
