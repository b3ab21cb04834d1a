use vstd::prelude::*;
use crate::console::cartridge::{
    has_ines_tag, ines_chr, ines_chr_size, ines_prg, ines_prg_size, ines_prg_start, ines_version,
};
use crate::console::cartridge::mappers::copy_range;
use crate::bits::lemma_masks;
use crate::console::cpu::lemma_word;
use crate::ppu::{Ppu, PpuView};

verus! {

/// How the four nametables of the PPU address space share the two kilobytes of VRAM.
#[derive(Clone, Copy, PartialEq, Eq, Structural, Debug)]
pub enum Mirroring {
    Vertical,
    Horizontal,
    FourScreen,
}

/// The parts of an iNES image: program and pattern ROM, mapper number and mirroring.
pub struct Rom {
    pub prg: Vec<u8>,
    pub chr: Vec<u8>,
    pub mapper: u8,
    pub mirroring: Mirroring,
}

pub const INES_TAG: [u8; 4] = [0x4E, 0x45, 0x53, 0x1A];
pub const PRG_ROM_BANK_SIZE: usize = 0x4000;
pub const CHR_ROM_BANK_SIZE: usize = 0x2000;

/// The nametable arrangement an iNES header selects: four-screen when bit 3 of byte 6
/// is set, else vertical when bit 0 is set, else horizontal.
pub open spec fn header_mirroring(raw: Seq<u8>) -> Mirroring {
    if raw[6] & 0x8 != 0 {
        Mirroring::FourScreen
    } else if raw[6] & 0x1 != 0 {
        Mirroring::Vertical
    } else {
        Mirroring::Horizontal
    }
}

/// The image is long enough for what loading it reads: the tag, the header, and every
/// bank the header announces.
pub open spec fn image_complete(raw: Seq<u8>) -> bool {
    &&& raw.len() >= 4
    &&& has_ines_tag(raw) ==> raw.len() >= 8
    &&& (has_ines_tag(raw) && ines_version(raw) == 0) ==> raw.len() >= ines_prg_start(raw)
        + ines_prg_size(raw) + ines_chr_size(raw)
}

/// Checks [`image_complete`].
pub fn rom_image_complete(raw: &Vec<u8>) -> (r: bool)
    ensures
        r == image_complete(raw@),
{
    if raw.len() < 4 {
        return false;
    }
    if !(raw[0] == 0x4E && raw[1] == 0x45 && raw[2] == 0x53 && raw[3] == 0x1A) {
        return true;
    }
    if raw.len() < 8 {
        return false;
    }
    if (raw[7] >> 2) & 0x3 != 0 {
        return true;
    }
    let prg_rom_start: usize = 16 + if raw[6] & 0x4 != 0 { 512 } else { 0 };
    let needed = prg_rom_start + raw[4] as usize * PRG_ROM_BANK_SIZE + raw[5] as usize * CHR_ROM_BANK_SIZE;
    raw.len() >= needed
}

impl Rom {
    /// Splits an iNES image into its parts.
    pub fn new(raw: Vec<u8>) -> (r: Result<Rom, String>)
        requires
            image_complete(raw@),
        ensures
            !has_ines_tag(raw@) <==> (r is Err && r->Err_0@ == "File is not in iNES file format"@),
            has_ines_tag(raw@) && ines_version(raw@) != 0 <==> (r is Err && r->Err_0@
                == "NES2.0 format is not supported"@),
            has_ines_tag(raw@) && ines_version(raw@) == 0 <==> r is Ok,
            r matches Ok(rom) ==> {
                &&& rom.prg@ == ines_prg(raw@)
                &&& rom.chr@ == ines_chr(raw@)
                &&& rom.mapper == (raw@[7] & 0xF0) | (raw@[6] >> 4)
                &&& rom.mirroring == header_mirroring(raw@)
            },
    {
        proof {
            reveal_strlit("File is not in iNES file format");
            reveal_strlit("NES2.0 format is not supported");
            assert("File is not in iNES file format"@[0] != "NES2.0 format is not supported"@[0]);
        }
        if !(raw[0] == INES_TAG[0] && raw[1] == INES_TAG[1] && raw[2] == INES_TAG[2] && raw[3]
            == INES_TAG[3]) {
            return Err(String::from_str("File is not in iNES file format"));
        }
        let mapper = (raw[7] & 0b1111_0000) | (raw[6] >> 4);
        let ines_ver = (raw[7] >> 2) & 0b11;
        if ines_ver != 0 {
            return Err(String::from_str("NES2.0 format is not supported"));
        }
        let four_screen = raw[6] & 0b1000 != 0;
        let vertical_mirroring = raw[6] & 0b1 != 0;
        let screen_mirroring = if four_screen {
            Mirroring::FourScreen
        } else if vertical_mirroring {
            Mirroring::Vertical
        } else {
            Mirroring::Horizontal
        };
        let prg_rom_size = raw[4] as usize * PRG_ROM_BANK_SIZE;
        let chr_rom_size = raw[5] as usize * CHR_ROM_BANK_SIZE;
        let skip_trainer = raw[6] & 0b100 != 0;
        let prg_rom_start: usize = 16 + if skip_trainer { 512 } else { 0 };
        let chr_rom_start = prg_rom_start + prg_rom_size;
        Ok(Rom {
            prg: copy_range(raw.as_slice(), prg_rom_start, prg_rom_size),
            chr: copy_range(raw.as_slice(), chr_rom_start, chr_rom_size),
            mapper,
            mirroring: screen_mirroring,
        })
    }
}

pub const RAM_START: u16 = 0x0000;
pub const RAM_END: u16 = 0x1FFF;
pub const PPU_REGISTERS_START: u16 = 0x2000;
pub const PPU_REGISTERS_END: u16 = 0x3FFF;
pub const OAM_DMA_ADDR: u16 = 0x4014;
pub const ROM_START: u16 = 0x8000;
pub const RAM_ADDR_MIRROR_MASK: u16 = 0x07FF;

/// The standalone bus: RAM, the PPU, and program ROM.
pub struct Bus {
    pub ram: Vec<u8>,
    pub prg: Vec<u8>,
    pub ppu: Ppu,
}

/// Abstract state of the bus.
pub struct BusView {
    pub ram: Seq<u8>,
    pub prg: Seq<u8>,
    pub ppu: PpuView,
}

impl View for Bus {
    type V = BusView;

    open spec fn view(&self) -> BusView {
        BusView { ram: self.ram@, prg: self.prg@, ppu: self.ppu@ }
    }
}

/// Index in program ROM of CPU address `addr` (0x8000 and up); a single 16 kB bank is
/// mirrored.
pub open spec fn prg_index(prg_len: nat, addr: u16) -> int {
    if prg_len == 0x4000 {
        (addr - 0x8000) % 0x4000
    } else {
        addr - 0x8000
    }
}

impl BusView {
    pub open spec fn wf(self) -> bool {
        &&& self.ram.len() == 0x800
        &&& self.ppu.wf()
    }

    /// Whether a read of `addr` is served: RAM, a readable PPU port, or program ROM
    /// that is there.
    pub open spec fn readable(self, addr: u16) -> bool {
        if addr <= RAM_END {
            true
        } else if addr <= PPU_REGISTERS_END {
            self.ppu.readable(addr)
        } else if addr >= ROM_START {
            prg_index(self.prg.len(), addr) < self.prg.len()
        } else {
            false
        }
    }

    pub open spec fn read_value(self, addr: u16) -> u8 {
        if addr <= RAM_END {
            self.ram[(addr & RAM_ADDR_MIRROR_MASK) as int]
        } else if addr <= PPU_REGISTERS_END {
            self.ppu.read_value(addr)
        } else {
            self.prg[prg_index(self.prg.len(), addr)]
        }
    }

    pub open spec fn after_read(self, addr: u16) -> BusView {
        if RAM_END < addr <= PPU_REGISTERS_END {
            BusView { ppu: self.ppu.after_read(addr), ..self }
        } else {
            self
        }
    }

    /// Sprite DMA from page `page`, bytes `0..n`: each byte read and written to the OAM
    /// data port; `None` when a read is not served.
    pub open spec fn dma_run(self, page: u8, n: nat) -> Option<BusView>
        decreases n,
    {
        if n == 0 {
            Some(self)
        } else {
            match self.dma_run(page, (n - 1) as nat) {
                Some(b) => {
                    let addr = ((page as u16) * 256 + (n - 1)) as u16;
                    if b.readable(addr) {
                        let b1 = b.after_read(addr);
                        Some(BusView { ppu: b1.ppu.after_write(0x2004, b.read_value(addr)), ..b1 })
                    } else {
                        None
                    }
                },
                None => None,
            }
        }
    }

    /// Whether a write of `data` to `addr` is served: RAM, a writable PPU port, or a
    /// sprite DMA whose reads are all served.
    pub open spec fn writable(self, addr: u16, data: u8) -> bool {
        if addr <= RAM_END {
            true
        } else if addr <= PPU_REGISTERS_END {
            self.ppu.writable(addr)
        } else if addr == OAM_DMA_ADDR {
            self.dma_run(data, 256) is Some
        } else {
            false
        }
    }

    pub open spec fn after_write(self, addr: u16, data: u8) -> BusView {
        if addr <= RAM_END {
            BusView { ram: self.ram.update((addr & RAM_ADDR_MIRROR_MASK) as int, data), ..self }
        } else if addr <= PPU_REGISTERS_END {
            BusView { ppu: self.ppu.after_write(addr, data), ..self }
        } else {
            self.dma_run(data, 256)->Some_0
        }
    }
}

/// Work RAM is two kilobytes seen four times over 0x0000-0x1FFF: a write to any RAM
/// address is read back at that address and at every address that mirrors it, and
/// leaves the other RAM bytes as they were.
pub proof fn lemma_ram_write_read(b: BusView, addr: u16, other: u16, v: u8)
    requires
        b.wf(),
        addr <= RAM_END,
        other <= RAM_END,
    ensures
        b.writable(addr, v),
        b.after_write(addr, v).readable(other),
        other % 0x800 == addr % 0x800 ==> b.after_write(addr, v).read_value(other) == v,
        other % 0x800 != addr % 0x800 ==> b.after_write(addr, v).read_value(other) == b.read_value(other),
{
    lemma_masks();
}

/// Sprite-memory slot `i` places after `start`.
pub open spec fn oam_slot(start: u8, i: int) -> int {
    (start + i) % 256
}

/// A write of the sprite-memory data port stores the byte at the sprite-memory address
/// and moves the address on.
proof fn lemma_oam_port_write(p: PpuView, v: u8)
    ensures
        p.after_write(0x2004, v) == (PpuView {
            oam: p.oam.update(p.oam_addr as int, v),
            oam_addr: p.oam_addr.wrapping_add(1),
            ..p
        }),
{
    lemma_masks();
}

/// The first `n` bytes of a sprite DMA from a page of work RAM: each byte of the page is
/// copied to the next sprite-memory slot, and nothing but sprite memory and its address
/// changes.
#[verifier::rlimit(40)]
proof fn lemma_dma_run_from_ram(b: BusView, page: u8, n: nat)
    requires
        b.wf(),
        page < 0x20,
        n <= 256,
    ensures
        b.dma_run(page, n) is Some,
        ({
            let r = b.dma_run(page, n)->Some_0;
            &&& r.ram == b.ram
            &&& r.prg == b.prg
            &&& r.ppu == PpuView {
                oam: r.ppu.oam,
                oam_addr: ((b.ppu.oam_addr + n) % 256) as u8,
                ..b.ppu
            }
            &&& r.ppu.oam.len() == 256
            &&& forall|i: int|
                0 <= i < 256 ==> #[trigger] r.ppu.oam[oam_slot(b.ppu.oam_addr, i)] == if i < n {
                    b.ram[(page * 256 + i) % 0x800]
                } else {
                    b.ppu.oam[oam_slot(b.ppu.oam_addr, i)]
                }
        }),
    decreases n,
{
    if n > 0 {
        lemma_dma_run_from_ram(b, page, (n - 1) as nat);
        let c = b.dma_run(page, (n - 1) as nat)->Some_0;
        let addr = ((page as u16) * 256 + (n - 1)) as u16;
        let v = b.ram[(page * 256 + (n - 1)) % 0x800];
        assert(addr <= RAM_END);
        assert(c.read_value(addr) == v) by {
            lemma_masks();
        }
        lemma_oam_port_write(c.ppu, v);
        let r = b.dma_run(page, n)->Some_0;
        assert(r.ppu == c.ppu.after_write(0x2004, v));
        assert(c.ppu.oam_addr == oam_slot(b.ppu.oam_addr, n - 1));
        assert forall|i: int| 0 <= i < 256 implies #[trigger] r.ppu.oam[oam_slot(b.ppu.oam_addr, i)]
            == if i < n {
            b.ram[(page * 256 + i) % 0x800]
        } else {
            b.ppu.oam[oam_slot(b.ppu.oam_addr, i)]
        } by {
            if i != n - 1 {
                assert(oam_slot(b.ppu.oam_addr, i) != oam_slot(b.ppu.oam_addr, n - 1));
            }
        }
    }
}

/// Sprite DMA from a page of work RAM copies the page's 256 bytes into sprite memory,
/// starting at the sprite-memory address and wrapping around, and changes nothing else:
/// the address ends where it started.
pub proof fn lemma_dma_copies_page(b: BusView, page: u8)
    requires
        b.wf(),
        page < 0x20,
    ensures
        b.writable(OAM_DMA_ADDR, page),
        b.after_write(OAM_DMA_ADDR, page).ram == b.ram,
        b.after_write(OAM_DMA_ADDR, page).ppu == (PpuView {
            oam: b.after_write(OAM_DMA_ADDR, page).ppu.oam,
            ..b.ppu
        }),
        forall|i: int|
            0 <= i < 256 ==> #[trigger] b.after_write(OAM_DMA_ADDR, page).ppu.oam[oam_slot(
                b.ppu.oam_addr,
                i,
            )] == b.ram[(page * 256 + i) % 0x800],
{
    lemma_dma_run_from_ram(b, page, 256);
}

impl Bus {
    /// A bus with the program and pattern ROM of `rom`.
    pub fn new(rom: Rom) -> (r: Self)
        ensures
            r@.ram == Seq::new(0x800, |i: int| 0u8),
            r@.prg == rom.prg@,
            r@.ppu.chr == rom.chr@,
            r@.ppu.mirroring == rom.mirroring,
            r@.wf(),
    {
        let r = Bus { ram: vec![0; 0x800], prg: rom.prg, ppu: Ppu::new(rom.chr, rom.mirroring) };
        proof {
            assert(r.ram@ =~= Seq::new(0x800, |i: int| 0u8));
        }
        r
    }

    /// Whether a read of `addr` is served.
    pub fn can_read(&self, addr: u16) -> (r: bool)
        requires
            self@.wf(),
        ensures
            r == self@.readable(addr),
    {
        if addr <= RAM_END {
            true
        } else if addr <= PPU_REGISTERS_END {
            let a = addr & 0x2007;
            if a == 0x2007 {
                self.ppu.data_ok()
            } else {
                a == 0x2002 || a == 0x2004
            }
        } else if addr >= ROM_START {
            let mut i = addr - ROM_START;
            if self.prg.len() == 0x4000 {
                i = i % 0x4000;
            }
            (i as usize) < self.prg.len()
        } else {
            false
        }
    }

    pub fn read(&mut self, addr: u16) -> (r: u8)
        requires
            old(self)@.wf(),
            old(self)@.readable(addr),
        ensures
            r == old(self)@.read_value(addr),
            final(self)@ == old(self)@.after_read(addr),
            final(self)@.wf(),
    {
        if addr <= RAM_END {
            proof {
                lemma_masks();
            }
            self.ram[(addr & RAM_ADDR_MIRROR_MASK) as usize]
        } else if addr <= PPU_REGISTERS_END {
            self.ppu.read(addr)
        } else {
            self.read_prg(addr)
        }
    }

    pub fn read_u16(&mut self, addr: u16) -> (r: u16)
        requires
            old(self)@.wf(),
            old(self)@.readable(addr),
            old(self)@.after_read(addr).readable(addr.wrapping_add(1)),
        ensures
            r == old(self)@.read_value(addr) as u16 + 256 * (old(self)@.after_read(addr).read_value(
                addr.wrapping_add(1),
            ) as u16),
            final(self)@ == old(self)@.after_read(addr).after_read(addr.wrapping_add(1)),
            final(self)@.wf(),
    {
        let lsb = self.read(addr);
        let msb = self.read(addr.wrapping_add(1));
        proof {
            lemma_word(lsb, msb);
        }
        ((msb as u16) << 8) | (lsb as u16)
    }

    pub fn write(&mut self, addr: u16, data: u8)
        requires
            old(self)@.wf(),
            old(self)@.writable(addr, data),
        ensures
            final(self)@ == old(self)@.after_write(addr, data),
            final(self)@.wf(),
    {
        if addr <= RAM_END {
            proof {
                lemma_masks();
            }
            self.ram.set((addr & RAM_ADDR_MIRROR_MASK) as usize, data);
        } else if addr <= PPU_REGISTERS_END {
            self.ppu.write(addr, data);
        } else {
            self.oam_dma(data);
        }
    }

    pub fn write_u16(&mut self, addr: u16, data: u16)
        requires
            old(self)@.wf(),
            old(self)@.writable(addr, (data % 256) as u8),
            old(self)@.after_write(addr, (data % 256) as u8).writable(addr.wrapping_add(1), (data / 256) as u8),
        ensures
            final(self)@ == old(self)@.after_write(addr, (data % 256) as u8).after_write(
                addr.wrapping_add(1),
                (data / 256) as u8,
            ),
            final(self)@.wf(),
    {
        let msb = (data / 256) as u8;
        let lsb = (data % 256) as u8;
        self.write(addr, lsb);
        self.write(addr.wrapping_add(1), msb);
    }

    fn read_prg(&self, addr: u16) -> (r: u8)
        requires
            self@.wf(),
            addr >= ROM_START,
            prg_index(self@.prg.len(), addr) < self@.prg.len(),
        ensures
            r == self@.prg[prg_index(self@.prg.len(), addr)],
    {
        let mut a = addr - ROM_START;
        if self.prg.len() == 0x4000 {
            a = a % 0x4000;
        }
        self.prg[a as usize]
    }

    fn oam_dma(&mut self, page: u8)
        requires
            old(self)@.wf(),
            old(self)@.dma_run(page, 256) is Some,
        ensures
            final(self)@ == old(self)@.dma_run(page, 256)->Some_0,
            final(self)@.wf(),
    {
        let ghost b0 = self@;
        let start_addr = (page as u16) * 256;
        let mut i: u16 = 0;
        while i < 256
            invariant
                i <= 256,
                start_addr == (page as u16) * 256,
                b0.dma_run(page, 256) is Some,
                b0.dma_run(page, i as nat) == Some(self@),
                self@.wf(),
            decreases 256 - i,
        {
            proof {
                lemma_dma_prefix(b0, page, (i + 1) as nat, 256);
            }
            let oam_data = self.read(start_addr + i);
            proof {
                lemma_masks();
            }
            self.ppu.write(0x2004, oam_data);
            i += 1;
        }
    }
}

/// A DMA run that gets through `n` bytes got through every shorter prefix.
proof fn lemma_dma_prefix(b: BusView, page: u8, k: nat, n: nat)
    requires
        b.dma_run(page, n) is Some,
        k <= n,
    ensures
        b.dma_run(page, k) is Some,
    decreases n - k,
{
    if k < n {
        lemma_dma_prefix(b, page, k, (n - 1) as nat);
    }
}

} // verus!
