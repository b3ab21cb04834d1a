use vstd::prelude::*;

verus! {

/// Nametable mirroring arrangement.
#[derive(Clone, Copy, PartialEq, Eq, Structural, Debug)]
pub enum Mirroring {
    Vertical,
    Horizontal,
    FourScreen,
    SingleScreenLower,
    SingleScreenUpper,
}

impl Default for Mirroring {
    fn default() -> (r: Mirroring)
        ensures
            r == Mirroring::Vertical,
    {
        Mirroring::Vertical
    }
}

/// Why a cartridge mapper could not be built.
#[derive(Clone, Copy, PartialEq, Eq, Structural, Debug)]
pub enum MapperError {
    /// The mapper number is not implemented.
    Unsupported(u8),
}

/// Horizontal mirroring: the first two 1 kB areas map to the first 1 kB of VRAM.
pub open spec fn horizontal_index(addr: u16) -> usize {
    if addr & 0x800 == 0 {
        ((addr & !0x400u16) % 0x800) as usize
    } else {
        ((addr | 0x400) % 0x800) as usize
    }
}

/// Vertical mirroring: the address folded down to 0x000-0x7FF.
pub open spec fn vertical_index(addr: u16) -> usize {
    (addr % 0x800) as usize
}

/// Single-screen mirroring: the selected 1 kB half of VRAM.
pub open spec fn single_index(addr: u16, screen_b: bool) -> usize {
    if screen_b {
        (addr % 0x400 + 0x400) as usize
    } else {
        (addr % 0x400) as usize
    }
}

pub fn mirror_horizontal(addr: u16) -> (r: usize)
    ensures
        r == horizontal_index(addr),
        r < 0x800,
{
    if addr & 0x800 == 0 {
        ((addr & !0x400u16) % 0x800) as usize
    } else {
        ((addr | 0x400) % 0x800) as usize
    }
}

pub fn mirror_vertical(addr: u16) -> (r: usize)
    ensures
        r == vertical_index(addr),
        r < 0x800,
{
    (addr % 0x800) as usize
}

pub fn mirror_single(addr: u16, screen_b: bool) -> (r: usize)
    ensures
        r == single_index(addr, screen_b),
        r < 0x800,
{
    if screen_b {
        (addr % 0x400 + 0x400) as usize
    } else {
        (addr % 0x400) as usize
    }
}

/// Vertical mirroring makes the nametables 0x800 apart share storage.
pub proof fn lemma_vertical_aliases(addr: u16)
    requires
        addr < 0xF800,
    ensures
        vertical_index(addr) == vertical_index((addr + 0x800) as u16),
{
}

/// Horizontal mirroring makes the nametables 0x400 apart share storage.
pub proof fn lemma_horizontal_aliases(addr: u16)
    ensures
        horizontal_index(addr) == horizontal_index(addr ^ 0x400),
{
    assert(horizontal_index(addr) == horizontal_index(addr ^ 0x400)) by {
        lemma_horizontal_bits(addr);
    }
}

proof fn lemma_horizontal_bits(addr: u16)
    by (bit_vector)
    ensures
        (addr & 0x800 == 0) == ((addr ^ 0x400) & 0x800 == 0),
        (addr & !0x400u16) % 0x800 == ((addr ^ 0x400) & !0x400u16) % 0x800,
        (addr | 0x400) % 0x800 == ((addr ^ 0x400) | 0x400) % 0x800,
{
}

/// Horizontal mirroring keeps the two upper nametables (0x2000, 0x2400) in the first
/// kilobyte of VRAM and the two lower ones (0x2800, 0x2C00) in the second: the offset
/// within a nametable is kept, and bit 0x800 of the address picks the kilobyte, so
/// addresses that differ in that bit never share storage.
pub proof fn lemma_horizontal_halves(addr: u16)
    ensures
        horizontal_index(addr) % 0x400 == addr % 0x400,
        horizontal_index(addr) / 0x400 == (addr / 0x800) % 2,
        horizontal_index(addr) != horizontal_index(addr ^ 0x800),
{
    lemma_mirror_bits(addr);
    lemma_mirror_bits(addr ^ 0x800);
}

/// Vertical mirroring keeps the two left nametables (0x2000, 0x2800) in the first kilobyte
/// of VRAM and the two right ones (0x2400, 0x2C00) in the second: the offset within a
/// nametable is kept, and bit 0x400 of the address picks the kilobyte.
pub proof fn lemma_vertical_halves(addr: u16)
    ensures
        vertical_index(addr) % 0x400 == addr % 0x400,
        vertical_index(addr) / 0x400 == (addr / 0x400) % 2,
        vertical_index(addr) != vertical_index(addr ^ 0x400),
{
    lemma_mirror_bits(addr);
    lemma_mirror_bits(addr ^ 0x400);
}

proof fn lemma_mirror_bits(addr: u16)
    by (bit_vector)
    ensures
        addr & 0x800 == 0 <==> (addr / 0x800) % 2 == 0,
        addr & 0x800 == 0 ==> ((addr & !0x400u16) % 0x800) % 0x400 == addr % 0x400 && ((addr
            & !0x400u16) % 0x800) / 0x400 == 0,
        addr & 0x800 != 0 ==> ((addr | 0x400) % 0x800) % 0x400 == addr % 0x400 && ((addr | 0x400)
            % 0x800) / 0x400 == 1,
        ((addr ^ 0x800) / 0x800) % 2 != (addr / 0x800) % 2,
        (addr ^ 0x800) % 0x400 == addr % 0x400,
        ((addr ^ 0x400) / 0x400) % 2 != (addr / 0x400) % 2,
        (addr ^ 0x400) % 0x400 == addr % 0x400,
        (addr % 0x800) % 0x400 == addr % 0x400,
        (addr % 0x800) / 0x400 == (addr / 0x400) % 2,
{
}

/// Operations every cartridge mapper offers to the CPU and PPU buses.
pub trait Mapper {
    /// The mapper's own structural invariant.
    spec fn wf(&self) -> bool;

    /// Whether a CPU read of `addr` is served (elsewhere the mapper has no answer).
    spec fn cpu_readable(&self, addr: u16) -> bool;

    /// Whether a CPU write to `addr` is served.
    spec fn cpu_writable(&self, addr: u16) -> bool;

    /// Whether a PPU access to pattern memory at `addr` is served.
    spec fn ppu_accessible(&self, addr: u16) -> bool;

    /// Whether the current mirroring arrangement can place nametable addresses.
    spec fn mirror_supported(&self) -> bool;

    fn read_cpu(&mut self, addr: u16) -> (r: u8)
        requires
            old(self).wf(),
            old(self).cpu_readable(addr),
        ensures
            final(self).wf(),
    ;

    fn write_cpu(&mut self, addr: u16, data: u8)
        requires
            old(self).wf(),
            old(self).cpu_writable(addr),
        ensures
            final(self).wf(),
    ;

    fn read_ppu(&mut self, addr: u16) -> (r: u8)
        requires
            old(self).wf(),
            addr < 0x2000,
            old(self).ppu_accessible(addr),
        ensures
            final(self).wf(),
    ;

    fn write_ppu(&mut self, addr: u16, data: u8)
        requires
            old(self).wf(),
            addr < 0x2000,
            old(self).ppu_accessible(addr),
        ensures
            final(self).wf(),
    ;

    fn mirror_vram(&self, addr: u16) -> (r: usize)
        requires
            self.wf(),
            self.mirror_supported(),
        ensures
            r < 0x800,
    ;

    fn irq_active(&self) -> (r: bool)
        ensures
            r == false,
    {
        false
    }
}

/// Copies `len` bytes of `src` starting at `start`.
pub fn copy_range(src: &[u8], start: usize, len: usize) -> (r: Vec<u8>)
    requires
        start + len <= src.len(),
    ensures
        r@ == src@.subrange(start as int, (start + len) as int),
{
    let mut r: Vec<u8> = Vec::new();
    let mut i: usize = 0;
    while i < len
        invariant
            i <= len,
            start + len <= src.len(),
            r@ == src@.subrange(start as int, (start + i) as int),
        decreases len - i,
    {
        r.push(src[start + i]);
        i = i + 1;
        proof {
            assert(r@ =~= src@.subrange(start as int, (start + i) as int));
        }
    }
    r
}

/// NROM: fixed program ROM, 8 kB program RAM, pattern ROM or RAM.
pub struct Mapper000 {
    pub prg_rom: Vec<u8>,
    pub prg_ram: Vec<u8>,
    pub chr_rom: Vec<u8>,
    pub chr_ram: Vec<u8>,
    pub mirroring: Mirroring,
}

/// Abstract contents of a [`Mapper000`].
pub struct Mapper000View {
    pub prg_rom: Seq<u8>,
    pub prg_ram: Seq<u8>,
    pub chr_rom: Seq<u8>,
    pub chr_ram: Seq<u8>,
    pub mirroring: Mirroring,
}

impl View for Mapper000 {
    type V = Mapper000View;

    open spec fn view(&self) -> Mapper000View {
        Mapper000View {
            prg_rom: self.prg_rom@,
            prg_ram: self.prg_ram@,
            chr_rom: self.chr_rom@,
            chr_ram: self.chr_ram@,
            mirroring: self.mirroring,
        }
    }
}

impl Mapper000View {
    pub open spec fn wf(self) -> bool {
        self.prg_ram.len() == 0x2000
    }

    pub open spec fn cpu_readable(self, addr: u16) -> bool {
        addr >= 0x8000 ==> self.prg_rom.len() > 0
    }

    /// Value a CPU read of `addr` returns: program RAM, program ROM repeated to fill
    /// 0x8000-0xFFFF, zero below 0x6000.
    pub open spec fn cpu_value(self, addr: u16) -> u8 {
        if 0x6000 <= addr <= 0x7FFF {
            self.prg_ram[addr - 0x6000]
        } else if addr >= 0x8000 {
            self.prg_rom[(addr - 0x8000) % (self.prg_rom.len() as int)]
        } else {
            0
        }
    }

    /// Only program RAM is writable from the CPU.
    pub open spec fn after_cpu_write(self, addr: u16, data: u8) -> Mapper000View {
        if 0x6000 <= addr <= 0x7FFF {
            Mapper000View { prg_ram: self.prg_ram.update(addr - 0x6000, data), ..self }
        } else {
            self
        }
    }

    /// Pattern memory is RAM when RAM was allocated, ROM otherwise.
    pub open spec fn uses_chr_ram(self) -> bool {
        self.chr_ram.len() > 0
    }

    pub open spec fn ppu_accessible(self, addr: u16) -> bool {
        if self.uses_chr_ram() {
            addr < self.chr_ram.len()
        } else {
            addr < self.chr_rom.len()
        }
    }

    pub open spec fn ppu_value(self, addr: u16) -> u8 {
        if self.uses_chr_ram() {
            self.chr_ram[addr as int]
        } else {
            self.chr_rom[addr as int]
        }
    }

    pub open spec fn after_ppu_write(self, addr: u16, data: u8) -> Mapper000View {
        if self.uses_chr_ram() {
            Mapper000View { chr_ram: self.chr_ram.update(addr as int, data), ..self }
        } else {
            Mapper000View { chr_rom: self.chr_rom.update(addr as int, data), ..self }
        }
    }

    pub open spec fn mirror_supported(self) -> bool {
        self.mirroring == Mirroring::Vertical || self.mirroring == Mirroring::Horizontal
    }

    pub open spec fn vram_index(self, addr: u16) -> usize {
        if self.mirroring == Mirroring::Vertical {
            vertical_index(addr)
        } else {
            horizontal_index(addr)
        }
    }
}

impl Mapper000 {
    pub fn new(prg_rom: Vec<u8>, chr_rom: Vec<u8>, chr_ram_size: usize, mirroring: Mirroring) -> (r:
        Self)
        ensures
            r@.wf(),
            r@.prg_rom == prg_rom@,
            r@.chr_rom == chr_rom@,
            r@.prg_ram == Seq::new(0x2000, |i: int| 0u8),
            r@.chr_ram == Seq::new(chr_ram_size as nat, |i: int| 0u8),
            r@.mirroring == mirroring,
    {
        let r = Mapper000 {
            prg_rom,
            chr_rom,
            prg_ram: vec![0; 0x2000],
            chr_ram: vec![0; chr_ram_size],
            mirroring,
        };
        proof {
            assert(r.prg_ram@ =~= Seq::new(0x2000, |i: int| 0u8));
            assert(r.chr_ram@ =~= Seq::new(chr_ram_size as nat, |i: int| 0u8));
        }
        r
    }
}

impl Mapper for Mapper000 {
    open spec fn wf(&self) -> bool {
        self@.wf()
    }

    open spec fn cpu_readable(&self, addr: u16) -> bool {
        self@.cpu_readable(addr)
    }

    open spec fn cpu_writable(&self, addr: u16) -> bool {
        true
    }

    open spec fn ppu_accessible(&self, addr: u16) -> bool {
        self@.ppu_accessible(addr)
    }

    open spec fn mirror_supported(&self) -> bool {
        self@.mirror_supported()
    }

    fn read_cpu(&mut self, addr: u16) -> (r: u8)
        ensures
            final(self)@ == old(self)@,
            r == old(self)@.cpu_value(addr),
    {
        if 0x6000 <= addr && addr <= 0x7FFF {
            self.prg_ram[(addr - 0x6000) as usize]
        } else if addr >= 0x8000 {
            self.prg_rom[(addr - 0x8000) as usize % self.prg_rom.len()]
        } else {
            0
        }
    }

    fn write_cpu(&mut self, addr: u16, data: u8)
        ensures
            final(self)@ == old(self)@.after_cpu_write(addr, data),
    {
        if 0x6000 <= addr && addr <= 0x7FFF {
            self.prg_ram.set((addr - 0x6000) as usize, data);
        }
    }

    fn read_ppu(&mut self, addr: u16) -> (r: u8)
        ensures
            final(self)@ == old(self)@,
            r == old(self)@.ppu_value(addr),
    {
        let use_chr_ram = self.chr_ram.len() > 0;
        if use_chr_ram {
            self.chr_ram[addr as usize]
        } else {
            self.chr_rom[addr as usize]
        }
    }

    fn write_ppu(&mut self, addr: u16, data: u8)
        ensures
            final(self)@ == old(self)@.after_ppu_write(addr, data),
    {
        let use_chr_ram = self.chr_ram.len() > 0;
        if use_chr_ram {
            self.chr_ram.set(addr as usize, data);
        } else {
            self.chr_rom.set(addr as usize, data);
        }
    }

    /// Translates a nametable address to its VRAM location under the current mirroring.
    fn mirror_vram(&self, addr: u16) -> (r: usize)
        ensures
            r == self@.vram_index(addr),
    {
        match self.mirroring {
            Mirroring::Vertical => mirror_vertical(addr),
            _ => mirror_horizontal(addr),
        }
    }
}

/// Which program-ROM banks MMC1 keeps fixed.
#[derive(Clone, Copy, PartialEq, Eq, Structural, Debug)]
pub enum Mapper001PrgMode {
    SwitchBoth,
    FixFirst,
    FixLast,
}

/// MMC1: serially loaded bank-switching registers.
pub struct Mapper001 {
    pub prg_banks: Vec<Vec<u8>>,
    pub prg_ram_banks: Vec<Vec<u8>>,
    pub chr_banks: Vec<Vec<u8>>,
    pub mirroring: Mirroring,
    pub buffer: usize,
    pub bit_idx: usize,
    pub prg_bank0: usize,
    pub prg_bank1: usize,
    pub prg_ram_bank: usize,
    pub chr_bank0: usize,
    pub chr_bank1: usize,
    pub chr_independent_banks: bool,
    pub prg_mode: Mapper001PrgMode,
}

/// Abstract contents of a [`Mapper001`].
pub struct Mapper001View {
    pub prg_banks: Seq<Seq<u8>>,
    pub prg_ram_banks: Seq<Seq<u8>>,
    pub chr_banks: Seq<Seq<u8>>,
    pub mirroring: Mirroring,
    pub buffer: usize,
    pub bit_idx: usize,
    pub prg_bank0: usize,
    pub prg_bank1: usize,
    pub prg_ram_bank: usize,
    pub chr_bank0: usize,
    pub chr_bank1: usize,
    pub chr_independent_banks: bool,
    pub prg_mode: Mapper001PrgMode,
}

pub open spec fn banks_view(banks: Seq<Vec<u8>>) -> Seq<Seq<u8>> {
    banks.map_values(|b: Vec<u8>| b@)
}

impl View for Mapper001 {
    type V = Mapper001View;

    open spec fn view(&self) -> Mapper001View {
        Mapper001View {
            prg_banks: banks_view(self.prg_banks@),
            prg_ram_banks: banks_view(self.prg_ram_banks@),
            chr_banks: banks_view(self.chr_banks@),
            mirroring: self.mirroring,
            buffer: self.buffer,
            bit_idx: self.bit_idx,
            prg_bank0: self.prg_bank0,
            prg_bank1: self.prg_bank1,
            prg_ram_bank: self.prg_ram_bank,
            chr_bank0: self.chr_bank0,
            chr_bank1: self.chr_bank1,
            chr_independent_banks: self.chr_independent_banks,
            prg_mode: self.prg_mode,
        }
    }
}

pub const MMC1_PRG_ROM_BANK_SIZE: usize = 0x4000;
pub const MMC1_CHR_ROM_BANK_SIZE: usize = 0x2000;
pub const MMC1_PRG_RAM_BANK_SIZE: usize = 0x2000;
pub const MMC1_PRG_RAM_BANKS: usize = 4;

/// `s` cut into consecutive pieces of `n` bytes; the last piece may be shorter.
pub open spec fn chunks(s: Seq<u8>, n: nat) -> Seq<Seq<u8>>
    recommends
        n > 0,
{
    Seq::new(
        ((s.len() + n - 1) / n as int) as nat,
        |i: int|
            s.subrange(
                i * n,
                if (i + 1) * n <= s.len() {
                    (i + 1) * n
                } else {
                    s.len() as int
                },
            ),
    )
}

impl Mapper001View {
    pub open spec fn wf(self) -> bool {
        &&& self.prg_ram_banks.len() == 4
        &&& forall|i: int| 0 <= i < 4 ==> #[trigger] self.prg_ram_banks[i].len() == 0x2000
        &&& self.prg_ram_bank < 4
        &&& self.chr_banks.len() > 0
        &&& self.buffer < 32
        &&& self.bit_idx < 5
        &&& self.prg_bank0 < 16
        &&& self.prg_bank1 < 16
        &&& self.chr_bank0 < 32
        &&& self.chr_bank1 < 32
    }

    /// Which program bank serves a CPU address in 0x8000-0xFFFF.
    pub open spec fn prg_bank_for(self, addr: u16) -> int {
        let n = self.prg_banks.len() as int;
        let bank = (addr - 0x8000) / 0x4000;
        if bank == 0 && self.prg_mode == Mapper001PrgMode::FixFirst {
            0
        } else if bank == 0 {
            self.prg_bank0 as int % n
        } else if self.prg_mode == Mapper001PrgMode::SwitchBoth {
            (self.prg_bank0 + 1) as int % n
        } else if self.prg_mode == Mapper001PrgMode::FixLast {
            n - 1
        } else {
            self.prg_bank1 as int % n
        }
    }

    /// Which pattern bank serves a PPU address below 0x2000.
    pub open spec fn chr_bank_for(self, addr: u16) -> int {
        let n = self.chr_banks.len() as int;
        let bank = addr / 0x2000;
        if bank == 0 {
            self.chr_bank0 as int % n
        } else if !self.chr_independent_banks {
            (self.chr_bank0 + 1) as int % n
        } else {
            self.chr_bank1 as int % n
        }
    }

    pub open spec fn cpu_readable(self, addr: u16) -> bool {
        if 0x6000 <= addr <= 0x7FFF {
            true
        } else if addr >= 0x8000 {
            self.prg_banks.len() > 0 && addr % 0x4000 < self.prg_banks[self.prg_bank_for(
                addr,
            )].len()
        } else {
            false
        }
    }

    pub open spec fn cpu_value(self, addr: u16) -> u8 {
        if 0x6000 <= addr <= 0x7FFF {
            self.prg_ram_banks[self.prg_ram_bank as int][(addr % 0x2000) as int]
        } else {
            self.prg_banks[self.prg_bank_for(addr)][(addr % 0x4000) as int]
        }
    }

    /// Effect of a completed five-bit write to the control register.
    pub open spec fn with_control(self, data: usize) -> Mapper001View {
        Mapper001View {
            mirroring: if data & 0x3 == 0 {
                Mirroring::SingleScreenLower
            } else if data & 0x3 == 1 {
                Mirroring::SingleScreenUpper
            } else if data & 0x3 == 2 {
                Mirroring::Vertical
            } else {
                Mirroring::Horizontal
            },
            prg_mode: if (data >> 2) & 0x3 <= 1 {
                Mapper001PrgMode::SwitchBoth
            } else if (data >> 2) & 0x3 == 2 {
                Mapper001PrgMode::FixFirst
            } else {
                Mapper001PrgMode::FixLast
            },
            chr_independent_banks: data & 0x10 != 0,
            ..self
        }
    }

    /// Effect of a completed five-bit write, routed by the address it ended on.
    pub open spec fn with_stored_buffer(self, addr: u16) -> Mapper001View {
        if addr <= 0x9FFF {
            self.with_control(self.buffer)
        } else if addr <= 0xBFFF {
            if !self.chr_independent_banks {
                Mapper001View { chr_bank0: self.buffer & 0x1E, ..self }
            } else {
                Mapper001View { chr_bank0: self.buffer, ..self }
            }
        } else if addr <= 0xDFFF {
            Mapper001View { chr_bank1: self.buffer, ..self }
        } else {
            let bank = self.buffer & 0xF;
            match self.prg_mode {
                Mapper001PrgMode::SwitchBoth => Mapper001View { prg_bank0: bank & 0xE, ..self },
                Mapper001PrgMode::FixFirst => Mapper001View { prg_bank1: bank, ..self },
                Mapper001PrgMode::FixLast => Mapper001View { prg_bank0: bank, ..self },
            }
        }
    }

    pub open spec fn after_cpu_write(self, addr: u16, data: u8) -> Mapper001View {
        if 0x6000 <= addr <= 0x7FFF {
            Mapper001View {
                prg_ram_banks: self.prg_ram_banks.update(
                    self.prg_ram_bank as int,
                    self.prg_ram_banks[self.prg_ram_bank as int].update((addr % 0x2000) as int, data),
                ),
                ..self
            }
        } else if data & 0x80 == 0 {
            let buffer = self.buffer | (((data as usize) & 0x01) << self.bit_idx);
            if self.bit_idx + 1 == 5 {
                Mapper001View {
                    buffer: 0,
                    bit_idx: 0,
                    ..Mapper001View { buffer, ..self }.with_stored_buffer(addr)
                }
            } else {
                Mapper001View { buffer, bit_idx: (self.bit_idx + 1) as usize, ..self }
            }
        } else {
            Mapper001View { bit_idx: 0, prg_mode: Mapper001PrgMode::FixLast, ..self }
        }
    }

    pub open spec fn ppu_accessible(self, addr: u16) -> bool {
        addr % 0x2000 < self.chr_banks[self.chr_bank_for(addr)].len()
    }

    pub open spec fn ppu_value(self, addr: u16) -> u8 {
        self.chr_banks[self.chr_bank_for(addr)][(addr % 0x2000) as int]
    }

    pub open spec fn after_ppu_write(self, addr: u16, data: u8) -> Mapper001View {
        let b = self.chr_bank_for(addr);
        Mapper001View {
            chr_banks: self.chr_banks.update(b, self.chr_banks[b].update((addr % 0x2000) as int, data)),
            ..self
        }
    }

    pub open spec fn mirror_supported(self) -> bool {
        self.mirroring != Mirroring::FourScreen
    }

    pub open spec fn vram_index(self, addr: u16) -> usize {
        match self.mirroring {
            Mirroring::Vertical => vertical_index(addr),
            Mirroring::Horizontal => horizontal_index(addr),
            Mirroring::SingleScreenLower => single_index(addr, false),
            _ => single_index(addr, true),
        }
    }
}

/// The program windows of MMC1. In the mode where the last bank is fixed (the power-on
/// mode), every read of 0xC000-0xFFFF comes from the last 16 kB bank whatever the bank
/// registers hold, and 0x8000-0xBFFF is switched by the first register; with the first
/// bank fixed it is the other way round, 0x8000-0xBFFF from bank 0 and 0xC000-0xFFFF
/// switched by the second register; in 32 kB mode the upper window shows the bank after
/// the lower one.
pub proof fn lemma_mmc1_prg_windows(m: Mapper001View, addr: u16)
    requires
        m.prg_banks.len() > 0,
        addr >= 0x8000,
    ensures
        ({
            let n = m.prg_banks.len() as int;
            let off = (addr % 0x4000) as int;
            &&& m.prg_mode == Mapper001PrgMode::FixLast && addr >= 0xC000 ==> m.cpu_value(addr)
                == m.prg_banks[n - 1][off]
            &&& m.prg_mode == Mapper001PrgMode::FixLast && addr < 0xC000 ==> m.cpu_value(addr)
                == m.prg_banks[m.prg_bank0 as int % n][off]
            &&& m.prg_mode == Mapper001PrgMode::FixFirst && addr < 0xC000 ==> m.cpu_value(addr)
                == m.prg_banks[0][off]
            &&& m.prg_mode == Mapper001PrgMode::FixFirst && addr >= 0xC000 ==> m.cpu_value(addr)
                == m.prg_banks[m.prg_bank1 as int % n][off]
            &&& m.prg_mode == Mapper001PrgMode::SwitchBoth && addr < 0xC000 ==> m.cpu_value(addr)
                == m.prg_banks[m.prg_bank0 as int % n][off]
            &&& m.prg_mode == Mapper001PrgMode::SwitchBoth && addr >= 0xC000 ==> m.cpu_value(addr)
                == m.prg_banks[(m.prg_bank0 as int + 1) % n][off]
        }),
{
}

/// Cuts `data` into banks of `size` bytes (the last one possibly shorter).
fn split_banks(data: &[u8], size: usize) -> (r: Vec<Vec<u8>>)
    requires
        size > 0,
        data@.len() + size <= usize::MAX,
    ensures
        banks_view(r@) == chunks(data@, size as nat),
{
    let mut r: Vec<Vec<u8>> = Vec::new();
    let count = (data.len() + size - 1) / size;
    let mut i: usize = 0;
    while i < count
        invariant
            size > 0,
            data@.len() + size <= usize::MAX,
            count == (data@.len() + size - 1) / (size as int),
            i <= count,
            r@.len() == i,
            forall|j: int| 0 <= j < i ==> (#[trigger] r@[j])@ == chunks(data@, size as nat)[j],
        decreases count - i,
    {
        proof {
            lemma_chunk_start((data@.len()) as nat, size as nat, i as nat);
        }
        let start = i * size;
        let end = if start + size <= data.len() {
            start + size
        } else {
            data.len()
        };
        let bank = copy_range(data, start, end - start);
        proof {
            assert((i + 1) * size == i * size + size) by (nonlinear_arith);
            assert(bank@ == chunks(data@, size as nat)[i as int]);
        }
        r.push(bank);
        i = i + 1;
    }
    proof {
        assert(banks_view(r@) =~= chunks(data@, size as nat));
    }
    r
}

/// The `k`-th chunk starts inside the data.
proof fn lemma_chunk_start(len: nat, n: nat, k: nat)
    requires
        n > 0,
        k < (len + n - 1) / (n as int),
    ensures
        k * n < len,
{
    let q = (len + n - 1) / (n as int);
    vstd::arithmetic::div_mod::lemma_fundamental_div_mod((len + n - 1) as int, n as int);
    vstd::arithmetic::div_mod::lemma_mod_pos_bound((len + n - 1) as int, n as int);
    assert(k * n < len) by (nonlinear_arith)
        requires
            n > 0,
            k + 1 <= q,
            q * n <= len + n - 1,
    ;
}

/// `count` zero-filled banks of `size` bytes.
fn zeroed_banks(count: usize, size: usize) -> (r: Vec<Vec<u8>>)
    ensures
        r@.len() == count,
        forall|i: int| 0 <= i < count ==> (#[trigger] r@[i])@ == Seq::new(size as nat, |j: int| 0u8),
{
    let mut r: Vec<Vec<u8>> = Vec::new();
    let mut i: usize = 0;
    while i < count
        invariant
            i <= count,
            r@.len() == i,
            forall|k: int| 0 <= k < i ==> (#[trigger] r@[k])@ == Seq::new(size as nat, |j: int| 0u8),
        decreases count - i,
    {
        let bank: Vec<u8> = vec![0; size];
        proof {
            assert(bank@ =~= Seq::new(size as nat, |j: int| 0u8));
        }
        r.push(bank);
        i = i + 1;
    }
    r
}

impl Mapper001 {
    /// Program banks of 16 kB, pattern banks of 8 kB (sixteen zeroed banks when the
    /// cartridge has no pattern ROM), four 8 kB program RAM banks, last bank fixed.
    pub fn new(prg_rom: &[u8], chr_rom: &[u8], _chr_ram_size: usize, mirroring: Mirroring) -> (r:
        Self)
        requires
            prg_rom@.len() <= 0x7FFF_0000,
            chr_rom@.len() <= 0x7FFF_0000,
        ensures
            r@.wf(),
            r@.prg_banks == chunks(prg_rom@, 0x4000),
            r@.chr_banks == (if chr_rom@.len() == 0 {
                Seq::new(16, |i: int| Seq::new(0x2000, |j: int| 0u8))
            } else {
                chunks(chr_rom@, 0x2000)
            }),
            r@.prg_ram_banks == Seq::new(4, |i: int| Seq::new(0x2000, |j: int| 0u8)),
            r@.mirroring == mirroring,
            r@.buffer == 0,
            r@.bit_idx == 0,
            r@.prg_bank0 == 0,
            r@.prg_bank1 == 1,
            r@.prg_ram_bank == 0,
            r@.chr_bank0 == 0,
            r@.chr_bank1 == 1,
            !r@.chr_independent_banks,
            r@.prg_mode == Mapper001PrgMode::FixLast,
    {
        let prg_banks = split_banks(prg_rom, MMC1_PRG_ROM_BANK_SIZE);
        let mut chr_banks = split_banks(chr_rom, MMC1_CHR_ROM_BANK_SIZE);
        if chr_banks.len() == 0 {
            chr_banks = zeroed_banks(16, MMC1_CHR_ROM_BANK_SIZE);
            proof {
                assert(banks_view(chr_banks@) =~= Seq::new(16, |i: int| Seq::new(0x2000, |j: int| 0u8)));
            }
        } else {
            proof {
                if chr_rom@.len() == 0 {
                    assert(chunks(chr_rom@, 0x2000).len() == 0);
                }
            }
        }
        let prg_ram_banks = zeroed_banks(MMC1_PRG_RAM_BANKS, MMC1_PRG_RAM_BANK_SIZE);
        proof {
            assert(banks_view(prg_ram_banks@) =~= Seq::new(4, |i: int| Seq::new(0x2000, |j: int| 0u8)));
            if chr_rom@.len() > 0 {
                assert(chunks(chr_rom@, 0x2000).len() > 0);
            }
        }
        Mapper001 {
            prg_banks,
            chr_banks,
            prg_ram_banks,
            mirroring,
            buffer: 0,
            bit_idx: 0,
            prg_bank0: 0,
            prg_bank1: 1,
            prg_ram_bank: 0,
            chr_bank0: 0,
            chr_bank1: 1,
            chr_independent_banks: false,
            prg_mode: Mapper001PrgMode::FixLast,
        }
    }

    fn store_buffer(&mut self, addr: u16)
        requires
            old(self)@.wf(),
            addr >= 0x8000,
        ensures
            final(self)@ == old(self)@.with_stored_buffer(addr),
            final(self)@.wf(),
    {
        proof {
            lemma_usize_masks();
        }
        if addr <= 0x9FFF {
            let data = self.buffer;
            self.write_control(data);
        } else if addr <= 0xBFFF {
            if !self.chr_independent_banks {
                self.chr_bank0 = self.buffer & 0x1E;
            } else {
                self.chr_bank0 = self.buffer;
            }
        } else if addr <= 0xDFFF {
            self.chr_bank1 = self.buffer;
        } else {
            let bank = self.buffer & 0xF;
            match self.prg_mode {
                Mapper001PrgMode::SwitchBoth => self.prg_bank0 = bank & 0xE,
                Mapper001PrgMode::FixFirst => self.prg_bank1 = bank,
                Mapper001PrgMode::FixLast => self.prg_bank0 = bank,
            }
        }
    }

    fn write_control(&mut self, data: usize)
        requires
            old(self)@.wf(),
        ensures
            final(self)@ == old(self)@.with_control(data),
            final(self)@.wf(),
    {
        proof {
            lemma_usize_masks();
        }
        self.mirroring = if data & 0x3 == 0 {
            Mirroring::SingleScreenLower
        } else if data & 0x3 == 1 {
            Mirroring::SingleScreenUpper
        } else if data & 0x3 == 2 {
            Mirroring::Vertical
        } else {
            Mirroring::Horizontal
        };
        self.prg_mode = if (data >> 2) & 0x3 <= 1 {
            Mapper001PrgMode::SwitchBoth
        } else if (data >> 2) & 0x3 == 2 {
            Mapper001PrgMode::FixFirst
        } else {
            Mapper001PrgMode::FixLast
        };
        self.chr_independent_banks = data & 0x10 != 0;
    }

    /// Bank serving a pattern address (the place the original hands out a reference to).
    fn chr_bank_index(&self, addr: u16) -> (r: usize)
        requires
            self@.wf(),
            addr < 0x2000,
        ensures
            r == self@.chr_bank_for(addr),
            r < self@.chr_banks.len(),
    {
        let banks = self.chr_banks.len();
        let bank = addr as usize / MMC1_CHR_ROM_BANK_SIZE;
        if bank == 0 {
            self.chr_bank0 % banks
        } else if !self.chr_independent_banks {
            (self.chr_bank0 + 1) % banks
        } else {
            self.chr_bank1 % banks
        }
    }

    /// Bank serving a program address (the place the original hands out a reference to).
    pub fn prg_bank_index(&self, addr: u16) -> (r: usize)
        requires
            self@.wf(),
            addr >= 0x8000,
            self@.prg_banks.len() > 0,
        ensures
            r == self@.prg_bank_for(addr),
            r < self@.prg_banks.len(),
    {
        let banks = self.prg_banks.len();
        let bank = (addr - 0x8000) as usize / MMC1_PRG_ROM_BANK_SIZE;
        if bank == 0 && self.prg_mode == Mapper001PrgMode::FixFirst {
            0
        } else if bank == 0 {
            self.prg_bank0 % banks
        } else if self.prg_mode == Mapper001PrgMode::SwitchBoth {
            (self.prg_bank0 + 1) % banks
        } else if self.prg_mode == Mapper001PrgMode::FixLast {
            banks - 1
        } else {
            self.prg_bank1 % banks
        }
    }
}

impl Mapper for Mapper001 {
    open spec fn wf(&self) -> bool {
        self@.wf()
    }

    open spec fn cpu_readable(&self, addr: u16) -> bool {
        self@.cpu_readable(addr)
    }

    open spec fn cpu_writable(&self, addr: u16) -> bool {
        addr >= 0x6000
    }

    open spec fn ppu_accessible(&self, addr: u16) -> bool {
        self@.ppu_accessible(addr)
    }

    open spec fn mirror_supported(&self) -> bool {
        self@.mirror_supported()
    }

    fn read_cpu(&mut self, addr: u16) -> (r: u8)
        ensures
            final(self)@ == old(self)@,
            r == old(self)@.cpu_value(addr),
    {
        if addr <= 0x7FFF {
            proof {
                assert(self@.prg_ram_banks[self.prg_ram_bank as int] == self.prg_ram_banks@[self.prg_ram_bank as int]@);
            }
            self.prg_ram_banks[self.prg_ram_bank][(addr as usize) % MMC1_PRG_RAM_BANK_SIZE]
        } else {
            let b = self.prg_bank_index(addr);
            self.prg_banks[b][(addr as usize) % MMC1_PRG_ROM_BANK_SIZE]
        }
    }

    fn write_cpu(&mut self, addr: u16, data: u8)
        ensures
            final(self)@ == old(self)@.after_cpu_write(addr, data),
    {
        if addr <= 0x7FFF {
            let b = self.prg_ram_bank;
            proof {
                assert(self@.prg_ram_banks[b as int] == self.prg_ram_banks@[b as int]@);
            }
            self.prg_ram_banks[b].set((addr as usize) % MMC1_PRG_RAM_BANK_SIZE, data);
            proof {
                assert(banks_view(self.prg_ram_banks@) =~= old(self)@.after_cpu_write(addr, data).prg_ram_banks);
            }
        } else if data & 0x80 == 0 {
            proof {
                lemma_usize_masks();
                assert(((data as usize) & 0x01) <= 1);
                lemma_shift_register(self.buffer, (data as usize) & 0x01, self.bit_idx);
            }
            self.buffer = self.buffer | (((data as usize) & 0x01) << self.bit_idx);
            if self.bit_idx + 1 == 5 {
                self.store_buffer(addr);
                self.bit_idx = 0;
                self.buffer = 0;
            } else {
                self.bit_idx = self.bit_idx + 1;
            }
        } else {
            self.bit_idx = 0;
            self.prg_mode = Mapper001PrgMode::FixLast;
        }
    }

    fn read_ppu(&mut self, addr: u16) -> (r: u8)
        ensures
            final(self)@ == old(self)@,
            r == old(self)@.ppu_value(addr),
    {
        let b = self.chr_bank_index(addr);
        self.chr_banks[b][(addr as usize) % MMC1_CHR_ROM_BANK_SIZE]
    }

    fn write_ppu(&mut self, addr: u16, data: u8)
        ensures
            final(self)@ == old(self)@.after_ppu_write(addr, data),
    {
        let b = self.chr_bank_index(addr);
        self.chr_banks[b].set((addr as usize) % MMC1_CHR_ROM_BANK_SIZE, data);
        proof {
            assert(banks_view(self.chr_banks@) =~= old(self)@.after_ppu_write(addr, data).chr_banks);
        }
    }

    fn mirror_vram(&self, addr: u16) -> (r: usize)
        ensures
            r == self@.vram_index(addr),
    {
        match self.mirroring {
            Mirroring::Vertical => mirror_vertical(addr),
            Mirroring::Horizontal => mirror_horizontal(addr),
            Mirroring::SingleScreenLower => mirror_single(addr, false),
            _ => mirror_single(addr, true),
        }
    }
}

/// Shifting one more bit into a buffer of fewer than five bits stays below 32.
proof fn lemma_shift_register(buffer: usize, bit: usize, idx: usize)
    by (bit_vector)
    requires
        buffer < 32,
        bit <= 1,
        idx < 5,
    ensures
        buffer | (bit << idx) < 32,
{
}

/// Masks of small `usize` values.
pub proof fn lemma_usize_masks()
    by (bit_vector)
    ensures
        forall|x: usize| #[trigger] (x & 0x1E) < 32,
        forall|x: usize| #[trigger] (x & 0xF) < 16,
        forall|x: usize| #[trigger] (x & 0xE) < 16,
        forall|x: usize| x < 16 ==> #[trigger] (x & 0xE) < 16,
        forall|x: usize| #[trigger] (x & 0x1) <= 1,
{
}

} // verus!
