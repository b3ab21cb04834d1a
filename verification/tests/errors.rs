use rn3s::bus::Rom;
use rn3s::cartridge::Cartridge as StandaloneCartridge;
use rn3s::console::bus::{Bus, BusFault};
use rn3s::console::cartridge::mappers::Mirroring;
use rn3s::console::cartridge::{get_mapper, Cartridge, CartridgeError};
use rn3s::console::cpu::{Cpu, CpuError, Flow};
use rn3s::console::{Console, ConsoleError};
use rn3s::cpu::{Cpu as StandaloneCpu, CpuError as StandaloneCpuError};
use rn3s::renderer::palette::{Palette, PaletteError};

fn header(prg_banks: u8, chr_banks: u8, flags6: u8, flags7: u8) -> Vec<u8> {
    vec![0x4E, 0x45, 0x53, 0x1A, prg_banks, chr_banks, flags6, flags7, 0, 0, 0, 0, 0, 0, 0, 0]
}

fn image(prg_banks: u8, chr_banks: u8, flags6: u8, flags7: u8) -> Vec<u8> {
    let mut raw = header(prg_banks, chr_banks, flags6, flags7);
    raw.extend(vec![0xEA; prg_banks as usize * 0x4000]);
    raw.extend(vec![0; chr_banks as usize * 0x2000]);
    raw
}

#[test]
fn rom_rejects_other_formats() {
    let not_ines = Rom::new(vec![0; 16]);
    assert_eq!(not_ines.err().unwrap(), "File is not in iNES file format");
    let nes2 = Rom::new(header(1, 1, 0, 0x08));
    assert_eq!(nes2.err().unwrap(), "NES2.0 format is not supported");
    let ok = Rom::new(image(1, 1, 0x01, 0)).unwrap();
    assert_eq!(ok.prg.len(), 0x4000);
    assert_eq!(ok.chr.len(), 0x2000);
    assert_eq!(ok.mirroring, rn3s::bus::Mirroring::Vertical);
}

#[test]
fn standalone_cartridge_rejects_other_formats() {
    let not_ines = StandaloneCartridge::new(vec![1, 2, 3, 4]);
    assert_eq!(not_ines.err().unwrap(), "File is not in iNES file format");
    let nes2 = StandaloneCartridge::new(header(1, 1, 0, 0x08));
    assert_eq!(nes2.err().unwrap(), "NES2.0 format is not supported (for now)");
    let mut ok = StandaloneCartridge::new(image(1, 1, 0, 0)).unwrap();
    assert_eq!(ok.read_cpu(0x8000), 0xEA);
    assert_eq!(ok.read_cpu(0xC000), 0xEA);
    ok.write_cpu(0x6000, 0x12);
    assert_eq!(ok.read_cpu(0x6000), 0x12);
}

#[test]
fn console_cartridge_errors() {
    assert_eq!(Cartridge::new(vec![0; 16]).err(), Some(CartridgeError::NotINes));
    assert_eq!(Cartridge::new(header(1, 1, 0, 0x08)).err(), Some(CartridgeError::Nes2Unsupported));
    assert_eq!(
        Cartridge::new(image(1, 1, 0x20, 0)).err(),
        Some(CartridgeError::UnsupportedMapper(2))
    );
    assert!(Cartridge::new(image(1, 1, 0, 0)).is_ok());
}

#[test]
fn console_errors() {
    assert_eq!(
        Console::new(vec![0; 16]).err(),
        Some(ConsoleError::Cartridge(CartridgeError::NotINes))
    );
    assert_eq!(
        Console::new(image(1, 1, 0x20, 0)).err(),
        Some(ConsoleError::Cartridge(CartridgeError::UnsupportedMapper(2)))
    );
    // no program ROM: it loads, but cannot run
    assert!(!Console::new(image(0, 1, 0, 0)).unwrap().is_playable());
    // four-screen nametables are not supported by mapper 0: it loads, but cannot run
    assert!(!Console::new(image(1, 1, 0x08, 0)).unwrap().is_playable());
    assert!(Console::new(image(1, 1, 0x01, 0)).unwrap().is_playable());
}

#[test]
fn palette_errors() {
    assert_eq!(Palette::from_bytes(&[0; 10]).err(), Some(PaletteError::TooShort));
    assert_eq!(Palette::from_bytes(&[0; 193]).err(), Some(PaletteError::NotTriples));
    let p = Palette::from_bytes(&[7; 192]).unwrap();
    assert_eq!(p.palette.len(), 64);
    assert_eq!(p.palette[63], (7, 7, 7));
}

#[test]
fn console_cpu_unsupported_opcode() {
    let cart = Cartridge {
        mapper: get_mapper(0, vec![0; 0x4000], vec![0; 0x2000], 0, Mirroring::Vertical).unwrap(),
    };
    let mut cpu = Cpu::new(Bus::new(cart));
    cpu._setup(&[0x4B, 0x01]);
    assert_eq!(cpu.step(), Err(CpuError::UnsupportedOpcode(0x4B)));
}

#[test]
fn console_cpu_halts() {
    let cart = Cartridge {
        mapper: get_mapper(0, vec![0; 0x4000], vec![0; 0x2000], 0, Mirroring::Vertical).unwrap(),
    };
    let mut cpu = Cpu::new(Bus::new(cart));
    cpu._setup(&[0x02]);
    assert_eq!(cpu.step(), Ok(Flow::Halt));
}

#[test]
fn console_bus_refuses_writes_below_mmc1_memory() {
    let cart = Cartridge {
        mapper: get_mapper(1, vec![0; 0x8000], vec![0; 0x2000], 0, Mirroring::Vertical).unwrap(),
    };
    let mut bus = Bus::new(cart);
    assert_eq!(bus.write(0x5000, 1), Err(BusFault::Write(0x5000)));
    assert_eq!(bus.write(0x6000, 1), Ok(()));
    assert_eq!(bus.read(0x6000), 1);
}

#[test]
fn console_cpu_reports_bus_faults() {
    let cart = Cartridge {
        mapper: get_mapper(1, vec![0; 0x8000], vec![0; 0x2000], 0, Mirroring::Vertical).unwrap(),
    };
    let mut cpu = Cpu::new(Bus::new(cart));
    // STA $5000
    cpu._setup(&[0x8D, 0x00, 0x50]);
    assert_eq!(cpu.step(), Err(CpuError::Bus(BusFault::Write(0x5000))));
}

#[test]
fn standalone_cpu_unknown_opcode() {
    let mut cpu = StandaloneCpu::new();
    cpu.setup(vec![0x02]);
    assert_eq!(cpu.run(), Err(StandaloneCpuError::UnknownOpcode(0x02)));
}

#[test]
fn standalone_cpu_word_past_end() {
    let mut cpu = StandaloneCpu::new();
    cpu.memory[0xFFFE] = 0x4C;
    cpu.program_counter = 0xFFFE;
    assert_eq!(cpu.step(), Err(StandaloneCpuError::WordPastEnd(0xFFFF)));
}

#[test]
fn rom_loads_a_valid_image() {
    let mut raw = vec![0x4E, 0x45, 0x53, 0x1A, 1, 1, 0x01, 0x00];
    raw.extend(vec![0; 8]);
    raw.extend(vec![0xAA; 0x4000]);
    raw.extend(vec![0xBB; 0x2000]);
    let rom = Rom::new(raw.clone()).unwrap();
    assert_eq!(rom.prg, vec![0xAA; 0x4000]);
    assert_eq!(rom.chr, vec![0xBB; 0x2000]);
    assert_eq!(rom.mapper, 0);
    assert_eq!(rom.mirroring, rn3s::bus::Mirroring::Vertical);
    let mut bad_tag = raw.clone();
    bad_tag[3] = 0;
    assert_eq!(Rom::new(bad_tag).err().unwrap(), "File is not in iNES file format");
    let mut nes2 = raw;
    nes2[7] = 0x08;
    assert_eq!(Rom::new(nes2).err().unwrap(), "NES2.0 format is not supported");
}
