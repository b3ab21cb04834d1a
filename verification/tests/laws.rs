use rn3s::apu::common::{Envelope, LengthCounter};
use rn3s::bus::{Bus as StandaloneBus, Rom};
use rn3s::console::bus::Bus;
use rn3s::console::cartridge::mappers::Mirroring;
use rn3s::console::cartridge::{get_mapper, Cartridge};
use rn3s::console::cpu::{add_with_carry, Cpu, StatusReg};
use rn3s::controller::{Button, Controller};
use rn3s::cpu::{subtract_with_borrow, Cpu as StandaloneCpu, StatusFlags};
use rn3s::ppu::regs::AddrReg;
use rn3s::ppu::Ppu;
use rn3s::renderer::frame::Frame;

fn playable_cart() -> Cartridge {
    Cartridge {
        mapper: get_mapper(0, vec![0; 0x4000], vec![0; 0x2000], 0, Mirroring::Vertical).unwrap(),
    }
}

/// A minimal iNES image for mapper 0: one program bank and one pattern bank.
fn ines_image(prg_fill: u8) -> Vec<u8> {
    let mut raw = vec![0x4E, 0x45, 0x53, 0x1A, 1, 1, 0x01, 0, 0, 0, 0, 0, 0, 0, 0, 0];
    raw.extend(vec![prg_fill; 0x4000]);
    raw.extend(vec![0; 0x2000]);
    raw
}

#[test]
fn stack_returns_pushed_byte_standalone() {
    let mut cpu = StandaloneCpu::new();
    // LDA #$42; PHA; LDA #$00; PLA; BRK
    cpu.setup(vec![0xA9, 0x42, 0x48, 0xA9, 0x00, 0x68, 0x00]);
    let sp = cpu.stack_pointer;
    cpu.run().unwrap();
    assert_eq!(cpu.register_a, 0x42);
    assert_eq!(cpu.stack_pointer, sp);
}

#[test]
fn stack_returns_pushed_word_standalone() {
    let mut cpu = StandaloneCpu::new();
    // JSR $8005; BRK; NOP; NOP; LDX #$07; RTS
    cpu.setup(vec![0x20, 0x05, 0x80, 0x00, 0xEA, 0xA2, 0x07, 0x60]);
    cpu.stack_pointer = 0xFD;
    let sp = cpu.stack_pointer;
    cpu.run().unwrap();
    assert_eq!(cpu.register_x, 0x07);
    assert_eq!(cpu.stack_pointer, sp);
    assert_eq!(cpu.program_counter, 0x8004);
}

#[test]
fn stack_returns_pushed_byte_console() {
    let mut cpu = Cpu::new(Bus::new(playable_cart()));
    cpu._setup(&[0xA9, 0x42, 0x48, 0xA9, 0x00, 0x68, 0x00]);
    let sp = cpu.stack_pointer;
    cpu._run().unwrap();
    assert_eq!(cpu.register_a, 0x42);
    assert!(!cpu.status.zero);
    assert_eq!(cpu.stack_pointer, sp);
}

#[test]
fn ram_mirrors_standalone_bus() {
    let rom = Rom::new(ines_image(0xEA)).unwrap();
    let mut bus = StandaloneBus::new(rom);
    bus.write(0x0001, 0x55);
    assert_eq!(bus.read(0x0001), 0x55);
    assert_eq!(bus.read(0x0801), 0x55);
    assert_eq!(bus.read(0x1001), 0x55);
    assert_eq!(bus.read(0x1801), 0x55);
    assert_eq!(bus.read(0x0002), 0x00);
    bus.write(0x1FFF, 0x99);
    assert_eq!(bus.read(0x07FF), 0x99);
}

#[test]
fn ram_mirrors_console_bus() {
    let mut bus = Bus::new(playable_cart());
    assert_eq!(bus.write(0x0801, 0x55), Ok(()));
    assert_eq!(bus.read(0x0001), 0x55);
    assert_eq!(bus.read(0x1801), 0x55);
    assert_eq!(bus.read(0x0000), 0x00);
}

#[test]
fn ppu_data_round_trip() {
    let mut ppu = Ppu::new(vec![0; 0x2000], rn3s::bus::Mirroring::Vertical);
    ppu.write(0x2006, 0x23);
    ppu.write(0x2006, 0x05);
    ppu.write(0x2007, 0x66);
    ppu.write(0x2006, 0x23);
    ppu.write(0x2006, 0x05);
    ppu.read(0x2007);
    assert_eq!(ppu.read(0x2007), 0x66);
    // the same byte through the mirrored nametable
    ppu.write(0x2006, 0x2B);
    ppu.write(0x2006, 0x05);
    ppu.read(0x2007);
    assert_eq!(ppu.read(0x2007), 0x66);
}

#[test]
fn ppu_address_port_console() {
    let mut bus = Bus::new(playable_cart());
    assert_eq!(bus.write(0x2006, 0x21), Ok(()));
    assert_eq!(bus.write(0x2006, 0x08), Ok(()));
    assert_eq!(bus.write(0x2007, 0x77), Ok(()));
    assert_eq!(bus.write(0x2006, 0x21), Ok(()));
    assert_eq!(bus.write(0x2006, 0x08), Ok(()));
    bus.read(0x2007);
    assert_eq!(bus.read(0x2007), 0x77);
}

#[test]
fn controller_reports_buttons_in_order() {
    let mut c = Controller::new();
    c.set_button_state(Button::A, true);
    c.set_button_state(Button::Start, true);
    c.set_button_state(Button::Right, true);
    c.write(1);
    c.write(0);
    let bits: Vec<u8> = (0..8).map(|_| c.read()).collect();
    assert_eq!(bits, vec![1, 0, 0, 1, 0, 0, 0, 1]);
    assert_eq!(c.read(), 1);
}

#[test]
fn envelope_decays_after_reset() {
    let mut e = Envelope { divider: 0, value: 0, reset: true, divider_start: 0, looping: false };
    e.tick();
    assert_eq!(e.value, 15);
    for expected in (0..15).rev() {
        e.tick();
        assert_eq!(e.value, expected);
    }
    e.tick();
    assert_eq!(e.value, 0);
}

#[test]
fn envelope_loops_back_to_fifteen() {
    let mut e = Envelope { divider: 0, value: 0, reset: false, divider_start: 0, looping: true };
    e.tick();
    assert_eq!(e.value, 15);
}

#[test]
fn length_counter_runs_out() {
    let mut lc = LengthCounter { counter: 2, muting: false };
    lc.tick();
    assert_eq!(lc.counter, 1);
    assert!(!lc.muting);
    lc.tick();
    assert_eq!(lc.counter, 0);
    assert!(lc.muting);
    lc.tick();
    assert_eq!(lc.counter, 0);
    assert!(lc.muting);
}

#[test]
fn status_flags_round_trip() {
    let flags = StatusFlags::from(0b1110_0011u8);
    assert!(flags.carry && flags.zero && flags.overflow && flags.negative);
    assert!(!flags.irq_disable && !flags.decimal && !flags.break_cmd);
    assert_eq!(u8::from(flags), 0b1100_0011);
    let s = StatusReg::from(0b0001_0101u8);
    assert_eq!(u8::from(s), 0b0011_0101);
    assert_eq!(StatusReg::from(u8::from(s)), s);
}

#[test]
fn adc_and_sbc_arithmetic() {
    assert_eq!(add_with_carry(0x50, 0x50, false), (0xA0, false, true));
    assert_eq!(add_with_carry(0xFF, 0x01, false), (0x00, true, false));
    assert_eq!(add_with_carry(0xFF, 0x00, true), (0x00, true, false));
    assert_eq!(subtract_with_borrow(0x50, 0x10, true), (0x40, true, false));
    assert_eq!(subtract_with_borrow(0x50, 0xF0, true), (0x60, false, false));
}

#[test]
fn rotates_undo_each_other() {
    let mut cpu = Cpu::new(Bus::new(playable_cart()));
    // LDA #$81; CLC; ROL A; ROR A; BRK
    cpu._setup(&[0xA9, 0x81, 0x18, 0x2A, 0x6A, 0x00]);
    cpu._run().unwrap();
    assert_eq!(cpu.register_a, 0x81);
    assert!(!cpu.status.carry);
}

#[test]
fn branch_backwards_loops() {
    let mut cpu = Cpu::new(Bus::new(playable_cart()));
    // LDX #3; DEX; BNE -3; BRK
    cpu._setup(&[0xA2, 0x03, 0xCA, 0xD0, 0xFD, 0x00]);
    cpu._run().unwrap();
    assert_eq!(cpu.register_x, 0);
    assert!(cpu.status.zero);
}

#[test]
fn frame_reads_back_a_set_pixel() {
    let mut f = Frame::new();
    f.set_pixel(10, 20, (1, 2, 3));
    assert_eq!(f._pixel(10, 20), (1, 2, 3));
    assert_eq!(f._pixel(11, 20), (0, 0, 0));
}

#[test]
fn address_register_two_writes() {
    let mut r = AddrReg::new();
    r.write(0x21);
    r.write(0x08);
    assert_eq!(r.get(), 0x2108);
    r.write(0xFF);
    r.write(0xFF);
    assert_eq!(r.get(), 0x3FFF);
    r.increment(1);
    assert_eq!(r.get(), 0x0000);
}

#[test]
fn sprite_dma_copies_a_ram_page() {
    let rom = Rom::new(ines_image(0xEA)).unwrap();
    let mut bus = StandaloneBus::new(rom);
    for i in 0..256u16 {
        bus.write(0x0200 + i, (i as u8) ^ 0x5A);
    }
    bus.write(0x2003, 0x10);
    bus.write(0x4014, 0x02);
    assert_eq!(bus.read(0x2004), 0x5A);
    bus.write(0x2003, 0x0F);
    assert_eq!(bus.read(0x2004), 0xA5);
    bus.write(0x2003, 0x11);
    assert_eq!(bus.read(0x2004), 0x01 ^ 0x5A);
}

#[test]
fn sprite_dma_copies_a_ram_page_console() {
    let mut bus = Bus::new(playable_cart());
    for i in 0..256u16 {
        assert_eq!(bus.write(0x0300 + i, (i as u8) ^ 0x3C), Ok(()));
    }
    assert_eq!(bus.write(0x2003, 0x20), Ok(()));
    assert_eq!(bus.write(0x4014, 0x03), Ok(()));
    assert_eq!(bus.read(0x2004), 0x3C);
    assert_eq!(bus.write(0x2003, 0x1F), Ok(()));
    assert_eq!(bus.read(0x2004), 0xFF ^ 0x3C);
}
