use rn3s::bus::Mirroring;
use rn3s::ppu::regs::ScrollReg;
use rn3s::ppu::Ppu;

#[test]
fn test_vertical_mirroring() {
    let ppu = Ppu::new(vec![0; 0], Mirroring::Vertical);
    assert_eq!(ppu.mirrored_vram_addr(0x2356), 0x356);
    assert_eq!(ppu.mirrored_vram_addr(0x2556), 0x556);
    assert_eq!(ppu.mirrored_vram_addr(0x2956), 0x156);
    assert_eq!(ppu.mirrored_vram_addr(0x2e56), 0x656);

    assert_eq!(ppu.mirrored_vram_addr(0x3356), 0x356);
    assert_eq!(ppu.mirrored_vram_addr(0x3556), 0x556);
    assert_eq!(ppu.mirrored_vram_addr(0x3956), 0x156);
    assert_eq!(ppu.mirrored_vram_addr(0x3e56), 0x656);
}

#[test]
fn test_horizontal_mirroring() {
    let ppu = Ppu::new(vec![0; 0], Mirroring::Horizontal);
    assert_eq!(ppu.mirrored_vram_addr(0x2356), 0x356);
    assert_eq!(ppu.mirrored_vram_addr(0x2556), 0x156);
    assert_eq!(ppu.mirrored_vram_addr(0x2956), 0x556);
    assert_eq!(ppu.mirrored_vram_addr(0x2e56), 0x656);

    assert_eq!(ppu.mirrored_vram_addr(0x3356), 0x356);
    assert_eq!(ppu.mirrored_vram_addr(0x3556), 0x156);
    assert_eq!(ppu.mirrored_vram_addr(0x3956), 0x556);
    assert_eq!(ppu.mirrored_vram_addr(0x3e56), 0x656);
}

#[test]
fn test_addr_write() {
    let mut reg = ScrollReg::new();
    assert_eq!(reg.addr(), 0x0000);

    reg.write_addr(0x32);
    reg.write_addr(0x10);

    assert_eq!(reg.addr(), 0x3210);
}

#[test]
fn test_addr_reset() {
    let mut reg = ScrollReg::new();

    reg.write_addr(0x32);
    reg.reset_latch();
    reg.write_addr(0x10);
    reg.write_addr(0x32);

    assert_eq!(reg.addr(), 0x1032);
}

#[test]
fn test_addr_increment() {
    let mut reg = ScrollReg::new();

    reg.write_addr(0x3f);
    reg.write_addr(0x00);
    assert_eq!(reg.addr(), 0x3f00);

    reg.increment(0xff);
    assert_eq!(reg.addr(), 0x3fff);
    reg.increment(0x1);
    assert_eq!(reg.addr(), 0x0000);
}

#[test]
fn test_ppu_addr_write() {
    let mut ppu = Ppu::new(vec![0; 0], Mirroring::Horizontal);

    ppu.write(0x2006, 0x3f);
    ppu.write(0x2006, 0x12);

    assert_eq!(ppu.vaddr.addr(), 0x3f12);
}

#[test]
fn test_ppu_data_read_rom() {
    let mut ppu = Ppu::new(vec![0, 0, 0x56, 0, 0], Mirroring::Horizontal);

    ppu.write(0x2006, 0x00);
    ppu.write(0x2006, 0x02);

    assert_eq!(ppu.read(0x2007), 0);
    assert_eq!(ppu.read(0x2007), 0x56);
    assert_eq!(ppu.read(0x2007), 0);
}

#[test]
fn test_ppu_data_read_vram() {
    let mut ppu = Ppu::new(vec![0; 0], Mirroring::Vertical);

    ppu.vram[0x145] = 56;

    ppu.write(0x2006, 0x21);
    ppu.write(0x2006, 0x45);

    assert_eq!(ppu.read(0x2007), 0);
    assert_eq!(ppu.read(0x2007), 56);
    assert_eq!(ppu.read(0x2007), 0);
}

#[test]
fn test_ppu_data_read_palette() {
    let mut ppu = Ppu::new(vec![0; 0], Mirroring::Vertical);

    ppu.palette[0x13] = 0x67;

    ppu.write(0x2006, 0x3f);
    ppu.write(0x2006, 0x12);

    assert_eq!(ppu.read(0x2007), 0x0);
    assert_eq!(ppu.read(0x2007), 0x67);
    assert_eq!(ppu.read(0x2007), 0);
}

#[test]
fn test_ppu_data_read_increment() {
    let mut ppu = Ppu::new((0..100).collect(), Mirroring::Vertical);

    ppu.write(0x2000, 0x1 << 2);
    ppu.write(0x2006, 0x00);
    ppu.write(0x2006, 0x02);

    assert_eq!(ppu.read(0x2007), 0);
    assert_eq!(ppu.read(0x2007), 2);
    ppu.write(0x2000, 0);
    assert_eq!(ppu.read(0x2007), 34);
    assert_eq!(ppu.read(0x2007), 66);
    assert_eq!(ppu.read(0x2007), 67);
}

#[test]
fn test_ppu_data_write_vram() {
    let mut ppu = Ppu::new(vec![0; 0], Mirroring::Vertical);

    ppu.write(0x2006, 0x21);
    ppu.write(0x2006, 0x45);

    ppu.write(0x2007, 0x56);
    ppu.write(0x2007, 0x65);

    assert_eq!(ppu.vram[0x145], 0x56);
    assert_eq!(ppu.vram[0x146], 0x65);
}

#[test]
fn test_ppu_oam_read() {
    let mut ppu = Ppu::new(vec![0; 0], Mirroring::Vertical);

    ppu.oam[0x21] = 0x56;
    ppu.write(0x2003, 0x21);

    assert_eq!(ppu.read(0x2004), 0x56);
    assert_eq!(ppu.read(0x2004), 0x56);
}

#[test]
fn test_ppu_oam_write() {
    let mut ppu = Ppu::new(vec![0; 0], Mirroring::Vertical);

    ppu.write(0x2003, 0x21);
    ppu.write(0x2004, 0x56);
    ppu.write(0x2004, 0x65);

    assert_eq!(ppu.oam[0x21], 0x56);
    assert_eq!(ppu.oam[0x22], 0x65);
}

#[test]
fn test_scroll_write() {
    let mut ppu = Ppu::new(vec![0; 0], Mirroring::Vertical);

    ppu.write(0x2005, 0x21);
    ppu.write(0x2005, 0x56);

    assert_eq!(ppu.scroll.x(), 0x21);
    assert_eq!(ppu.scroll.y(), 0x56);

    ppu.write(0x2005, 0x17);
    ppu.write(0x2005, 0x34);

    assert_eq!(ppu.scroll.x(), 0x17);
    assert_eq!(ppu.scroll.y(), 0x34);
}
