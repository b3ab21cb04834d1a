use egui::Color32;
use rn3s::apu::dmc::Dmc;
use rn3s::apu::noise::Noise;
use rn3s::apu::pulse::Pulse;
use rn3s::apu::triangle::Triangle;
use rn3s::apu::Apu;
use rn3s::console::apu::dmc::Dmc as ConsoleDmc;
use rn3s::console::cartridge::mappers::Mirroring as CartMirroring;
use rn3s::console::cartridge::{get_mapper, Cartridge};
use rn3s::bus::Mirroring;
use rn3s::console::apu::ChannelLevels;
use rn3s::ppu::Ppu;
use rn3s::renderer::Renderer;

fn pal_bytes() -> Vec<u8> {
    (0..192u32).map(|i| (i % 251) as u8).collect()
}

#[test]
fn pulse_plays_its_duty_cycle() {
    let mut p = Pulse::new(0);
    p.write_r0(0b1011_1111); // duty 2, constant volume 15
    p.write_r2(0x10);
    p.set_enable(true);
    p.write_r3(0x08); // length index 1
    assert_eq!(p.period, 0x010);
    assert_eq!(p.lc.counter, 254);
    assert!(p.env.reset);
    assert_eq!(p.duty(), 2);
    assert_eq!(p.volume(), 15);
    p.tick();
    assert_eq!(p.timer, 0x10);
    assert_eq!(p.sequencer, 7);
    assert_eq!(p.sample, 15);
}

#[test]
fn pulse_is_silent_when_disabled_or_period_too_short() {
    let mut p = Pulse::new(1);
    p.write_r0(0xFF);
    p.write_r2(0x10);
    p.write_r3(0x08);
    p.tick();
    assert_eq!(p.sample, 0);
    let mut q = Pulse::new(1);
    q.set_enable(true);
    q.write_r0(0xFF);
    q.write_r2(0x04);
    q.write_r3(0x08);
    q.tick();
    assert_eq!(q.sample, 0);
}

#[test]
fn pulse_sweep_moves_period() {
    let mut p = Pulse::new(1);
    p.write_r2(0x00);
    p.write_r3(0x01); // period 0x100
    p.write_r1(0b1000_0001); // sweep enabled, period 0, shift 1, add
    p.tick(); // target 0x180
    assert_eq!(p.target_period, 0x180);
    p.tick_half_frame(); // the divider expires at once: the period takes the target
    assert_eq!(p.period, 0x180);
    assert_eq!(p.sweep_period, 0);
    assert!(!p.sw_reload);
}

#[test]
fn triangle_steps_through_its_wave() {
    let mut t = Triangle::new();
    t.set_enable(true);
    t.write_r0(0x7F);
    t.write_r2(0x02);
    t.write_r3(0x08);
    assert_eq!(t.length_counter, 254);
    t.tick_quarter_frame();
    assert_eq!(t.linear_counter, 127);
    assert!(!t.reload_lc);
    assert_eq!(t.tick(), 15); // timer expired: step to the last wave entry
    assert_eq!(t.wave_ptr, 31);
    assert_eq!(t.timer, 2);
    assert_eq!(t.tick(), 15);
    assert_eq!(t.tick(), 15);
    assert_eq!(t.tick(), 14);
}

#[test]
fn triangle_holds_without_linear_counter() {
    let mut t = Triangle::new();
    t.set_enable(true);
    assert_eq!(t.tick(), 15);
    assert_eq!(t.wave_ptr, 0);
    t.tick_half_frame();
    assert!(t.length_counter_zero);
}

#[test]
fn noise_shift_register_steps() {
    let mut n = Noise::new();
    n.set_enable(true);
    n.write_r0(0x1F); // constant volume 15
    n.write_r2(0x00); // shortest period: 4
    assert_eq!(n.timer, 4);
    for _ in 0..4 {
        assert_eq!(n.tick(), 0);
    }
    assert_eq!(n.tick(), 15);
    assert_eq!(n.shift_register, 0x4000);
    assert_eq!(n.timer, 4);
}

#[test]
fn dmc_direct_load() {
    let mut d = Dmc::new();
    d.write_r1(0xFF);
    assert_eq!(d.output, 0x7F);
    assert_eq!(d.direct_load(), 0x7F);
    d.write_r0(0xCF);
    assert_eq!(d.rate(), 0xF);
    assert!(d.dmc_loop() && d.irq_enable());
}

#[test]
fn apu_clocks_channels_every_other_cycle() {
    let mut apu = Apu::new();
    apu.write(0x4015, 0x01);
    apu.write(0x4000, 0b1011_1111);
    apu.write(0x4002, 0x10);
    apu.write(0x4003, 0x08);
    let first = apu.tick();
    assert_eq!(first.pulse1, 0);
    let second = apu.tick();
    assert_eq!(
        second,
        ChannelLevels { pulse1: 15, pulse2: 0, triangle: 15, noise: 0, dmc: 0 }
    );
    assert_eq!(apu.read(0x4015), 0);
}

#[test]
fn apu_five_step_mode() {
    let mut apu = Apu::new();
    apu.write(0x4017, 0x80);
    assert!(apu.framec_mode);
    assert_eq!(apu.cycle, 18639);
    apu.write(0x4015, 0x00);
    assert!(!apu.pulse1.enable && !apu.noise.enable);
}

#[test]
fn standalone_ppu_reaches_vblank() {
    let mut ppu = Ppu::new(vec![0; 0x2000], Mirroring::Vertical);
    let mut ticks = 0u32;
    loop {
        ticks += 1;
        if ppu.tick() {
            break;
        }
    }
    assert_eq!(ticks, 241 * 341);
    assert_eq!(ppu.read(0x2002) & 0x80, 0x80);
    assert_eq!(ppu.read(0x2002) & 0x80, 0x00);
}

#[test]
fn standalone_ppu_raises_nmi_in_vblank() {
    let mut ppu = Ppu::new(vec![0; 0x2000], Mirroring::Horizontal);
    ppu.write(0x2000, 0x80);
    while !ppu.tick() {}
    assert!(!ppu.nmi_up);
    ppu.tick();
    assert!(ppu.nmi_up);
}

#[test]
fn standalone_ppu_draws_backdrop() {
    let mut ppu = Ppu::new(vec![0; 0x2000], Mirroring::Vertical);
    ppu.write(0x2006, 0x3F);
    ppu.write(0x2006, 0x00);
    ppu.write(0x2007, 0x21);
    ppu.write(0x2001, 0x0A);
    for _ in 0..341 {
        ppu.tick();
    }
    assert_eq!(ppu.frame[0], 0x21);
    assert_eq!(ppu.frame[255], 0x21);
    assert_eq!(ppu.frame[256], 0);
}

#[test]
fn renderer_colours_the_picture() {
    let bytes = pal_bytes();
    let mut renderer = Renderer::new(&bytes).unwrap();
    let mut ppu = Ppu::new(vec![0; 0x2000], Mirroring::Vertical);
    ppu.frame[1] = 2;
    let texture = renderer.render_texture(&ppu);
    assert_eq!(texture.len(), 256 * 240);
    assert_eq!(texture[0], Color32::from_rgb(0, 1, 2));
    assert_eq!(texture[1], Color32::from_rgb(6, 7, 8));
    assert!(Renderer::new(&bytes[..100]).is_err());
}

#[test]
fn rgba_renderer_colours_the_console_picture() {
    let bytes = pal_bytes();
    let mut renderer = rn3s::emulator::renderer::Renderer::new(&bytes).unwrap();
    let mut ppu = rn3s::console::ppu::Ppu::new();
    ppu.frame[1] = 3;
    assert!(renderer.covers(&ppu));
    let rgba = renderer.render_texture(&ppu);
    assert_eq!(rgba.len(), 256 * 240 * 4);
    assert_eq!(&rgba[0..8], &[0, 1, 2, 255, 9, 10, 11, 255]);
}

#[test]
fn dmc_output_moves_by_two_within_range() {
    let mut cart = Cartridge {
        mapper: get_mapper(0, vec![0xFF; 0x4000], vec![0; 0x2000], 0, CartMirroring::Vertical)
            .unwrap(),
    };
    let mut d = ConsoleDmc::new();
    d.write_r0(0x4F); // loop, fastest rate
    d.write_r1(0x7A);
    d.write_r2(0x00);
    d.write_r3(0x01);
    d.set_enable(true);
    let mut previous = d.output;
    assert_eq!(previous, 0x7A);
    let mut moved = false;
    for _ in 0..5000 {
        d.tick(&mut cart);
        assert!(d.output <= 127);
        assert!(d.output == previous || d.output == previous + 2 || d.output + 2 == previous);
        moved |= d.output != previous;
        previous = d.output;
    }
    assert!(moved);
    assert_eq!(d.output, 126);
}

#[test]
fn console_ppu_vblank_period() {
    let mut cart = Cartridge {
        mapper: get_mapper(0, vec![0; 0x4000], vec![0; 0x2000], 0, CartMirroring::Vertical).unwrap(),
    };
    let mut ppu = rn3s::console::ppu::Ppu::new();
    let mut starts: Vec<u32> = Vec::new();
    for k in 1..=(241 * 341 + 2 * 262 * 341) {
        if ppu.tick(&mut cart) {
            starts.push(k);
        }
    }
    assert_eq!(starts, vec![241 * 341, 241 * 341 + 262 * 341, 241 * 341 + 2 * 262 * 341]);
}
