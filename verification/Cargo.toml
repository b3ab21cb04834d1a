[package]
name = "rn3s"
version = "0.1.0"
edition = "2021"
publish = false

[dependencies]
eyre = "=0.6.14"
env_logger = "=0.9.3"
sdl2 = "=0.35.2"
egui_sdl2_gl = "=0.16.0"
egui = "=0.16.1"
gl = "=0.14.0"
rubato = "=0.12.0"
biquad = "=0.4.2"
