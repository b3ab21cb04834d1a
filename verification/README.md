# rn3s

A NES emulator core whose logic is verified with Verus.

- `src/console/` is the emulated machine: the 6502 processor (`cpu`, with its opcode
  table in `cpu/instr`), the CPU bus with work RAM and sprite DMA (`bus`), the picture
  processor and its registers (`ppu`), the sound unit and its channels (`apu`),
  cartridges with mappers 0 and 1 (`cartridge`), and the controller.
- `src/cpu.rs`, `src/bus.rs`, `src/ppu.rs`, `src/apu.rs`, `src/cartridge.rs` and
  `src/controller.rs` are the standalone parts: a processor with a flat 64 kB memory, a
  bus with its own ROM loader, a picture processor with its own pattern memory, and
  sound channels that keep their raw register bytes.
- `src/renderer/` and `src/emulator/renderer.rs` turn a picture of colour indices into
  colours through a palette.

Every public function states its effect in `ensures` over a spec view of its type, and
the laws of the machine (the stack gives back what was pushed, RAM mirrors, a byte
written through the picture processor's data port reads back, the controller reports
its buttons in order, and more) are proof functions next to the code they are about.

`app/` is the program around the library: it reads the ROM and palette files, runs the
processor loop with an SDL2/egui window, mixes and resamples the sound, and handles
input.
