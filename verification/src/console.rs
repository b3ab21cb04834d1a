pub mod apu;
pub mod bus;
pub mod cartridge;
pub mod controller;
pub mod cpu;
pub mod ppu;

use vstd::prelude::*;
use crate::console::bus::Bus;
use crate::console::cartridge::{
    Cartridge, CartridgeError, CartridgeView, has_ines_tag, ines_complete, ines_mapper, ines_version,
    loaded_from,
};
use crate::console::cpu::{Cpu, CpuError, CpuView, Flow, status_of};

verus! {

pub const SCREEN_WIDTH: usize = 256;
pub const SCREEN_HEIGHT: usize = 240;

/// Why a console could not be built from a ROM image.
#[derive(Clone, Copy, PartialEq, Eq, Structural, Debug)]
pub enum ConsoleError {
    /// The image could not be loaded.
    Cartridge(CartridgeError),
}

/// The processor state of a console that was just switched on with cartridge `cart`.
pub open spec fn power_on(s: CpuView, cart: CartridgeView) -> bool {
    &&& s.bus.is_power_on(cart)
    &&& s.a == 0 && s.x == 0 && s.y == 0 && s.pc == 0 && s.sp == 0
    &&& s.status == status_of(0x24)
    &&& s.mnemonic is None
    &&& s.cycles == 0
    &&& !s.nmi_seen && !s.quit_on_brk
    &&& s.fault is None
}

/// A whole console: the processor, and through its bus everything else.
pub struct Console {
    pub cpu: Cpu,
}

impl Console {
    pub open spec fn wf(&self) -> bool {
        self.cpu@.wf()
    }

    /// A console with the cartridge in `rom` inserted.
    pub fn new(rom: Vec<u8>) -> (r: Result<Self, ConsoleError>)
        requires
            ines_complete(rom@),
        ensures
            !has_ines_tag(rom@) <==> r == Err::<Console, ConsoleError>(ConsoleError::Cartridge(
                CartridgeError::NotINes,
            )),
            has_ines_tag(rom@) && ines_version(rom@) != 0 <==> r == Err::<Console, ConsoleError>(
                ConsoleError::Cartridge(CartridgeError::Nes2Unsupported),
            ),
            has_ines_tag(rom@) && ines_version(rom@) == 0 && ines_mapper(rom@) > 1 <==> r == Err::<
                Console,
                ConsoleError,
            >(ConsoleError::Cartridge(CartridgeError::UnsupportedMapper(ines_mapper(rom@)))),
            has_ines_tag(rom@) && ines_version(rom@) == 0 && ines_mapper(rom@) <= 1 <==> r is Ok,
            r matches Ok(c) ==> {
                &&& loaded_from(c.cpu@.bus.cartridge, rom@)
                &&& power_on(c.cpu@, c.cpu@.bus.cartridge)
                &&& c.cpu@.bus.cartridge.wf()
                &&& (c.wf() <==> c.cpu@.bus.cartridge.playable())
            },
    {
        let cartridge = match Cartridge::new(rom) {
            Ok(c) => c,
            Err(e) => {
                return Err(ConsoleError::Cartridge(e));
            },
        };
        let bus = Bus::new(cartridge);
        let cpu = Cpu::new(bus);
        Ok(Console { cpu })
    }

    /// Whether the inserted cartridge can serve every access the console makes while
    /// running: program ROM, a whole pattern table, and a nametable arrangement its mapper
    /// supports. A console whose cartridge cannot is built, but not run.
    pub fn is_playable(&self) -> (r: bool)
        requires
            self.cpu@.bus.cartridge.wf(),
        ensures
            r == self.cpu@.bus.cartridge.playable(),
    {
        self.cpu.cartridge_playable()
    }

    /// Resets the processor.
    pub fn reset(&mut self)
        requires
            old(self).wf(),
        ensures
            final(self).cpu@ == old(self).cpu@.reset_state(),
            final(self).wf(),
    {
        self.cpu.reset();
    }

    /// Runs one instruction.
    pub fn step(&mut self) -> (r: Result<Flow, CpuError>)
        requires
            old(self).wf(),
        ensures
            (final(self).cpu@, r) == old(self).cpu@.stepped(),
            final(self).wf(),
    {
        self.cpu.step()
    }
}

} // verus!
