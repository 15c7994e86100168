use vstd::prelude::*;

use crate::bus::Bus;
use crate::cpu::{program_image, CPU, LOAD_LIMIT, RESET_VECTOR};
use crate::memory::{holds_image, load_result, zeros, RomError, PRG_BANK_SIZE, RAM, RAM_SIZE, ROM};

verus! {

/// A CPU together with the bus it drives.
pub struct Emulator {
    pub cpu: CPU,
    pub bus: Bus,
}

impl Emulator {
    /// A fresh CPU, zeroed RAM and an empty cartridge.
    pub fn new() -> (r: Emulator)
        ensures
            r.cpu == CPU::new_spec(),
            r.bus.ram@ == zeros(RAM_SIZE as nat),
            r.bus.rom.prg_rom@.len() == 0,
            r.bus.rom.chr_rom@.len() == 0,
            r.bus.rom.mapper == 0,
    {
        Emulator { cpu: CPU::new(), bus: Bus::new(RAM::new(), ROM::new()) }
    }

    pub fn toggle_debug(&mut self)
        ensures
            final(self).cpu == (CPU { debug_mode: !old(self).cpu.debug_mode, ..old(self).cpu }),
            final(self).bus == old(self).bus,
    {
        self.cpu.debug_mode = !self.cpu.debug_mode;
    }

    /// Loads a cartridge image and, when it is accepted, points PC at 0x8000.
    /// A refused image changes nothing.
    pub fn load_rom(&mut self, rom_bytes: Vec<u8>) -> (r: Result<(), RomError>)
        ensures
            r == load_result(rom_bytes@),
            r is Ok ==> holds_image(final(self).bus.rom, rom_bytes@),
            r is Ok ==> final(self).cpu == (CPU { pc: 0x8000, ..old(self).cpu }),
            r is Err ==> *final(self) == *old(self),
            final(self).bus.ram == old(self).bus.ram,
    {
        let r = self.bus.rom.read_from_bytes(rom_bytes.as_slice());
        if r.is_ok() {
            self.cpu.pc = 0x8000;
        }
        r
    }

    /// Injects `program` at 0x8000 (see `CPU::load`).
    pub fn load(&mut self, program: Vec<u8>)
        requires
            program@.len() <= LOAD_LIMIT,
        ensures
            final(self).cpu == (CPU { pc: 0x8000, ..old(self).cpu }),
            final(self).bus.ram == old(self).bus.ram,
            final(self).bus.rom.chr_rom == old(self).bus.rom.chr_rom,
            final(self).bus.rom.mapper == 0,
            final(self).bus.rom.prg_rom@.len() == 2,
            final(self).bus.rom.prg_rom@[0].data@ == program_image(program@).subrange(
                0,
                PRG_BANK_SIZE as int,
            ),
            final(self).bus.rom.prg_rom@[1].data@ == program_image(program@).subrange(
                PRG_BANK_SIZE as int,
                2 * PRG_BANK_SIZE,
            ),
            forall|i: int|
                0 <= i < program@.len() ==> #[trigger] final(self).bus.spec_read(
                    (0x8000 + i) as u16,
                ) == program@[i],
            final(self).bus.spec_read16(RESET_VECTOR) == 0x8000,
    {
        self.cpu.load(&mut self.bus, program.as_slice());
    }
}

} // verus!
