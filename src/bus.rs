use vstd::prelude::*;

use crate::memory::{RAM, ROM, RAM_SIZE, PRG_BANK_SIZE};

verus! {

/// Start of the (stubbed) peripheral and expansion regions.
pub const STUB_START: u16 = 0x2000;

/// Start of the cartridge program window.
pub const PRG_START: u16 = 0x8000;

/// Why a bus write was refused.
#[derive(Debug, Clone, Copy, PartialEq, Eq, Structural)]
pub enum BusError {
    /// The address lies in the read-only cartridge program window.
    ReadOnly(u16),
}

/// Byte at `offset` (0..0x8000) of the cartridge program window.
/// Mapper 0 shows a single bank in both halves of the window, or two
/// banks side by side; without banks, or under another mapper, it reads 0.
pub open spec fn prg_read(rom: ROM, offset: int) -> u8 {
    let n = rom.prg_rom@.len();
    if rom.mapper != 0 || n == 0 {
        0
    } else if n == 1 {
        rom.prg_rom@[0].data@[offset % PRG_BANK_SIZE as int]
    } else {
        rom.prg_rom@[offset / PRG_BANK_SIZE as int].data@[offset % PRG_BANK_SIZE as int]
    }
}

/// RAM cell behind a RAM-region address: RAM repeats every 2KB.
pub open spec fn ram_index(addr: u16) -> int {
    addr as int % RAM_SIZE as int
}

/// Byte seen at `addr` with RAM contents `ram` and cartridge `rom`.
pub open spec fn read_at(ram: Seq<u8>, rom: ROM, addr: u16) -> u8 {
    if addr < STUB_START {
        ram[ram_index(addr)]
    } else if addr < PRG_START {
        0
    } else {
        prg_read(rom, addr - PRG_START)
    }
}

/// The little-endian word made of `lo` and `hi`.
pub open spec fn word(lo: u8, hi: u8) -> u16 {
    (lo + hi * 256) as u16
}

pub open spec fn lo_byte(w: u16) -> u8 {
    (w % 256) as u8
}

pub open spec fn hi_byte(w: u16) -> u8 {
    (w / 256) as u8
}

/// Little-endian word at `addr`; the second byte's address wraps at 16 bits.
pub open spec fn read16_at(ram: Seq<u8>, rom: ROM, addr: u16) -> u16 {
    word(read_at(ram, rom, addr), read_at(ram, rom, addr.wrapping_add(1)))
}

/// RAM contents after writing `v` at `addr`: only RAM addresses take effect.
pub open spec fn ram_after_write(ram: Seq<u8>, addr: u16, v: u8) -> Seq<u8> {
    if addr < STUB_START {
        ram.update(ram_index(addr), v)
    } else {
        ram
    }
}

/// RAM contents after writing the word `w` at `addr`, low byte first.
pub open spec fn ram_after_write16(ram: Seq<u8>, addr: u16, w: u16) -> Seq<u8> {
    ram_after_write(ram_after_write(ram, addr, lo_byte(w)), addr.wrapping_add(1), hi_byte(w))
}

/// Result of a byte write at `addr`.
pub open spec fn write_result(addr: u16) -> Result<(), BusError> {
    if addr >= PRG_START {
        Err(BusError::ReadOnly(addr))
    } else {
        Ok(())
    }
}

/// Two's-complement reading of a byte.
pub open spec fn signed_of(b: u8) -> int {
    if b < 128 {
        b as int
    } else {
        b - 256
    }
}

/// A word splits into its low and high bytes and is rebuilt from them.
pub proof fn lemma_word_bytes(w: u16)
    ensures
        word(lo_byte(w), hi_byte(w)) == w,
{
}

/// Writing a 16-bit value into RAM through the bus and reading it back
/// gives the same value, with its low byte at the lower address.
pub proof fn lemma_write16_read16(bus: Bus, addr: u16, w: u16)
    requires
        addr < STUB_START - 1,
    ensures
        read16_at(ram_after_write16(bus.ram@, addr, w), bus.rom, addr) == w,
        read_at(ram_after_write16(bus.ram@, addr, w), bus.rom, addr) == lo_byte(w),
        read_at(ram_after_write16(bus.ram@, addr, w), bus.rom, (addr + 1) as u16) == hi_byte(w),
{
    lemma_word_bytes(w);
}

/// The address decoder: owns RAM and the cartridge.
pub struct Bus {
    pub ram: RAM,
    pub rom: ROM,
}

impl Bus {
    pub open spec fn spec_read(&self, addr: u16) -> u8 {
        read_at(self.ram@, self.rom, addr)
    }

    pub open spec fn spec_read16(&self, addr: u16) -> u16 {
        read16_at(self.ram@, self.rom, addr)
    }

    pub fn new(ram: RAM, rom: ROM) -> (r: Bus)
        ensures
            r.ram == ram,
            r.rom == rom,
    {
        Bus { ram, rom }
    }

    /// Byte at `addr`: RAM (mirrored every 2KB), a stub value of 0 for the
    /// peripheral regions, or the cartridge program window.
    pub fn mem_read(&self, addr: u16) -> (r: u8)
        ensures
            r == self.spec_read(addr),
    {
        if addr < STUB_START {
            self.ram.read(addr % (RAM_SIZE as u16))
        } else if addr < PRG_START {
            0
        } else {
            self.prg_rom_read(addr - PRG_START)
        }
    }

    pub fn mem_read_signed(&self, addr: u16) -> (r: i8)
        ensures
            r as int == signed_of(self.spec_read(addr)),
    {
        let b = self.mem_read(addr);
        let r = b as i8;
        assert(r as int == signed_of(b)) by (bit_vector)
            requires
                r == b as i8,
        ;
        r
    }

    /// Writes `data` at `addr`. RAM takes the byte; the peripheral stub
    /// regions ignore it; the program window refuses it and nothing changes.
    pub fn mem_write(&mut self, addr: u16, data: u8) -> (r: Result<(), BusError>)
        ensures
            r == write_result(addr),
            final(self).rom == old(self).rom,
            final(self).ram@ == ram_after_write(old(self).ram@, addr, data),
    {
        if addr < STUB_START {
            self.ram.write(addr % (RAM_SIZE as u16), data);
            Ok(())
        } else if addr < PRG_START {
            Ok(())
        } else {
            Err(BusError::ReadOnly(addr))
        }
    }

    pub fn mem_write_signed(&mut self, addr: u16, data: i8) -> (r: Result<(), BusError>)
        ensures
            r == write_result(addr),
            final(self).rom == old(self).rom,
            final(self).ram@ == ram_after_write(
                old(self).ram@,
                addr,
                (if data < 0 { data + 256 } else { data as int }) as u8,
            ),
    {
        let b = data as u8;
        assert(b == (if data < 0 { data + 256 } else { data as int }) as u8) by (bit_vector)
            requires
                b == data as u8,
        ;
        self.mem_write(addr, b)
    }

    /// Little-endian word at `addr`, read as two byte accesses.
    pub fn mem_read_u16(&self, addr: u16) -> (r: u16)
        ensures
            r == self.spec_read16(addr),
    {
        let lo = self.mem_read(addr);
        let hi = self.mem_read(addr.wrapping_add(1));
        lo as u16 + (hi as u16) * 256
    }

    /// Writes `data` at `addr` as two byte writes, low byte first. Both
    /// writes are made; the first refusal, if any, is returned.
    pub fn mem_write_u16(&mut self, addr: u16, data: u16) -> (r: Result<(), BusError>)
        ensures
            r == (if addr >= PRG_START { write_result(addr) } else { write_result(
                addr.wrapping_add(1),
            ) }),
            final(self).rom == old(self).rom,
            final(self).ram@ == ram_after_write16(old(self).ram@, addr, data),
    {
        let first = self.mem_write(addr, (data % 256) as u8);
        let second = self.mem_write(addr.wrapping_add(1), (data / 256) as u8);
        match first {
            Err(e) => Err(e),
            Ok(()) => second,
        }
    }

    /// Byte at `offset` of the cartridge program window, per the mapper.
    fn prg_rom_read(&self, offset: u16) -> (r: u8)
        requires
            offset < 0x8000,
        ensures
            r == prg_read(self.rom, offset as int),
    {
        let n = self.rom.prg_rom.len();
        if self.rom.mapper != 0 || n == 0 {
            0
        } else if n == 1 {
            self.rom.prg_rom[0].data[(offset as usize) % PRG_BANK_SIZE]
        } else {
            self.rom.prg_rom[(offset as usize) / PRG_BANK_SIZE].data[(offset as usize)
                % PRG_BANK_SIZE]
        }
    }
}

} // verus!
