use vstd::prelude::*;

verus! {

/// Size of the console's internal RAM; the bus mirrors it over 0x0000-0x1FFF.
pub const RAM_SIZE: usize = 0x800;

/// The console's internal work RAM.
pub struct RAM {
    pub data: [u8; 0x800],
}

impl View for RAM {
    type V = Seq<u8>;

    open spec fn view(&self) -> Seq<u8> {
        self.data@
    }
}

/// A sequence of `n` zero bytes.
pub open spec fn zeros(n: nat) -> Seq<u8> {
    Seq::new(n, |i: int| 0u8)
}

impl RAM {
    pub fn new() -> (r: RAM)
        ensures
            r@ == zeros(RAM_SIZE as nat),
    {
        let r = RAM { data: [0u8; 0x800] };
        assert(r@ =~= zeros(RAM_SIZE as nat));
        r
    }

    pub fn reset(&mut self)
        ensures
            final(self)@ == zeros(RAM_SIZE as nat),
    {
        self.data = [0u8; 0x800];
        assert(self@ =~= zeros(RAM_SIZE as nat));
    }

    pub fn read(&self, index: u16) -> (r: u8)
        requires
            index < RAM_SIZE,
        ensures
            r == self@[index as int],
    {
        self.data[index as usize]
    }

    pub fn write(&mut self, index: u16, value: u8)
        requires
            index < RAM_SIZE,
        ensures
            final(self)@ == old(self)@.update(index as int, value),
    {
        self.data[index as usize] = value;
    }
}

/// Size of one program (PRG) bank.
pub const PRG_BANK_SIZE: usize = 0x4000;

/// Size of one character (CHR) bank.
pub const CHR_BANK_SIZE: usize = 0x2000;

/// Size of the fixed cartridge header.
pub const HEADER_SIZE: usize = 16;

/// Size of the optional trainer block that follows the header.
pub const TRAINER_SIZE: usize = 512;

/// One 16KB bank of cartridge program storage.
pub struct ProgramRomBank {
    pub data: [u8; 0x4000],
}

impl ProgramRomBank {
    pub fn new() -> (r: ProgramRomBank)
        ensures
            r.data@ == zeros(PRG_BANK_SIZE as nat),
    {
        let r = ProgramRomBank { data: [0u8; 0x4000] };
        assert(r.data@ =~= zeros(PRG_BANK_SIZE as nat));
        r
    }
}

/// One 8KB bank of cartridge character (pattern) storage.
pub struct CharRomBank {
    pub data: [u8; 0x2000],
}

impl CharRomBank {
    pub fn new() -> (r: CharRomBank)
        ensures
            r.data@ == zeros(CHR_BANK_SIZE as nat),
    {
        let r = CharRomBank { data: [0u8; 0x2000] };
        assert(r.data@ =~= zeros(CHR_BANK_SIZE as nat));
        r
    }
}

/// Why a cartridge image was refused.
#[derive(Debug, Clone, Copy, PartialEq, Eq, Structural)]
pub enum RomError {
    /// Bad signature, or fewer bytes than the header announces.
    InvalidFormat,
    /// The header selects a bank-switching policy that is not implemented.
    UnsupportedMapper(u8),
}

/// Cartridge contents: program banks, character banks and the mapper selector.
pub struct ROM {
    pub prg_rom: Vec<ProgramRomBank>,
    pub chr_rom: Vec<CharRomBank>,
    pub mapper: u8,
}

/// The image starts with a full header carrying the signature "NES\x1A".
pub open spec fn has_signature(raw: Seq<u8>) -> bool {
    &&& raw.len() >= HEADER_SIZE
    &&& raw[0] == 0x4E
    &&& raw[1] == 0x45
    &&& raw[2] == 0x53
    &&& raw[3] == 0x1A
}

/// Mapper selector: high nibble of byte 7 and high nibble of byte 6.
pub open spec fn mapper_of(raw: Seq<u8>) -> u8 {
    (raw[7] & 0xF0) | (raw[6] >> 4u8)
}

pub open spec fn has_trainer(raw: Seq<u8>) -> bool {
    raw[6] & 0x04 != 0
}

/// Offset of the first program bank.
pub open spec fn prg_start(raw: Seq<u8>) -> int {
    HEADER_SIZE + if has_trainer(raw) { TRAINER_SIZE as int } else { 0 }
}

/// Offset of the first character bank.
pub open spec fn chr_start(raw: Seq<u8>) -> int {
    prg_start(raw) + raw[4] * PRG_BANK_SIZE
}

/// Offset just past the last character bank.
pub open spec fn image_end(raw: Seq<u8>) -> int {
    chr_start(raw) + raw[5] * CHR_BANK_SIZE
}

/// The outcome of loading `raw`.
pub open spec fn load_result(raw: Seq<u8>) -> Result<(), RomError> {
    if !has_signature(raw) {
        Err(RomError::InvalidFormat)
    } else if mapper_of(raw) != 0 {
        Err(RomError::UnsupportedMapper(mapper_of(raw)))
    } else if raw.len() < image_end(raw) {
        Err(RomError::InvalidFormat)
    } else {
        Ok(())
    }
}

/// `rom` holds exactly the banks and mapper that the (valid) image `raw` describes.
pub open spec fn holds_image(rom: ROM, raw: Seq<u8>) -> bool {
    &&& rom.mapper == mapper_of(raw)
    &&& rom.prg_rom@.len() == raw[4]
    &&& rom.chr_rom@.len() == raw[5]
    &&& forall|i: int|
        0 <= i < raw[4] ==> (#[trigger] rom.prg_rom@[i]).data@ == raw.subrange(
            prg_start(raw) + i * PRG_BANK_SIZE,
            prg_start(raw) + (i + 1) * PRG_BANK_SIZE,
        )
    &&& forall|i: int|
        0 <= i < raw[5] ==> (#[trigger] rom.chr_rom@[i]).data@ == raw.subrange(
            chr_start(raw) + i * CHR_BANK_SIZE,
            chr_start(raw) + (i + 1) * CHR_BANK_SIZE,
        )
}

/// Copies the `N` bytes of `bytes` that start at `start`.
fn copy_block<const N: usize>(bytes: &[u8], start: usize) -> (r: [u8; N])
    requires
        start + N <= bytes@.len(),
    ensures
        r@ == bytes@.subrange(start as int, start + N),
{
    let mut r = [0u8; N];
    let len = bytes.len();
    let mut i: usize = 0;
    while i < N
        invariant
            start + N <= bytes@.len(),
            bytes@.len() == len,
            i <= N,
            r@.len() == N,
            forall|j: int| 0 <= j < i ==> r@[j] == bytes@[start + j],
        decreases N - i,
    {
        r[i] = bytes[start + i];
        i = i + 1;
    }
    assert(r@ =~= bytes@.subrange(start as int, start + N));
    r
}

impl ROM {
    /// An empty cartridge: no banks, mapper 0.
    pub fn new() -> (r: ROM)
        ensures
            r.prg_rom@.len() == 0,
            r.chr_rom@.len() == 0,
            r.mapper == 0,
    {
        ROM { prg_rom: Vec::new(), chr_rom: Vec::new(), mapper: 0 }
    }

    /// Replaces the contents with the cartridge image `bytes`.
    /// On error nothing changes.
    pub fn read_from_bytes(&mut self, bytes: &[u8]) -> (r: Result<(), RomError>)
        ensures
            r == load_result(bytes@),
            r is Ok ==> holds_image(*final(self), bytes@),
            r is Err ==> *final(self) == *old(self),
    {
        let raw = Ghost(bytes@);
        if bytes.len() < HEADER_SIZE || bytes[0] != 0x4E || bytes[1] != 0x45 || bytes[2] != 0x53
            || bytes[3] != 0x1A {
            return Err(RomError::InvalidFormat);
        }
        let mapper: u8 = (bytes[7] & 0xF0) | (bytes[6] >> 4u8);
        if mapper != 0 {
            return Err(RomError::UnsupportedMapper(mapper));
        }
        let trainer_len: usize = if bytes[6] & 0x04 != 0 { TRAINER_SIZE } else { 0 };
        let prg_count = bytes[4] as usize;
        let chr_count = bytes[5] as usize;
        let prg_begin: usize = HEADER_SIZE + trainer_len;
        let chr_begin: usize = prg_begin + prg_count * PRG_BANK_SIZE;
        let end: usize = chr_begin + chr_count * CHR_BANK_SIZE;
        if bytes.len() < end {
            return Err(RomError::InvalidFormat);
        }
        let mut prg_rom: Vec<ProgramRomBank> = Vec::new();
        let mut i: usize = 0;
        while i < prg_count
            invariant
                prg_begin == prg_start(raw@),
                prg_count == raw@[4],
                chr_begin == prg_begin + prg_count * PRG_BANK_SIZE,
                end <= bytes@.len(),
                chr_begin <= end,
                bytes@ == raw@,
                i <= prg_count,
                prg_rom@.len() == i,
                forall|j: int|
                    0 <= j < i ==> (#[trigger] prg_rom@[j]).data@ == raw@.subrange(
                        prg_start(raw@) + j * PRG_BANK_SIZE,
                        prg_start(raw@) + (j + 1) * PRG_BANK_SIZE,
                    ),
            decreases prg_count - i,
        {
            let start: usize = prg_begin + i * PRG_BANK_SIZE;
            let data: [u8; 0x4000] = copy_block(bytes, start);
            prg_rom.push(ProgramRomBank { data });
            i = i + 1;
        }
        let mut chr_rom: Vec<CharRomBank> = Vec::new();
        let mut i: usize = 0;
        while i < chr_count
            invariant
                chr_begin == chr_start(raw@),
                chr_count == raw@[5],
                end == chr_begin + chr_count * CHR_BANK_SIZE,
                end <= bytes@.len(),
                bytes@ == raw@,
                i <= chr_count,
                chr_rom@.len() == i,
                forall|j: int|
                    0 <= j < i ==> (#[trigger] chr_rom@[j]).data@ == raw@.subrange(
                        chr_start(raw@) + j * CHR_BANK_SIZE,
                        chr_start(raw@) + (j + 1) * CHR_BANK_SIZE,
                    ),
            decreases chr_count - i,
        {
            let start: usize = chr_begin + i * CHR_BANK_SIZE;
            let data: [u8; 0x2000] = copy_block(bytes, start);
            chr_rom.push(CharRomBank { data });
            i = i + 1;
        }
        self.prg_rom = prg_rom;
        self.chr_rom = chr_rom;
        self.mapper = mapper;
        Ok(())
    }
}

} // verus!
