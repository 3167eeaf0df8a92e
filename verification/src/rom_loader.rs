use vstd::prelude::*;

verus! {

/// Size of an iNES header in bytes.
pub const HEADER_LEN: usize = 16;
/// Size of the optional trainer that follows the header.
pub const TRAINER_LEN: usize = 512;
/// PRG ROM is counted in units of 16KB.
pub const PRG_ROM_UNIT: usize = 16384;
/// CHR ROM is counted in units of 8KB.
pub const CHR_ROM_UNIT: usize = 8192;

/// The 16-byte iNES header.
#[derive(Clone, Debug)]
pub struct NESHeader {
    pub signature: [u8; 4],
    pub prg_rom_size: u8,
    pub chr_rom_size: u8,
    pub flags6: u8,
    pub flags7: u8,
    pub flags8: u8,
    pub flags9: u8,
    pub flags10: u8,
    pub padding: [u8; 5],
}

/// A cartridge image: its header, program and character data, and the
/// settings decoded from the header flags.
pub struct RomLoader {
    pub header: NESHeader,
    pub prg_rom: Vec<u8>,
    pub chr_rom: Vec<u8>,
    pub mapper: u8,
    pub vertical_mirroring: bool,
    pub four_screen_mode: bool,
    pub has_battery: bool,
    pub has_trainer: bool,
}

/// Why an image is not a loadable iNES file.
#[derive(Clone, Copy, Debug, PartialEq, Eq, Structural)]
pub enum RomError {
    /// The image ends before the header or the data it announces.
    UnexpectedEof,
    /// The first four bytes are not "NES" followed by $1A.
    InvalidSignature,
}

/// Whether the image starts with the iNES signature "NES\x1A".
pub open spec fn signature_ok(b: Seq<u8>) -> bool {
    &&& b.len() >= 4
    &&& b[0] == 0x4e && b[1] == 0x45 && b[2] == 0x53 && b[3] == 0x1a
}

pub open spec fn spec_mapper(flags6: u8, flags7: u8) -> u8 {
    (flags7 & 0xf0) | ((flags6 & 0xf0) >> 4u8)
}

pub open spec fn spec_has_trainer(b: Seq<u8>) -> bool {
    b[6] & 0x04 != 0
}

/// Offset of the PRG ROM data: after the header and the trainer, if any.
pub open spec fn prg_start(b: Seq<u8>) -> int {
    HEADER_LEN + if spec_has_trainer(b) { TRAINER_LEN as int } else { 0 }
}

pub open spec fn prg_len(b: Seq<u8>) -> int {
    b[4] * PRG_ROM_UNIT
}

pub open spec fn chr_len(b: Seq<u8>) -> int {
    b[5] * CHR_ROM_UNIT
}

/// The error, if any, that loading the image `b` gives: a short header, then
/// a bad signature, then missing PRG or CHR data, in that order.
pub open spec fn load_error(b: Seq<u8>) -> Option<RomError> {
    if b.len() < HEADER_LEN {
        Some(RomError::UnexpectedEof)
    } else if !signature_ok(b) {
        Some(RomError::InvalidSignature)
    } else if b.len() < prg_start(b) + prg_len(b) + chr_len(b) {
        Some(RomError::UnexpectedEof)
    } else {
        None
    }
}

impl RomLoader {
    /// What a successful load of `b` holds: the header fields, the data
    /// sections cut from the image and the flags decoded from flags 6 and 7.
    pub open spec fn loaded_from(self, b: Seq<u8>) -> bool {
        &&& self.header.signature@ == b.subrange(0, 4)
        &&& self.header.prg_rom_size == b[4]
        &&& self.header.chr_rom_size == b[5]
        &&& self.header.flags6 == b[6]
        &&& self.header.flags7 == b[7]
        &&& self.header.flags8 == b[8]
        &&& self.header.flags9 == b[9]
        &&& self.header.flags10 == b[10]
        &&& self.header.padding@ == b.subrange(11, 16)
        &&& self.prg_rom@ == b.subrange(prg_start(b), prg_start(b) + prg_len(b))
        &&& self.chr_rom@ == b.subrange(
            prg_start(b) + prg_len(b),
            prg_start(b) + prg_len(b) + chr_len(b),
        )
        &&& self.mapper == spec_mapper(b[6], b[7])
        &&& self.vertical_mirroring == (b[6] & 0x01 != 0)
        &&& self.four_screen_mode == (b[6] & 0x08 != 0)
        &&& self.has_battery == (b[6] & 0x02 != 0)
        &&& self.has_trainer == spec_has_trainer(b)
    }

    /// The PRG ROM of a loaded image is a whole number of 16KB banks.
    pub open spec fn wf(self) -> bool {
        &&& self.prg_rom@.len() == self.header.prg_rom_size * PRG_ROM_UNIT
        &&& self.chr_rom@.len() == self.header.chr_rom_size * CHR_ROM_UNIT
    }

    /// Parses an iNES image held in memory.
    pub fn from_bytes(bytes: &[u8]) -> (r: Result<RomLoader, RomError>)
        ensures
            match r {
                Ok(rom) => load_error(bytes@).is_none() && rom.loaded_from(bytes@) && rom.wf(),
                Err(e) => load_error(bytes@) == Some(e),
            },
    {
        if bytes.len() < HEADER_LEN {
            return Err(RomError::UnexpectedEof);
        }
        if !(bytes[0] == 0x4e && bytes[1] == 0x45 && bytes[2] == 0x53 && bytes[3] == 0x1a) {
            return Err(RomError::InvalidSignature);
        }
        let header = NESHeader {
            signature: [bytes[0], bytes[1], bytes[2], bytes[3]],
            prg_rom_size: bytes[4],
            chr_rom_size: bytes[5],
            flags6: bytes[6],
            flags7: bytes[7],
            flags8: bytes[8],
            flags9: bytes[9],
            flags10: bytes[10],
            padding: [bytes[11], bytes[12], bytes[13], bytes[14], bytes[15]],
        };
        assert(header.signature@ =~= bytes@.subrange(0, 4));
        assert(header.padding@ =~= bytes@.subrange(11, 16));
        let mapper = (header.flags7 & 0xF0) | ((header.flags6 & 0xF0) >> 4u8);
        let vertical_mirroring = (header.flags6 & 0x01) != 0;
        let four_screen_mode = (header.flags6 & 0x08) != 0;
        let has_battery = (header.flags6 & 0x02) != 0;
        let has_trainer = (header.flags6 & 0x04) != 0;
        let start: usize = if has_trainer { HEADER_LEN + TRAINER_LEN } else { HEADER_LEN };
        let prg_rom_bytes: usize = header.prg_rom_size as usize * PRG_ROM_UNIT;
        let chr_rom_bytes: usize = header.chr_rom_size as usize * CHR_ROM_UNIT;
        if bytes.len() < start || bytes.len() - start < prg_rom_bytes
            || bytes.len() - start - prg_rom_bytes < chr_rom_bytes {
            return Err(RomError::UnexpectedEof);
        }
        let prg_rom = copy_range(bytes, start, start + prg_rom_bytes);
        let chr_rom = copy_range(bytes, start + prg_rom_bytes, start + prg_rom_bytes + chr_rom_bytes);
        Ok(RomLoader {
            header,
            prg_rom,
            chr_rom,
            mapper,
            vertical_mirroring,
            four_screen_mode,
            has_battery,
            has_trainer,
        })
    }

    pub fn header(&self) -> (r: &NESHeader)
        ensures
            r == &self.header,
    {
        &self.header
    }

    pub fn prg_rom(&self) -> (r: &[u8])
        ensures
            r@ == self.prg_rom@,
    {
        self.prg_rom.as_slice()
    }

    pub fn chr_rom(&self) -> (r: &[u8])
        ensures
            r@ == self.chr_rom@,
    {
        self.chr_rom.as_slice()
    }

    pub fn mapper(&self) -> (r: u8)
        ensures
            r == self.mapper,
    {
        self.mapper
    }

    pub fn vertical_mirroring(&self) -> (r: bool)
        ensures
            r == self.vertical_mirroring,
    {
        self.vertical_mirroring
    }

    pub fn four_screen_mode(&self) -> (r: bool)
        ensures
            r == self.four_screen_mode,
    {
        self.four_screen_mode
    }

    pub fn has_battery(&self) -> (r: bool)
        ensures
            r == self.has_battery,
    {
        self.has_battery
    }

    pub fn has_trainer(&self) -> (r: bool)
        ensures
            r == self.has_trainer,
    {
        self.has_trainer
    }
}

/// Copies `bytes[from..to]` into a new vector.
pub(crate) fn copy_range(bytes: &[u8], from: usize, to: usize) -> (v: Vec<u8>)
    requires
        from <= to <= bytes@.len(),
    ensures
        v@ == bytes@.subrange(from as int, to as int),
{
    let mut v: Vec<u8> = Vec::new();
    let mut i = from;
    while i < to
        invariant
            from <= i <= to <= bytes@.len(),
            v@ == bytes@.subrange(from as int, i as int),
        decreases to - i,
    {
        v.push(bytes[i]);
        i = i + 1;
        assert(v@ =~= bytes@.subrange(from as int, i as int));
    }
    v
}

/// Law: the mapper number takes its low nibble from the high nibble of
/// flags 6 and its high nibble from the high nibble of flags 7.
pub proof fn lemma_mapper_nibbles(flags6: u8, flags7: u8)
    ensures
        spec_mapper(flags6, flags7) == (flags7 / 16) * 16 + flags6 / 16,
{
    assert((flags7 & 0xf0) | ((flags6 & 0xf0) >> 4u8) == (flags7 / 16) * 16 + flags6 / 16)
        by (bit_vector);
}

} // verus!
