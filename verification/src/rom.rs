use vstd::prelude::*;

verus! {

/// Background tile mirroring mode stored in a cartridge header.
#[derive(Debug, PartialEq, Eq, Copy, Clone, Hash, Structural)]
pub enum Mirroring {
    Vertical,
    Horizontal,
    FourScreen,
}

/// A malformed or truncated cartridge image.  Reported to the caller;
/// execution never starts on such an image.
#[derive(Debug, PartialEq, Eq, Copy, Clone, Structural)]
pub enum FormatError {
    /// The image does not begin with the 4-byte magic "NES\x1A".
    BadMagic,
    /// The image is shorter than its header or its declared banks demand.
    TooShort,
    /// The header version bits name a sub-format this loader does not read.
    UnsupportedVersion,
}

/// A parsed cartridge: program ROM, graphics ROM, mapper id and mirroring.
#[derive(Clone, Debug)]
pub struct Rom {
    pub prg_rom: Vec<u8>,
    pub chr_rom: Vec<u8>,
    pub mapper: u8,
    pub mirroring: Mirroring,
}

/// Whether the image starts with the 4-byte magic "NES\x1A".
pub open spec fn spec_magic_ok(d: Seq<u8>) -> bool {
    d.len() >= 4 && d[0] == 0x4E && d[1] == 0x45 && d[2] == 0x53 && d[3] == 0x1A
}

/// Declared program ROM size in bytes: header byte 4 counts 16 KiB units.
pub open spec fn spec_prg_size(d: Seq<u8>) -> int {
    d[4] * 0x4000
}

/// Declared graphics ROM size in bytes: header byte 5 counts 8 KiB units.
pub open spec fn spec_chr_size(d: Seq<u8>) -> int {
    d[5] * 0x2000
}

/// Header byte 6 bit 2: a 512-byte trainer precedes the program ROM.
pub open spec fn spec_trainer(d: Seq<u8>) -> bool {
    (d[6] >> 2) & 1 != 0
}

/// Offset of the program ROM in the image: the 16-byte header, plus the
/// trainer when one is present.
pub open spec fn spec_prg_start(d: Seq<u8>) -> int {
    16 + if spec_trainer(d) {
        512int
    } else {
        0int
    }
}

/// Header byte 7 bits 2-3 must be zero: only that sub-format is supported.
pub open spec fn spec_version_ok(d: Seq<u8>) -> bool {
    (d[7] >> 2) & 3 == 0
}

/// Mirroring from header byte 6: bit 3 overrides to four-screen, else bit 0
/// picks vertical over horizontal.
pub open spec fn spec_mirroring(d: Seq<u8>) -> Mirroring {
    if (d[6] >> 3) & 1 != 0 {
        Mirroring::FourScreen
    } else if d[6] & 1 != 0 {
        Mirroring::Vertical
    } else {
        Mirroring::Horizontal
    }
}

/// Mapper id combined from the two header nibbles: bitwise AND of the low
/// nibble against the shifted high nibble.  The nibbles never overlap, so
/// the id always reads 0; the quirk is deliberate and kept as is.
pub open spec fn spec_mapper(d: Seq<u8>) -> u8 {
    (d[6] >> 4) & ((d[7] >> 4) << 4)
}

/// Whether the declared banks fit inside the image.
pub open spec fn spec_sizes_fit(d: Seq<u8>) -> bool {
    spec_prg_start(d) + spec_prg_size(d) + spec_chr_size(d) <= d.len()
}

/// What a successfully parsed image yields.
pub open spec fn spec_parse_ok(d: Seq<u8>, rom: Rom) -> bool {
    let prg_start = spec_prg_start(d);
    let chr_start = prg_start + spec_prg_size(d);
    &&& rom.prg_rom@ == d.subrange(prg_start, prg_start + spec_prg_size(d))
    &&& rom.chr_rom@ == d.subrange(chr_start, chr_start + spec_chr_size(d))
    &&& rom.mapper == spec_mapper(d)
    &&& rom.mirroring == spec_mirroring(d)
}

impl Rom {
    /// Parse a binary cartridge image.
    pub fn new(data: &[u8]) -> (r: Result<Rom, FormatError>)
        ensures
            match r {
                Ok(rom) => spec_magic_ok(data@) && data@.len() >= 9 && spec_version_ok(data@)
                    && spec_sizes_fit(data@) && spec_parse_ok(data@, rom),
                Err(FormatError::BadMagic) => !spec_magic_ok(data@),
                Err(FormatError::TooShort) => spec_magic_ok(data@) && (data@.len() < 9 || (
                spec_version_ok(data@) && !spec_sizes_fit(data@))),
                Err(FormatError::UnsupportedVersion) => spec_magic_ok(data@) && data@.len() >= 9
                    && !spec_version_ok(data@),
            },
    {
        parse_ines(data)
    }
}

/// Copy `len` bytes of `data` starting at `start` into a fresh vector.
fn copy_range(data: &[u8], start: usize, len: usize) -> (r: Vec<u8>)
    requires
        start + len <= data@.len(),
    ensures
        r@ == data@.subrange(start as int, start + len),
{
    let mut out: Vec<u8> = Vec::new();
    let mut i: usize = 0;
    let total: usize = data.len();
    while i < len
        invariant
            start + len <= total,
            total == data@.len(),
            i <= len,
            out@ == data@.subrange(start as int, start + i),
        decreases len - i,
    {
        out.push(data[start + i]);
        assert(out@ =~= data@.subrange(start as int, start + i + 1));
        i = i + 1;
    }
    out
}

/// Parse a cartridge image in the 16-byte-header binary format: magic,
/// bank counts, mirroring/trainer/mapper flag bytes, then the PRG and CHR
/// banks themselves.  Too-short or malformed input yields a `FormatError`,
/// never a crash.
pub fn parse_ines(data: &[u8]) -> (r: Result<Rom, FormatError>)
    ensures
        match r {
            Ok(rom) => spec_magic_ok(data@) && data@.len() >= 9 && spec_version_ok(data@)
                && spec_sizes_fit(data@) && spec_parse_ok(data@, rom),
            Err(FormatError::BadMagic) => !spec_magic_ok(data@),
            Err(FormatError::TooShort) => spec_magic_ok(data@) && (data@.len() < 9 || (
            spec_version_ok(data@) && !spec_sizes_fit(data@))),
            Err(FormatError::UnsupportedVersion) => spec_magic_ok(data@) && data@.len() >= 9
                && !spec_version_ok(data@),
        },
{
    if data.len() < 4 || data[0] != 0x4E || data[1] != 0x45 || data[2] != 0x53 || data[3] != 0x1A {
        return Err(FormatError::BadMagic);
    }
    if data.len() < 9 {
        return Err(FormatError::TooShort);
    }
    let prg_units = data[4];
    let chr_units = data[5];
    let flags6 = data[6];
    let flags7 = data[7];

    let version_bits = (flags7 >> 2) & 3;
    if version_bits != 0 {
        return Err(FormatError::UnsupportedVersion);
    }

    let prg_rom_size: usize = (prg_units as usize) * 0x4000;
    let chr_rom_size: usize = (chr_units as usize) * 0x2000;

    let four_screen = (flags6 >> 3) & 1 != 0;
    let trainer = (flags6 >> 2) & 1 != 0;
    let vert_horiz = flags6 & 1 != 0;

    let mirroring = if four_screen {
        Mirroring::FourScreen
    } else if vert_horiz {
        Mirroring::Vertical
    } else {
        Mirroring::Horizontal
    };

    let trainer_offset: usize = if trainer {
        512
    } else {
        0
    };
    let mapper = (flags6 >> 4) & ((flags7 >> 4) << 4);
    let prg_rom_start: usize = 16 + trainer_offset;
    let chr_rom_start: usize = prg_rom_start + prg_rom_size;

    if data.len() < chr_rom_start + chr_rom_size {
        return Err(FormatError::TooShort);
    }

    Ok(
        Rom {
            prg_rom: copy_range(data, prg_rom_start, prg_rom_size),
            chr_rom: copy_range(data, chr_rom_start, chr_rom_size),
            mapper,
            mirroring,
        },
    )
}

} // verus!
