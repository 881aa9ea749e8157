use nes::rom::{FormatError, Mirroring, Rom};

fn header(prg_units: u8, chr_units: u8, flags6: u8, flags7: u8) -> Vec<u8> {
    let mut data = vec![0x4E, 0x45, 0x53, 0x1A, prg_units, chr_units, flags6, flags7];
    data.extend_from_slice(&[0u8; 8]);
    data
}

#[test]
fn ines_header_sizes_and_mirroring() {
    let mut data = header(2, 1, 0x01, 0x00);
    data.extend_from_slice(&vec![0xAB; 0x8000]);
    data.extend_from_slice(&vec![0xCD; 0x2000]);
    let rom = Rom::new(&data).unwrap();
    assert_eq!(rom.prg_rom.len(), 0x8000);
    assert_eq!(rom.chr_rom.len(), 0x2000);
    assert_eq!(rom.mirroring, Mirroring::Vertical);
    assert!(rom.prg_rom.iter().all(|&b| b == 0xAB));
    assert!(rom.chr_rom.iter().all(|&b| b == 0xCD));
}

#[test]
fn ines_bad_magic() {
    let data = vec![0x4E, 0x45, 0x53, 0x00, 1, 0, 0, 0, 0, 0, 0, 0, 0, 0, 0, 0];
    assert_eq!(Rom::new(&data).unwrap_err(), FormatError::BadMagic);
    assert_eq!(Rom::new(b"junk").unwrap_err(), FormatError::BadMagic);
    assert_eq!(Rom::new(&[]).unwrap_err(), FormatError::BadMagic);
}

#[test]
fn ines_too_short() {
    // Magic alone, shorter than the five header bytes the parser reads.
    assert_eq!(Rom::new(&[0x4E, 0x45, 0x53, 0x1A, 1]).unwrap_err(), FormatError::TooShort);
    // Header declares one PRG bank but the body is missing.
    let data = header(1, 0, 0, 0);
    assert_eq!(Rom::new(&data).unwrap_err(), FormatError::TooShort);
}

#[test]
fn ines_unsupported_version_bits() {
    let mut data = header(0, 0, 0, 0x08);
    data.extend_from_slice(&[0u8; 32]);
    assert_eq!(Rom::new(&data).unwrap_err(), FormatError::UnsupportedVersion);
}

#[test]
fn ines_mirroring_variants() {
    let mk = |flags6: u8| {
        let mut data = header(0, 0, flags6, 0);
        data.extend_from_slice(&[0u8; 32]);
        Rom::new(&data).unwrap().mirroring
    };
    assert_eq!(mk(0x00), Mirroring::Horizontal);
    assert_eq!(mk(0x01), Mirroring::Vertical);
    assert_eq!(mk(0x08), Mirroring::FourScreen);
    assert_eq!(mk(0x09), Mirroring::FourScreen);
}

#[test]
fn ines_trainer_offsets_prg() {
    let mut data = header(1, 0, 0x04, 0);
    data.extend_from_slice(&vec![0x11; 512]);
    data.extend_from_slice(&vec![0x22; 0x4000]);
    let rom = Rom::new(&data).unwrap();
    assert_eq!(rom.prg_rom.len(), 0x4000);
    assert!(rom.prg_rom.iter().all(|&b| b == 0x22));
}

#[test]
fn ines_mapper_nibble_combination() {
    // The loader combines the two mapper nibbles with bitwise AND of the
    // low nibble against the shifted high nibble, so the result is 0.
    let mut data = header(0, 0, 0xF0, 0xF0);
    data.extend_from_slice(&[0u8; 32]);
    let rom = Rom::new(&data).unwrap();
    assert_eq!(rom.mapper, 0);
}
