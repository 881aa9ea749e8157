use nes::rom::{Mirroring, Rom};
use nes::{Bus, EmuError};

fn rom_32k() -> Rom {
    let mut prg = vec![0u8; 0x8000];
    for (i, b) in prg.iter_mut().enumerate() {
        *b = (i % 251) as u8;
    }
    Rom { prg_rom: prg, chr_rom: Vec::new(), mapper: 0, mirroring: Mirroring::Horizontal }
}

fn rom_16k() -> Rom {
    let mut prg = vec![0u8; 0x4000];
    for (i, b) in prg.iter_mut().enumerate() {
        *b = (i % 241) as u8;
    }
    Rom { prg_rom: prg, chr_rom: Vec::new(), mapper: 0, mirroring: Mirroring::Horizontal }
}

#[test]
fn ram_is_mirrored_four_times() {
    let mut bus = Bus::new(rom_32k());
    bus.write(0x0001, 0x42).unwrap();
    assert_eq!(bus.read(0x0001), Ok(0x42));
    assert_eq!(bus.read(0x0801), Ok(0x42));
    assert_eq!(bus.read(0x1001), Ok(0x42));
    assert_eq!(bus.read(0x1801), Ok(0x42));
    bus.write(0x1FFF, 0x99).unwrap();
    assert_eq!(bus.read(0x07FF), Ok(0x99));
}

#[test]
fn rom_region_reads_and_rejects_writes() {
    let mut bus = Bus::new(rom_32k());
    assert_eq!(bus.read(0x8000), Ok(0));
    assert_eq!(bus.read(0x8005), Ok(5));
    assert_eq!(bus.write(0x8000, 1), Err(EmuError::RomWrite(0x8000)));
    assert_eq!(bus.write(0xFFFF, 1), Err(EmuError::RomWrite(0xFFFF)));
    // The failed writes changed nothing.
    assert_eq!(bus.read(0x8000), Ok(0));
}

#[test]
fn sixteen_kib_image_is_mirrored() {
    let bus = Bus::new(rom_16k());
    for off in [0u16, 1, 0x1234, 0x3FFF] {
        assert_eq!(bus.read(0x8000 + off), bus.read(0xC000 + off));
    }
}

#[test]
fn reserved_register_window_fails_loudly() {
    let mut bus = Bus::new(rom_32k());
    assert_eq!(bus.read(0x2000), Err(EmuError::ReservedRegion(0x2000)));
    assert_eq!(bus.read(0x3FFF), Err(EmuError::ReservedRegion(0x3FFF)));
    assert_eq!(bus.write(0x2abc, 7), Err(EmuError::ReservedRegion(0x2abc)));
}

#[test]
fn open_bus_reads_zero_and_ignores_writes() {
    let mut bus = Bus::new(rom_32k());
    assert_eq!(bus.read(0x4000), Ok(0));
    assert_eq!(bus.read(0x7FFF), Ok(0));
    assert_eq!(bus.write(0x4123, 0xAA), Ok(()));
    assert_eq!(bus.read(0x4123), Ok(0));
}

#[test]
fn u16_access_is_little_endian() {
    let mut bus = Bus::new(rom_32k());
    bus.write_u16(0x0100, 0x1234).unwrap();
    assert_eq!(bus.read(0x0100), Ok(0x34));
    assert_eq!(bus.read(0x0101), Ok(0x12));
    assert_eq!(bus.read_u16(0x0100), Ok(0x1234));
}

#[test]
fn bulk_load_lands_in_ram() {
    let mut bus = Bus::new(rom_32k());
    bus.load_to(0x0600, &[1, 2, 3]);
    assert_eq!(bus.read(0x0600), Ok(1));
    assert_eq!(bus.read(0x0601), Ok(2));
    assert_eq!(bus.read(0x0602), Ok(3));
    assert_eq!(bus.read(0x0603), Ok(0));
}
