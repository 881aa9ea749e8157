use nes::{decode, info, info_extra, info_extra2, AddrMode, Opcode};

#[test]
fn decode_known_triples() {
    assert_eq!(decode(0xA9), Some((Opcode::LDA, AddrMode::Immediate, info(2, 2))));
    assert_eq!(decode(0x00), Some((Opcode::BRK, AddrMode::Implicit, info(1, 7))));
    assert_eq!(decode(0x69), Some((Opcode::ADC, AddrMode::Immediate, info(2, 2))));
    assert_eq!(decode(0x7D), Some((Opcode::ADC, AddrMode::AbsoluteX, info_extra(3, 4, 1))));
    assert_eq!(decode(0x90), Some((Opcode::BCC, AddrMode::Relative, info_extra2(2, 2, 1, 1))));
    assert_eq!(decode(0x6C), Some((Opcode::JMP, AddrMode::Indirect, info(3, 5))));
    assert_eq!(decode(0x20), Some((Opcode::JSR, AddrMode::Absolute, info(3, 6))));
    assert_eq!(decode(0xB6), Some((Opcode::LDX, AddrMode::ZeroPageY, info(2, 4))));
    assert_eq!(decode(0x91), Some((Opcode::STA, AddrMode::IndirectIndexed, info(2, 6))));
    assert_eq!(decode(0xA1), Some((Opcode::LDA, AddrMode::IndexedIndirect, info(2, 6))));
    assert_eq!(decode(0x4A), Some((Opcode::LSR, AddrMode::Accumulator, info(1, 2))));
    assert_eq!(decode(0x98), Some((Opcode::TYA, AddrMode::Implicit, info(1, 2))));
}

#[test]
fn decode_documented_count() {
    let mut legal = 0;
    for b in 0..=255u8 {
        if decode(b).is_some() {
            legal += 1;
        }
    }
    assert_eq!(legal, 151);
}

#[test]
fn decode_undocumented_fails() {
    for b in [0x02u8, 0x03, 0x04, 0x1A, 0x80, 0x9E, 0xFF, 0xEB] {
        assert!(decode(b).is_none(), "byte {b:#04x} must not decode");
    }
}

#[test]
fn decode_is_stable() {
    for b in 0..=255u8 {
        assert_eq!(decode(b), decode(b));
    }
}

#[test]
fn decode_size_matches_addressing_mode() {
    // The byte size is a function of the addressing mode alone.
    for b in 0..=255u8 {
        if let Some((_, mode, i)) = decode(b) {
            let expected = match mode {
                AddrMode::Implicit | AddrMode::Accumulator => 1,
                AddrMode::Immediate
                | AddrMode::ZeroPage
                | AddrMode::ZeroPageX
                | AddrMode::ZeroPageY
                | AddrMode::Relative
                | AddrMode::IndexedIndirect
                | AddrMode::IndirectIndexed => 2,
                AddrMode::Absolute | AddrMode::AbsoluteX | AddrMode::AbsoluteY
                | AddrMode::Indirect => 3,
            };
            assert_eq!(i.size, expected, "byte {b:#04x}");
        }
    }
}

#[test]
fn info_constructors() {
    let i = info(3, 4);
    assert_eq!((i.size, i.cycles, i.cycles_extra, i.cycles_extra2), (3, 4, 0, 0));
    let i = info_extra(3, 4, 1);
    assert_eq!((i.size, i.cycles, i.cycles_extra, i.cycles_extra2), (3, 4, 1, 0));
    let i = info_extra2(2, 2, 1, 1);
    assert_eq!((i.size, i.cycles, i.cycles_extra, i.cycles_extra2), (2, 2, 1, 1));
}
