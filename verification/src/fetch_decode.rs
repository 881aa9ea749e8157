use vstd::prelude::*;

verus! {

/// The 56 documented instruction mnemonics of the CPU.
#[derive(Clone, Copy, Debug, PartialEq, Eq, Structural)]
pub enum Opcode {
    ADC,
    AND,
    ASL,
    BCC,
    BCS,
    BEQ,
    BIT,
    BMI,
    BNE,
    BPL,
    BRK,
    BVC,
    BVS,
    CLC,
    CLD,
    CLI,
    CLV,
    CMP,
    CPX,
    CPY,
    DEC,
    DEX,
    DEY,
    EOR,
    INC,
    INX,
    INY,
    JMP,
    JSR,
    LDA,
    LDX,
    LDY,
    LSR,
    NOP,
    ORA,
    PHA,
    PHP,
    PLA,
    PLP,
    ROL,
    ROR,
    RTI,
    RTS,
    SBC,
    SEC,
    SED,
    SEI,
    STA,
    STX,
    STY,
    TAX,
    TAY,
    TSX,
    TXA,
    TXS,
    TYA,
}

/// The 13 addressing modes: each is a rule for locating an instruction's
/// operand.
#[derive(Clone, Copy, Debug, PartialEq, Eq, Structural)]
pub enum AddrMode {
    /// The operand is implied by the instruction itself (`CLC`, `RTS`).
    Implicit,
    /// The instruction operates on the accumulator (`LSR A`).
    Accumulator,
    /// An 8-bit constant follows the opcode byte (`LDA #10`).
    Immediate,
    /// An 8-bit address follows the opcode byte, reaching the first 256
    /// bytes of memory (`LDA $00`).
    ZeroPage,
    /// An 8-bit address follows the opcode byte and is wrapping-added to
    /// `X`, so only 0x00-0xFF can be reached (`LDA $80,X`).
    ZeroPageX,
    /// Like `ZeroPageX` but indexed with the `Y` register; used only by
    /// `LDX` and `STX`.
    ZeroPageY,
    /// An 8-bit signed displacement follows the opcode byte; a taken branch
    /// adds it to the program counter.
    Relative,
    /// A 16-bit little-endian address follows the opcode byte (`JMP $1234`).
    Absolute,
    /// A 16-bit little-endian address follows the opcode byte and is added
    /// to `X` with 16-bit wraparound (`LDA $8000,X`).
    AbsoluteX,
    /// Like `AbsoluteX` but indexed with the `Y` register.
    AbsoluteY,
    /// A 16-bit address follows the opcode byte and points at the 16-bit
    /// little-endian target; only `JMP` uses it.
    Indirect,
    /// Also known as indirect-X: the byte after the opcode is wrapping-added
    /// to `X` to pick a zero-page cell holding a little-endian pointer.
    IndexedIndirect,
    /// Also known as indirect-Y: the byte after the opcode picks a zero-page
    /// cell holding a little-endian pointer, to which `Y` is added.
    IndirectIndexed,
}

/// The numeric timing contract of one instruction encoding.
#[derive(Clone, Copy, Debug, PartialEq, Eq, Structural)]
pub struct InstructionInfo {
    /// Base cycle count.
    pub cycles: u16,
    /// Instruction length in bytes, 1 to 3.
    pub size: u16,
    /// Extra cycle taken on a page cross.
    pub cycles_extra: u16,
    /// Extra cycle taken on a taken branch.
    pub cycles_extra2: u16,
}

pub open spec fn spec_info(size: u16, cycles: u16) -> InstructionInfo {
    InstructionInfo { cycles, size, cycles_extra: 0, cycles_extra2: 0 }
}

pub open spec fn spec_info_extra(size: u16, cycles: u16, cycles_extra: u16) -> InstructionInfo {
    InstructionInfo { cycles, size, cycles_extra, cycles_extra2: 0 }
}

pub open spec fn spec_info_extra2(
    size: u16,
    cycles: u16,
    cycles_extra: u16,
    cycles_extra2: u16,
) -> InstructionInfo {
    InstructionInfo { cycles, size, cycles_extra, cycles_extra2 }
}

pub fn info(size: u16, cycles: u16) -> (r: InstructionInfo)
    ensures
        r == spec_info(size, cycles),
{
    InstructionInfo { cycles, size, cycles_extra: 0, cycles_extra2: 0 }
}

pub fn info_extra(size: u16, cycles: u16, cycles_extra: u16) -> (r: InstructionInfo)
    ensures
        r == spec_info_extra(size, cycles, cycles_extra),
{
    InstructionInfo { cycles, size, cycles_extra, cycles_extra2: 0 }
}

pub fn info_extra2(size: u16, cycles: u16, cycles_extra: u16, cycles_extra2: u16) -> (r:
    InstructionInfo)
    ensures
        r == spec_info_extra2(size, cycles, cycles_extra, cycles_extra2),
{
    InstructionInfo { cycles, size, cycles_extra, cycles_extra2 }
}

/// The decode table as a mathematical function: every documented legal
/// opcode byte maps to its (mnemonic, addressing mode, timing) triple, and
/// every other byte to `None`.
pub open spec fn spec_decode(val: u8) -> Option<(Opcode, AddrMode, InstructionInfo)> {
    match val {
        0x69 => Some((Opcode::ADC, AddrMode::Immediate, spec_info(2, 2))),
        0x65 => Some((Opcode::ADC, AddrMode::ZeroPage, spec_info(2, 3))),
        0x75 => Some((Opcode::ADC, AddrMode::ZeroPageX, spec_info(2, 4))),
        0x6D => Some((Opcode::ADC, AddrMode::Absolute, spec_info(3, 4))),
        0x7D => Some((Opcode::ADC, AddrMode::AbsoluteX, spec_info_extra(3, 4, 1))),
        0x79 => Some((Opcode::ADC, AddrMode::AbsoluteY, spec_info_extra(3, 4, 1))),
        0x61 => Some((Opcode::ADC, AddrMode::IndexedIndirect, spec_info(2, 6))),
        0x71 => Some((Opcode::ADC, AddrMode::IndirectIndexed, spec_info_extra(2, 5, 1))),
        0x29 => Some((Opcode::AND, AddrMode::Immediate, spec_info(2, 2))),
        0x25 => Some((Opcode::AND, AddrMode::ZeroPage, spec_info(2, 3))),
        0x35 => Some((Opcode::AND, AddrMode::ZeroPageX, spec_info(2, 4))),
        0x2D => Some((Opcode::AND, AddrMode::Absolute, spec_info(3, 4))),
        0x3D => Some((Opcode::AND, AddrMode::AbsoluteX, spec_info_extra(3, 4, 1))),
        0x39 => Some((Opcode::AND, AddrMode::AbsoluteY, spec_info_extra(3, 4, 1))),
        0x21 => Some((Opcode::AND, AddrMode::IndexedIndirect, spec_info(2, 6))),
        0x31 => Some((Opcode::AND, AddrMode::IndirectIndexed, spec_info_extra(2, 5, 1))),
        0x0A => Some((Opcode::ASL, AddrMode::Accumulator, spec_info(1, 2))),
        0x06 => Some((Opcode::ASL, AddrMode::ZeroPage, spec_info(2, 5))),
        0x16 => Some((Opcode::ASL, AddrMode::ZeroPageX, spec_info(2, 6))),
        0x0E => Some((Opcode::ASL, AddrMode::Absolute, spec_info(3, 6))),
        0x1E => Some((Opcode::ASL, AddrMode::AbsoluteX, spec_info(3, 7))),
        0x90 => Some((Opcode::BCC, AddrMode::Relative, spec_info_extra2(2, 2, 1, 1))),
        0xB0 => Some((Opcode::BCS, AddrMode::Relative, spec_info_extra2(2, 2, 1, 1))),
        0xF0 => Some((Opcode::BEQ, AddrMode::Relative, spec_info_extra2(2, 2, 1, 1))),
        0x24 => Some((Opcode::BIT, AddrMode::ZeroPage, spec_info(2, 3))),
        0x2C => Some((Opcode::BIT, AddrMode::Absolute, spec_info(3, 4))),
        0x30 => Some((Opcode::BMI, AddrMode::Relative, spec_info_extra2(2, 2, 1, 1))),
        0xD0 => Some((Opcode::BNE, AddrMode::Relative, spec_info_extra2(2, 2, 1, 1))),
        0x10 => Some((Opcode::BPL, AddrMode::Relative, spec_info_extra2(2, 2, 1, 1))),
        0x00 => Some((Opcode::BRK, AddrMode::Implicit, spec_info(1, 7))),
        0x50 => Some((Opcode::BVC, AddrMode::Relative, spec_info_extra2(2, 2, 1, 1))),
        0x70 => Some((Opcode::BVS, AddrMode::Relative, spec_info_extra2(2, 2, 1, 1))),
        0x18 => Some((Opcode::CLC, AddrMode::Implicit, spec_info(1, 2))),
        0xD8 => Some((Opcode::CLD, AddrMode::Implicit, spec_info(1, 2))),
        0x58 => Some((Opcode::CLI, AddrMode::Implicit, spec_info(1, 2))),
        0xB8 => Some((Opcode::CLV, AddrMode::Implicit, spec_info(1, 2))),
        0xC9 => Some((Opcode::CMP, AddrMode::Immediate, spec_info(2, 2))),
        0xC5 => Some((Opcode::CMP, AddrMode::ZeroPage, spec_info(2, 3))),
        0xD5 => Some((Opcode::CMP, AddrMode::ZeroPageX, spec_info(2, 4))),
        0xCD => Some((Opcode::CMP, AddrMode::Absolute, spec_info(3, 4))),
        0xDD => Some((Opcode::CMP, AddrMode::AbsoluteX, spec_info_extra(3, 4, 1))),
        0xD9 => Some((Opcode::CMP, AddrMode::AbsoluteY, spec_info_extra(3, 4, 1))),
        0xC1 => Some((Opcode::CMP, AddrMode::IndexedIndirect, spec_info(2, 6))),
        0xD1 => Some((Opcode::CMP, AddrMode::IndirectIndexed, spec_info_extra(2, 5, 1))),
        0xE0 => Some((Opcode::CPX, AddrMode::Immediate, spec_info(2, 2))),
        0xE4 => Some((Opcode::CPX, AddrMode::ZeroPage, spec_info(2, 3))),
        0xEC => Some((Opcode::CPX, AddrMode::Absolute, spec_info(3, 4))),
        0xC0 => Some((Opcode::CPY, AddrMode::Immediate, spec_info(2, 2))),
        0xC4 => Some((Opcode::CPY, AddrMode::ZeroPage, spec_info(2, 3))),
        0xCC => Some((Opcode::CPY, AddrMode::Absolute, spec_info(3, 4))),
        0xC6 => Some((Opcode::DEC, AddrMode::ZeroPage, spec_info(2, 5))),
        0xD6 => Some((Opcode::DEC, AddrMode::ZeroPageX, spec_info(2, 6))),
        0xCE => Some((Opcode::DEC, AddrMode::Absolute, spec_info(3, 6))),
        0xDE => Some((Opcode::DEC, AddrMode::AbsoluteX, spec_info(3, 7))),
        0xCA => Some((Opcode::DEX, AddrMode::Implicit, spec_info(1, 2))),
        0x88 => Some((Opcode::DEY, AddrMode::Implicit, spec_info(1, 2))),
        0x49 => Some((Opcode::EOR, AddrMode::Immediate, spec_info(2, 2))),
        0x45 => Some((Opcode::EOR, AddrMode::ZeroPage, spec_info(2, 3))),
        0x55 => Some((Opcode::EOR, AddrMode::ZeroPageX, spec_info(2, 4))),
        0x4D => Some((Opcode::EOR, AddrMode::Absolute, spec_info(3, 4))),
        0x5D => Some((Opcode::EOR, AddrMode::AbsoluteX, spec_info_extra(3, 4, 1))),
        0x59 => Some((Opcode::EOR, AddrMode::AbsoluteY, spec_info_extra(3, 4, 1))),
        0x41 => Some((Opcode::EOR, AddrMode::IndexedIndirect, spec_info(2, 6))),
        0x51 => Some((Opcode::EOR, AddrMode::IndirectIndexed, spec_info_extra(2, 5, 1))),
        0xE6 => Some((Opcode::INC, AddrMode::ZeroPage, spec_info(2, 5))),
        0xF6 => Some((Opcode::INC, AddrMode::ZeroPageX, spec_info(2, 6))),
        0xEE => Some((Opcode::INC, AddrMode::Absolute, spec_info(3, 6))),
        0xFE => Some((Opcode::INC, AddrMode::AbsoluteX, spec_info(3, 7))),
        0xE8 => Some((Opcode::INX, AddrMode::Implicit, spec_info(1, 2))),
        0xC8 => Some((Opcode::INY, AddrMode::Implicit, spec_info(1, 2))),
        0x4C => Some((Opcode::JMP, AddrMode::Absolute, spec_info(3, 3))),
        0x6C => Some((Opcode::JMP, AddrMode::Indirect, spec_info(3, 5))),
        0x20 => Some((Opcode::JSR, AddrMode::Absolute, spec_info(3, 6))),
        0xA9 => Some((Opcode::LDA, AddrMode::Immediate, spec_info(2, 2))),
        0xA5 => Some((Opcode::LDA, AddrMode::ZeroPage, spec_info(2, 3))),
        0xB5 => Some((Opcode::LDA, AddrMode::ZeroPageX, spec_info(2, 4))),
        0xAD => Some((Opcode::LDA, AddrMode::Absolute, spec_info(3, 4))),
        0xBD => Some((Opcode::LDA, AddrMode::AbsoluteX, spec_info_extra(3, 4, 1))),
        0xB9 => Some((Opcode::LDA, AddrMode::AbsoluteY, spec_info_extra(3, 4, 1))),
        0xA1 => Some((Opcode::LDA, AddrMode::IndexedIndirect, spec_info(2, 6))),
        0xB1 => Some((Opcode::LDA, AddrMode::IndirectIndexed, spec_info_extra(2, 5, 1))),
        0xA2 => Some((Opcode::LDX, AddrMode::Immediate, spec_info(2, 2))),
        0xA6 => Some((Opcode::LDX, AddrMode::ZeroPage, spec_info(2, 3))),
        0xB6 => Some((Opcode::LDX, AddrMode::ZeroPageY, spec_info(2, 4))),
        0xAE => Some((Opcode::LDX, AddrMode::Absolute, spec_info(3, 4))),
        0xBE => Some((Opcode::LDX, AddrMode::AbsoluteY, spec_info_extra(3, 4, 1))),
        0xA0 => Some((Opcode::LDY, AddrMode::Immediate, spec_info(2, 2))),
        0xA4 => Some((Opcode::LDY, AddrMode::ZeroPage, spec_info(2, 3))),
        0xB4 => Some((Opcode::LDY, AddrMode::ZeroPageX, spec_info(2, 4))),
        0xAC => Some((Opcode::LDY, AddrMode::Absolute, spec_info(3, 4))),
        0xBC => Some((Opcode::LDY, AddrMode::AbsoluteX, spec_info_extra(3, 4, 1))),
        0x4A => Some((Opcode::LSR, AddrMode::Accumulator, spec_info(1, 2))),
        0x46 => Some((Opcode::LSR, AddrMode::ZeroPage, spec_info(2, 5))),
        0x56 => Some((Opcode::LSR, AddrMode::ZeroPageX, spec_info(2, 6))),
        0x4E => Some((Opcode::LSR, AddrMode::Absolute, spec_info(3, 6))),
        0x5E => Some((Opcode::LSR, AddrMode::AbsoluteX, spec_info(3, 7))),
        0xEA => Some((Opcode::NOP, AddrMode::Implicit, spec_info(1, 2))),
        0x09 => Some((Opcode::ORA, AddrMode::Immediate, spec_info(2, 2))),
        0x05 => Some((Opcode::ORA, AddrMode::ZeroPage, spec_info(2, 3))),
        0x15 => Some((Opcode::ORA, AddrMode::ZeroPageX, spec_info(2, 4))),
        0x0D => Some((Opcode::ORA, AddrMode::Absolute, spec_info(3, 4))),
        0x1D => Some((Opcode::ORA, AddrMode::AbsoluteX, spec_info_extra(3, 4, 1))),
        0x19 => Some((Opcode::ORA, AddrMode::AbsoluteY, spec_info_extra(3, 4, 1))),
        0x01 => Some((Opcode::ORA, AddrMode::IndexedIndirect, spec_info(2, 6))),
        0x11 => Some((Opcode::ORA, AddrMode::IndirectIndexed, spec_info_extra(2, 5, 1))),
        0x48 => Some((Opcode::PHA, AddrMode::Implicit, spec_info(1, 3))),
        0x08 => Some((Opcode::PHP, AddrMode::Implicit, spec_info(1, 3))),
        0x68 => Some((Opcode::PLA, AddrMode::Implicit, spec_info(1, 4))),
        0x28 => Some((Opcode::PLP, AddrMode::Implicit, spec_info(1, 4))),
        0x2A => Some((Opcode::ROL, AddrMode::Accumulator, spec_info(1, 2))),
        0x26 => Some((Opcode::ROL, AddrMode::ZeroPage, spec_info(2, 5))),
        0x36 => Some((Opcode::ROL, AddrMode::ZeroPageX, spec_info(2, 6))),
        0x2E => Some((Opcode::ROL, AddrMode::Absolute, spec_info(3, 6))),
        0x3E => Some((Opcode::ROL, AddrMode::AbsoluteX, spec_info(3, 7))),
        0x6A => Some((Opcode::ROR, AddrMode::Accumulator, spec_info(1, 2))),
        0x66 => Some((Opcode::ROR, AddrMode::ZeroPage, spec_info(2, 5))),
        0x76 => Some((Opcode::ROR, AddrMode::ZeroPageX, spec_info(2, 6))),
        0x6E => Some((Opcode::ROR, AddrMode::Absolute, spec_info(3, 6))),
        0x7E => Some((Opcode::ROR, AddrMode::AbsoluteX, spec_info(3, 7))),
        0x40 => Some((Opcode::RTI, AddrMode::Implicit, spec_info(1, 6))),
        0x60 => Some((Opcode::RTS, AddrMode::Implicit, spec_info(1, 6))),
        0xE9 => Some((Opcode::SBC, AddrMode::Immediate, spec_info(2, 2))),
        0xE5 => Some((Opcode::SBC, AddrMode::ZeroPage, spec_info(2, 3))),
        0xF5 => Some((Opcode::SBC, AddrMode::ZeroPageX, spec_info(2, 4))),
        0xED => Some((Opcode::SBC, AddrMode::Absolute, spec_info(3, 4))),
        0xFD => Some((Opcode::SBC, AddrMode::AbsoluteX, spec_info_extra(3, 4, 1))),
        0xF9 => Some((Opcode::SBC, AddrMode::AbsoluteY, spec_info_extra(3, 4, 1))),
        0xE1 => Some((Opcode::SBC, AddrMode::IndexedIndirect, spec_info(2, 6))),
        0xF1 => Some((Opcode::SBC, AddrMode::IndirectIndexed, spec_info_extra(2, 5, 1))),
        0x38 => Some((Opcode::SEC, AddrMode::Implicit, spec_info(1, 2))),
        0xF8 => Some((Opcode::SED, AddrMode::Implicit, spec_info(1, 2))),
        0x78 => Some((Opcode::SEI, AddrMode::Implicit, spec_info(1, 2))),
        0x85 => Some((Opcode::STA, AddrMode::ZeroPage, spec_info(2, 3))),
        0x95 => Some((Opcode::STA, AddrMode::ZeroPageX, spec_info(2, 4))),
        0x8D => Some((Opcode::STA, AddrMode::Absolute, spec_info(3, 4))),
        0x9D => Some((Opcode::STA, AddrMode::AbsoluteX, spec_info(3, 5))),
        0x99 => Some((Opcode::STA, AddrMode::AbsoluteY, spec_info(3, 5))),
        0x81 => Some((Opcode::STA, AddrMode::IndexedIndirect, spec_info(2, 6))),
        0x91 => Some((Opcode::STA, AddrMode::IndirectIndexed, spec_info(2, 6))),
        0x86 => Some((Opcode::STX, AddrMode::ZeroPage, spec_info(2, 3))),
        0x96 => Some((Opcode::STX, AddrMode::ZeroPageY, spec_info(2, 4))),
        0x8E => Some((Opcode::STX, AddrMode::Absolute, spec_info(3, 4))),
        0x84 => Some((Opcode::STY, AddrMode::ZeroPage, spec_info(2, 3))),
        0x94 => Some((Opcode::STY, AddrMode::ZeroPageX, spec_info(2, 4))),
        0x8C => Some((Opcode::STY, AddrMode::Absolute, spec_info(3, 4))),
        0xAA => Some((Opcode::TAX, AddrMode::Implicit, spec_info(1, 2))),
        0xA8 => Some((Opcode::TAY, AddrMode::Implicit, spec_info(1, 2))),
        0xBA => Some((Opcode::TSX, AddrMode::Implicit, spec_info(1, 2))),
        0x8A => Some((Opcode::TXA, AddrMode::Implicit, spec_info(1, 2))),
        0x9A => Some((Opcode::TXS, AddrMode::Implicit, spec_info(1, 2))),
        0x98 => Some((Opcode::TYA, AddrMode::Implicit, spec_info(1, 2))),
        _ => None,
    }
}

/// Decode one opcode byte.  Exactly the documented legal encodings decode;
/// an undocumented byte is a decode failure reported as `None`.
#[verifier::rlimit(50)]
pub fn decode(val: u8) -> (r: Option<(Opcode, AddrMode, InstructionInfo)>)
    ensures
        r == spec_decode(val),
{
    match val {
        0x69 => Some((Opcode::ADC, AddrMode::Immediate, info(2, 2))),
        0x65 => Some((Opcode::ADC, AddrMode::ZeroPage, info(2, 3))),
        0x75 => Some((Opcode::ADC, AddrMode::ZeroPageX, info(2, 4))),
        0x6D => Some((Opcode::ADC, AddrMode::Absolute, info(3, 4))),
        0x7D => Some((Opcode::ADC, AddrMode::AbsoluteX, info_extra(3, 4, 1))),
        0x79 => Some((Opcode::ADC, AddrMode::AbsoluteY, info_extra(3, 4, 1))),
        0x61 => Some((Opcode::ADC, AddrMode::IndexedIndirect, info(2, 6))),
        0x71 => Some((Opcode::ADC, AddrMode::IndirectIndexed, info_extra(2, 5, 1))),
        0x29 => Some((Opcode::AND, AddrMode::Immediate, info(2, 2))),
        0x25 => Some((Opcode::AND, AddrMode::ZeroPage, info(2, 3))),
        0x35 => Some((Opcode::AND, AddrMode::ZeroPageX, info(2, 4))),
        0x2D => Some((Opcode::AND, AddrMode::Absolute, info(3, 4))),
        0x3D => Some((Opcode::AND, AddrMode::AbsoluteX, info_extra(3, 4, 1))),
        0x39 => Some((Opcode::AND, AddrMode::AbsoluteY, info_extra(3, 4, 1))),
        0x21 => Some((Opcode::AND, AddrMode::IndexedIndirect, info(2, 6))),
        0x31 => Some((Opcode::AND, AddrMode::IndirectIndexed, info_extra(2, 5, 1))),
        0x0A => Some((Opcode::ASL, AddrMode::Accumulator, info(1, 2))),
        0x06 => Some((Opcode::ASL, AddrMode::ZeroPage, info(2, 5))),
        0x16 => Some((Opcode::ASL, AddrMode::ZeroPageX, info(2, 6))),
        0x0E => Some((Opcode::ASL, AddrMode::Absolute, info(3, 6))),
        0x1E => Some((Opcode::ASL, AddrMode::AbsoluteX, info(3, 7))),
        0x90 => Some((Opcode::BCC, AddrMode::Relative, info_extra2(2, 2, 1, 1))),
        0xB0 => Some((Opcode::BCS, AddrMode::Relative, info_extra2(2, 2, 1, 1))),
        0xF0 => Some((Opcode::BEQ, AddrMode::Relative, info_extra2(2, 2, 1, 1))),
        0x24 => Some((Opcode::BIT, AddrMode::ZeroPage, info(2, 3))),
        0x2C => Some((Opcode::BIT, AddrMode::Absolute, info(3, 4))),
        0x30 => Some((Opcode::BMI, AddrMode::Relative, info_extra2(2, 2, 1, 1))),
        0xD0 => Some((Opcode::BNE, AddrMode::Relative, info_extra2(2, 2, 1, 1))),
        0x10 => Some((Opcode::BPL, AddrMode::Relative, info_extra2(2, 2, 1, 1))),
        0x00 => Some((Opcode::BRK, AddrMode::Implicit, info(1, 7))),
        0x50 => Some((Opcode::BVC, AddrMode::Relative, info_extra2(2, 2, 1, 1))),
        0x70 => Some((Opcode::BVS, AddrMode::Relative, info_extra2(2, 2, 1, 1))),
        0x18 => Some((Opcode::CLC, AddrMode::Implicit, info(1, 2))),
        0xD8 => Some((Opcode::CLD, AddrMode::Implicit, info(1, 2))),
        0x58 => Some((Opcode::CLI, AddrMode::Implicit, info(1, 2))),
        0xB8 => Some((Opcode::CLV, AddrMode::Implicit, info(1, 2))),
        0xC9 => Some((Opcode::CMP, AddrMode::Immediate, info(2, 2))),
        0xC5 => Some((Opcode::CMP, AddrMode::ZeroPage, info(2, 3))),
        0xD5 => Some((Opcode::CMP, AddrMode::ZeroPageX, info(2, 4))),
        0xCD => Some((Opcode::CMP, AddrMode::Absolute, info(3, 4))),
        0xDD => Some((Opcode::CMP, AddrMode::AbsoluteX, info_extra(3, 4, 1))),
        0xD9 => Some((Opcode::CMP, AddrMode::AbsoluteY, info_extra(3, 4, 1))),
        0xC1 => Some((Opcode::CMP, AddrMode::IndexedIndirect, info(2, 6))),
        0xD1 => Some((Opcode::CMP, AddrMode::IndirectIndexed, info_extra(2, 5, 1))),
        0xE0 => Some((Opcode::CPX, AddrMode::Immediate, info(2, 2))),
        0xE4 => Some((Opcode::CPX, AddrMode::ZeroPage, info(2, 3))),
        0xEC => Some((Opcode::CPX, AddrMode::Absolute, info(3, 4))),
        0xC0 => Some((Opcode::CPY, AddrMode::Immediate, info(2, 2))),
        0xC4 => Some((Opcode::CPY, AddrMode::ZeroPage, info(2, 3))),
        0xCC => Some((Opcode::CPY, AddrMode::Absolute, info(3, 4))),
        0xC6 => Some((Opcode::DEC, AddrMode::ZeroPage, info(2, 5))),
        0xD6 => Some((Opcode::DEC, AddrMode::ZeroPageX, info(2, 6))),
        0xCE => Some((Opcode::DEC, AddrMode::Absolute, info(3, 6))),
        0xDE => Some((Opcode::DEC, AddrMode::AbsoluteX, info(3, 7))),
        0xCA => Some((Opcode::DEX, AddrMode::Implicit, info(1, 2))),
        0x88 => Some((Opcode::DEY, AddrMode::Implicit, info(1, 2))),
        0x49 => Some((Opcode::EOR, AddrMode::Immediate, info(2, 2))),
        0x45 => Some((Opcode::EOR, AddrMode::ZeroPage, info(2, 3))),
        0x55 => Some((Opcode::EOR, AddrMode::ZeroPageX, info(2, 4))),
        0x4D => Some((Opcode::EOR, AddrMode::Absolute, info(3, 4))),
        0x5D => Some((Opcode::EOR, AddrMode::AbsoluteX, info_extra(3, 4, 1))),
        0x59 => Some((Opcode::EOR, AddrMode::AbsoluteY, info_extra(3, 4, 1))),
        0x41 => Some((Opcode::EOR, AddrMode::IndexedIndirect, info(2, 6))),
        0x51 => Some((Opcode::EOR, AddrMode::IndirectIndexed, info_extra(2, 5, 1))),
        0xE6 => Some((Opcode::INC, AddrMode::ZeroPage, info(2, 5))),
        0xF6 => Some((Opcode::INC, AddrMode::ZeroPageX, info(2, 6))),
        0xEE => Some((Opcode::INC, AddrMode::Absolute, info(3, 6))),
        0xFE => Some((Opcode::INC, AddrMode::AbsoluteX, info(3, 7))),
        0xE8 => Some((Opcode::INX, AddrMode::Implicit, info(1, 2))),
        0xC8 => Some((Opcode::INY, AddrMode::Implicit, info(1, 2))),
        0x4C => Some((Opcode::JMP, AddrMode::Absolute, info(3, 3))),
        0x6C => Some((Opcode::JMP, AddrMode::Indirect, info(3, 5))),
        0x20 => Some((Opcode::JSR, AddrMode::Absolute, info(3, 6))),
        0xA9 => Some((Opcode::LDA, AddrMode::Immediate, info(2, 2))),
        0xA5 => Some((Opcode::LDA, AddrMode::ZeroPage, info(2, 3))),
        0xB5 => Some((Opcode::LDA, AddrMode::ZeroPageX, info(2, 4))),
        0xAD => Some((Opcode::LDA, AddrMode::Absolute, info(3, 4))),
        0xBD => Some((Opcode::LDA, AddrMode::AbsoluteX, info_extra(3, 4, 1))),
        0xB9 => Some((Opcode::LDA, AddrMode::AbsoluteY, info_extra(3, 4, 1))),
        0xA1 => Some((Opcode::LDA, AddrMode::IndexedIndirect, info(2, 6))),
        0xB1 => Some((Opcode::LDA, AddrMode::IndirectIndexed, info_extra(2, 5, 1))),
        0xA2 => Some((Opcode::LDX, AddrMode::Immediate, info(2, 2))),
        0xA6 => Some((Opcode::LDX, AddrMode::ZeroPage, info(2, 3))),
        0xB6 => Some((Opcode::LDX, AddrMode::ZeroPageY, info(2, 4))),
        0xAE => Some((Opcode::LDX, AddrMode::Absolute, info(3, 4))),
        0xBE => Some((Opcode::LDX, AddrMode::AbsoluteY, info_extra(3, 4, 1))),
        0xA0 => Some((Opcode::LDY, AddrMode::Immediate, info(2, 2))),
        0xA4 => Some((Opcode::LDY, AddrMode::ZeroPage, info(2, 3))),
        0xB4 => Some((Opcode::LDY, AddrMode::ZeroPageX, info(2, 4))),
        0xAC => Some((Opcode::LDY, AddrMode::Absolute, info(3, 4))),
        0xBC => Some((Opcode::LDY, AddrMode::AbsoluteX, info_extra(3, 4, 1))),
        0x4A => Some((Opcode::LSR, AddrMode::Accumulator, info(1, 2))),
        0x46 => Some((Opcode::LSR, AddrMode::ZeroPage, info(2, 5))),
        0x56 => Some((Opcode::LSR, AddrMode::ZeroPageX, info(2, 6))),
        0x4E => Some((Opcode::LSR, AddrMode::Absolute, info(3, 6))),
        0x5E => Some((Opcode::LSR, AddrMode::AbsoluteX, info(3, 7))),
        0xEA => Some((Opcode::NOP, AddrMode::Implicit, info(1, 2))),
        0x09 => Some((Opcode::ORA, AddrMode::Immediate, info(2, 2))),
        0x05 => Some((Opcode::ORA, AddrMode::ZeroPage, info(2, 3))),
        0x15 => Some((Opcode::ORA, AddrMode::ZeroPageX, info(2, 4))),
        0x0D => Some((Opcode::ORA, AddrMode::Absolute, info(3, 4))),
        0x1D => Some((Opcode::ORA, AddrMode::AbsoluteX, info_extra(3, 4, 1))),
        0x19 => Some((Opcode::ORA, AddrMode::AbsoluteY, info_extra(3, 4, 1))),
        0x01 => Some((Opcode::ORA, AddrMode::IndexedIndirect, info(2, 6))),
        0x11 => Some((Opcode::ORA, AddrMode::IndirectIndexed, info_extra(2, 5, 1))),
        0x48 => Some((Opcode::PHA, AddrMode::Implicit, info(1, 3))),
        0x08 => Some((Opcode::PHP, AddrMode::Implicit, info(1, 3))),
        0x68 => Some((Opcode::PLA, AddrMode::Implicit, info(1, 4))),
        0x28 => Some((Opcode::PLP, AddrMode::Implicit, info(1, 4))),
        0x2A => Some((Opcode::ROL, AddrMode::Accumulator, info(1, 2))),
        0x26 => Some((Opcode::ROL, AddrMode::ZeroPage, info(2, 5))),
        0x36 => Some((Opcode::ROL, AddrMode::ZeroPageX, info(2, 6))),
        0x2E => Some((Opcode::ROL, AddrMode::Absolute, info(3, 6))),
        0x3E => Some((Opcode::ROL, AddrMode::AbsoluteX, info(3, 7))),
        0x6A => Some((Opcode::ROR, AddrMode::Accumulator, info(1, 2))),
        0x66 => Some((Opcode::ROR, AddrMode::ZeroPage, info(2, 5))),
        0x76 => Some((Opcode::ROR, AddrMode::ZeroPageX, info(2, 6))),
        0x6E => Some((Opcode::ROR, AddrMode::Absolute, info(3, 6))),
        0x7E => Some((Opcode::ROR, AddrMode::AbsoluteX, info(3, 7))),
        0x40 => Some((Opcode::RTI, AddrMode::Implicit, info(1, 6))),
        0x60 => Some((Opcode::RTS, AddrMode::Implicit, info(1, 6))),
        0xE9 => Some((Opcode::SBC, AddrMode::Immediate, info(2, 2))),
        0xE5 => Some((Opcode::SBC, AddrMode::ZeroPage, info(2, 3))),
        0xF5 => Some((Opcode::SBC, AddrMode::ZeroPageX, info(2, 4))),
        0xED => Some((Opcode::SBC, AddrMode::Absolute, info(3, 4))),
        0xFD => Some((Opcode::SBC, AddrMode::AbsoluteX, info_extra(3, 4, 1))),
        0xF9 => Some((Opcode::SBC, AddrMode::AbsoluteY, info_extra(3, 4, 1))),
        0xE1 => Some((Opcode::SBC, AddrMode::IndexedIndirect, info(2, 6))),
        0xF1 => Some((Opcode::SBC, AddrMode::IndirectIndexed, info_extra(2, 5, 1))),
        0x38 => Some((Opcode::SEC, AddrMode::Implicit, info(1, 2))),
        0xF8 => Some((Opcode::SED, AddrMode::Implicit, info(1, 2))),
        0x78 => Some((Opcode::SEI, AddrMode::Implicit, info(1, 2))),
        0x85 => Some((Opcode::STA, AddrMode::ZeroPage, info(2, 3))),
        0x95 => Some((Opcode::STA, AddrMode::ZeroPageX, info(2, 4))),
        0x8D => Some((Opcode::STA, AddrMode::Absolute, info(3, 4))),
        0x9D => Some((Opcode::STA, AddrMode::AbsoluteX, info(3, 5))),
        0x99 => Some((Opcode::STA, AddrMode::AbsoluteY, info(3, 5))),
        0x81 => Some((Opcode::STA, AddrMode::IndexedIndirect, info(2, 6))),
        0x91 => Some((Opcode::STA, AddrMode::IndirectIndexed, info(2, 6))),
        0x86 => Some((Opcode::STX, AddrMode::ZeroPage, info(2, 3))),
        0x96 => Some((Opcode::STX, AddrMode::ZeroPageY, info(2, 4))),
        0x8E => Some((Opcode::STX, AddrMode::Absolute, info(3, 4))),
        0x84 => Some((Opcode::STY, AddrMode::ZeroPage, info(2, 3))),
        0x94 => Some((Opcode::STY, AddrMode::ZeroPageX, info(2, 4))),
        0x8C => Some((Opcode::STY, AddrMode::Absolute, info(3, 4))),
        0xAA => Some((Opcode::TAX, AddrMode::Implicit, info(1, 2))),
        0xA8 => Some((Opcode::TAY, AddrMode::Implicit, info(1, 2))),
        0xBA => Some((Opcode::TSX, AddrMode::Implicit, info(1, 2))),
        0x8A => Some((Opcode::TXA, AddrMode::Implicit, info(1, 2))),
        0x9A => Some((Opcode::TXS, AddrMode::Implicit, info(1, 2))),
        0x98 => Some((Opcode::TYA, AddrMode::Implicit, info(1, 2))),
        _ => None,
    }
}

} // verus!

