use vstd::prelude::*;

verus! {

/// Fatal conditions of the execution engine.  The engine stops and reports
/// one of these rather than continue with corrupted machine state.
#[derive(Clone, Copy, Debug, PartialEq, Eq, Structural)]
pub enum EmuError {
    /// The byte at the program counter is not a documented legal opcode.
    InvalidOpcode(u8),
    /// A read or write touched the reserved register window at
    /// 0x2000-0x3FFF, which this machine model leaves unimplemented.
    ReservedRegion(u16),
    /// A write targeted the PRG ROM region at 0x8000-0xFFFF.
    RomWrite(u16),
    /// The address resolver was invoked for a mode that carries no memory
    /// operand (Implicit, Accumulator, or the specially-handled Indirect).
    NoOperand,
    /// The run loop's step budget (2^64 - 1 instructions) ran out before
    /// the Break flag was observed.
    StepLimit,
}

} // verus!
