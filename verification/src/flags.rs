use vstd::prelude::*;

verus! {

/// The processor status register: a plain 8-bit value with one named mask per
/// status bit.  The 0x20 bit is documented both as "always on" and as
/// "unused"; both names are kept on purpose.
#[derive(Clone, Copy, Debug, PartialEq, Eq, Structural)]
pub struct Flags {
    pub bits: u8,
}

impl Flags {
    pub const NEGATIVE: u8 = 0x80;
    pub const OVERFLOW: u8 = 0x40;
    pub const ALWAYSON: u8 = 0x20;
    pub const UNUSED: u8 = 0x20;
    pub const BREAK: u8 = 0x10;
    pub const DECIMAL: u8 = 0x08;
    pub const INTERRUPTDISABLE: u8 = 0x04;
    pub const ZERO: u8 = 0x02;
    pub const CARRY: u8 = 0x01;
}

/// Whether any bit of `mask` is on in the status byte `st`.
pub open spec fn flag_set(st: u8, mask: u8) -> bool {
    st & mask != 0
}

/// The status byte `st` with the bits of `mask` forced on or off.
pub open spec fn with_flag(st: u8, mask: u8, on: bool) -> u8 {
    if on {
        st | mask
    } else {
        st & !mask
    }
}

/// The status byte after the Zero and Negative bits are recomputed from a
/// result byte: Zero iff the result is 0, Negative iff its bit 7 is on.
pub open spec fn with_zn(st: u8, value: u8) -> u8 {
    with_flag(with_flag(st, Flags::ZERO, value == 0), Flags::NEGATIVE, value & 0x80 != 0)
}

impl Flags {
    pub fn empty() -> (r: Flags)
        ensures
            r.bits == 0,
    {
        Flags { bits: 0 }
    }

    pub fn from_bits_retain(bits: u8) -> (r: Flags)
        ensures
            r.bits == bits,
    {
        Flags { bits }
    }

    pub fn bits(&self) -> (r: u8)
        ensures
            r == self.bits,
    {
        self.bits
    }

    pub fn contains(&self, mask: u8) -> (r: bool)
        ensures
            r == flag_set(self.bits, mask),
    {
        self.bits & mask != 0
    }

    pub fn insert(&mut self, mask: u8)
        ensures
            final(self).bits == (old(self).bits | mask),
    {
        self.bits = self.bits | mask;
    }

    pub fn remove(&mut self, mask: u8)
        ensures
            final(self).bits == (old(self).bits & !mask),
    {
        self.bits = self.bits & !mask;
    }

    pub fn set(&mut self, mask: u8, on: bool)
        ensures
            final(self).bits == with_flag(old(self).bits, mask, on),
    {
        if on {
            self.insert(mask);
        } else {
            self.remove(mask);
        }
    }
}

impl Default for Flags {
    fn default() -> (r: Flags)
        ensures
            r.bits == 0,
    {
        Flags { bits: 0 }
    }
}

/// Zero/Negative law: after the Zero and Negative bits are recomputed from a
/// result byte, Zero is set iff the result is 0 and Negative is set iff the
/// result's bit 7 is 1 (that is, the byte reads as negative in two's
/// complement); every other status bit keeps its old value.
pub proof fn lemma_zero_negative(st: u8, value: u8)
    by (bit_vector)
    ensures
        flag_set(with_zn(st, value), Flags::ZERO) <==> value == 0,
        flag_set(with_zn(st, value), Flags::NEGATIVE) <==> value & 0x80 == 0x80,
        flag_set(with_zn(st, value), Flags::NEGATIVE) <==> value >= 0x80,
        flag_set(with_zn(st, value), Flags::CARRY) == flag_set(st, Flags::CARRY),
        flag_set(with_zn(st, value), Flags::OVERFLOW) == flag_set(st, Flags::OVERFLOW),
        flag_set(with_zn(st, value), Flags::BREAK) == flag_set(st, Flags::BREAK),
        flag_set(with_zn(st, value), Flags::DECIMAL) == flag_set(st, Flags::DECIMAL),
        flag_set(with_zn(st, value), Flags::INTERRUPTDISABLE) == flag_set(
            st,
            Flags::INTERRUPTDISABLE,
        ),
        flag_set(with_zn(st, value), Flags::ALWAYSON) == flag_set(st, Flags::ALWAYSON),
{
}

} // verus!
