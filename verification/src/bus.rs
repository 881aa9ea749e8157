use vstd::prelude::*;

use crate::errors::EmuError;
use crate::rom::Mirroring;
use crate::rom::Rom;

verus! {

/// Mathematical model of the memory bus: the RAM cells, the cartridge
/// contents, and the cartridge metadata it carries along.
#[verifier::ext_equal]
pub ghost struct BusView {
    pub ram: Seq<u8>,
    pub prg: Seq<u8>,
    pub chr: Seq<u8>,
    pub mapper: u8,
    pub mirroring: Mirroring,
}

impl BusView {
    /// The bus owns 2 KiB of RAM and a PRG image of 16 or 32 KiB.
    pub open spec fn wf(self) -> bool {
        &&& self.ram.len() == 0x800
        &&& (self.prg.len() == 0x4000 || self.prg.len() == 0x8000)
    }

    /// The byte a read of `addr` delivers on the regions where reads
    /// succeed: RAM is mirrored four times across 0x0000-0x1FFF, the PRG
    /// ROM sits at 0x8000-0xFFFF (a 16 KiB image mirrored twice), and an
    /// unmapped address floats to 0.
    pub open spec fn read_val(self, addr: u16) -> u8 {
        if addr < 0x2000 {
            self.ram[(addr & 0x07ff) as int]
        } else if addr < 0x8000 {
            0
        } else if self.prg.len() == 0x4000 {
            self.prg[(addr - 0x8000) % 0x4000]
        } else {
            self.prg[addr - 0x8000]
        }
    }

    /// What a read of `addr` returns: a byte everywhere except the
    /// reserved register window at 0x2000-0x3FFF, which fails loudly.
    pub open spec fn read_result(self, addr: u16) -> Result<u8, EmuError> {
        if 0x2000 <= addr < 0x4000 {
            Err(EmuError::ReservedRegion(addr))
        } else {
            Ok(self.read_val(addr))
        }
    }

    /// The little-endian 16-bit value read at `addr` and its successor
    /// (the successor address wraps at the top of the address space).
    pub open spec fn read16_val(self, addr: u16) -> u16 {
        (self.read_val(addr) + 256 * self.read_val(addr.wrapping_add(1))) as u16
    }

    /// What a little-endian 16-bit read returns: the failure of either
    /// byte read surfaces, the low byte's first.
    pub open spec fn read16_result(self, addr: u16) -> Result<u16, EmuError> {
        match self.read_result(addr) {
            Err(e) => Err(e),
            Ok(_) => match self.read_result(addr.wrapping_add(1)) {
                Err(e) => Err(e),
                Ok(_) => Ok(self.read16_val(addr)),
            },
        }
    }

    /// What a write of `val` to `addr` does: RAM writes land in the
    /// mirrored cell, unmapped writes are ignored, and writes into the
    /// reserved window or the ROM region fail loudly.
    pub open spec fn write_result(self, addr: u16, val: u8) -> Result<BusView, EmuError> {
        if addr < 0x2000 {
            Ok(BusView { ram: self.ram.update((addr & 0x07ff) as int, val), ..self })
        } else if addr < 0x4000 {
            Err(EmuError::ReservedRegion(addr))
        } else if addr < 0x8000 {
            Ok(self)
        } else {
            Err(EmuError::RomWrite(addr))
        }
    }

    /// The state and outcome after a little-endian 16-bit write: low byte
    /// first, then the high byte at the successor address; a failing
    /// second write leaves the first one done.
    pub open spec fn write16_outcome(self, addr: u16, val: u16) -> (BusView, Result<
        (),
        EmuError,
    >) {
        let lo = (val & 0xff) as u8;
        let hi = (val >> 8) as u8;
        match self.write_result(addr, lo) {
            Err(e) => (self, Err(e)),
            Ok(m1) => match m1.write_result(addr.wrapping_add(1), hi) {
                Err(e) => (m1, Err(e)),
                Ok(m2) => (m2, Ok(())),
            },
        }
    }
}

/// Whether `addr` falls in the unmapped region, where a read floats to 0
/// and a write vanishes — each such access deserves a logged diagnostic.
pub open spec fn spec_open_bus(addr: u16) -> bool {
    0x4000 <= addr < 0x8000
}

/// Tally of accesses to the unmapped bus region.  The host polls it and
/// turns new entries into log lines; the tally stands beside the machine
/// model (it is not part of any state view) and no machine contract
/// depends on it.
#[derive(Clone, Copy, Debug)]
pub struct BusDiagnostics {
    /// How many unmapped addresses the engine has touched so far.
    pub events: u64,
    /// The most recently touched unmapped address.
    pub last_addr: Option<u16>,
}

/// The memory bus: 2 KiB of RAM and the loaded cartridge, mapped into the
/// CPU's 16-bit address space.
pub struct Bus {
    pub cpu_ram: Vec<u8>,
    pub rom: Rom,
}

impl View for Bus {
    type V = BusView;

    open spec fn view(&self) -> BusView {
        BusView {
            ram: self.cpu_ram@,
            prg: self.rom.prg_rom@,
            chr: self.rom.chr_rom@,
            mapper: self.rom.mapper,
            mirroring: self.rom.mirroring,
        }
    }
}

impl Bus {
    pub open spec fn wf(&self) -> bool {
        self@.wf()
    }

    /// Build a bus around a loaded cartridge, with RAM cleared.
    pub fn new(rom: Rom) -> (r: Bus)
        requires
            rom.prg_rom@.len() == 0x4000 || rom.prg_rom@.len() == 0x8000,
        ensures
            r.wf(),
            r@.prg == rom.prg_rom@,
            r@.chr == rom.chr_rom@,
            r@.mapper == rom.mapper,
            r@.mirroring == rom.mirroring,
            r@.ram.len() == 0x800,
            forall|i: int| 0 <= i < 0x800 ==> r@.ram[i] == 0,
    {
        let mut ram: Vec<u8> = Vec::new();
        let mut i: usize = 0;
        while i < 0x800
            invariant
                i <= 0x800,
                ram@.len() == i,
                forall|j: int| 0 <= j < i ==> ram@[j] == 0,
            decreases 0x800 - i,
        {
            ram.push(0);
            i = i + 1;
        }
        Bus { cpu_ram: ram, rom }
    }

    /// Read one byte from the bus.
    pub fn read(&self, pos: u16) -> (r: Result<u8, EmuError>)
        requires
            self.wf(),
        ensures
            r == self@.read_result(pos),
    {
        if pos < 0x2000 {
            let masked = pos & 0x07ff;
            proof {
                assert((pos & 0x07ff) < 0x800) by (bit_vector);
            }
            Ok(self.cpu_ram[masked as usize])
        } else if pos < 0x4000 {
            Err(EmuError::ReservedRegion(pos))
        } else if pos < 0x8000 {
            Ok(0)
        } else {
            let mut off = pos - 0x8000;
            if self.rom.prg_rom.len() == 0x4000 {
                off = off % 0x4000;
            }
            Ok(self.rom.prg_rom[off as usize])
        }
    }

    /// Write one byte to the bus.
    pub fn write(&mut self, pos: u16, val: u8) -> (r: Result<(), EmuError>)
        requires
            old(self).wf(),
        ensures
            final(self).wf(),
            match old(self)@.write_result(pos, val) {
                Ok(m) => r == Ok::<(), EmuError>(()) && final(self)@ == m,
                Err(e) => r == Err::<(), EmuError>(e) && final(self)@ == old(self)@,
            },
    {
        if pos < 0x2000 {
            let masked = pos & 0x07ff;
            proof {
                assert((pos & 0x07ff) < 0x800) by (bit_vector);
            }
            self.cpu_ram[masked as usize] = val;
            assert(self@ =~= old(self)@.write_result(pos, val)->Ok_0);
            Ok(())
        } else if pos < 0x4000 {
            Err(EmuError::ReservedRegion(pos))
        } else if pos < 0x8000 {
            Ok(())
        } else {
            Err(EmuError::RomWrite(pos))
        }
    }

    /// Read a little-endian 16-bit value: low byte at `pos`, high byte at
    /// the (wrapping) successor address.
    pub fn read_u16(&self, pos: u16) -> (r: Result<u16, EmuError>)
        requires
            self.wf(),
        ensures
            r == self@.read16_result(pos),
    {
        let low = match self.read(pos) {
            Ok(v) => v,
            Err(e) => { return Err(e) },
        };
        let high = match self.read(pos.wrapping_add(1)) {
            Ok(v) => v,
            Err(e) => { return Err(e) },
        };
        let word: u16 = ((high as u16) << 8) | (low as u16);
        proof {
            assert(((high as u16) << 8) | (low as u16) == low + 256 * high) by (bit_vector);
        }
        Ok(word)
    }

    /// Write a little-endian 16-bit value: low byte at `pos`, high byte at
    /// the (wrapping) successor address.
    pub fn write_u16(&mut self, pos: u16, val: u16) -> (r: Result<(), EmuError>)
        requires
            old(self).wf(),
        ensures
            final(self).wf(),
            final(self)@ == old(self)@.write16_outcome(pos, val).0,
            r == old(self)@.write16_outcome(pos, val).1,
    {
        let low = (val & 0xff) as u8;
        let high = (val >> 8) as u8;
        proof {
            assert(val & 0xff < 0x100) by (bit_vector);
            assert(val >> 8 < 0x100) by (bit_vector);
        }
        match self.write(pos, low) {
            Ok(_) => {},
            Err(e) => { return Err(e) },
        }
        match self.write(pos.wrapping_add(1), high) {
            Ok(_) => {},
            Err(e) => { return Err(e) },
        }
        Ok(())
    }

    /// Bulk-load a byte sequence into RAM at `pos`; used only to stage a
    /// program that is not backed by a cartridge.  Every write lands in
    /// RAM, so this cannot fail.
    pub fn load_to(&mut self, pos: u16, slice: &[u8])
        requires
            old(self).wf(),
            pos + slice@.len() <= 0x800,
        ensures
            final(self).wf(),
            final(self)@.ram.len() == 0x800,
            forall|i: int|
                0 <= i < slice@.len() ==> final(self)@.ram[pos + i] == slice@[i],
            forall|i: int|
                0 <= i < 0x800 && !(pos <= i < pos + slice@.len()) ==> final(self)@.ram[i] == old(
                    self,
                )@.ram[i],
            final(self)@.prg == old(self)@.prg,
            final(self)@.chr == old(self)@.chr,
            final(self)@.mapper == old(self)@.mapper,
            final(self)@.mirroring == old(self)@.mirroring,
    {
        let len: usize = slice.len();
        let mut i: usize = 0;
        while i < len
            invariant
                self.wf(),
                len == slice@.len(),
                pos + len <= 0x800,
                i <= len,
                forall|j: int| 0 <= j < i ==> self@.ram[pos + j] == slice@[j],
                forall|j: int|
                    0 <= j < 0x800 && !(pos <= j < pos + i) ==> self@.ram[j] == old(self)@.ram[j],
                self@.prg == old(self)@.prg,
                self@.chr == old(self)@.chr,
                self@.mapper == old(self)@.mapper,
                self@.mirroring == old(self)@.mirroring,
            decreases len - i,
        {
            let idx: usize = (pos as usize) + i;
            self.cpu_ram[idx] = slice[i];
            i = i + 1;
        }
    }
}

} // verus!
