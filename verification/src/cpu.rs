use vstd::prelude::*;

use crate::bus::Bus;
use crate::bus::BusDiagnostics;
use crate::bus::BusView;
use crate::errors::EmuError;
use crate::fetch_decode::decode;
use crate::fetch_decode::spec_decode;
use crate::fetch_decode::AddrMode;
use crate::fetch_decode::Opcode;
use crate::flags::flag_set;
use crate::flags::with_flag;
use crate::flags::with_zn;
use crate::flags::Flags;

verus! {

/// Stack pointer value installed at reset.
pub const STACK_RESET: u8 = 0xfd;

/// Base address of the 256-byte stack window.
pub const STACK_START: u16 = 0x100;

/// Mathematical model of the whole machine: registers, status byte, and
/// the memory bus contents.
#[verifier::ext_equal]
pub ghost struct CpuView {
    pub a: u8,
    pub x: u8,
    pub y: u8,
    pub sp: u8,
    pub pc: u16,
    pub flags: u8,
    pub mem: BusView,
}

/// The execution engine: registers, status flags, and the memory bus it
/// exclusively owns and mutates.
pub struct Cpu {
    pub reg_a: u8,
    pub reg_x: u8,
    pub reg_y: u8,
    pub stack_ptr: u8,
    pub pc: u16,
    pub status: Flags,
    pub memory: Bus,
    /// Tally of unmapped-bus accesses, for the host to log.  Diagnostic
    /// bookkeeping beside the machine model: it is not part of the state
    /// view the contracts speak of.
    pub diag: BusDiagnostics,
}

impl View for Cpu {
    type V = CpuView;

    open spec fn view(&self) -> CpuView {
        CpuView {
            a: self.reg_a,
            x: self.reg_x,
            y: self.reg_y,
            sp: self.stack_ptr,
            pc: self.pc,
            flags: self.status.bits,
            mem: self.memory@,
        }
    }
}

/// The machine state created at reset: registers cleared, stack pointer at
/// its fixed initial value, InterruptDisable and the always-on bit set, and
/// the program counter loaded from the little-endian reset vector at
/// 0xFFFC.
pub open spec fn spec_power_on(m: BusView) -> CpuView {
    CpuView {
        a: 0,
        x: 0,
        y: 0,
        sp: STACK_RESET,
        pc: m.read16_val(0xFFFC),
        flags: Flags::INTERRUPTDISABLE | Flags::ALWAYSON,
        mem: m,
    }
}

/// One byte pushed: it lands in the stack window at 0x0100 + sp, and the
/// stack pointer decrements with 8-bit wraparound.
pub open spec fn spec_push(c: CpuView, val: u8) -> CpuView {
    CpuView {
        mem: BusView { ram: c.mem.ram.update(0x100 + c.sp, val), ..c.mem },
        sp: c.sp.wrapping_sub(1),
        ..c
    }
}

/// One byte popped: the stack pointer increments with 8-bit wraparound
/// first, then the byte is read from the stack window.
pub open spec fn spec_pop(c: CpuView) -> (CpuView, u8) {
    let sp1 = c.sp.wrapping_add(1);
    (CpuView { sp: sp1, ..c }, c.mem.ram[0x100 + sp1])
}

/// Two bytes pushed for a 16-bit value: high byte first, then low.
pub open spec fn spec_push16(c: CpuView, val: u16) -> CpuView {
    spec_push(spec_push(c, (val >> 8) as u8), (val & 0xff) as u8)
}

/// Two bytes popped for a 16-bit value: low byte first, then high.
pub open spec fn spec_pop16(c: CpuView) -> (CpuView, u16) {
    let (c1, lo) = spec_pop(c);
    let (c2, hi) = spec_pop(c1);
    (c2, (lo + 256 * hi) as u16)
}

/// The nine-bit addition at the heart of ADC and SBC: A, the operand and
/// the carry-in are summed; Carry reports an unsigned overflow past 255,
/// Overflow reports a signed overflow, and Zero/Negative follow the result.
pub open spec fn spec_add_a(c: CpuView, val: u8) -> CpuView {
    let carry_in: int = if flag_set(c.flags, Flags::CARRY) {
        1
    } else {
        0
    };
    let sum = c.a + val + carry_in;
    let res = (sum % 256) as u8;
    let st1 = with_flag(c.flags, Flags::CARRY, sum > 0xFF);
    let st2 = with_flag(st1, Flags::OVERFLOW, (val ^ res) & (res ^ c.a) & 0x80 != 0);
    CpuView { a: res, flags: with_zn(st2, res), ..c }
}

impl Cpu {
    pub open spec fn wf(&self) -> bool {
        self.memory.wf()
    }

    /// Build a CPU around a bus and reset it.
    pub fn new(bus: Bus) -> (r: Cpu)
        requires
            bus.wf(),
        ensures
            r.wf(),
            r@ == spec_power_on(bus@),
    {
        let mut me = Cpu {
            reg_a: 0,
            reg_x: 0,
            reg_y: 0,
            stack_ptr: 0,
            pc: 0,
            status: Flags::empty(),
            memory: bus,
            diag: BusDiagnostics { events: 0, last_addr: None },
        };
        me.reset();
        me
    }

    /// Reset the machine: clear the registers, restore the initial stack
    /// pointer and status bits, and reload the program counter from the
    /// reset vector.
    pub fn reset(&mut self)
        requires
            old(self).wf(),
        ensures
            final(self).wf(),
            final(self)@ == spec_power_on(old(self)@.mem),
    {
        self.status = Flags::from_bits_retain(Flags::INTERRUPTDISABLE | Flags::ALWAYSON);
        self.reg_a = 0;
        self.reg_x = 0;
        self.reg_y = 0;
        self.stack_ptr = STACK_RESET;
        let pc = match self.memory.read_u16(0xFFFC) {
            Ok(v) => v,
            Err(_) => 0,
        };
        self.pc = pc;
        proof {
            assert(self@ =~= spec_power_on(old(self)@.mem));
        }
    }

    /// Stage a program in RAM and point the reset vector at the ROM base.
    /// The vector lives in the ROM region, so that second write is always
    /// rejected; the staged bytes stay in RAM.
    pub fn load_to(&mut self, start: u16, program: &[u8]) -> (r: Result<(), EmuError>)
        requires
            old(self).wf(),
            start + program@.len() <= 0x800,
        ensures
            final(self).wf(),
            r == Err::<(), EmuError>(EmuError::RomWrite(0xFFFC)),
            final(self)@.mem.ram.len() == 0x800,
            forall|i: int|
                0 <= i < program@.len() ==> final(self)@.mem.ram[start + i] == program@[i],
            forall|i: int|
                0 <= i < 0x800 && !(start <= i < start + program@.len())
                    ==> final(self)@.mem.ram[i] == old(self)@.mem.ram[i],
            final(self)@.mem.prg == old(self)@.mem.prg,
            final(self).reg_a == old(self).reg_a,
            final(self).reg_x == old(self).reg_x,
            final(self).reg_y == old(self).reg_y,
            final(self).stack_ptr == old(self).stack_ptr,
            final(self).pc == old(self).pc,
            final(self).status == old(self).status,
    {
        self.memory.load_to(start, program);
        self.memory.write_u16(0xFFFC, 0x8000)
    }

    /// Recompute the Zero and Negative bits from a result byte.
    pub fn update_zero_negative(&mut self, value: u8)
        ensures
            final(self)@ == (CpuView { flags: with_zn(old(self)@.flags, value), ..old(self)@ }),
    {
        let zero = value == 0;
        self.status.set(Flags::ZERO, zero);
        let negative = value & 0x80 != 0;
        self.status.set(Flags::NEGATIVE, negative);
        proof {
            assert(self@ =~= (CpuView { flags: with_zn(old(self)@.flags, value), ..old(self)@ }));
        }
    }

    /// Add `val` and the carry bit into the accumulator, setting Carry,
    /// Overflow, Zero and Negative.
    pub fn add_a(&mut self, val: u8)
        ensures
            final(self)@ == spec_add_a(old(self)@, val),
    {
        let sum: u16 = (self.reg_a as u16) + (val as u16) + (if self.status.contains(
            Flags::CARRY,
        ) {
            1
        } else {
            0
        });
        self.status.set(Flags::CARRY, sum > 0xFF);
        let res: u8 = (sum % 256) as u8;
        let overflow = (val ^ res) & (res ^ self.reg_a) & 0x80 != 0;
        self.status.set(Flags::OVERFLOW, overflow);
        self.reg_a = res;
        self.update_zero_negative(res);
        proof {
            assert(self@ =~= spec_add_a(old(self)@, val));
        }
    }

    /// Push one byte onto the stack window.
    pub fn push_stack(&mut self, val: u8)
        requires
            old(self).wf(),
        ensures
            final(self).wf(),
            final(self)@ == spec_push(old(self)@, val),
    {
        let sp = self.stack_ptr;
        let addr: u16 = STACK_START + (sp as u16);
        proof {
            assert(addr < 0x800 ==> (addr & 0x07ff) == addr) by (bit_vector);
        }
        // The stack window lies in RAM, so this write cannot fail.
        let _ = self.memory.write(addr, val);
        self.stack_ptr = self.stack_ptr.wrapping_sub(1);
        proof {
            assert(self@ =~= spec_push(old(self)@, val));
        }
    }

    /// Pop one byte from the stack window.
    pub fn pop_stack(&mut self) -> (r: u8)
        requires
            old(self).wf(),
        ensures
            final(self).wf(),
            final(self)@ == spec_pop(old(self)@).0,
            r == spec_pop(old(self)@).1,
    {
        self.stack_ptr = self.stack_ptr.wrapping_add(1);
        let sp = self.stack_ptr;
        let addr: u16 = STACK_START + (sp as u16);
        proof {
            assert(addr < 0x800 ==> (addr & 0x07ff) == addr) by (bit_vector);
        }
        let r = match self.memory.read(addr) {
            Ok(v) => v,
            Err(_) => 0,
        };
        proof {
            assert(self@ =~= spec_pop(old(self)@).0);
        }
        r
    }

    /// Push a 16-bit value: high byte first, then low.
    pub fn push_stack_u16(&mut self, val: u16)
        requires
            old(self).wf(),
        ensures
            final(self).wf(),
            final(self)@ == spec_push16(old(self)@, val),
    {
        let low = (val & 0xff) as u8;
        let high = (val >> 8) as u8;
        proof {
            assert(val & 0xff < 0x100) by (bit_vector);
            assert(val >> 8 < 0x100) by (bit_vector);
        }
        self.push_stack(high);
        self.push_stack(low);
    }

    /// Pop a 16-bit value: low byte first, then high.
    pub fn pop_stack_u16(&mut self) -> (r: u16)
        requires
            old(self).wf(),
        ensures
            final(self).wf(),
            final(self)@ == spec_pop16(old(self)@).0,
            r == spec_pop16(old(self)@).1,
    {
        let low = self.pop_stack();
        let high = self.pop_stack();
        let word: u16 = ((high as u16) << 8) | (low as u16);
        proof {
            assert(((high as u16) << 8) | (low as u16) == low + 256 * high) by (bit_vector);
        }
        word
    }
}

/// The effective operand address of one instruction, with the program
/// counter still at the opcode byte.  Implicit and Accumulator modes carry
/// no memory operand, and Indirect is resolved specially by JMP alone, so
/// all three are an invariant violation here.  All zero-page arithmetic
/// wraps modulo 256; absolute indexing and the final indirect-indexed sum
/// wrap modulo 65536.
pub open spec fn spec_resolve(c: CpuView, mode: AddrMode) -> Result<u16, EmuError> {
    match mode {
        AddrMode::Implicit => Err(EmuError::NoOperand),
        AddrMode::Accumulator => Err(EmuError::NoOperand),
        AddrMode::Indirect => Err(EmuError::NoOperand),
        AddrMode::Immediate => Ok(c.pc.wrapping_add(1)),
        AddrMode::Relative => Ok(c.pc.wrapping_add(1)),
        AddrMode::ZeroPage => match c.mem.read_result(c.pc.wrapping_add(1)) {
            Ok(b) => Ok(b as u16),
            Err(e) => Err(e),
        },
        AddrMode::ZeroPageX => match c.mem.read_result(c.pc.wrapping_add(1)) {
            Ok(b) => Ok(b.wrapping_add(c.x) as u16),
            Err(e) => Err(e),
        },
        AddrMode::ZeroPageY => match c.mem.read_result(c.pc.wrapping_add(1)) {
            Ok(b) => Ok(b.wrapping_add(c.y) as u16),
            Err(e) => Err(e),
        },
        AddrMode::Absolute => c.mem.read16_result(c.pc.wrapping_add(1)),
        AddrMode::AbsoluteX => match c.mem.read16_result(c.pc.wrapping_add(1)) {
            Ok(w) => Ok(w.wrapping_add(c.x as u16)),
            Err(e) => Err(e),
        },
        AddrMode::AbsoluteY => match c.mem.read16_result(c.pc.wrapping_add(1)) {
            Ok(w) => Ok(w.wrapping_add(c.y as u16)),
            Err(e) => Err(e),
        },
        AddrMode::IndexedIndirect => match c.mem.read_result(c.pc.wrapping_add(1)) {
            Ok(b) => {
                let base = b.wrapping_add(c.x);
                let lo = c.mem.read_val(base as u16);
                let hi = c.mem.read_val(base.wrapping_add(1) as u16);
                Ok((lo + 256 * hi) as u16)
            },
            Err(e) => Err(e),
        },
        AddrMode::IndirectIndexed => match c.mem.read_result(c.pc.wrapping_add(1)) {
            Ok(b) => {
                let lo = c.mem.read_val(b as u16);
                let hi = c.mem.read_val(b.wrapping_add(1) as u16);
                let base = (lo + 256 * hi) as u16;
                Ok(base.wrapping_add(c.y as u16))
            },
            Err(e) => Err(e),
        },
    }
}

/// The operand byte itself: the resolved address, read.
pub open spec fn spec_operand(c: CpuView, mode: AddrMode) -> Result<u8, EmuError> {
    match spec_resolve(c, mode) {
        Ok(addr) => c.mem.read_result(addr),
        Err(e) => Err(e),
    }
}

impl Cpu {
    /// Compute the effective operand address for `addr_mode`, with the
    /// program counter still at the instruction's opcode byte.
    pub fn get_addr_mode_dest(&self, addr_mode: AddrMode) -> (r: Result<u16, EmuError>)
        requires
            self.wf(),
        ensures
            r == spec_resolve(self@, addr_mode),
    {
        match addr_mode {
            AddrMode::Implicit => Err(EmuError::NoOperand),
            AddrMode::Accumulator => Err(EmuError::NoOperand),
            AddrMode::Indirect => Err(EmuError::NoOperand),
            AddrMode::Immediate => Ok(self.pc.wrapping_add(1)),
            AddrMode::Relative => Ok(self.pc.wrapping_add(1)),
            AddrMode::ZeroPage => match self.memory.read(self.pc.wrapping_add(1)) {
                Ok(b) => Ok(b as u16),
                Err(e) => Err(e),
            },
            AddrMode::ZeroPageX => match self.memory.read(self.pc.wrapping_add(1)) {
                Ok(b) => Ok(b.wrapping_add(self.reg_x) as u16),
                Err(e) => Err(e),
            },
            AddrMode::ZeroPageY => match self.memory.read(self.pc.wrapping_add(1)) {
                Ok(b) => Ok(b.wrapping_add(self.reg_y) as u16),
                Err(e) => Err(e),
            },
            AddrMode::Absolute => self.memory.read_u16(self.pc.wrapping_add(1)),
            AddrMode::AbsoluteX => match self.memory.read_u16(self.pc.wrapping_add(1)) {
                Ok(w) => Ok(w.wrapping_add(self.reg_x as u16)),
                Err(e) => Err(e),
            },
            AddrMode::AbsoluteY => match self.memory.read_u16(self.pc.wrapping_add(1)) {
                Ok(w) => Ok(w.wrapping_add(self.reg_y as u16)),
                Err(e) => Err(e),
            },
            AddrMode::IndexedIndirect => match self.memory.read(self.pc.wrapping_add(1)) {
                Ok(b) => {
                    let base = b.wrapping_add(self.reg_x);
                    let lo = match self.memory.read(base as u16) {
                        Ok(v) => v,
                        Err(_) => 0,
                    };
                    let hi = match self.memory.read(base.wrapping_add(1) as u16) {
                        Ok(v) => v,
                        Err(_) => 0,
                    };
                    let word: u16 = ((hi as u16) << 8) | (lo as u16);
                    proof {
                        assert(((hi as u16) << 8) | (lo as u16) == lo + 256 * hi) by (bit_vector);
                    }
                    Ok(word)
                },
                Err(e) => Err(e),
            },
            AddrMode::IndirectIndexed => match self.memory.read(self.pc.wrapping_add(1)) {
                Ok(b) => {
                    let lo = match self.memory.read(b as u16) {
                        Ok(v) => v,
                        Err(_) => 0,
                    };
                    let hi = match self.memory.read(b.wrapping_add(1) as u16) {
                        Ok(v) => v,
                        Err(_) => 0,
                    };
                    let word: u16 = ((hi as u16) << 8) | (lo as u16);
                    proof {
                        assert(((hi as u16) << 8) | (lo as u16) == lo + 256 * hi) by (bit_vector);
                    }
                    Ok(word.wrapping_add(self.reg_y as u16))
                },
                Err(e) => Err(e),
            },
        }
    }

    /// Record a touched unmapped address, so the host can log the
    /// diagnostic warning the access deserves.  The tally covers the
    /// accesses the execution engine makes outside the (read-only)
    /// address resolver, one per touched address; it leaves the machine
    /// state untouched.
    fn note_open_bus(&mut self, addr: u16)
        ensures
            final(self)@ == old(self)@,
    {
        if 0x4000 <= addr && addr < 0x8000 {
            self.diag.events = self.diag.events.wrapping_add(1);
            self.diag.last_addr = Some(addr);
        }
    }

    /// Fetch the operand byte for `addr_mode`: resolve, then read.
    fn operand(&mut self, addr_mode: AddrMode) -> (r: Result<u8, EmuError>)
        requires
            old(self).wf(),
        ensures
            final(self)@ == old(self)@,
            r == spec_operand(old(self)@, addr_mode),
    {
        let addr = match self.get_addr_mode_dest(addr_mode) {
            Ok(a) => a,
            Err(e) => { return Err(e) },
        };
        self.note_open_bus(addr);
        self.memory.read(addr)
    }
}

/// The automatic program-counter advance by the instruction's byte size,
/// with 16-bit wraparound.
pub open spec fn advance(c: CpuView, size: u16) -> CpuView {
    CpuView { pc: c.pc.wrapping_add(size), ..c }
}

/// A value loaded into the accumulator, with Zero/Negative recomputed.
pub open spec fn with_a(c: CpuView, v: u8) -> CpuView {
    CpuView { a: v, flags: with_zn(c.flags, v), ..c }
}

/// A value loaded into the X register, with Zero/Negative recomputed.
pub open spec fn with_x(c: CpuView, v: u8) -> CpuView {
    CpuView { x: v, flags: with_zn(c.flags, v), ..c }
}

/// A value loaded into the Y register, with Zero/Negative recomputed.
pub open spec fn with_y(c: CpuView, v: u8) -> CpuView {
    CpuView { y: v, flags: with_zn(c.flags, v), ..c }
}

/// The status byte after a compare: Carry iff the register is at least the
/// operand (unsigned), Zero/Negative from the wrapping difference.
pub open spec fn spec_compare(c: CpuView, reg: u8, m: u8) -> u8 {
    with_zn(with_flag(c.flags, Flags::CARRY, reg >= m), reg.wrapping_sub(m))
}

/// The plumbing shared by the read-modify-write instructions: resolve the
/// operand address, read the old byte, write the new byte back, then
/// install the new status byte.  `f` maps the pre-state and the old byte
/// to (new byte, new status byte).
pub open spec fn spec_rmw(
    c: CpuView,
    mode: AddrMode,
    size: u16,
    f: spec_fn(CpuView, u8) -> (u8, u8),
) -> Result<CpuView, EmuError> {
    match spec_resolve(c, mode) {
        Err(e) => Err(e),
        Ok(addr) => match c.mem.read_result(addr) {
            Err(e) => Err(e),
            Ok(v) => {
                let (new_val, new_flags) = f(c, v);
                match c.mem.write_result(addr, new_val) {
                    Err(e) => Err(e),
                    Ok(m) => Ok(advance(CpuView { mem: m, flags: new_flags, ..c }, size)),
                }
            },
        },
    }
}

/// A store instruction: resolve the operand address and write a register
/// there; registers and flags are untouched.
pub open spec fn spec_store(c: CpuView, mode: AddrMode, v: u8, size: u16) -> Result<
    CpuView,
    EmuError,
> {
    match spec_resolve(c, mode) {
        Err(e) => Err(e),
        Ok(addr) => match c.mem.write_result(addr, v) {
            Err(e) => Err(e),
            Ok(m) => Ok(advance(CpuView { mem: m, ..c }, size)),
        },
    }
}

/// A conditional branch: read the signed 8-bit displacement, and when the
/// tested flag matches the required value, add it (sign-extended, with
/// 16-bit wraparound) to the still-unadvanced program counter.  The normal
/// instruction-size advance applies separately afterwards.
pub open spec fn spec_branch(c: CpuView, mode: AddrMode, mask: u8, want: bool) -> Result<
    CpuView,
    EmuError,
> {
    match spec_resolve(c, mode) {
        Err(e) => Err(e),
        Ok(addr) => match c.mem.read_result(addr) {
            Err(e) => Err(e),
            Ok(off) => if flag_set(c.flags, mask) == want {
                let ext: u16 = if off >= 0x80 {
                    (off as u16) | 0xFF00
                } else {
                    off as u16
                };
                Ok(CpuView { pc: c.pc.wrapping_add(ext), ..c })
            } else {
                Ok(c)
            },
        },
    }
}

/// ADC: add the operand and the carry into the accumulator.
pub open spec fn spec_adc(c: CpuView, mode: AddrMode, size: u16) -> Result<CpuView, EmuError> {
    match spec_operand(c, mode) {
        Err(e) => Err(e),
        Ok(v) => Ok(advance(spec_add_a(c, v), size)),
    }
}

/// AND: bitwise-and the operand into the accumulator.
pub open spec fn spec_and(c: CpuView, mode: AddrMode, size: u16) -> Result<CpuView, EmuError> {
    match spec_operand(c, mode) {
        Err(e) => Err(e),
        Ok(v) => Ok(advance(with_a(c, c.a & v), size)),
    }
}

/// BIT: test the operand against the accumulator without storing.
pub open spec fn spec_bit(c: CpuView, mode: AddrMode, size: u16) -> Result<CpuView, EmuError> {
    match spec_operand(c, mode) {
        Err(e) => Err(e),
        Ok(v) => {
            let st = with_flag(
                with_flag(
                    with_flag(c.flags, Flags::OVERFLOW, v & 0x40 != 0),
                    Flags::NEGATIVE,
                    v & 0x80 != 0,
                ),
                Flags::ZERO,
                c.a & v == 0,
            );
            Ok(advance(CpuView { flags: st, ..c }, size))
        },
    }
}

/// CMP: compare the accumulator with the operand.
pub open spec fn spec_cmp(c: CpuView, mode: AddrMode, size: u16) -> Result<CpuView, EmuError> {
    match spec_operand(c, mode) {
        Err(e) => Err(e),
        Ok(m) => Ok(advance(CpuView { flags: spec_compare(c, c.a, m), ..c }, size)),
    }
}

/// CPX: compare the X register with the operand.
pub open spec fn spec_cpx(c: CpuView, mode: AddrMode, size: u16) -> Result<CpuView, EmuError> {
    match spec_operand(c, mode) {
        Err(e) => Err(e),
        Ok(m) => Ok(advance(CpuView { flags: spec_compare(c, c.x, m), ..c }, size)),
    }
}

/// CPY: compare the Y register with the operand.
pub open spec fn spec_cpy(c: CpuView, mode: AddrMode, size: u16) -> Result<CpuView, EmuError> {
    match spec_operand(c, mode) {
        Err(e) => Err(e),
        Ok(m) => Ok(advance(CpuView { flags: spec_compare(c, c.y, m), ..c }, size)),
    }
}

/// EOR: bitwise-xor the operand into the accumulator.
pub open spec fn spec_eor(c: CpuView, mode: AddrMode, size: u16) -> Result<CpuView, EmuError> {
    match spec_operand(c, mode) {
        Err(e) => Err(e),
        Ok(v) => Ok(advance(with_a(c, c.a ^ v), size)),
    }
}

/// LDA: load the operand into the accumulator.
pub open spec fn spec_lda(c: CpuView, mode: AddrMode, size: u16) -> Result<CpuView, EmuError> {
    match spec_operand(c, mode) {
        Err(e) => Err(e),
        Ok(v) => Ok(advance(with_a(c, v), size)),
    }
}

/// LDX: load the operand into the X register.
pub open spec fn spec_ldx(c: CpuView, mode: AddrMode, size: u16) -> Result<CpuView, EmuError> {
    match spec_operand(c, mode) {
        Err(e) => Err(e),
        Ok(v) => Ok(advance(with_x(c, v), size)),
    }
}

/// LDY: load the operand into the Y register.
pub open spec fn spec_ldy(c: CpuView, mode: AddrMode, size: u16) -> Result<CpuView, EmuError> {
    match spec_operand(c, mode) {
        Err(e) => Err(e),
        Ok(v) => Ok(advance(with_y(c, v), size)),
    }
}

/// ORA: bitwise-or the operand into the accumulator.
pub open spec fn spec_ora(c: CpuView, mode: AddrMode, size: u16) -> Result<CpuView, EmuError> {
    match spec_operand(c, mode) {
        Err(e) => Err(e),
        Ok(v) => Ok(advance(with_a(c, c.a | v), size)),
    }
}

/// SBC: subtract the operand: add with the operand complemented.
pub open spec fn spec_sbc(c: CpuView, mode: AddrMode, size: u16) -> Result<CpuView, EmuError> {
    match spec_operand(c, mode) {
        Err(e) => Err(e),
        Ok(v) => Ok(advance(spec_add_a(c, !v), size)),
    }
}

/// ASL: shift left; Carry takes bit 7, Zero/Negative follow the result.
pub open spec fn spec_asl(c: CpuView, mode: AddrMode, size: u16) -> Result<CpuView, EmuError> {
    if mode == AddrMode::Accumulator {
        let res = c.a << 1;
        let st = with_zn(with_flag(c.flags, Flags::CARRY, c.a & 0x80 != 0), res);
        Ok(advance(CpuView { a: res, flags: st, ..c }, size))
    } else {
        spec_rmw(
            c,
            mode,
            size,
            (|c0: CpuView, v: u8|
                ((v << 1), with_zn(with_flag(c0.flags, Flags::CARRY, v & 0x80 != 0), v << 1))),
        )
    }
}

/// LSR: shift right; Carry takes bit 0, Zero/Negative follow the result.
pub open spec fn spec_lsr(c: CpuView, mode: AddrMode, size: u16) -> Result<CpuView, EmuError> {
    if mode == AddrMode::Accumulator {
        let res = c.a >> 1;
        let st = with_zn(with_flag(c.flags, Flags::CARRY, c.a & 0x1 != 0), res);
        Ok(advance(CpuView { a: res, flags: st, ..c }, size))
    } else {
        spec_rmw(
            c,
            mode,
            size,
            (|c0: CpuView, v: u8|
                ((v >> 1), with_zn(with_flag(c0.flags, Flags::CARRY, v & 0x1 != 0), v >> 1))),
        )
    }
}

/// ROL: rotate left; the old Carry enters bit 0, bit 7 leaves into Carry.
pub open spec fn spec_rol(c: CpuView, mode: AddrMode, size: u16) -> Result<CpuView, EmuError> {
    {
        let cin: u8 = if flag_set(c.flags, Flags::CARRY) {
            1
        } else {
            0
        };
        if mode == AddrMode::Accumulator {
            let res = ((c.a << 1) + cin) as u8;
            let st = with_zn(with_flag(c.flags, Flags::CARRY, c.a & 0x80 != 0), res);
            Ok(advance(CpuView { a: res, flags: st, ..c }, size))
        } else {
            spec_rmw(
                c,
                mode,
                size,
                (|c0: CpuView, v: u8|
                    (
                        ((v << 1) + cin) as u8,
                        with_zn(
                            with_flag(c0.flags, Flags::CARRY, v & 0x80 != 0),
                            ((v << 1) + cin) as u8,
                        ),
                    )),
            )
        }
    }
}

/// ROR: rotate right; the old Carry enters bit 7, bit 0 leaves into Carry.
pub open spec fn spec_ror(c: CpuView, mode: AddrMode, size: u16) -> Result<CpuView, EmuError> {
    {
        let cin: u8 = if flag_set(c.flags, Flags::CARRY) {
            0x80
        } else {
            0
        };
        if mode == AddrMode::Accumulator {
            let res = ((c.a >> 1) + cin) as u8;
            let st = with_zn(with_flag(c.flags, Flags::CARRY, c.a & 0x1 != 0), res);
            Ok(advance(CpuView { a: res, flags: st, ..c }, size))
        } else {
            spec_rmw(
                c,
                mode,
                size,
                (|c0: CpuView, v: u8|
                    (
                        ((v >> 1) + cin) as u8,
                        with_zn(
                            with_flag(c0.flags, Flags::CARRY, v & 0x1 != 0),
                            ((v >> 1) + cin) as u8,
                        ),
                    )),
            )
        }
    }
}

/// DEC: decrement a memory cell with 8-bit wraparound.
pub open spec fn spec_dec(c: CpuView, mode: AddrMode, size: u16) -> Result<CpuView, EmuError> {
    spec_rmw(
        c,
        mode,
        size,
        (|c0: CpuView, v: u8| (v.wrapping_sub(1), with_zn(c0.flags, v.wrapping_sub(1)))),
    )
}

/// INC: increment a memory cell with 8-bit wraparound.
pub open spec fn spec_inc(c: CpuView, mode: AddrMode, size: u16) -> Result<CpuView, EmuError> {
    spec_rmw(
        c,
        mode,
        size,
        (|c0: CpuView, v: u8| (v.wrapping_add(1), with_zn(c0.flags, v.wrapping_add(1)))),
    )
}

/// JMP: absolute, or indirect with the hardware page-wrap bug; no advance.
pub open spec fn spec_jmp(c: CpuView, mode: AddrMode, size: u16) -> Result<CpuView, EmuError> {
    match mode {
        AddrMode::Absolute => match spec_resolve(c, mode) {
            Err(e) => Err(e),
            Ok(addr) => Ok(CpuView { pc: addr, ..c }),
        },
        AddrMode::Indirect => match c.mem.read16_result(c.pc.wrapping_add(1)) {
            Err(e) => Err(e),
            Ok(ptr) => if ptr & 0xff == 0xff {
                match c.mem.read_result(ptr) {
                    Err(e) => Err(e),
                    Ok(lo) => match c.mem.read_result(ptr & 0xff00) {
                        Err(e) => Err(e),
                        Ok(hi) => Ok(CpuView { pc: (lo + 256 * hi) as u16, ..c }),
                    },
                }
            } else {
                match c.mem.read16_result(ptr) {
                    Err(e) => Err(e),
                    Ok(t) => Ok(CpuView { pc: t, ..c }),
                }
            },
        },
        _ => Err(EmuError::NoOperand),
    }
}

/// JSR: push (return address - 1) high byte first, then jump; no advance.
pub open spec fn spec_jsr(c: CpuView, mode: AddrMode, size: u16) -> Result<CpuView, EmuError> {
    match mode {
        AddrMode::Absolute => match c.mem.read16_result(c.pc.wrapping_add(1)) {
            Err(e) => Err(e),
            Ok(target) => {
                let c1 = spec_push16(c, c.pc.wrapping_add(3).wrapping_sub(1));
                Ok(CpuView { pc: target, ..c1 })
            },
        },
        _ => Err(EmuError::NoOperand),
    }
}

/// What one decoded instruction does to the machine state.  Every arm ends
/// in the automatic advance by `size` except BRK, JMP, JSR and RTI, which
/// set the program counter themselves.  RTS loads the program counter from
/// the stack and then lets the 1-byte advance apply on top; since JSR
/// pushes (return address - 1), the pair composes to resume right after
/// the call.  RTI restores the popped program counter exactly.  BRK only
/// sets the Break flag that halts the run loop: it pushes nothing and
/// loads no interrupt vector.
pub open spec fn spec_instr(c: CpuView, op: Opcode, mode: AddrMode, size: u16) -> Result<
    CpuView,
    EmuError,
> {
    match op {
        Opcode::ADC => spec_adc(c, mode, size),
        Opcode::AND => spec_and(c, mode, size),
        Opcode::ASL => spec_asl(c, mode, size),
        Opcode::BCC => match spec_branch(c, mode, Flags::CARRY, false) {
            Err(e) => Err(e),
            Ok(c1) => Ok(advance(c1, size)),
        },
        Opcode::BCS => match spec_branch(c, mode, Flags::CARRY, true) {
            Err(e) => Err(e),
            Ok(c1) => Ok(advance(c1, size)),
        },
        Opcode::BEQ => match spec_branch(c, mode, Flags::ZERO, true) {
            Err(e) => Err(e),
            Ok(c1) => Ok(advance(c1, size)),
        },
        Opcode::BIT => spec_bit(c, mode, size),
        Opcode::BMI => match spec_branch(c, mode, Flags::NEGATIVE, true) {
            Err(e) => Err(e),
            Ok(c1) => Ok(advance(c1, size)),
        },
        Opcode::BNE => match spec_branch(c, mode, Flags::ZERO, false) {
            Err(e) => Err(e),
            Ok(c1) => Ok(advance(c1, size)),
        },
        Opcode::BPL => match spec_branch(c, mode, Flags::NEGATIVE, false) {
            Err(e) => Err(e),
            Ok(c1) => Ok(advance(c1, size)),
        },
        Opcode::BRK => Ok(CpuView { flags: c.flags | Flags::BREAK, ..c }),
        Opcode::BVC => match spec_branch(c, mode, Flags::OVERFLOW, false) {
            Err(e) => Err(e),
            Ok(c1) => Ok(advance(c1, size)),
        },
        Opcode::BVS => match spec_branch(c, mode, Flags::OVERFLOW, true) {
            Err(e) => Err(e),
            Ok(c1) => Ok(advance(c1, size)),
        },
        Opcode::CLC => Ok(advance(CpuView { flags: c.flags & !Flags::CARRY, ..c }, size)),
        Opcode::CLD => Ok(advance(CpuView { flags: c.flags & !Flags::DECIMAL, ..c }, size)),
        Opcode::CLI => Ok(
            advance(CpuView { flags: c.flags & !Flags::INTERRUPTDISABLE, ..c }, size),
        ),
        Opcode::CLV => Ok(advance(CpuView { flags: c.flags & !Flags::OVERFLOW, ..c }, size)),
        Opcode::CMP => spec_cmp(c, mode, size),
        Opcode::CPX => spec_cpx(c, mode, size),
        Opcode::CPY => spec_cpy(c, mode, size),
        Opcode::DEC => spec_dec(c, mode, size),
        Opcode::DEX => Ok(advance(with_x(c, c.x.wrapping_sub(1)), size)),
        Opcode::DEY => Ok(advance(with_y(c, c.y.wrapping_sub(1)), size)),
        Opcode::EOR => spec_eor(c, mode, size),
        Opcode::INC => spec_inc(c, mode, size),
        Opcode::INX => Ok(advance(with_x(c, c.x.wrapping_add(1)), size)),
        Opcode::INY => Ok(advance(with_y(c, c.y.wrapping_add(1)), size)),
        Opcode::JMP => spec_jmp(c, mode, size),
        Opcode::JSR => spec_jsr(c, mode, size),
        Opcode::LDA => spec_lda(c, mode, size),
        Opcode::LDX => spec_ldx(c, mode, size),
        Opcode::LDY => spec_ldy(c, mode, size),
        Opcode::LSR => spec_lsr(c, mode, size),
        Opcode::NOP => Ok(advance(c, size)),
        Opcode::ORA => spec_ora(c, mode, size),
        Opcode::PHA => Ok(advance(spec_push(c, c.a), size)),
        Opcode::PHP => Ok(advance(spec_push(c, c.flags), size)),
        Opcode::PLA => {
            let (c1, v) = spec_pop(c);
            Ok(advance(with_a(c1, v), size))
        },
        Opcode::PLP => {
            let (c1, v) = spec_pop(c);
            Ok(advance(CpuView { flags: v, ..c1 }, size))
        },
        Opcode::ROL => spec_rol(c, mode, size),
        Opcode::ROR => spec_ror(c, mode, size),
        Opcode::RTI => {
            let (c1, st) = spec_pop(c);
            let (c2, v) = spec_pop16(c1);
            Ok(CpuView { flags: st, pc: v, ..c2 })
        },
        Opcode::RTS => {
            let (c1, v) = spec_pop16(c);
            Ok(advance(CpuView { pc: v, ..c1 }, size))
        },
        Opcode::SBC => spec_sbc(c, mode, size),
        Opcode::SEC => Ok(advance(CpuView { flags: c.flags | Flags::CARRY, ..c }, size)),
        Opcode::SED => Ok(advance(CpuView { flags: c.flags | Flags::DECIMAL, ..c }, size)),
        Opcode::SEI => Ok(
            advance(CpuView { flags: c.flags | Flags::INTERRUPTDISABLE, ..c }, size),
        ),
        Opcode::STA => spec_store(c, mode, c.a, size),
        Opcode::STX => spec_store(c, mode, c.x, size),
        Opcode::STY => spec_store(c, mode, c.y, size),
        Opcode::TAX => Ok(advance(with_x(c, c.a), size)),
        Opcode::TAY => Ok(advance(with_y(c, c.a), size)),
        Opcode::TSX => Ok(advance(with_x(c, c.sp), size)),
        Opcode::TXA => Ok(advance(with_a(c, c.x), size)),
        Opcode::TXS => Ok(advance(CpuView { sp: c.x, ..c }, size)),
        Opcode::TYA => Ok(advance(with_a(c, c.y), size)),
    }
}

/// One full machine step: fetch the opcode byte at the program counter,
/// decode it, and apply the instruction's semantics.  An undocumented
/// opcode byte and any access that the bus rejects are fatal, and leave
/// the machine unchanged.
pub open spec fn spec_step(c: CpuView) -> Result<CpuView, EmuError> {
    match c.mem.read_result(c.pc) {
        Err(e) => Err(e),
        Ok(b) => match spec_decode(b) {
            None => Err(EmuError::InvalidOpcode(b)),
            Some(t) => spec_instr(c, t.0, t.1, t.2.size),
        },
    }
}

impl Cpu {
    /// Take the branch when the tested flag matches the required value:
    /// read the displacement through the resolver, sign-extend it, and add
    /// it to the still-unadvanced program counter with 16-bit wraparound.
    pub fn branch_impl(&mut self, addr_mode: AddrMode, flag: u8, cond: bool) -> (r: Result<
        (),
        EmuError,
    >)
        requires
            old(self).wf(),
        ensures
            final(self).wf(),
            match spec_branch(old(self)@, addr_mode, flag, cond) {
                Ok(v) => r == Ok::<(), EmuError>(()) && final(self)@ == v,
                Err(e) => r == Err::<(), EmuError>(e) && final(self)@ == old(self)@,
            },
    {
        let addr = match self.get_addr_mode_dest(addr_mode) {
            Ok(a) => a,
            Err(e) => { return Err(e) },
        };
        self.note_open_bus(addr);
        let off = match self.memory.read(addr) {
            Ok(v) => v,
            Err(e) => { return Err(e) },
        };
        if self.status.contains(flag) == cond {
            let ext: u16 = if off >= 0x80 {
                (off as u16) | 0xFF00
            } else {
                off as u16
            };
            self.pc = self.pc.wrapping_add(ext);
        }
        Ok(())
    }


    /// ADC: add the operand and the carry into the accumulator.
    fn op_adc(&mut self, addr_mode: AddrMode, size: u16) -> (r: Result<(), EmuError>)
        requires
            old(self).wf(),
        ensures
            final(self).wf(),
            match spec_adc(old(self)@, addr_mode, size) {
                Ok(v) => r == Ok::<(), EmuError>(()) && final(self)@ == v,
                Err(e) => r == Err::<(), EmuError>(e) && final(self)@ == old(self)@,
            },
    {
        let val = match self.operand(addr_mode) {
            Ok(v) => v,
            Err(e) => { return Err(e) },
        };
        self.add_a(val);
        self.pc = self.pc.wrapping_add(size);
        Ok(())
    }

    /// AND: bitwise-and the operand into the accumulator.
    fn op_and(&mut self, addr_mode: AddrMode, size: u16) -> (r: Result<(), EmuError>)
        requires
            old(self).wf(),
        ensures
            final(self).wf(),
            match spec_and(old(self)@, addr_mode, size) {
                Ok(v) => r == Ok::<(), EmuError>(()) && final(self)@ == v,
                Err(e) => r == Err::<(), EmuError>(e) && final(self)@ == old(self)@,
            },
    {
        let val = match self.operand(addr_mode) {
            Ok(v) => v,
            Err(e) => { return Err(e) },
        };
        let a1 = self.reg_a & val;
        self.reg_a = a1;
        self.update_zero_negative(a1);
        self.pc = self.pc.wrapping_add(size);
        Ok(())
    }

    /// BIT: test the operand against the accumulator without storing.
    fn op_bit(&mut self, addr_mode: AddrMode, size: u16) -> (r: Result<(), EmuError>)
        requires
            old(self).wf(),
        ensures
            final(self).wf(),
            match spec_bit(old(self)@, addr_mode, size) {
                Ok(v) => r == Ok::<(), EmuError>(()) && final(self)@ == v,
                Err(e) => r == Err::<(), EmuError>(e) && final(self)@ == old(self)@,
            },
    {
        let val = match self.operand(addr_mode) {
            Ok(v) => v,
            Err(e) => { return Err(e) },
        };
        self.status.set(Flags::OVERFLOW, val & 0x40 != 0);
        self.status.set(Flags::NEGATIVE, val & 0x80 != 0);
        let zero = self.reg_a & val == 0;
        self.status.set(Flags::ZERO, zero);
        self.pc = self.pc.wrapping_add(size);
        Ok(())
    }

    /// CMP: compare the accumulator with the operand.
    fn op_cmp(&mut self, addr_mode: AddrMode, size: u16) -> (r: Result<(), EmuError>)
        requires
            old(self).wf(),
        ensures
            final(self).wf(),
            match spec_cmp(old(self)@, addr_mode, size) {
                Ok(v) => r == Ok::<(), EmuError>(()) && final(self)@ == v,
                Err(e) => r == Err::<(), EmuError>(e) && final(self)@ == old(self)@,
            },
    {
        let m = match self.operand(addr_mode) {
            Ok(v) => v,
            Err(e) => { return Err(e) },
        };
        let ge = self.reg_a >= m;
        self.status.set(Flags::CARRY, ge);
        let diff = self.reg_a.wrapping_sub(m);
        self.update_zero_negative(diff);
        self.pc = self.pc.wrapping_add(size);
        Ok(())
    }

    /// CPX: compare the X register with the operand.
    fn op_cpx(&mut self, addr_mode: AddrMode, size: u16) -> (r: Result<(), EmuError>)
        requires
            old(self).wf(),
        ensures
            final(self).wf(),
            match spec_cpx(old(self)@, addr_mode, size) {
                Ok(v) => r == Ok::<(), EmuError>(()) && final(self)@ == v,
                Err(e) => r == Err::<(), EmuError>(e) && final(self)@ == old(self)@,
            },
    {
        let m = match self.operand(addr_mode) {
            Ok(v) => v,
            Err(e) => { return Err(e) },
        };
        let ge = self.reg_x >= m;
        self.status.set(Flags::CARRY, ge);
        let diff = self.reg_x.wrapping_sub(m);
        self.update_zero_negative(diff);
        self.pc = self.pc.wrapping_add(size);
        Ok(())
    }

    /// CPY: compare the Y register with the operand.
    fn op_cpy(&mut self, addr_mode: AddrMode, size: u16) -> (r: Result<(), EmuError>)
        requires
            old(self).wf(),
        ensures
            final(self).wf(),
            match spec_cpy(old(self)@, addr_mode, size) {
                Ok(v) => r == Ok::<(), EmuError>(()) && final(self)@ == v,
                Err(e) => r == Err::<(), EmuError>(e) && final(self)@ == old(self)@,
            },
    {
        let m = match self.operand(addr_mode) {
            Ok(v) => v,
            Err(e) => { return Err(e) },
        };
        let ge = self.reg_y >= m;
        self.status.set(Flags::CARRY, ge);
        let diff = self.reg_y.wrapping_sub(m);
        self.update_zero_negative(diff);
        self.pc = self.pc.wrapping_add(size);
        Ok(())
    }

    /// EOR: bitwise-xor the operand into the accumulator.
    fn op_eor(&mut self, addr_mode: AddrMode, size: u16) -> (r: Result<(), EmuError>)
        requires
            old(self).wf(),
        ensures
            final(self).wf(),
            match spec_eor(old(self)@, addr_mode, size) {
                Ok(v) => r == Ok::<(), EmuError>(()) && final(self)@ == v,
                Err(e) => r == Err::<(), EmuError>(e) && final(self)@ == old(self)@,
            },
    {
        let val = match self.operand(addr_mode) {
            Ok(v) => v,
            Err(e) => { return Err(e) },
        };
        let a1 = self.reg_a ^ val;
        self.reg_a = a1;
        self.update_zero_negative(a1);
        self.pc = self.pc.wrapping_add(size);
        Ok(())
    }

    /// LDA: load the operand into the accumulator.
    fn op_lda(&mut self, addr_mode: AddrMode, size: u16) -> (r: Result<(), EmuError>)
        requires
            old(self).wf(),
        ensures
            final(self).wf(),
            match spec_lda(old(self)@, addr_mode, size) {
                Ok(v) => r == Ok::<(), EmuError>(()) && final(self)@ == v,
                Err(e) => r == Err::<(), EmuError>(e) && final(self)@ == old(self)@,
            },
    {
        let val = match self.operand(addr_mode) {
            Ok(v) => v,
            Err(e) => { return Err(e) },
        };
        self.reg_a = val;
        self.update_zero_negative(val);
        self.pc = self.pc.wrapping_add(size);
        Ok(())
    }

    /// LDX: load the operand into the X register.
    fn op_ldx(&mut self, addr_mode: AddrMode, size: u16) -> (r: Result<(), EmuError>)
        requires
            old(self).wf(),
        ensures
            final(self).wf(),
            match spec_ldx(old(self)@, addr_mode, size) {
                Ok(v) => r == Ok::<(), EmuError>(()) && final(self)@ == v,
                Err(e) => r == Err::<(), EmuError>(e) && final(self)@ == old(self)@,
            },
    {
        let val = match self.operand(addr_mode) {
            Ok(v) => v,
            Err(e) => { return Err(e) },
        };
        self.reg_x = val;
        self.update_zero_negative(val);
        self.pc = self.pc.wrapping_add(size);
        Ok(())
    }

    /// LDY: load the operand into the Y register.
    fn op_ldy(&mut self, addr_mode: AddrMode, size: u16) -> (r: Result<(), EmuError>)
        requires
            old(self).wf(),
        ensures
            final(self).wf(),
            match spec_ldy(old(self)@, addr_mode, size) {
                Ok(v) => r == Ok::<(), EmuError>(()) && final(self)@ == v,
                Err(e) => r == Err::<(), EmuError>(e) && final(self)@ == old(self)@,
            },
    {
        let val = match self.operand(addr_mode) {
            Ok(v) => v,
            Err(e) => { return Err(e) },
        };
        self.reg_y = val;
        self.update_zero_negative(val);
        self.pc = self.pc.wrapping_add(size);
        Ok(())
    }

    /// ORA: bitwise-or the operand into the accumulator.
    fn op_ora(&mut self, addr_mode: AddrMode, size: u16) -> (r: Result<(), EmuError>)
        requires
            old(self).wf(),
        ensures
            final(self).wf(),
            match spec_ora(old(self)@, addr_mode, size) {
                Ok(v) => r == Ok::<(), EmuError>(()) && final(self)@ == v,
                Err(e) => r == Err::<(), EmuError>(e) && final(self)@ == old(self)@,
            },
    {
        let val = match self.operand(addr_mode) {
            Ok(v) => v,
            Err(e) => { return Err(e) },
        };
        let a1 = self.reg_a | val;
        self.reg_a = a1;
        self.update_zero_negative(a1);
        self.pc = self.pc.wrapping_add(size);
        Ok(())
    }

    /// SBC: subtract the operand: add with the operand complemented.
    fn op_sbc(&mut self, addr_mode: AddrMode, size: u16) -> (r: Result<(), EmuError>)
        requires
            old(self).wf(),
        ensures
            final(self).wf(),
            match spec_sbc(old(self)@, addr_mode, size) {
                Ok(v) => r == Ok::<(), EmuError>(()) && final(self)@ == v,
                Err(e) => r == Err::<(), EmuError>(e) && final(self)@ == old(self)@,
            },
    {
        let val = match self.operand(addr_mode) {
            Ok(v) => v,
            Err(e) => { return Err(e) },
        };
        self.add_a(!val);
        self.pc = self.pc.wrapping_add(size);
        Ok(())
    }

    /// Arithmetic shift left, on the accumulator or on a memory cell.
    fn op_asl(&mut self, addr_mode: AddrMode, size: u16) -> (r: Result<(), EmuError>)
        requires
            old(self).wf(),
        ensures
            final(self).wf(),
            match spec_asl(old(self)@, addr_mode, size) {
                Ok(v) => r == Ok::<(), EmuError>(()) && final(self)@ == v,
                Err(e) => r == Err::<(), EmuError>(e) && final(self)@ == old(self)@,
            },
    {
        if let AddrMode::Accumulator = addr_mode {
            let a0 = self.reg_a;
            let carry = a0 & 0x80 != 0;
            self.reg_a = a0 << 1;
            self.status.set(Flags::CARRY, carry);
            let a1 = self.reg_a;
            self.update_zero_negative(a1);
        } else {
            let addr = match self.get_addr_mode_dest(addr_mode) {
                Ok(a) => a,
                Err(e) => { return Err(e) },
            };
            self.note_open_bus(addr);
            let val = match self.memory.read(addr) {
                Ok(v) => v,
                Err(e) => { return Err(e) },
            };
            let carry = val & 0x80 != 0;
            let new_val = val << 1;
            match self.memory.write(addr, new_val) {
                Ok(_) => {},
                Err(e) => { return Err(e) },
            }
            self.status.set(Flags::CARRY, carry);
            self.update_zero_negative(new_val);
        }
        self.pc = self.pc.wrapping_add(size);
        Ok(())
    }

    /// Logical shift right, on the accumulator or on a memory cell.
    fn op_lsr(&mut self, addr_mode: AddrMode, size: u16) -> (r: Result<(), EmuError>)
        requires
            old(self).wf(),
        ensures
            final(self).wf(),
            match spec_lsr(old(self)@, addr_mode, size) {
                Ok(v) => r == Ok::<(), EmuError>(()) && final(self)@ == v,
                Err(e) => r == Err::<(), EmuError>(e) && final(self)@ == old(self)@,
            },
    {
        if let AddrMode::Accumulator = addr_mode {
            let a0 = self.reg_a;
            let carry = a0 & 0x1 != 0;
            self.reg_a = a0 >> 1;
            self.status.set(Flags::CARRY, carry);
            let a1 = self.reg_a;
            self.update_zero_negative(a1);
        } else {
            let addr = match self.get_addr_mode_dest(addr_mode) {
                Ok(a) => a,
                Err(e) => { return Err(e) },
            };
            self.note_open_bus(addr);
            let val = match self.memory.read(addr) {
                Ok(v) => v,
                Err(e) => { return Err(e) },
            };
            let carry = val & 0x1 != 0;
            let new_val = val >> 1;
            match self.memory.write(addr, new_val) {
                Ok(_) => {},
                Err(e) => { return Err(e) },
            }
            self.status.set(Flags::CARRY, carry);
            self.update_zero_negative(new_val);
        }
        self.pc = self.pc.wrapping_add(size);
        Ok(())
    }

    /// Rotate left through carry, on the accumulator or on a memory cell.
    fn op_rol(&mut self, addr_mode: AddrMode, size: u16) -> (r: Result<(), EmuError>)
        requires
            old(self).wf(),
        ensures
            final(self).wf(),
            match spec_rol(old(self)@, addr_mode, size) {
                Ok(v) => r == Ok::<(), EmuError>(()) && final(self)@ == v,
                Err(e) => r == Err::<(), EmuError>(e) && final(self)@ == old(self)@,
            },
    {
        let cin: u8 = if self.status.contains(Flags::CARRY) {
            1
        } else {
            0
        };
        if let AddrMode::Accumulator = addr_mode {
            let a0 = self.reg_a;
            let carry = a0 & 0x80 != 0;
            proof {
                assert(a0 << 1 <= 254) by (bit_vector);
            }
            self.reg_a = (a0 << 1) + cin;
            self.status.set(Flags::CARRY, carry);
            let a1 = self.reg_a;
            self.update_zero_negative(a1);
        } else {
            let addr = match self.get_addr_mode_dest(addr_mode) {
                Ok(a) => a,
                Err(e) => { return Err(e) },
            };
            self.note_open_bus(addr);
            let val = match self.memory.read(addr) {
                Ok(v) => v,
                Err(e) => { return Err(e) },
            };
            let carry = val & 0x80 != 0;
            proof {
                assert(val << 1 <= 254) by (bit_vector);
            }
            let new_val = (val << 1) + cin;
            match self.memory.write(addr, new_val) {
                Ok(_) => {},
                Err(e) => { return Err(e) },
            }
            self.status.set(Flags::CARRY, carry);
            self.update_zero_negative(new_val);
        }
        self.pc = self.pc.wrapping_add(size);
        Ok(())
    }

    /// Rotate right through carry, on the accumulator or on a memory cell.
    fn op_ror(&mut self, addr_mode: AddrMode, size: u16) -> (r: Result<(), EmuError>)
        requires
            old(self).wf(),
        ensures
            final(self).wf(),
            match spec_ror(old(self)@, addr_mode, size) {
                Ok(v) => r == Ok::<(), EmuError>(()) && final(self)@ == v,
                Err(e) => r == Err::<(), EmuError>(e) && final(self)@ == old(self)@,
            },
    {
        let cin: u8 = if self.status.contains(Flags::CARRY) {
            0x80
        } else {
            0
        };
        if let AddrMode::Accumulator = addr_mode {
            let a0 = self.reg_a;
            let carry = a0 & 0x1 != 0;
            proof {
                assert(a0 >> 1 <= 127) by (bit_vector);
            }
            self.reg_a = (a0 >> 1) + cin;
            self.status.set(Flags::CARRY, carry);
            let a1 = self.reg_a;
            self.update_zero_negative(a1);
        } else {
            let addr = match self.get_addr_mode_dest(addr_mode) {
                Ok(a) => a,
                Err(e) => { return Err(e) },
            };
            self.note_open_bus(addr);
            let val = match self.memory.read(addr) {
                Ok(v) => v,
                Err(e) => { return Err(e) },
            };
            let carry = val & 0x1 != 0;
            proof {
                assert(val >> 1 <= 127) by (bit_vector);
            }
            let new_val = (val >> 1) + cin;
            match self.memory.write(addr, new_val) {
                Ok(_) => {},
                Err(e) => { return Err(e) },
            }
            self.status.set(Flags::CARRY, carry);
            self.update_zero_negative(new_val);
        }
        self.pc = self.pc.wrapping_add(size);
        Ok(())
    }

    /// Decrement a memory cell with 8-bit wraparound.
    fn op_dec(&mut self, addr_mode: AddrMode, size: u16) -> (r: Result<(), EmuError>)
        requires
            old(self).wf(),
        ensures
            final(self).wf(),
            match spec_dec(old(self)@, addr_mode, size) {
                Ok(v) => r == Ok::<(), EmuError>(()) && final(self)@ == v,
                Err(e) => r == Err::<(), EmuError>(e) && final(self)@ == old(self)@,
            },
    {
        let addr = match self.get_addr_mode_dest(addr_mode) {
            Ok(a) => a,
            Err(e) => { return Err(e) },
        };
        self.note_open_bus(addr);
        let val = match self.memory.read(addr) {
            Ok(v) => v,
            Err(e) => { return Err(e) },
        };
        let val_m = val.wrapping_sub(1);
        match self.memory.write(addr, val_m) {
            Ok(_) => {},
            Err(e) => { return Err(e) },
        }
        self.update_zero_negative(val_m);
        self.pc = self.pc.wrapping_add(size);
        Ok(())
    }

    /// Increment a memory cell with 8-bit wraparound.
    fn op_inc(&mut self, addr_mode: AddrMode, size: u16) -> (r: Result<(), EmuError>)
        requires
            old(self).wf(),
        ensures
            final(self).wf(),
            match spec_inc(old(self)@, addr_mode, size) {
                Ok(v) => r == Ok::<(), EmuError>(()) && final(self)@ == v,
                Err(e) => r == Err::<(), EmuError>(e) && final(self)@ == old(self)@,
            },
    {
        let addr = match self.get_addr_mode_dest(addr_mode) {
            Ok(a) => a,
            Err(e) => { return Err(e) },
        };
        self.note_open_bus(addr);
        let val = match self.memory.read(addr) {
            Ok(v) => v,
            Err(e) => { return Err(e) },
        };
        let val_m = val.wrapping_add(1);
        match self.memory.write(addr, val_m) {
            Ok(_) => {},
            Err(e) => { return Err(e) },
        }
        self.update_zero_negative(val_m);
        self.pc = self.pc.wrapping_add(size);
        Ok(())
    }

    /// Store the accumulator.
    fn op_sta(&mut self, addr_mode: AddrMode, size: u16) -> (r: Result<(), EmuError>)
        requires
            old(self).wf(),
        ensures
            final(self).wf(),
            match spec_store(old(self)@, addr_mode, old(self)@.a, size) {
                Ok(v) => r == Ok::<(), EmuError>(()) && final(self)@ == v,
                Err(e) => r == Err::<(), EmuError>(e) && final(self)@ == old(self)@,
            },
    {
        let addr = match self.get_addr_mode_dest(addr_mode) {
            Ok(a) => a,
            Err(e) => { return Err(e) },
        };
        self.note_open_bus(addr);
        let a = self.reg_a;
        match self.memory.write(addr, a) {
            Ok(_) => {},
            Err(e) => { return Err(e) },
        }
        self.pc = self.pc.wrapping_add(size);
        Ok(())
    }

    /// Store the X register.
    fn op_stx(&mut self, addr_mode: AddrMode, size: u16) -> (r: Result<(), EmuError>)
        requires
            old(self).wf(),
        ensures
            final(self).wf(),
            match spec_store(old(self)@, addr_mode, old(self)@.x, size) {
                Ok(v) => r == Ok::<(), EmuError>(()) && final(self)@ == v,
                Err(e) => r == Err::<(), EmuError>(e) && final(self)@ == old(self)@,
            },
    {
        let addr = match self.get_addr_mode_dest(addr_mode) {
            Ok(a) => a,
            Err(e) => { return Err(e) },
        };
        self.note_open_bus(addr);
        let x = self.reg_x;
        match self.memory.write(addr, x) {
            Ok(_) => {},
            Err(e) => { return Err(e) },
        }
        self.pc = self.pc.wrapping_add(size);
        Ok(())
    }

    /// Store the Y register.
    fn op_sty(&mut self, addr_mode: AddrMode, size: u16) -> (r: Result<(), EmuError>)
        requires
            old(self).wf(),
        ensures
            final(self).wf(),
            match spec_store(old(self)@, addr_mode, old(self)@.y, size) {
                Ok(v) => r == Ok::<(), EmuError>(()) && final(self)@ == v,
                Err(e) => r == Err::<(), EmuError>(e) && final(self)@ == old(self)@,
            },
    {
        let addr = match self.get_addr_mode_dest(addr_mode) {
            Ok(a) => a,
            Err(e) => { return Err(e) },
        };
        self.note_open_bus(addr);
        let y = self.reg_y;
        match self.memory.write(addr, y) {
            Ok(_) => {},
            Err(e) => { return Err(e) },
        }
        self.pc = self.pc.wrapping_add(size);
        Ok(())
    }

    /// Jump: absolute, or indirect with the hardware page-wrap bug.
    fn op_jmp(&mut self, addr_mode: AddrMode, size: u16) -> (r: Result<(), EmuError>)
        requires
            old(self).wf(),
        ensures
            final(self).wf(),
            match spec_jmp(old(self)@, addr_mode, size) {
                Ok(v) => r == Ok::<(), EmuError>(()) && final(self)@ == v,
                Err(e) => r == Err::<(), EmuError>(e) && final(self)@ == old(self)@,
            },
    {
        match addr_mode {
            AddrMode::Absolute => {
                let addr = match self.get_addr_mode_dest(addr_mode) {
                    Ok(a) => a,
                    Err(e) => { return Err(e) },
                };
                self.pc = addr;
                return Ok(());
            },
            AddrMode::Indirect => {
                let indirect_addr = match self.memory.read_u16(self.pc.wrapping_add(1)) {
                    Ok(v) => v,
                    Err(e) => { return Err(e) },
                };
                self.note_open_bus(self.pc.wrapping_add(1));
                self.note_open_bus(self.pc.wrapping_add(2));
                // Hardware page-wrap bug: a pointer ending in 0xFF
                // takes its high byte from the start of the same
                // page rather than the next one.
                let new_pc: u16;
                if indirect_addr & 0xff == 0xff {
                    self.note_open_bus(indirect_addr);
                    self.note_open_bus(indirect_addr & 0xff00);
                    let lo = match self.memory.read(indirect_addr) {
                        Ok(v) => v,
                        Err(e) => { return Err(e) },
                    };
                    let hi = match self.memory.read(indirect_addr & 0xff00) {
                        Ok(v) => v,
                        Err(e) => { return Err(e) },
                    };
                    new_pc = ((hi as u16) << 8) | (lo as u16);
                    proof {
                        assert(((hi as u16) << 8) | (lo as u16) == lo + 256 * hi)
                            by (bit_vector);
                    }
                } else {
                    self.note_open_bus(indirect_addr);
                    self.note_open_bus(indirect_addr.wrapping_add(1));
                    new_pc = match self.memory.read_u16(indirect_addr) {
                        Ok(v) => v,
                        Err(e) => { return Err(e) },
                    };
                }
                self.pc = new_pc;
                return Ok(());
            },
            _ => { return Err(EmuError::NoOperand) },
        }
    }

    /// Jump to subroutine: push (return address - 1), high byte first.
    fn op_jsr(&mut self, addr_mode: AddrMode, size: u16) -> (r: Result<(), EmuError>)
        requires
            old(self).wf(),
        ensures
            final(self).wf(),
            match spec_jsr(old(self)@, addr_mode, size) {
                Ok(v) => r == Ok::<(), EmuError>(()) && final(self)@ == v,
                Err(e) => r == Err::<(), EmuError>(e) && final(self)@ == old(self)@,
            },
    {
        match addr_mode {
            AddrMode::Absolute => {},
            _ => { return Err(EmuError::NoOperand) },
        }
        let return_loc = self.pc.wrapping_add(3);
        let fn_addr = match self.memory.read_u16(self.pc.wrapping_add(1)) {
            Ok(v) => v,
            Err(e) => { return Err(e) },
        };
        self.note_open_bus(self.pc.wrapping_add(1));
        self.note_open_bus(self.pc.wrapping_add(2));
        self.push_stack_u16(return_loc.wrapping_sub(1));
        self.pc = fn_addr;
        return Ok(());
    }

    /// Apply an instruction that carries no memory operand: register and
    /// stack traffic, flag bits, returns, and the break.
    fn exec_implied(&mut self, opcode: Opcode, addr_mode: AddrMode, size: u16) -> (r: Result<
        (),
        EmuError,
    >)
        requires
            old(self).wf(),
        ensures
            final(self).wf(),
            (opcode is BRK || opcode is CLC || opcode is CLD || opcode is CLI || opcode is CLV || opcode is DEX || opcode is DEY || opcode is INX || opcode is INY || opcode is NOP || opcode is PHA || opcode is PHP || opcode is PLA || opcode is PLP || opcode is RTI || opcode is RTS || opcode is SEC || opcode is SED || opcode is SEI || opcode is TAX || opcode is TAY || opcode is TSX || opcode is TXA || opcode is TXS || opcode is TYA) ==> match spec_instr(old(self)@, opcode, addr_mode, size) {
                Ok(v) => r == Ok::<(), EmuError>(()) && final(self)@ == v,
                Err(e) => r == Err::<(), EmuError>(e) && final(self)@ == old(self)@,
            },
    {
        match opcode {
            Opcode::BRK => {
                self.status.insert(Flags::BREAK);
                return Ok(());
            },
            Opcode::CLC => {
                self.status.remove(Flags::CARRY);
            },
            Opcode::CLD => {
                self.status.remove(Flags::DECIMAL);
            },
            Opcode::CLI => {
                self.status.remove(Flags::INTERRUPTDISABLE);
            },
            Opcode::CLV => {
                self.status.remove(Flags::OVERFLOW);
            },
            Opcode::DEX => {
                self.reg_x = self.reg_x.wrapping_sub(1);
                let v = self.reg_x;
                self.update_zero_negative(v);
            },
            Opcode::DEY => {
                self.reg_y = self.reg_y.wrapping_sub(1);
                let v = self.reg_y;
                self.update_zero_negative(v);
            },
            Opcode::INX => {
                self.reg_x = self.reg_x.wrapping_add(1);
                let v = self.reg_x;
                self.update_zero_negative(v);
            },
            Opcode::INY => {
                self.reg_y = self.reg_y.wrapping_add(1);
                let v = self.reg_y;
                self.update_zero_negative(v);
            },
            Opcode::NOP => {},
            Opcode::PHA => {
                let a = self.reg_a;
                self.push_stack(a);
            },
            Opcode::PHP => {
                let b = self.status.bits();
                self.push_stack(b);
            },
            Opcode::PLA => {
                let v = self.pop_stack();
                self.reg_a = v;
                self.update_zero_negative(v);
            },
            Opcode::PLP => {
                let v = self.pop_stack();
                self.status = Flags::from_bits_retain(v);
            },
            Opcode::RTI => {
                let st = self.pop_stack();
                self.status = Flags::from_bits_retain(st);
                let v = self.pop_stack_u16();
                self.pc = v;
                return Ok(());
            },
            Opcode::RTS => {
                let v = self.pop_stack_u16();
                self.pc = v;
            },
            Opcode::SEC => {
                self.status.insert(Flags::CARRY);
            },
            Opcode::SED => {
                self.status.insert(Flags::DECIMAL);
            },
            Opcode::SEI => {
                self.status.insert(Flags::INTERRUPTDISABLE);
            },
            Opcode::TAX => {
                self.reg_x = self.reg_a;
                let v = self.reg_x;
                self.update_zero_negative(v);
            },
            Opcode::TAY => {
                self.reg_y = self.reg_a;
                let v = self.reg_y;
                self.update_zero_negative(v);
            },
            Opcode::TSX => {
                self.reg_x = self.stack_ptr;
                let v = self.reg_x;
                self.update_zero_negative(v);
            },
            Opcode::TXA => {
                self.reg_a = self.reg_x;
                let v = self.reg_a;
                self.update_zero_negative(v);
            },
            Opcode::TXS => {
                self.stack_ptr = self.reg_x;
            },
            Opcode::TYA => {
                self.reg_a = self.reg_y;
                let v = self.reg_a;
                self.update_zero_negative(v);
            },
            _ => {
                return Ok(());
            },
        }
        self.pc = self.pc.wrapping_add(size);
        Ok(())
    }

    /// One conditional branch instruction: test, maybe displace, then let
    /// the normal size advance apply.
    fn op_branch(&mut self, addr_mode: AddrMode, flag: u8, cond: bool, size: u16) -> (r: Result<
        (),
        EmuError,
    >)
        requires
            old(self).wf(),
        ensures
            final(self).wf(),
            match spec_branch(old(self)@, addr_mode, flag, cond) {
                Ok(v) => r == Ok::<(), EmuError>(()) && final(self)@ == advance(v, size),
                Err(e) => r == Err::<(), EmuError>(e) && final(self)@ == old(self)@,
            },
    {
        match self.branch_impl(addr_mode, flag, cond) {
            Ok(_) => {},
            Err(e) => { return Err(e) },
        }
        self.pc = self.pc.wrapping_add(size);
        Ok(())
    }

    /// Execute one instruction: fetch the opcode byte, decode it, resolve
    /// its operand where it has one, apply its semantics, and advance the
    /// program counter by the instruction size unless the instruction set
    /// the program counter itself (BRK, JMP, JSR, RTI).  A fatal condition
    /// is reported as an error and leaves the machine exactly as it was.
    pub fn step(&mut self) -> (r: Result<(), EmuError>)
        requires
            old(self).wf(),
        ensures
            final(self).wf(),
            match spec_step(old(self)@) {
                Ok(v) => r == Ok::<(), EmuError>(()) && final(self)@ == v,
                Err(e) => r == Err::<(), EmuError>(e) && final(self)@ == old(self)@,
            },
    {
        let instruction_byte = match self.memory.read(self.pc) {
            Ok(b) => b,
            Err(e) => { return Err(e) },
        };
        self.note_open_bus(self.pc);
        let (opcode, addr_mode, inst_info) = match decode(instruction_byte) {
            Some(t) => t,
            None => { return Err(EmuError::InvalidOpcode(instruction_byte)) },
        };
        self.exec_instr(opcode, addr_mode, inst_info.size)
    }

    /// Apply one decoded instruction's semantics and program-counter
    /// advance.
    #[verifier::rlimit(100)]
    fn exec_instr(&mut self, opcode: Opcode, addr_mode: AddrMode, size: u16) -> (r: Result<
        (),
        EmuError,
    >)
        requires
            old(self).wf(),
        ensures
            final(self).wf(),
            match spec_instr(old(self)@, opcode, addr_mode, size) {
                Ok(v) => r == Ok::<(), EmuError>(()) && final(self)@ == v,
                Err(e) => r == Err::<(), EmuError>(e) && final(self)@ == old(self)@,
            },
    {
        match opcode {
            Opcode::ADC => {
                return self.op_adc(addr_mode, size);
            },
            Opcode::AND => {
                return self.op_and(addr_mode, size);
            },
            Opcode::ASL => {
                return self.op_asl(addr_mode, size);
            },
            Opcode::BCC => {
                return self.op_branch(addr_mode, Flags::CARRY, false, size);
            },
            Opcode::BCS => {
                return self.op_branch(addr_mode, Flags::CARRY, true, size);
            },
            Opcode::BEQ => {
                return self.op_branch(addr_mode, Flags::ZERO, true, size);
            },
            Opcode::BIT => {
                return self.op_bit(addr_mode, size);
            },
            Opcode::BMI => {
                return self.op_branch(addr_mode, Flags::NEGATIVE, true, size);
            },
            Opcode::BNE => {
                return self.op_branch(addr_mode, Flags::ZERO, false, size);
            },
            Opcode::BPL => {
                return self.op_branch(addr_mode, Flags::NEGATIVE, false, size);
            },
            Opcode::BVC => {
                return self.op_branch(addr_mode, Flags::OVERFLOW, false, size);
            },
            Opcode::BVS => {
                return self.op_branch(addr_mode, Flags::OVERFLOW, true, size);
            },
            Opcode::CMP => {
                return self.op_cmp(addr_mode, size);
            },
            Opcode::CPX => {
                return self.op_cpx(addr_mode, size);
            },
            Opcode::CPY => {
                return self.op_cpy(addr_mode, size);
            },
            Opcode::DEC => {
                return self.op_dec(addr_mode, size);
            },
            Opcode::EOR => {
                return self.op_eor(addr_mode, size);
            },
            Opcode::INC => {
                return self.op_inc(addr_mode, size);
            },
            Opcode::JMP => {
                return self.op_jmp(addr_mode, size);
            },
            Opcode::JSR => {
                return self.op_jsr(addr_mode, size);
            },
            Opcode::LDA => {
                return self.op_lda(addr_mode, size);
            },
            Opcode::LDX => {
                return self.op_ldx(addr_mode, size);
            },
            Opcode::LDY => {
                return self.op_ldy(addr_mode, size);
            },
            Opcode::LSR => {
                return self.op_lsr(addr_mode, size);
            },
            Opcode::ORA => {
                return self.op_ora(addr_mode, size);
            },
            Opcode::ROL => {
                return self.op_rol(addr_mode, size);
            },
            Opcode::ROR => {
                return self.op_ror(addr_mode, size);
            },
            Opcode::SBC => {
                return self.op_sbc(addr_mode, size);
            },
            Opcode::STA => {
                return self.op_sta(addr_mode, size);
            },
            Opcode::STX => {
                return self.op_stx(addr_mode, size);
            },
            Opcode::STY => {
                return self.op_sty(addr_mode, size);
            },
            _ => {
                return self.exec_implied(opcode, addr_mode, size);
            },
        }
    }
}

/// A per-step hook the host supplies: it runs once before every `step`,
/// on the same thread, with full read/mutate access to the machine.  An
/// implementation must keep the machine well-formed.
pub trait StepCallback {
    fn on_step(&mut self, cpu: &mut Cpu)
        requires
            old(cpu).wf(),
        ensures
            final(cpu).wf(),
    ;
}

/// The hook that does nothing.
pub struct NoopCallback;

impl StepCallback for NoopCallback {
    fn on_step(&mut self, _cpu: &mut Cpu)
        ensures
            final(_cpu)@ == old(_cpu)@,
    {
    }
}

/// The machine `b` lies `n` specification steps after `a`: zero steps
/// leave the state as it is, and each further step succeeds.
pub open spec fn spec_steps_reach(a: CpuView, b: CpuView, n: nat) -> bool
    decreases n,
{
    if n == 0 {
        a == b
    } else {
        spec_step(a) is Ok && spec_steps_reach(spec_step(a)->Ok_0, b, (n - 1) as nat)
    }
}

/// Reachability extends by one successful step at the far end.
proof fn lemma_steps_reach_snoc(a: CpuView, b: CpuView, c: CpuView, n: nat)
    requires
        spec_steps_reach(a, b, n),
        spec_step(b) == Ok::<CpuView, EmuError>(c),
    ensures
        spec_steps_reach(a, c, n + 1),
    decreases n,
{
    if n == 0 {
        assert(spec_steps_reach(c, c, 0));
        assert(spec_steps_reach(a, c, 1));
    } else {
        lemma_steps_reach_snoc(spec_step(a)->Ok_0, b, c, (n - 1) as nat);
        assert(spec_steps_reach(a, c, n + 1));
    }
}

impl Cpu {
    /// Run until the Break flag is observed, invoking the hook before each
    /// step: strictly callback, then step.  A run that starts with Break
    /// already set returns at once, with the hook never invoked and the
    /// machine untouched.  A fatal step stops the loop and surfaces its
    /// error.  The loop carries a step budget of 2^64 - 1 instructions,
    /// which no real program exhausts.
    pub fn run_with_callback<F: StepCallback>(&mut self, f: &mut F) -> (r: Result<(), EmuError>)
        requires
            old(self).wf(),
        ensures
            final(self).wf(),
            r == Ok::<(), EmuError>(()) ==> flag_set(final(self)@.flags, Flags::BREAK),
            flag_set(old(self)@.flags, Flags::BREAK)
                ==> r == Ok::<(), EmuError>(()) && final(self)@ == old(self)@,
            forall|e: EmuError|
                r == Err::<(), EmuError>(e) && e != EmuError::StepLimit ==> spec_step(
                    final(self)@,
                ) == Err::<CpuView, EmuError>(e),
    {
        let mut budget: u64 = u64::MAX;
        while !self.status.contains(Flags::BREAK)
            invariant
                self.wf(),
                flag_set(old(self)@.flags, Flags::BREAK) ==> self@ == old(self)@,
            decreases budget,
        {
            if budget == 0 {
                return Err(EmuError::StepLimit);
            }
            budget = budget - 1;
            f.on_step(self);
            match self.step() {
                Ok(_) => {},
                Err(e) => { return Err(e) },
            }
        }
        Ok(())
    }

    /// Run until the Break flag is observed, with no per-step hook.  The
    /// final machine state lies zero or more specification steps after the
    /// initial one; on a normal return the Break flag is set in it, and a
    /// run that starts with Break already set returns at once with the
    /// machine untouched.  A fatal step surfaces its error with the
    /// machine as it stood before the failing step.
    pub fn run(&mut self) -> (r: Result<(), EmuError>)
        requires
            old(self).wf(),
        ensures
            final(self).wf(),
            exists|n: nat| #[trigger] spec_steps_reach(old(self)@, final(self)@, n),
            r == Ok::<(), EmuError>(()) ==> flag_set(final(self)@.flags, Flags::BREAK),
            flag_set(old(self)@.flags, Flags::BREAK)
                ==> r == Ok::<(), EmuError>(()) && final(self)@ == old(self)@,
            forall|e: EmuError|
                r == Err::<(), EmuError>(e) && e != EmuError::StepLimit ==> spec_step(
                    final(self)@,
                ) == Err::<CpuView, EmuError>(e),
    {
        let mut budget: u64 = u64::MAX;
        let ghost mut n: nat = 0;
        proof {
            assert(spec_steps_reach(old(self)@, self@, 0));
        }
        while !self.status.contains(Flags::BREAK)
            invariant
                self.wf(),
                spec_steps_reach(old(self)@, self@, n),
                flag_set(old(self)@.flags, Flags::BREAK) ==> self@ == old(self)@,
            decreases budget,
        {
            if budget == 0 {
                return Err(EmuError::StepLimit);
            }
            budget = budget - 1;
            let ghost before = self@;
            match self.step() {
                Ok(_) => {},
                Err(e) => { return Err(e) },
            }
            proof {
                lemma_steps_reach_snoc(old(self)@, before, self@, n);
                n = n + 1;
            }
        }
        Ok(())
    }
}

/// Indirect-jump page-wrap law: when the instruction at the program counter
/// is JMP Indirect and its 16-bit pointer operand ends in 0xFF, the step
/// succeeds and loads the program counter with a word whose low byte comes
/// from the pointer itself and whose high byte comes from the *start of the
/// pointer's own page* (the pointer masked with 0xFF00), not from the next
/// page.  The requirements only say that the bytes involved are readable.
pub proof fn lemma_jmp_indirect_page_wrap(c: CpuView)
    requires
        c.mem.read_result(c.pc) == Ok::<u8, EmuError>(0x6C),
        c.mem.read_result(c.pc.wrapping_add(1)) is Ok,
        c.mem.read_result(c.pc.wrapping_add(1).wrapping_add(1)) is Ok,
        c.mem.read16_val(c.pc.wrapping_add(1)) & 0xff == 0xff,
        c.mem.read_result(c.mem.read16_val(c.pc.wrapping_add(1))) is Ok,
        c.mem.read_result(c.mem.read16_val(c.pc.wrapping_add(1)) & 0xff00) is Ok,
    ensures
        ({
            let ptr = c.mem.read16_val(c.pc.wrapping_add(1));
            let lo = c.mem.read_val(ptr);
            let hi = c.mem.read_val(ptr & 0xff00);
            spec_step(c) == Ok::<CpuView, EmuError>(CpuView { pc: (lo + 256 * hi) as u16, ..c })
        }),
{
    assert(spec_decode(0x6C) == Some(
        (Opcode::JMP, AddrMode::Indirect, crate::fetch_decode::spec_info(3, 5)),
    ));
}

/// A sequence of bytes pushed onto the stack, first element first.
pub open spec fn spec_push_seq(c: CpuView, s: Seq<u8>) -> CpuView
    decreases s.len(),
{
    if s.len() == 0 {
        c
    } else {
        spec_push_seq(spec_push(c, s[0]), s.drop_first())
    }
}

/// `n` bytes popped off the stack, in pop order.
pub open spec fn spec_pop_seq(c: CpuView, n: nat) -> (CpuView, Seq<u8>)
    decreases n,
{
    if n == 0 {
        (c, Seq::empty())
    } else {
        let (c1, v) = spec_pop(c);
        let (c2, rest) = spec_pop_seq(c1, (n - 1) as nat);
        (c2, seq![v] + rest)
    }
}

/// Shape of a push sequence: registers and program counter are untouched,
/// the stack pointer moves back by the sequence length modulo 256, each
/// pushed byte sits in its stack slot (as long as no more than 256 bytes
/// were pushed, so that no slot is reused), and every other RAM cell keeps
/// its old value.
#[verifier::rlimit(50)]
proof fn lemma_push_seq_shape(c: CpuView, s: Seq<u8>)
    requires
        c.mem.ram.len() == 0x800,
        s.len() <= 256,
    ensures
        ({
            let d = spec_push_seq(c, s);
            &&& d.a == c.a
            &&& d.x == c.x
            &&& d.y == c.y
            &&& d.pc == c.pc
            &&& d.flags == c.flags
            &&& d.mem.prg == c.mem.prg
            &&& d.mem.chr == c.mem.chr
            &&& d.mem.mapper == c.mem.mapper
            &&& d.mem.mirroring == c.mem.mirroring
            &&& d.mem.ram.len() == 0x800
            &&& d.sp == ((c.sp - s.len()) % 256) as u8
            &&& forall|i: int|
                0 <= i < s.len() ==> d.mem.ram[0x100 + #[trigger] ((c.sp - i) % 256)] == s[i]
            &&& forall|j: int|
                0 <= j < 0x800 && (forall|i: int|
                    0 <= i < s.len() ==> j != 0x100 + #[trigger] ((c.sp - i) % 256))
                    ==> d.mem.ram[j] == c.mem.ram[j]
        }),
    decreases s.len(),
{
    if s.len() == 0 {
        assert(((c.sp - 0) % 256) as u8 == c.sp);
    } else {
        let c1 = spec_push(c, s[0]);
        lemma_push_seq_shape(c1, s.drop_first());
        let d = spec_push_seq(c, s);
        assert(d == spec_push_seq(c1, s.drop_first()));
        assert(c1.sp == ((c.sp - 1) % 256) as u8) by {
            if c.sp == 0 {
                assert((0 - 1) % 256 == 255);
            }
        }
        assert forall|k: int| 0 <= k < s.len() - 1 implies #[trigger] ((c1.sp - k) % 256) == (c.sp
            - (k + 1)) % 256 by {
            lemma_mod_shift(c.sp as int, k + 1);
        }
        // The slot of the first push is none of the later slots.
        assert forall|k: int| 0 <= k < s.len() - 1 implies 0x100 + #[trigger] ((c1.sp - k) % 256)
            != 0x100 + ((c.sp - 0) % 256) by {
            lemma_mod_shift(c.sp as int, k + 1);
            lemma_mod_distinct(c.sp as int, 0, k + 1);
        }
        assert forall|i: int| 0 <= i < s.len() implies d.mem.ram[0x100 + #[trigger] ((c.sp - i)
            % 256)] == s[i] by {
            if i == 0 {
                lemma_mod_distinct_all(c.sp as int, s.len() as int);
                vstd::arithmetic::div_mod::lemma_small_mod(c.sp as nat, 256);
                assert(c1.mem.ram[0x100 + ((c.sp - 0) % 256)] == s[0]);
            } else {
                lemma_mod_shift(c.sp as int, i);
                assert(s.drop_first()[i - 1] == s[i]);
            }
        }
        assert forall|j: int|
            0 <= j < 0x800 && (forall|i: int|
                0 <= i < s.len() ==> j != 0x100 + #[trigger] ((c.sp - i) % 256))
            implies d.mem.ram[j] == c.mem.ram[j] by {
            // The cell is none of the later slots, so the recursive pushes
            // leave it alone, and it is not the first push's slot either.
            assert(forall|k: int|
                0 <= k < s.len() - 1 ==> j != 0x100 + #[trigger] ((c1.sp - k) % 256));
            vstd::arithmetic::div_mod::lemma_small_mod(c.sp as nat, 256);
            assert(j != 0x100 + ((c.sp - 0) % 256));
            assert(j != 0x100 + c.sp);
            assert(c1.mem.ram[j] == c.mem.ram[j]);
        }
    }
}

/// (a - i) taken modulo 256 twice in a row collapses: shifting the base by
/// one inside the modulus equals shifting outside it.
proof fn lemma_mod_shift(a: int, k: int)
    requires
        k >= 1,
    ensures
        (((a - 1) % 256) - (k - 1)) % 256 == (a - k) % 256,
{
    vstd::arithmetic::div_mod::lemma_sub_mod_noop((a - 1) % 256, k - 1, 256);
    vstd::arithmetic::div_mod::lemma_sub_mod_noop(a - 1, k - 1, 256);
    vstd::arithmetic::div_mod::lemma_mod_twice(a - 1, 256);
    vstd::arithmetic::div_mod::lemma_mod_twice(k - 1, 256);
}

/// Two stack slots at distance less than 256 are distinct.
proof fn lemma_mod_distinct(a: int, i: int, k: int)
    requires
        0 <= i < 256,
        0 <= k < 256,
        i != k,
    ensures
        (a - i) % 256 != (a - k) % 256,
{
    vstd::arithmetic::div_mod::lemma_sub_mod_noop(a, i, 256);
    vstd::arithmetic::div_mod::lemma_sub_mod_noop(a, k, 256);
    vstd::arithmetic::div_mod::lemma_mod_twice(a, 256);
    vstd::arithmetic::div_mod::lemma_mod_twice(i, 256);
    vstd::arithmetic::div_mod::lemma_mod_twice(k, 256);
    if (a - i) % 256 == (a - k) % 256 {
        vstd::arithmetic::div_mod::lemma_mod_equivalence(a - i, a - k, 256);
        assert((k - i) % 256 == 0);
        vstd::arithmetic::div_mod::lemma_small_mod((if k > i {
            k - i
        } else {
            i - k
        }) as nat, 256);
    }
}

/// Helper spreading slot distinctness over a whole push run.
proof fn lemma_mod_distinct_all(a: int, n: int)
    requires
        0 <= n <= 256,
    ensures
        forall|i: int, k: int|
            0 <= i < n && 0 <= k < n && i != k ==> #[trigger] ((a - i) % 256) != #[trigger] ((a
                - k) % 256),
{
    assert forall|i: int, k: int|
        0 <= i < n && 0 <= k < n && i != k implies #[trigger] ((a - i) % 256) != #[trigger] ((a
            - k) % 256) by {
        lemma_mod_distinct(a, i, k);
    }
}

/// Shape of a pop sequence: RAM and registers are untouched, the stack
/// pointer moves forward by `n` modulo 256, and the `i`-th popped byte is
/// the RAM cell at stack slot sp + 1 + i.
#[verifier::rlimit(50)]
proof fn lemma_pop_seq_shape(c: CpuView, n: nat)
    requires
        c.mem.ram.len() == 0x800,
    ensures
        ({
            let (d, vals) = spec_pop_seq(c, n);
            &&& d == (CpuView { sp: ((c.sp + n) % 256) as u8, ..c })
            &&& vals.len() == n
            &&& forall|i: int|
                0 <= i < n ==> #[trigger] vals[i] == c.mem.ram[0x100 + ((c.sp + 1 + i) % 256)]
        }),
    decreases n,
{
    if n == 0 {
        assert(((c.sp + 0) % 256) as u8 == c.sp);
    } else {
        let (c1, v) = spec_pop(c);
        lemma_pop_seq_shape(c1, (n - 1) as nat);
        assert(c1.sp == ((c.sp + 1) % 256) as u8) by {
            if c.sp == 255 {
                assert((255 + 1) % 256 == 0);
            }
        }
        let (d, vals) = spec_pop_seq(c, n);
        assert forall|i: int| 0 <= i < n implies #[trigger] vals[i] == c.mem.ram[0x100 + ((c.sp + 1
            + i) % 256)] by {
            if i > 0 {
                lemma_mod_shift_add(c.sp as int, i);
            } else {
                assert((c.sp + 1 + 0) % 256 == (c.sp + 1) % 256);
            }
        }
        assert(((((c.sp + 1) % 256) + (n - 1)) % 256) == (c.sp + n) % 256) by {
            vstd::arithmetic::div_mod::lemma_add_mod_noop((c.sp + 1) % 256, n - 1, 256);
            vstd::arithmetic::div_mod::lemma_add_mod_noop(c.sp + 1, n - 1, 256);
            vstd::arithmetic::div_mod::lemma_mod_twice(c.sp + 1, 256);
            vstd::arithmetic::div_mod::lemma_mod_twice(n - 1, 256);
        }
    }
}

/// As `lemma_mod_shift`, for the forward direction.
proof fn lemma_mod_shift_add(a: int, k: int)
    requires
        k >= 1,
    ensures
        (((a + 1) % 256) + 1 + (k - 1)) % 256 == (a + 1 + k) % 256,
{
    vstd::arithmetic::div_mod::lemma_add_mod_noop((a + 1) % 256, k, 256);
    vstd::arithmetic::div_mod::lemma_add_mod_noop(a + 1, k, 256);
    vstd::arithmetic::div_mod::lemma_mod_twice(a + 1, 256);
    vstd::arithmetic::div_mod::lemma_mod_twice(k, 256);
}

/// Stack LIFO law: pushing up to 256 bytes and then popping the same
/// number returns exactly those bytes in reverse order, and restores the
/// stack pointer, even though the 8-bit pointer wraps around on the way.
/// (With 257 or more pushes a slot would be reused, so 256 is the sharp
/// bound.)
#[verifier::rlimit(50)]
pub proof fn lemma_stack_lifo(c: CpuView, s: Seq<u8>)
    requires
        c.mem.ram.len() == 0x800,
        s.len() <= 256,
    ensures
        ({
            let (d, vals) = spec_pop_seq(spec_push_seq(c, s), s.len());
            &&& vals == s.reverse()
            &&& d.sp == c.sp
            &&& d.a == c.a
            &&& d.x == c.x
            &&& d.y == c.y
            &&& d.pc == c.pc
            &&& d.flags == c.flags
        }),
{
    let p = spec_push_seq(c, s);
    let n = s.len() as int;
    lemma_push_seq_shape(c, s);
    lemma_pop_seq_shape(p, s.len());
    let (d, vals) = spec_pop_seq(p, s.len());
    assert forall|i: int| 0 <= i < n implies vals[i] == s.reverse()[i] by {
        // The i-th pop reads the slot of push number (n - 1 - i).
        assert(p.sp as int == (c.sp - n) % 256);
        assert((p.sp + 1 + i) % 256 == (c.sp - (n - 1 - i)) % 256) by {
            vstd::arithmetic::div_mod::lemma_add_mod_noop((c.sp - n) % 256, 1 + i, 256);
            vstd::arithmetic::div_mod::lemma_add_mod_noop(c.sp - n, 1 + i, 256);
            vstd::arithmetic::div_mod::lemma_mod_twice(c.sp - n, 256);
            vstd::arithmetic::div_mod::lemma_mod_twice(1 + i, 256);
        }
        assert(vals[i] == p.mem.ram[0x100 + ((c.sp - (n - 1 - i)) % 256)]);
        assert(p.mem.ram[0x100 + ((c.sp - (n - 1 - i)) % 256)] == s[n - 1 - i]);
        assert(s.reverse()[i] == s[n - 1 - i]);
    }
    assert(vals =~= s.reverse());
    assert(d.sp == ((((c.sp - n) % 256) + n) % 256) as u8);
    assert(((((c.sp - n) % 256) + n) % 256) == c.sp as int) by {
        vstd::arithmetic::div_mod::lemma_add_mod_noop((c.sp - n) % 256, n, 256);
        vstd::arithmetic::div_mod::lemma_add_mod_noop(c.sp - n, n, 256);
        vstd::arithmetic::div_mod::lemma_mod_twice(c.sp - n, 256);
        vstd::arithmetic::div_mod::lemma_mod_twice(n, 256);
        vstd::arithmetic::div_mod::lemma_small_mod(c.sp as nat, 256);
    }
}

} // verus!
