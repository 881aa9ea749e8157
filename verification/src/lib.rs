//! A verified interpreter for the 8-bit 6502 CPU behind the NES console.
//!
//! The crate models the machine as a mathematical state (registers, status
//! bits, RAM and PRG ROM contents) and proves that the executable
//! fetch-decode-execute engine follows that model instruction by instruction,
//! including the documented hardware quirks: 8-bit zero-page wraparound, the
//! indirect-jump page-wrap bug, and signed relative branching.

mod bus;
mod cpu;
mod errors;
mod fetch_decode;
mod flags;
pub mod rom;
mod screen;

pub use bus::Bus;
pub use bus::BusDiagnostics;
pub use bus::BusView;
pub use cpu::lemma_jmp_indirect_page_wrap;
pub use cpu::lemma_stack_lifo;
pub use cpu::spec_instr;
pub use cpu::spec_pop;
pub use cpu::spec_pop_seq;
pub use cpu::spec_power_on;
pub use cpu::spec_push;
pub use cpu::spec_push_seq;
pub use cpu::spec_resolve;
pub use cpu::spec_step;
pub use cpu::spec_steps_reach;
pub use cpu::Cpu;
pub use cpu::CpuView;
pub use cpu::NoopCallback;
pub use cpu::StepCallback;
pub use errors::EmuError;
pub use fetch_decode::decode;
pub use fetch_decode::info;
pub use fetch_decode::info_extra;
pub use fetch_decode::info_extra2;
pub use fetch_decode::spec_decode;
pub use fetch_decode::AddrMode;
pub use fetch_decode::InstructionInfo;
pub use fetch_decode::Opcode;
pub use flags::flag_set;
pub use flags::lemma_zero_negative;
pub use flags::with_flag;
pub use flags::with_zn;
pub use flags::Flags;
pub use screen::color;
pub use screen::read_screen_state;
