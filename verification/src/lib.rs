//! Cycle-level emulation core for the original monochrome handheld console.
//!
//! The crate models the machine one master-clock tick at a time: the
//! Sharp-LR35902-compatible interpreter, the bus with cartridge mappers, the
//! dot-driven pixel unit, the digital side of the audio unit, the timer and
//! divider, the OAM DMA engine and the interrupt controller.  Every state
//! change is stated in the contracts of the functions that perform it.

use vstd::prelude::*;

pub mod apu;
pub mod buttons;
pub mod cpu;
pub mod mbc;
pub mod mmu;
pub mod ppu;
pub mod register;
pub mod timer;
pub mod util;

verus! {

/// The failures the core can report to its host.
#[derive(Clone, Copy, Debug, PartialEq, Eq, Structural)]
pub enum CoreError {
    /// The image is too short to hold the cartridge header.
    RomTooSmall,
    /// The header names a mapper this core does not support.
    UnsupportedMapper(u8),
    /// The header's ROM-size code is outside the published table.
    UnsupportedRomSize(u8),
    /// The header's RAM-size code is outside the published table.
    UnsupportedRamSize(u8),
    /// The guest instruction stream reached an opcode with no meaning.
    IllegalOpcode(u8),
}

} // verus!
