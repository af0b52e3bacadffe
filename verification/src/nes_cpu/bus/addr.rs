//! CPU memory map address constants.
use vstd::prelude::*;

verus! {

pub const RAM_START: u16 = 0x0000;
pub const RAM_END: u16 = 0x1FFF;
pub const RAM_MASK: u16 = 0x07FF;

pub const IO_START: u16 = 0x2000;
pub const IO_END: u16 = 0x3FFF;
pub const IO_MASK: u16 = 0x0007;

pub const APU_IO_END: u16 = 0x5FFF;

pub const OAM_DMA: u16 = 0x4014;
pub const JOYPAD1: u16 = 0x4016;
pub const JOYPAD2: u16 = 0x4017;

pub const CARTRIDGE_START: u16 = 0x6000;

} // verus!
