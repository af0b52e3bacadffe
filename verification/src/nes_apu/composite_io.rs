//! Which CPU bus accesses reach the APU when it sits in front of the
//! joypad and PPU I/O: the status read, the channel and enable writes and
//! the frame counter write; everything else goes on to the other devices.
use vstd::prelude::*;

verus! {

/// The APU answers a read of `addr`: only the status register, $4015.
pub open spec fn apu_reads(addr: u16) -> bool {
    addr == 0x4015
}

/// The APU takes a write to `addr`: the channel registers $4000-$4013, the
/// channel enable $4015 and the frame counter $4017.
pub open spec fn apu_writes(addr: u16) -> bool {
    (0x4000 <= addr && addr <= 0x4013) || addr == 0x4015 || addr == 0x4017
}

/// Whether a read goes to the APU (else to the joypads and the PPU).
pub fn routes_read_to_apu(addr: u16) -> (r: bool)
    ensures
        r == apu_reads(addr),
{
    addr == 0x4015
}

/// Whether a write goes to the APU (else to the joypads and the PPU).
pub fn routes_write_to_apu(addr: u16) -> (r: bool)
    ensures
        r == apu_writes(addr),
{
    (0x4000 <= addr && addr <= 0x4013) || addr == 0x4015 || addr == 0x4017
}

} // verus!
