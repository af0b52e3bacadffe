use vstd::prelude::*;

pub mod nes_apu;
pub mod llm;
pub mod markdown;
pub mod media;
pub mod nes_cpu;
pub mod nes_emu;
pub mod paths;
pub mod sort;
pub mod text;

verus! {

} // verus!
