pub mod apu;
pub mod composite_io;
pub mod dmc;
pub mod envelope;
pub mod frame_counter;
pub mod length_counter;
pub mod noise;
pub mod pulse;
pub mod sweep;
pub mod triangle;
