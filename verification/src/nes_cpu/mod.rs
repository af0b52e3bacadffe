pub mod bus;
pub mod cpu;
pub mod ines;
pub mod mapper;
pub mod nestest;
pub mod opcodes;
pub mod state;
