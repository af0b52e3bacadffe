//! The emulator front end's own logic.
pub mod debug;
pub mod input;
pub mod save_state;
