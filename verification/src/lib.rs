//! Front-end shell logic of a multi-console emulator: hotkey bindings and
//! their evaluation against raw input, the application-mode stack, window
//! geometry, and the timed notification queue.
//!
//! Everything here is plain data in, plain data out. The host program owns
//! the devices, the window and the emulation session; each tick it hands
//! this crate a snapshot of the input and performs the commands it gets back.

pub mod binding;
pub mod hotkey;
pub mod keys;
pub mod message;
pub mod mode;
pub mod shell;
pub mod text;
pub mod window;
