//! A cycle-level Game Boy (DMG) emulator core.
//!
//! The crate models the LR35902 CPU and its companion chips (picture
//! processor, timer, joypad, cartridge mapper and on-board RAM) as
//! synchronous state machines that communicate over a shared address/data
//! bus.  Every call to [`gameboy::Gameboy::clock`] advances the machine by
//! exactly one M-cycle (four T-states).

pub mod alu;
pub mod cart;
pub mod cpu;
pub mod decode;
pub mod execute;
pub mod gameboy;
pub mod joypad;
pub mod memory;
pub mod ppu;
pub mod registers;
pub mod timer;

pub use registers::FRegister;
pub use registers::Registers;
