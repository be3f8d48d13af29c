//! A Game Boy (DMG) emulator core: cartridge bank controllers, the memory
//! map, the timer, the joypad register, the picture processing unit and the
//! SM83 processor, each with its behaviour stated as a contract.

pub mod interrupt;
pub mod memory;
pub mod screen;
pub mod joypad;
pub mod audio;
pub mod cartridge;
pub mod cpu;
pub mod laws;
