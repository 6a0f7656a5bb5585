//! A Game Boy Color emulator core: the SM83 CPU, the memory bus, the
//! cartridge mappers, the timer, the joypad, the pixel processing unit and
//! the audio processing unit, each with its behaviour stated in contracts.
pub mod registers;
pub mod timer;
pub mod joypad;
pub mod ram;
pub mod clock;
pub mod cartridge;
pub mod ppu;
pub mod apu;
pub mod bus;
pub mod alu;
pub mod cpu_spec;
pub mod cpu;
pub mod gb;
pub mod text;
pub mod library;
pub mod boxart;
pub mod date;
pub mod icon;
pub mod keys;
pub mod settings;
pub mod paths;
