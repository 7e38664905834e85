//! The 6502 interpreter and what it owns: the bus, the cartridge and the joypad.
pub mod bus;
pub mod cartridge;
pub mod controller;
pub mod cpu;
pub mod execute;
pub mod instructions;
pub mod joypad;
pub mod mapper;
pub mod step;
pub mod trace;

pub use bus::Bus;
pub use cartridge::Cartridge;
pub use cartridge::Mirroring;
pub use controller::Controller;
pub use cpu::Cpu;
pub use instructions::Instruction;
