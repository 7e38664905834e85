//! Core of a cycle-counted NES emulator: cartridge loading, the memory bus,
//! the 6502 interpreter, the picture processing unit and the frame compositor.
//!
//! Every executable function comes with a contract over the mathematical
//! view of the machine (`CpuView`, `BusView`, `PpuView`), and [`laws`] holds
//! what follows from those contracts for every state.
mod bytes;
pub mod cpu;
pub mod laws;
pub mod ppu;
pub mod renderer;

pub use cpu::Bus;
pub use cpu::Cartridge;
pub use cpu::Cpu;
