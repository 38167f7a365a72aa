//! Core of a handheld-console emulator: a dual-instruction-set 32-bit
//! processor together with the memory bus and the devices it talks to.
//!
//! Every function carries a contract over a mathematical model of the
//! machine state, and every contract is machine-checked.
#![allow(non_camel_case_types)]
#![allow(non_snake_case)]
#![allow(unused_variables)]

pub mod bus;
pub mod cartridge;
pub mod cpu;
pub mod fault;
pub mod io;
pub mod ppu;
pub mod spangb;
pub mod utils;

pub use bus::Bus;
pub use cartridge::Cartridge;
pub use cpu::cpu::{CPU_mode, CPU_state, Flag, CPU};
pub use fault::Fault;
pub use ppu::ppu::PPU;
pub use spangb::spAnGB;
