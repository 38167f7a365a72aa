//! The processor core.
pub mod alu;
pub mod arm;
pub mod barrel_shift;
pub mod cpu;
pub mod decode;
pub mod thumb;
