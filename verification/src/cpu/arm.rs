//! The full-width instruction set.
pub mod arm;
pub mod data_processing;
pub mod data_transfer;
pub mod opcodes;
