//! The compact instruction set.
pub mod data_processing;
pub mod hi_lo_ops;
pub mod opcodes;
pub mod thumb;
