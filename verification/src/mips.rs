//! The target machine: its operands and instructions, and how they are
//! written.
pub mod error;
pub mod instructions;
pub mod types;
