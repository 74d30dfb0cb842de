//! A compiler from a small imperative language to the assembly of the
//! programmable chip of Stationeers, a register machine whose branches name
//! line numbers.
//!
//! `parser::ast` is the syntax tree that the compiler takes, `mips` the
//! instructions that it writes, and `compiler` the code generator, whose
//! entry is `compiler::generate_program`. Every function states what it
//! computes over a model of its data, and what holds of the generator as a
//! whole is proved in `compiler::laws`, `compiler::parity` and
//! `compiler::stability`.
pub mod compiler;
pub mod mips;
pub mod parser;
pub mod strmap;
pub mod text;
