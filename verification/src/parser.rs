//! The source language.
pub mod ast;
