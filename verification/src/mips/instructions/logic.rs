//! Boolean logic.
use vstd::prelude::*;
use vstd::string::*;
use crate::mips::types::{Register, RegisterOrNumber};
use crate::text::{push_word, words4};

verus! {

/// Boolean logic instructions.
#[derive(Clone, Debug, PartialEq, Eq)]
pub enum Logic {
    /// Register = 1 if a != 0 and b != 0 else 0
    ///
    /// and r? a(r?|num) b(r?|num)
    And {
        register: Register,
        a: RegisterOrNumber,
        b: RegisterOrNumber,
    },
    /// Register = 1 if a == 0 and b == 0 else 0
    ///
    /// nor r? a(r?|num) b(r?|num)
    Nor {
        register: Register,
        a: RegisterOrNumber,
        b: RegisterOrNumber,
    },
    /// Register = 1 if a and/or b != 0 else 0
    ///
    /// or r? a(r?|num) b(r?|num)
    Or {
        register: Register,
        a: RegisterOrNumber,
        b: RegisterOrNumber,
    },
    /// Register = 1 if either a or b is nonzero, otherwise 0
    ///
    /// xor r? a(r?|num) b(r?|num)
    Xor {
        register: Register,
        a: RegisterOrNumber,
        b: RegisterOrNumber,
    },
}

impl Logic {
    /// The line of assembly that the instruction is written as.
    pub open spec fn text(self) -> Seq<char> {
        match self {
            Logic::And { register, a, b } => words4("and"@, register.text(), a.text(), b.text()),
            Logic::Nor { register, a, b } => words4("nor"@, register.text(), a.text(), b.text()),
            Logic::Or { register, a, b } => words4("or"@, register.text(), a.text(), b.text()),
            Logic::Xor { register, a, b } => words4("xor"@, register.text(), a.text(), b.text()),
        }
    }

    /// Writes the instruction as a line of assembly.
    pub fn to_string(&self) -> (r: String)
        ensures
            r@ == self.text(),
    {
        match self {
            Logic::And { register, a, b } => {
                let mut out = "and".to_string();
                push_word(&mut out, register.to_string().as_str());
                push_word(&mut out, a.to_string().as_str());
                push_word(&mut out, b.to_string().as_str());
                out
            },
            Logic::Nor { register, a, b } => {
                let mut out = "nor".to_string();
                push_word(&mut out, register.to_string().as_str());
                push_word(&mut out, a.to_string().as_str());
                push_word(&mut out, b.to_string().as_str());
                out
            },
            Logic::Or { register, a, b } => {
                let mut out = "or".to_string();
                push_word(&mut out, register.to_string().as_str());
                push_word(&mut out, a.to_string().as_str());
                push_word(&mut out, b.to_string().as_str());
                out
            },
            Logic::Xor { register, a, b } => {
                let mut out = "xor".to_string();
                push_word(&mut out, register.to_string().as_str());
                push_word(&mut out, a.to_string().as_str());
                push_word(&mut out, b.to_string().as_str());
                out
            },
        }
    }
}

} // verus!
