//! The machine's stack.
use vstd::prelude::*;
use vstd::string::*;
use crate::mips::types::{Register, RegisterOrNumber};
use crate::text::{push_word, words2};

verus! {

/// Instructions for operating on the stack.
#[derive(Clone, Debug, PartialEq, Eq)]
pub enum Stack {
    /// Register = top of stack
    ///
    /// peek r?
    Peek { register: Register },
    /// Register = top of stack, then pop (decrement sp)
    ///
    /// pop r?
    Pop { register: Register },
    /// Push a onto the stack (increment sp)
    ///
    /// push a(r?|num)
    Push { a: RegisterOrNumber },
}

impl Stack {
    /// The line of assembly that the instruction is written as.
    pub open spec fn text(self) -> Seq<char> {
        match self {
            Stack::Peek { register } => words2("peek"@, register.text()),
            Stack::Pop { register } => words2("pop"@, register.text()),
            Stack::Push { a } => words2("push"@, a.text()),
        }
    }

    /// Writes the instruction as a line of assembly.
    pub fn to_string(&self) -> (r: String)
        ensures
            r@ == self.text(),
    {
        match self {
            Stack::Peek { register } => {
                let mut out = "peek".to_string();
                push_word(&mut out, register.to_string().as_str());
                out
            },
            Stack::Pop { register } => {
                let mut out = "pop".to_string();
                push_word(&mut out, register.to_string().as_str());
                out
            },
            Stack::Push { a } => {
                let mut out = "push".to_string();
                push_word(&mut out, a.to_string().as_str());
                out
            },
        }
    }
}

} // verus!
