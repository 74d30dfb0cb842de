//! Instructions of no other family, and the lines that are no instructions.
use vstd::prelude::*;
use vstd::string::*;
use crate::mips::types::{Number, Register, RegisterOrNumber};
use crate::text::{concat2, push_word, words2, words3};

verus! {

/// Miscellaneous instructions, and the label and comment lines of a program.
#[derive(Clone, Debug, PartialEq, Eq)]
pub enum Misc {
    /// Labels register or device reference with name. device references affect what shows on the
    /// screws on the IC base
    ///
    /// alias str r?|d?
    Alias {
        /// the name of the alias
        name: String,
        /// the target the alias should point to
        target: String,
    },
    /// Creates a label that will be replaced throughout the program with the provided value
    ///
    /// define str num
    Define {
        name: String,
        value: Number,
    },
    /// Halt and catch fire
    ///
    /// hcf
    Halt,
    /// Register = a
    ///
    /// move r? a(r?|num)
    Move {
        register: Register,
        a: RegisterOrNumber,
    },
    /// Pause execution for a seconds
    ///
    /// sleep a(r?|num)
    Sleep { a: RegisterOrNumber },
    /// Pause execution until the next tick
    ///
    /// yield
    Yield,
    /// Marks a location in the program
    ///
    /// {name}:
    Label { name: String },
    /// Adds a comment to the program
    ///
    /// # {comment}
    Comment { comment: String },
}

impl Misc {
    /// The line of assembly that the instruction is written as.
    pub open spec fn text(self) -> Seq<char> {
        match self {
            Misc::Alias { name, target } => words3("alias"@, name@, target@),
            Misc::Define { name, value } => words3("define"@, name@, value.text()),
            Misc::Halt => "hcf"@,
            Misc::Move { register, a } => words3("move"@, register.text(), a.text()),
            Misc::Sleep { a } => words2("sleep"@, a.text()),
            Misc::Yield => "yield"@,
            Misc::Label { name } => name@ + seq![':'],
            Misc::Comment { comment } => seq!['#', ' '] + comment@,
        }
    }

    /// Writes the instruction as a line of assembly.
    pub fn to_string(&self) -> (r: String)
        ensures
            r@ == self.text(),
    {
        match self {
            Misc::Alias { name, target } => {
                let mut out = "alias".to_string();
                push_word(&mut out, name.as_str());
                push_word(&mut out, target.as_str());
                out
            },
            Misc::Define { name, value } => {
                let mut out = "define".to_string();
                push_word(&mut out, name.as_str());
                push_word(&mut out, value.to_string().as_str());
                out
            },
            Misc::Halt => "hcf".to_string(),
            Misc::Move { register, a } => {
                let mut out = "move".to_string();
                push_word(&mut out, register.to_string().as_str());
                push_word(&mut out, a.to_string().as_str());
                out
            },
            Misc::Sleep { a } => {
                let mut out = "sleep".to_string();
                push_word(&mut out, a.to_string().as_str());
                out
            },
            Misc::Yield => "yield".to_string(),
            Misc::Label { name } => {
                proof {
                    reveal_strlit(":");
                }
                concat2(name.as_str(), ":")
            },
            Misc::Comment { comment } => {
                proof {
                    reveal_strlit("# ");
                }
                let line = concat2("# ", comment.as_str());
                assert(line@ =~= seq!['#', ' '] + comment@);
                line
            },
        }
    }
}

} // verus!
