//! Branches and jumps.
use vstd::prelude::*;
use vstd::string::*;
use crate::mips::types::RegisterOrNumber;
use crate::text::{decimal, int_to_string, push_word, words2, words3, words4, words5};

verus! {

/// Instructions for flow control, branching, and jumping.
#[derive(Clone, Debug, PartialEq, Eq)]
pub enum FlowControl {
    /// Branch to line d if abs(a - b) <= max(c * max(abs(a), abs(b)), float.epsilon * 8)
    ///
    /// bap a(r?|num) b(r?|num) c(r?|num) d(r?|num)
    BranchAbsoluteLessThan {
        a: RegisterOrNumber,
        b: RegisterOrNumber,
        c: RegisterOrNumber,
        d: RegisterOrNumber,
    },
    /// Branch to line c if a !=b and store next line number in ra
    ///
    /// bapal a(r?|num) b(r?|num) c(r?|num) d(r?|num)
    BranchAbsoluteLessThanAndLink {
        a: RegisterOrNumber,
        b: RegisterOrNumber,
        c: RegisterOrNumber,
        d: RegisterOrNumber,
    },
    /// Branch to line c if abs(a) <= float.epsilon * 8
    ///
    /// bapz a(r?|num) b(r?|num) c(r?|num)
    BranchAbsoluteZero {
        a: RegisterOrNumber,
        b: RegisterOrNumber,
        c: RegisterOrNumber,
    },
    /// Branch to line c if abs(a) <= float.epsilon * 8
    ///
    /// bapzal a(r?|num) b(r?|num) c(r?|num)
    BranchAbsoluteZeroAndLink {
        a: RegisterOrNumber,
        b: RegisterOrNumber,
        c: RegisterOrNumber,
    },
    /// Branch to line c if a == b
    ///
    /// beq a(r?|num) b(r?|num) c(r?|num)
    BranchEqual {
        a: RegisterOrNumber,
        b: RegisterOrNumber,
        c: RegisterOrNumber,
    },
    /// Branch to line c if a == b and store next line number in ra
    ///
    /// beqal a(r?|num) b(r?|num) c(r?|num)
    BranchEqualAndLink {
        a: RegisterOrNumber,
        b: RegisterOrNumber,
        c: RegisterOrNumber,
    },
    /// Branch to line b if a == 0
    ///
    /// beqz a(r?|num) b(r?|num)
    BranchEqualZero {
        a: RegisterOrNumber,
        b: RegisterOrNumber,
    },
    /// Branch to line b if a == 0 and store next line number in ra
    ///
    /// beqzal a(r?|num) b(r?|num)
    BranchEqualZeroAndLink {
        a: RegisterOrNumber,
        b: RegisterOrNumber,
    },
    /// Branch to line c if a >= b
    ///
    /// bge a(r?|num) b(r?|num) c(r?|num)
    BranchGreaterOrEqual {
        a: RegisterOrNumber,
        b: RegisterOrNumber,
        c: RegisterOrNumber,
    },
    /// Branch to line c if a >= b and store next line number in ra
    ///
    /// bgeal a(r?|num) b(r?|num) c(r?|num)
    BranchGreaterOrEqualAndLink {
        a: RegisterOrNumber,
        b: RegisterOrNumber,
        c: RegisterOrNumber,
    },
    /// Branch to line b if a >= 0
    ///
    /// bgez a(r?|num) b(r?|num)
    BranchGreaterOrEqualZero {
        a: RegisterOrNumber,
        b: RegisterOrNumber,
    },
    /// Branch to line b if a >= 0 and store next line number in ra
    ///
    /// bgezal a(r?|num) b(r?|num)
    BranchGreaterOrEqualZeroAndLink {
        a: RegisterOrNumber,
        b: RegisterOrNumber,
    },
    /// Branch to line c if a > b
    ///
    /// bgt a(r?|num) b(r?|num) c(r?|num)
    BranchGreaterThan {
        a: RegisterOrNumber,
        b: RegisterOrNumber,
        c: RegisterOrNumber,
    },
    /// Branch to line c if a > b and store next line number in ra
    ///
    /// bgtal a(r?|num) b(r?|num) c(r?|num)
    BranchGreaterThanAndLink {
        a: RegisterOrNumber,
        b: RegisterOrNumber,
        c: RegisterOrNumber,
    },
    /// Branch to line b if a > 0
    ///
    /// bgtz a(r?|num) b(r?|num)
    BranchGreaterThanZero {
        a: RegisterOrNumber,
        b: RegisterOrNumber,
    },
    /// Branch to line b if a > 0 and store next line number in ra
    ///
    /// bgtzal a(r?|num) b(r?|num)
    BranchGreaterThanZeroAndLink {
        a: RegisterOrNumber,
        b: RegisterOrNumber,
    },
    /// Branch to line c if a <= b
    ///
    /// ble a(r?|num) b(r?|num) c(r?|num)
    BranchLessOrEqual {
        a: RegisterOrNumber,
        b: RegisterOrNumber,
        c: RegisterOrNumber,
    },
    /// Branch to line c if a <= b and store next line number in ra
    ///
    /// bleal a(r?|num) b(r?|num) c(r?|num)
    BranchLessOrEqualAndLink {
        a: RegisterOrNumber,
        b: RegisterOrNumber,
        c: RegisterOrNumber,
    },
    /// Branch to line b if a <= 0
    ///
    /// blez a(r?|num) b(r?|num)
    BranchLessOrEqualZero {
        a: RegisterOrNumber,
        b: RegisterOrNumber,
    },
    /// Branch to line b if a <= 0 and store next line number in ra
    ///
    /// blezal a(r?|num) b(r?|num)
    BranchLessOrEqualZeroAndLink {
        a: RegisterOrNumber,
        b: RegisterOrNumber,
    },
    /// Branch to line c if a < b
    ///
    /// blt a(r?|num) b(r?|num) c(r?|num)
    BranchLessThan {
        a: RegisterOrNumber,
        b: RegisterOrNumber,
        c: RegisterOrNumber,
    },
    /// Branch to line c if a < b and store next line number in ra
    ///
    /// bltal a(r?|num) b(r?|num) c(r?|num)
    BranchLessThanAndLink {
        a: RegisterOrNumber,
        b: RegisterOrNumber,
        c: RegisterOrNumber,
    },
    /// Branch to line b if a < 0
    ///
    /// bltz a(r?|num) b(r?|num)
    BranchLessThanZero {
        a: RegisterOrNumber,
        b: RegisterOrNumber,
    },
    /// Branch to line b if a < 0 and store next line number in ra
    ///
    /// bltzal a(r?|num) b(r?|num)
    BranchLessThanZeroAndLink {
        a: RegisterOrNumber,
        b: RegisterOrNumber,
    },
    /// Branch to line d if abs(a-b) > max(c*max(abs(a), abs(b)), float.epsilon*8)
    ///
    /// bna a(r?|num) b(r?|num) c(r?|num) d(r?|num)
    BranchNotApproximatelyEqual {
        a: RegisterOrNumber,
        b: RegisterOrNumber,
        c: RegisterOrNumber,
        d: RegisterOrNumber,
    },
    /// Branch to line d if abs(a-b) > max(c*max(abs(a), abs(b)), float.epsilon*8) and store next line number in ra
    ///
    /// bnaal a(r?|num) b(r?|num) c(r?|num) d(r?|num)
    BranchNotApproximatelyEqualAndLink {
        a: RegisterOrNumber,
        b: RegisterOrNumber,
        c: RegisterOrNumber,
        d: RegisterOrNumber,
    },
    /// Branch to line c if abs(a) > float.epsilon*8
    ///
    /// bnaz a(r?|num) b(r?|num) c(r?|num)
    BranchNotApproximatelyZero {
        a: RegisterOrNumber,
        b: RegisterOrNumber,
        c: RegisterOrNumber,
    },
    /// Branch to line c if abs(a) > float.epsilon*8 and store next line number in ra
    ///
    /// gnazal a(r?|num) b(r?|num) c(r?|num)
    BranchNotApproximatelyZeroAndLink {
        a: RegisterOrNumber,
        b: RegisterOrNumber,
        c: RegisterOrNumber,
    },
    /// Branch to line c if a != b
    ///
    /// bne a(r?|num) b(r?|num) c(r?|num)
    BranchNotEqual {
        a: RegisterOrNumber,
        b: RegisterOrNumber,
        c: RegisterOrNumber,
    },
    /// Branch to line c if a != b and store next line number in ra
    ///
    /// bneal a(r?|num) b(r?|num) c(r?|num)
    BranchNotEqualAndLink {
        a: RegisterOrNumber,
        b: RegisterOrNumber,
        c: RegisterOrNumber,
    },
    /// Branch to line b if a != 0
    ///
    /// bnez a(r?|num) b(r?|num)
    BranchNotEqualZero {
        a: RegisterOrNumber,
        b: RegisterOrNumber,
    },
    /// Branch to line b if a != 0 and store next line number in ra
    ///
    /// bnezal a(r?|num) b(r?|num)
    BranchNotEqualZeroAndLink {
        a: RegisterOrNumber,
        b: RegisterOrNumber,
    },
    /// Relative branch to line d if abs(a-b) <= max(c*max(abs(a), abs(b)), float.epsilon*8)
    ///
    /// brap a(r?|num) b(r?|num) c(r?|num) d(r?|num)
    RelativeBranchApproximatelyEqual {
        a: RegisterOrNumber,
        b: RegisterOrNumber,
        c: RegisterOrNumber,
        d: RegisterOrNumber,
    },
    /// Relative branch to line c if abs(a) <= float.epsilon*8
    ///
    /// brapz a(r?|num) b(r?|num) c(r?|num)
    RelativeBranchApproximatelyZero {
        a: RegisterOrNumber,
        b: RegisterOrNumber,
        c: RegisterOrNumber,
    },
    /// Relative branch to line c if a == b
    ///
    /// breq a(r?|num) b(r?|num) c(r?|num)
    RelativeBranchEqual {
        a: RegisterOrNumber,
        b: RegisterOrNumber,
        c: RegisterOrNumber,
    },
    /// Relative branch to line b if a == 0
    ///
    /// breqz a(r?|num) b(r?|num)
    RelativeBranchEqualZero {
        a: RegisterOrNumber,
        b: RegisterOrNumber,
    },
    /// Relative branch to line c if a >= b
    ///
    /// brge a(r?|num) b(r?|num) c(r?|num)
    RelativeBranchGreaterOrEqual {
        a: RegisterOrNumber,
        b: RegisterOrNumber,
        c: RegisterOrNumber,
    },
    /// Relative branch to line b if a >= 0
    ///
    /// brgez a(r?|num) b(r?|num)
    RelativeBranchGreaterOrEqualZero {
        a: RegisterOrNumber,
        b: RegisterOrNumber,
    },
    /// Relative branch to line c if a > b
    ///
    /// brgt a(r?|num) b(r?|num) c(r?|num)
    RelativeBranchGreaterThan {
        a: RegisterOrNumber,
        b: RegisterOrNumber,
        c: RegisterOrNumber,
    },
    /// Relative branch to line b if a > 0
    ///
    /// brgtz a(r?|num) b(r?|num)
    RelativeBranchGreaterThanZero {
        a: RegisterOrNumber,
        b: RegisterOrNumber,
    },
    /// Relative branch to line c if a <= b
    ///
    /// brle a(r?|num) b(r?|num) c(r?|num)
    RelativeBranchLessOrEqual {
        a: RegisterOrNumber,
        b: RegisterOrNumber,
        c: RegisterOrNumber,
    },
    /// Relative branch to line b if a <= 0
    ///
    /// brlez a(r?|num) b(r?|num)
    RelativeBranchLessOrEqualZero {
        a: RegisterOrNumber,
        b: RegisterOrNumber,
    },
    /// Relative branch to line c if a < b
    ///
    /// brlt a(r?|num) b(r?|num) c(r?|num)
    RelativeBranchLessThan {
        a: RegisterOrNumber,
        b: RegisterOrNumber,
        c: RegisterOrNumber,
    },
    /// Relative branch to line b if a < 0
    ///
    /// brltz a(r?|num) b(r?|num)
    RelativeBranchLessThanZero {
        a: RegisterOrNumber,
        b: RegisterOrNumber,
    },
    /// Relative branch to line d if abs(a-b) > max(c*max(abs(a), abs(b)), float.epsilon*8)
    ///
    /// brna a(r?|num) b(r?|num) c(r?|num) d(r?|num)
    RelativeBranchNotApproximatelyEqual {
        a: RegisterOrNumber,
        b: RegisterOrNumber,
        c: RegisterOrNumber,
        d: RegisterOrNumber,
    },
    /// Relative branch to line c if abs(a) > float.epsilon*8
    ///
    /// brnaz a(r?|num) b(r?|num) c(r?|num)
    RelativeBranchNotApproximatelyZero {
        a: RegisterOrNumber,
        b: RegisterOrNumber,
        c: RegisterOrNumber,
    },
    /// Relative branch to line c if a != b
    ///
    /// brne a(r?|num) b(r?|num) c(r?|num)
    RelativeBranchNotEqual {
        a: RegisterOrNumber,
        b: RegisterOrNumber,
        c: RegisterOrNumber,
    },
    /// Relative branch to line b if a != 0
    ///
    /// brnez a(r?|num) b(r?|num)
    RelativeBranchNotEqualZero {
        a: RegisterOrNumber,
        b: RegisterOrNumber,
    },
    /// Jump execution to line a
    ///
    /// j int
    Jump { a: i32 },
    /// Jump execution to line a and store next line number in ra
    ///
    /// jal int
    JumpAndLink { a: i32 },
    /// Relative jump execution to line a
    ///
    /// jr int
    JumpRelative { a: i32 },
}

impl FlowControl {
    /// The line of assembly that the instruction is written as.
    pub open spec fn text(self) -> Seq<char> {
        match self {
            FlowControl::BranchAbsoluteLessThan { a, b, c, d } => {
                words5("bap"@, a.text(), b.text(), c.text(), d.text())
            },
            FlowControl::BranchAbsoluteLessThanAndLink { a, b, c, d } => {
                words5("bapal"@, a.text(), b.text(), c.text(), d.text())
            },
            FlowControl::BranchAbsoluteZero { a, b, c } => {
                words4("bapz"@, a.text(), b.text(), c.text())
            },
            FlowControl::BranchAbsoluteZeroAndLink { a, b, c } => {
                words4("bapzal"@, a.text(), b.text(), c.text())
            },
            FlowControl::BranchEqual { a, b, c } => words4("beq"@, a.text(), b.text(), c.text()),
            FlowControl::BranchEqualAndLink { a, b, c } => {
                words4("beqal"@, a.text(), b.text(), c.text())
            },
            FlowControl::BranchEqualZero { a, b } => words3("beqz"@, a.text(), b.text()),
            FlowControl::BranchEqualZeroAndLink { a, b } => words3("beqzal"@, a.text(), b.text()),
            FlowControl::BranchGreaterOrEqual { a, b, c } => {
                words4("bge"@, a.text(), b.text(), c.text())
            },
            FlowControl::BranchGreaterOrEqualAndLink { a, b, c } => {
                words4("bgeal"@, a.text(), b.text(), c.text())
            },
            FlowControl::BranchGreaterOrEqualZero { a, b } => words3("bgez"@, a.text(), b.text()),
            FlowControl::BranchGreaterOrEqualZeroAndLink { a, b } => {
                words3("bgezal"@, a.text(), b.text())
            },
            FlowControl::BranchGreaterThan { a, b, c } => {
                words4("bgt"@, a.text(), b.text(), c.text())
            },
            FlowControl::BranchGreaterThanAndLink { a, b, c } => {
                words4("bgtal"@, a.text(), b.text(), c.text())
            },
            FlowControl::BranchGreaterThanZero { a, b } => words3("bgtz"@, a.text(), b.text()),
            FlowControl::BranchGreaterThanZeroAndLink { a, b } => {
                words3("bgtzal"@, a.text(), b.text())
            },
            FlowControl::BranchLessOrEqual { a, b, c } => {
                words4("ble"@, a.text(), b.text(), c.text())
            },
            FlowControl::BranchLessOrEqualAndLink { a, b, c } => {
                words4("bleal"@, a.text(), b.text(), c.text())
            },
            FlowControl::BranchLessOrEqualZero { a, b } => words3("blez"@, a.text(), b.text()),
            FlowControl::BranchLessOrEqualZeroAndLink { a, b } => {
                words3("blezal"@, a.text(), b.text())
            },
            FlowControl::BranchLessThan { a, b, c } => words4("blt"@, a.text(), b.text(), c.text()),
            FlowControl::BranchLessThanAndLink { a, b, c } => {
                words4("bltal"@, a.text(), b.text(), c.text())
            },
            FlowControl::BranchLessThanZero { a, b } => words3("bltz"@, a.text(), b.text()),
            FlowControl::BranchLessThanZeroAndLink { a, b } => {
                words3("bltzal"@, a.text(), b.text())
            },
            FlowControl::BranchNotApproximatelyEqual { a, b, c, d } => {
                words5("bna"@, a.text(), b.text(), c.text(), d.text())
            },
            FlowControl::BranchNotApproximatelyEqualAndLink { a, b, c, d } => {
                words5("bnaal"@, a.text(), b.text(), c.text(), d.text())
            },
            FlowControl::BranchNotApproximatelyZero { a, b, c } => {
                words4("bnaz"@, a.text(), b.text(), c.text())
            },
            FlowControl::BranchNotApproximatelyZeroAndLink { a, b, c } => {
                words4("bnazal"@, a.text(), b.text(), c.text())
            },
            FlowControl::BranchNotEqual { a, b, c } => words4("bne"@, a.text(), b.text(), c.text()),
            FlowControl::BranchNotEqualAndLink { a, b, c } => {
                words4("bneal"@, a.text(), b.text(), c.text())
            },
            FlowControl::BranchNotEqualZero { a, b } => words3("bnez"@, a.text(), b.text()),
            FlowControl::BranchNotEqualZeroAndLink { a, b } => {
                words3("bnezal"@, a.text(), b.text())
            },
            FlowControl::RelativeBranchApproximatelyEqual { a, b, c, d } => {
                words5("brap"@, a.text(), b.text(), c.text(), d.text())
            },
            FlowControl::RelativeBranchApproximatelyZero { a, b, c } => {
                words4("brapz"@, a.text(), b.text(), c.text())
            },
            FlowControl::RelativeBranchEqual { a, b, c } => {
                words4("breq"@, a.text(), b.text(), c.text())
            },
            FlowControl::RelativeBranchEqualZero { a, b } => words3("breqz"@, a.text(), b.text()),
            FlowControl::RelativeBranchGreaterOrEqual { a, b, c } => {
                words4("brge"@, a.text(), b.text(), c.text())
            },
            FlowControl::RelativeBranchGreaterOrEqualZero { a, b } => {
                words3("brgez"@, a.text(), b.text())
            },
            FlowControl::RelativeBranchGreaterThan { a, b, c } => {
                words4("brgt"@, a.text(), b.text(), c.text())
            },
            FlowControl::RelativeBranchGreaterThanZero { a, b } => {
                words3("brgtz"@, a.text(), b.text())
            },
            FlowControl::RelativeBranchLessOrEqual { a, b, c } => {
                words4("brle"@, a.text(), b.text(), c.text())
            },
            FlowControl::RelativeBranchLessOrEqualZero { a, b } => {
                words3("brlez"@, a.text(), b.text())
            },
            FlowControl::RelativeBranchLessThan { a, b, c } => {
                words4("brlt"@, a.text(), b.text(), c.text())
            },
            FlowControl::RelativeBranchLessThanZero { a, b } => {
                words3("brltz"@, a.text(), b.text())
            },
            FlowControl::RelativeBranchNotApproximatelyEqual { a, b, c, d } => {
                words5("brna"@, a.text(), b.text(), c.text(), d.text())
            },
            FlowControl::RelativeBranchNotApproximatelyZero { a, b, c } => {
                words4("brnaz"@, a.text(), b.text(), c.text())
            },
            FlowControl::RelativeBranchNotEqual { a, b, c } => {
                words4("brne"@, a.text(), b.text(), c.text())
            },
            FlowControl::RelativeBranchNotEqualZero { a, b } => {
                words3("brnez"@, a.text(), b.text())
            },
            FlowControl::Jump { a } => words2("j"@, decimal(a as int)),
            FlowControl::JumpAndLink { a } => words2("jal"@, decimal(a as int)),
            FlowControl::JumpRelative { a } => words2("jr"@, decimal(a as int)),
        }
    }

    /// Writes the instruction as a line of assembly.
    pub fn to_string(&self) -> (r: String)
        ensures
            r@ == self.text(),
    {
        match self {
            FlowControl::BranchAbsoluteLessThan { a, b, c, d } => {
                let mut out = "bap".to_string();
                push_word(&mut out, a.to_string().as_str());
                push_word(&mut out, b.to_string().as_str());
                push_word(&mut out, c.to_string().as_str());
                push_word(&mut out, d.to_string().as_str());
                out
            },
            FlowControl::BranchAbsoluteLessThanAndLink { a, b, c, d } => {
                let mut out = "bapal".to_string();
                push_word(&mut out, a.to_string().as_str());
                push_word(&mut out, b.to_string().as_str());
                push_word(&mut out, c.to_string().as_str());
                push_word(&mut out, d.to_string().as_str());
                out
            },
            FlowControl::BranchAbsoluteZero { a, b, c } => {
                let mut out = "bapz".to_string();
                push_word(&mut out, a.to_string().as_str());
                push_word(&mut out, b.to_string().as_str());
                push_word(&mut out, c.to_string().as_str());
                out
            },
            FlowControl::BranchAbsoluteZeroAndLink { a, b, c } => {
                let mut out = "bapzal".to_string();
                push_word(&mut out, a.to_string().as_str());
                push_word(&mut out, b.to_string().as_str());
                push_word(&mut out, c.to_string().as_str());
                out
            },
            FlowControl::BranchEqual { a, b, c } => {
                let mut out = "beq".to_string();
                push_word(&mut out, a.to_string().as_str());
                push_word(&mut out, b.to_string().as_str());
                push_word(&mut out, c.to_string().as_str());
                out
            },
            FlowControl::BranchEqualAndLink { a, b, c } => {
                let mut out = "beqal".to_string();
                push_word(&mut out, a.to_string().as_str());
                push_word(&mut out, b.to_string().as_str());
                push_word(&mut out, c.to_string().as_str());
                out
            },
            FlowControl::BranchEqualZero { a, b } => {
                let mut out = "beqz".to_string();
                push_word(&mut out, a.to_string().as_str());
                push_word(&mut out, b.to_string().as_str());
                out
            },
            FlowControl::BranchEqualZeroAndLink { a, b } => {
                let mut out = "beqzal".to_string();
                push_word(&mut out, a.to_string().as_str());
                push_word(&mut out, b.to_string().as_str());
                out
            },
            FlowControl::BranchGreaterOrEqual { a, b, c } => {
                let mut out = "bge".to_string();
                push_word(&mut out, a.to_string().as_str());
                push_word(&mut out, b.to_string().as_str());
                push_word(&mut out, c.to_string().as_str());
                out
            },
            FlowControl::BranchGreaterOrEqualAndLink { a, b, c } => {
                let mut out = "bgeal".to_string();
                push_word(&mut out, a.to_string().as_str());
                push_word(&mut out, b.to_string().as_str());
                push_word(&mut out, c.to_string().as_str());
                out
            },
            FlowControl::BranchGreaterOrEqualZero { a, b } => {
                let mut out = "bgez".to_string();
                push_word(&mut out, a.to_string().as_str());
                push_word(&mut out, b.to_string().as_str());
                out
            },
            FlowControl::BranchGreaterOrEqualZeroAndLink { a, b } => {
                let mut out = "bgezal".to_string();
                push_word(&mut out, a.to_string().as_str());
                push_word(&mut out, b.to_string().as_str());
                out
            },
            FlowControl::BranchGreaterThan { a, b, c } => {
                let mut out = "bgt".to_string();
                push_word(&mut out, a.to_string().as_str());
                push_word(&mut out, b.to_string().as_str());
                push_word(&mut out, c.to_string().as_str());
                out
            },
            FlowControl::BranchGreaterThanAndLink { a, b, c } => {
                let mut out = "bgtal".to_string();
                push_word(&mut out, a.to_string().as_str());
                push_word(&mut out, b.to_string().as_str());
                push_word(&mut out, c.to_string().as_str());
                out
            },
            FlowControl::BranchGreaterThanZero { a, b } => {
                let mut out = "bgtz".to_string();
                push_word(&mut out, a.to_string().as_str());
                push_word(&mut out, b.to_string().as_str());
                out
            },
            FlowControl::BranchGreaterThanZeroAndLink { a, b } => {
                let mut out = "bgtzal".to_string();
                push_word(&mut out, a.to_string().as_str());
                push_word(&mut out, b.to_string().as_str());
                out
            },
            FlowControl::BranchLessOrEqual { a, b, c } => {
                let mut out = "ble".to_string();
                push_word(&mut out, a.to_string().as_str());
                push_word(&mut out, b.to_string().as_str());
                push_word(&mut out, c.to_string().as_str());
                out
            },
            FlowControl::BranchLessOrEqualAndLink { a, b, c } => {
                let mut out = "bleal".to_string();
                push_word(&mut out, a.to_string().as_str());
                push_word(&mut out, b.to_string().as_str());
                push_word(&mut out, c.to_string().as_str());
                out
            },
            FlowControl::BranchLessOrEqualZero { a, b } => {
                let mut out = "blez".to_string();
                push_word(&mut out, a.to_string().as_str());
                push_word(&mut out, b.to_string().as_str());
                out
            },
            FlowControl::BranchLessOrEqualZeroAndLink { a, b } => {
                let mut out = "blezal".to_string();
                push_word(&mut out, a.to_string().as_str());
                push_word(&mut out, b.to_string().as_str());
                out
            },
            FlowControl::BranchLessThan { a, b, c } => {
                let mut out = "blt".to_string();
                push_word(&mut out, a.to_string().as_str());
                push_word(&mut out, b.to_string().as_str());
                push_word(&mut out, c.to_string().as_str());
                out
            },
            FlowControl::BranchLessThanAndLink { a, b, c } => {
                let mut out = "bltal".to_string();
                push_word(&mut out, a.to_string().as_str());
                push_word(&mut out, b.to_string().as_str());
                push_word(&mut out, c.to_string().as_str());
                out
            },
            FlowControl::BranchLessThanZero { a, b } => {
                let mut out = "bltz".to_string();
                push_word(&mut out, a.to_string().as_str());
                push_word(&mut out, b.to_string().as_str());
                out
            },
            FlowControl::BranchLessThanZeroAndLink { a, b } => {
                let mut out = "bltzal".to_string();
                push_word(&mut out, a.to_string().as_str());
                push_word(&mut out, b.to_string().as_str());
                out
            },
            FlowControl::BranchNotApproximatelyEqual { a, b, c, d } => {
                let mut out = "bna".to_string();
                push_word(&mut out, a.to_string().as_str());
                push_word(&mut out, b.to_string().as_str());
                push_word(&mut out, c.to_string().as_str());
                push_word(&mut out, d.to_string().as_str());
                out
            },
            FlowControl::BranchNotApproximatelyEqualAndLink { a, b, c, d } => {
                let mut out = "bnaal".to_string();
                push_word(&mut out, a.to_string().as_str());
                push_word(&mut out, b.to_string().as_str());
                push_word(&mut out, c.to_string().as_str());
                push_word(&mut out, d.to_string().as_str());
                out
            },
            FlowControl::BranchNotApproximatelyZero { a, b, c } => {
                let mut out = "bnaz".to_string();
                push_word(&mut out, a.to_string().as_str());
                push_word(&mut out, b.to_string().as_str());
                push_word(&mut out, c.to_string().as_str());
                out
            },
            FlowControl::BranchNotApproximatelyZeroAndLink { a, b, c } => {
                let mut out = "bnazal".to_string();
                push_word(&mut out, a.to_string().as_str());
                push_word(&mut out, b.to_string().as_str());
                push_word(&mut out, c.to_string().as_str());
                out
            },
            FlowControl::BranchNotEqual { a, b, c } => {
                let mut out = "bne".to_string();
                push_word(&mut out, a.to_string().as_str());
                push_word(&mut out, b.to_string().as_str());
                push_word(&mut out, c.to_string().as_str());
                out
            },
            FlowControl::BranchNotEqualAndLink { a, b, c } => {
                let mut out = "bneal".to_string();
                push_word(&mut out, a.to_string().as_str());
                push_word(&mut out, b.to_string().as_str());
                push_word(&mut out, c.to_string().as_str());
                out
            },
            FlowControl::BranchNotEqualZero { a, b } => {
                let mut out = "bnez".to_string();
                push_word(&mut out, a.to_string().as_str());
                push_word(&mut out, b.to_string().as_str());
                out
            },
            FlowControl::BranchNotEqualZeroAndLink { a, b } => {
                let mut out = "bnezal".to_string();
                push_word(&mut out, a.to_string().as_str());
                push_word(&mut out, b.to_string().as_str());
                out
            },
            FlowControl::RelativeBranchApproximatelyEqual { a, b, c, d } => {
                let mut out = "brap".to_string();
                push_word(&mut out, a.to_string().as_str());
                push_word(&mut out, b.to_string().as_str());
                push_word(&mut out, c.to_string().as_str());
                push_word(&mut out, d.to_string().as_str());
                out
            },
            FlowControl::RelativeBranchApproximatelyZero { a, b, c } => {
                let mut out = "brapz".to_string();
                push_word(&mut out, a.to_string().as_str());
                push_word(&mut out, b.to_string().as_str());
                push_word(&mut out, c.to_string().as_str());
                out
            },
            FlowControl::RelativeBranchEqual { a, b, c } => {
                let mut out = "breq".to_string();
                push_word(&mut out, a.to_string().as_str());
                push_word(&mut out, b.to_string().as_str());
                push_word(&mut out, c.to_string().as_str());
                out
            },
            FlowControl::RelativeBranchEqualZero { a, b } => {
                let mut out = "breqz".to_string();
                push_word(&mut out, a.to_string().as_str());
                push_word(&mut out, b.to_string().as_str());
                out
            },
            FlowControl::RelativeBranchGreaterOrEqual { a, b, c } => {
                let mut out = "brge".to_string();
                push_word(&mut out, a.to_string().as_str());
                push_word(&mut out, b.to_string().as_str());
                push_word(&mut out, c.to_string().as_str());
                out
            },
            FlowControl::RelativeBranchGreaterOrEqualZero { a, b } => {
                let mut out = "brgez".to_string();
                push_word(&mut out, a.to_string().as_str());
                push_word(&mut out, b.to_string().as_str());
                out
            },
            FlowControl::RelativeBranchGreaterThan { a, b, c } => {
                let mut out = "brgt".to_string();
                push_word(&mut out, a.to_string().as_str());
                push_word(&mut out, b.to_string().as_str());
                push_word(&mut out, c.to_string().as_str());
                out
            },
            FlowControl::RelativeBranchGreaterThanZero { a, b } => {
                let mut out = "brgtz".to_string();
                push_word(&mut out, a.to_string().as_str());
                push_word(&mut out, b.to_string().as_str());
                out
            },
            FlowControl::RelativeBranchLessOrEqual { a, b, c } => {
                let mut out = "brle".to_string();
                push_word(&mut out, a.to_string().as_str());
                push_word(&mut out, b.to_string().as_str());
                push_word(&mut out, c.to_string().as_str());
                out
            },
            FlowControl::RelativeBranchLessOrEqualZero { a, b } => {
                let mut out = "brlez".to_string();
                push_word(&mut out, a.to_string().as_str());
                push_word(&mut out, b.to_string().as_str());
                out
            },
            FlowControl::RelativeBranchLessThan { a, b, c } => {
                let mut out = "brlt".to_string();
                push_word(&mut out, a.to_string().as_str());
                push_word(&mut out, b.to_string().as_str());
                push_word(&mut out, c.to_string().as_str());
                out
            },
            FlowControl::RelativeBranchLessThanZero { a, b } => {
                let mut out = "brltz".to_string();
                push_word(&mut out, a.to_string().as_str());
                push_word(&mut out, b.to_string().as_str());
                out
            },
            FlowControl::RelativeBranchNotApproximatelyEqual { a, b, c, d } => {
                let mut out = "brna".to_string();
                push_word(&mut out, a.to_string().as_str());
                push_word(&mut out, b.to_string().as_str());
                push_word(&mut out, c.to_string().as_str());
                push_word(&mut out, d.to_string().as_str());
                out
            },
            FlowControl::RelativeBranchNotApproximatelyZero { a, b, c } => {
                let mut out = "brnaz".to_string();
                push_word(&mut out, a.to_string().as_str());
                push_word(&mut out, b.to_string().as_str());
                push_word(&mut out, c.to_string().as_str());
                out
            },
            FlowControl::RelativeBranchNotEqual { a, b, c } => {
                let mut out = "brne".to_string();
                push_word(&mut out, a.to_string().as_str());
                push_word(&mut out, b.to_string().as_str());
                push_word(&mut out, c.to_string().as_str());
                out
            },
            FlowControl::RelativeBranchNotEqualZero { a, b } => {
                let mut out = "brnez".to_string();
                push_word(&mut out, a.to_string().as_str());
                push_word(&mut out, b.to_string().as_str());
                out
            },
            FlowControl::Jump { a } => {
                let mut out = "j".to_string();
                push_word(&mut out, int_to_string(*a as i64).as_str());
                out
            },
            FlowControl::JumpAndLink { a } => {
                let mut out = "jal".to_string();
                push_word(&mut out, int_to_string(*a as i64).as_str());
                out
            },
            FlowControl::JumpRelative { a } => {
                let mut out = "jr".to_string();
                push_word(&mut out, int_to_string(*a as i64).as_str());
                out
            },
        }
    }
}

} // verus!
