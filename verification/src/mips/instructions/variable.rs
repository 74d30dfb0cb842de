//! Comparisons that set a register.
use vstd::prelude::*;
use vstd::string::*;
use crate::mips::types::{Register, RegisterOrNumber};
use crate::text::{push_word, words3, words4, words5};

verus! {

/// Instructions for variable selection.
#[derive(Clone, Debug, PartialEq, Eq)]
pub enum VariableSelection {
    /// Register = 1 if abs(a-b) <= max(c*max(abs(a), abs(b)), float.epsilon*8) else 0
    ///
    /// sap r? a(r?|num) b(r?|num) c(r?|num)
    SelectApproximatelyEqual {
        register: Register,
        a: RegisterOrNumber,
        b: RegisterOrNumber,
        c: RegisterOrNumber,
    },
    /// Register = 1 if abs(a) <= float.epsilon*8 else 0
    ///
    /// sapz r? a(r?|num) b(r?|num)
    SelectApproximatelyZero {
        register: Register,
        a: RegisterOrNumber,
        b: RegisterOrNumber,
    },
    /// Register = 1 if device is not set else 0
    ///
    /// sdns r? d?
    SelectDeviceNotSet {
        register: Register,
        d: RegisterOrNumber,
    },
    /// Register = 1 if device is set else 0
    ///
    /// sdse r? d?
    SelectDeviceSet {
        register: Register,
        d: RegisterOrNumber,
    },
    /// Register = b if a != 0 else c
    ///
    /// select r? a(r?|num) b(r?|num) c(r?|num)
    Select {
        register: Register,
        a: RegisterOrNumber,
        b: RegisterOrNumber,
        c: RegisterOrNumber,
    },
    /// Register = 1 if a == b else 0
    ///
    /// seq r? a(r?|num) b(r?|num)
    SelectEqual {
        register: Register,
        a: RegisterOrNumber,
        b: RegisterOrNumber,
    },
    /// Register = 1 if a == 0 else 0
    ///
    /// seqz r? a(r?|num)
    SelectEqualZero {
        register: Register,
        a: RegisterOrNumber,
    },
    /// Register = 1 if a >= b else 0
    ///
    /// sge r? a(r?|num) b(r?|num)
    SelectGreaterOrEqual {
        register: Register,
        a: RegisterOrNumber,
        b: RegisterOrNumber,
    },
    /// Register = 1 if a >= 0 else 0
    ///
    /// sgez r? a(r?|num)
    SelectGreaterOrEqualZero {
        register: Register,
        a: RegisterOrNumber,
    },
    /// Register = 1 if a > b else 0
    ///
    /// sgt r? a(r?|num) b(r?|num)
    SelectGreaterThan {
        register: Register,
        a: RegisterOrNumber,
        b: RegisterOrNumber,
    },
    /// Register = 1 if a > 0 else 0
    ///
    /// sgtz r? a(r?|num)
    SelectGreaterThanZero {
        register: Register,
        a: RegisterOrNumber,
    },
    /// Register = 1 if a <= b else 0
    ///
    /// sle r? a(r?|num) b(r?|num)
    SelectLessOrEqual {
        register: Register,
        a: RegisterOrNumber,
        b: RegisterOrNumber,
    },
    /// Register = 1 if a <= 0 else 0
    ///
    /// slez r? a(r?|num)
    SelectLessOrEqualZero {
        register: Register,
        a: RegisterOrNumber,
    },
    /// Register = 1 if a < b else 0
    ///
    /// slt r? a(r?|num) b(r?|num)
    SelectLessThan {
        register: Register,
        a: RegisterOrNumber,
        b: RegisterOrNumber,
    },
    /// Register = 1 if a < 0 else 0
    ///
    /// sltz r? a(r?|num)
    SelectLessThanZero {
        register: Register,
        a: RegisterOrNumber,
    },
    /// Register = 1 if abs(a-b) > max(c*max(abs(a), abs(b)), float.epsilon*8) else 0
    ///
    /// sna r? a(r?|num) b(r?|num) c(r?|num)
    SelectNotApproximatelyEqual {
        register: Register,
        a: RegisterOrNumber,
        b: RegisterOrNumber,
        c: RegisterOrNumber,
    },
    /// Register = 1 if abs(a) > float.epsilon*8 else 0
    ///
    /// snaz r? a(r?|num) b(r?|num)
    SelectNotApproximatelyZero {
        register: Register,
        a: RegisterOrNumber,
        b: RegisterOrNumber,
    },
    /// Register = 1 if a != b else 0
    ///
    /// sne r? a(r?|num) b(r?|num)
    SelectNotEqual {
        register: Register,
        a: RegisterOrNumber,
        b: RegisterOrNumber,
    },
    /// Register = 1 if a != 0 else 0
    ///
    /// snez r? a(r?|num)
    SelectNotEqualZero {
        register: Register,
        a: RegisterOrNumber,
    },
}

impl VariableSelection {
    /// The line of assembly that the instruction is written as.
    pub open spec fn text(self) -> Seq<char> {
        match self {
            VariableSelection::SelectApproximatelyEqual { register, a, b, c } => {
                words5("sap"@, register.text(), a.text(), b.text(), c.text())
            },
            VariableSelection::SelectApproximatelyZero { register, a, b } => {
                words4("sapz"@, register.text(), a.text(), b.text())
            },
            VariableSelection::SelectDeviceNotSet { register, d } => {
                words3("sdns"@, register.text(), d.text())
            },
            VariableSelection::SelectDeviceSet { register, d } => {
                words3("sdse"@, register.text(), d.text())
            },
            VariableSelection::Select { register, a, b, c } => {
                words5("select"@, register.text(), a.text(), b.text(), c.text())
            },
            VariableSelection::SelectEqual { register, a, b } => {
                words4("seq"@, register.text(), a.text(), b.text())
            },
            VariableSelection::SelectEqualZero { register, a } => {
                words3("seqz"@, register.text(), a.text())
            },
            VariableSelection::SelectGreaterOrEqual { register, a, b } => {
                words4("sge"@, register.text(), a.text(), b.text())
            },
            VariableSelection::SelectGreaterOrEqualZero { register, a } => {
                words3("sgez"@, register.text(), a.text())
            },
            VariableSelection::SelectGreaterThan { register, a, b } => {
                words4("sgt"@, register.text(), a.text(), b.text())
            },
            VariableSelection::SelectGreaterThanZero { register, a } => {
                words3("sgtz"@, register.text(), a.text())
            },
            VariableSelection::SelectLessOrEqual { register, a, b } => {
                words4("sle"@, register.text(), a.text(), b.text())
            },
            VariableSelection::SelectLessOrEqualZero { register, a } => {
                words3("slez"@, register.text(), a.text())
            },
            VariableSelection::SelectLessThan { register, a, b } => {
                words4("slt"@, register.text(), a.text(), b.text())
            },
            VariableSelection::SelectLessThanZero { register, a } => {
                words3("sltz"@, register.text(), a.text())
            },
            VariableSelection::SelectNotApproximatelyEqual { register, a, b, c } => {
                words5("sna"@, register.text(), a.text(), b.text(), c.text())
            },
            VariableSelection::SelectNotApproximatelyZero { register, a, b } => {
                words4("snaz"@, register.text(), a.text(), b.text())
            },
            VariableSelection::SelectNotEqual { register, a, b } => {
                words4("sne"@, register.text(), a.text(), b.text())
            },
            VariableSelection::SelectNotEqualZero { register, a } => {
                words3("snez"@, register.text(), a.text())
            },
        }
    }

    /// Writes the instruction as a line of assembly.
    pub fn to_string(&self) -> (r: String)
        ensures
            r@ == self.text(),
    {
        match self {
            VariableSelection::SelectApproximatelyEqual { register, a, b, c } => {
                let mut out = "sap".to_string();
                push_word(&mut out, register.to_string().as_str());
                push_word(&mut out, a.to_string().as_str());
                push_word(&mut out, b.to_string().as_str());
                push_word(&mut out, c.to_string().as_str());
                out
            },
            VariableSelection::SelectApproximatelyZero { register, a, b } => {
                let mut out = "sapz".to_string();
                push_word(&mut out, register.to_string().as_str());
                push_word(&mut out, a.to_string().as_str());
                push_word(&mut out, b.to_string().as_str());
                out
            },
            VariableSelection::SelectDeviceNotSet { register, d } => {
                let mut out = "sdns".to_string();
                push_word(&mut out, register.to_string().as_str());
                push_word(&mut out, d.to_string().as_str());
                out
            },
            VariableSelection::SelectDeviceSet { register, d } => {
                let mut out = "sdse".to_string();
                push_word(&mut out, register.to_string().as_str());
                push_word(&mut out, d.to_string().as_str());
                out
            },
            VariableSelection::Select { register, a, b, c } => {
                let mut out = "select".to_string();
                push_word(&mut out, register.to_string().as_str());
                push_word(&mut out, a.to_string().as_str());
                push_word(&mut out, b.to_string().as_str());
                push_word(&mut out, c.to_string().as_str());
                out
            },
            VariableSelection::SelectEqual { register, a, b } => {
                let mut out = "seq".to_string();
                push_word(&mut out, register.to_string().as_str());
                push_word(&mut out, a.to_string().as_str());
                push_word(&mut out, b.to_string().as_str());
                out
            },
            VariableSelection::SelectEqualZero { register, a } => {
                let mut out = "seqz".to_string();
                push_word(&mut out, register.to_string().as_str());
                push_word(&mut out, a.to_string().as_str());
                out
            },
            VariableSelection::SelectGreaterOrEqual { register, a, b } => {
                let mut out = "sge".to_string();
                push_word(&mut out, register.to_string().as_str());
                push_word(&mut out, a.to_string().as_str());
                push_word(&mut out, b.to_string().as_str());
                out
            },
            VariableSelection::SelectGreaterOrEqualZero { register, a } => {
                let mut out = "sgez".to_string();
                push_word(&mut out, register.to_string().as_str());
                push_word(&mut out, a.to_string().as_str());
                out
            },
            VariableSelection::SelectGreaterThan { register, a, b } => {
                let mut out = "sgt".to_string();
                push_word(&mut out, register.to_string().as_str());
                push_word(&mut out, a.to_string().as_str());
                push_word(&mut out, b.to_string().as_str());
                out
            },
            VariableSelection::SelectGreaterThanZero { register, a } => {
                let mut out = "sgtz".to_string();
                push_word(&mut out, register.to_string().as_str());
                push_word(&mut out, a.to_string().as_str());
                out
            },
            VariableSelection::SelectLessOrEqual { register, a, b } => {
                let mut out = "sle".to_string();
                push_word(&mut out, register.to_string().as_str());
                push_word(&mut out, a.to_string().as_str());
                push_word(&mut out, b.to_string().as_str());
                out
            },
            VariableSelection::SelectLessOrEqualZero { register, a } => {
                let mut out = "slez".to_string();
                push_word(&mut out, register.to_string().as_str());
                push_word(&mut out, a.to_string().as_str());
                out
            },
            VariableSelection::SelectLessThan { register, a, b } => {
                let mut out = "slt".to_string();
                push_word(&mut out, register.to_string().as_str());
                push_word(&mut out, a.to_string().as_str());
                push_word(&mut out, b.to_string().as_str());
                out
            },
            VariableSelection::SelectLessThanZero { register, a } => {
                let mut out = "sltz".to_string();
                push_word(&mut out, register.to_string().as_str());
                push_word(&mut out, a.to_string().as_str());
                out
            },
            VariableSelection::SelectNotApproximatelyEqual { register, a, b, c } => {
                let mut out = "sna".to_string();
                push_word(&mut out, register.to_string().as_str());
                push_word(&mut out, a.to_string().as_str());
                push_word(&mut out, b.to_string().as_str());
                push_word(&mut out, c.to_string().as_str());
                out
            },
            VariableSelection::SelectNotApproximatelyZero { register, a, b } => {
                let mut out = "snaz".to_string();
                push_word(&mut out, register.to_string().as_str());
                push_word(&mut out, a.to_string().as_str());
                push_word(&mut out, b.to_string().as_str());
                out
            },
            VariableSelection::SelectNotEqual { register, a, b } => {
                let mut out = "sne".to_string();
                push_word(&mut out, register.to_string().as_str());
                push_word(&mut out, a.to_string().as_str());
                push_word(&mut out, b.to_string().as_str());
                out
            },
            VariableSelection::SelectNotEqualZero { register, a } => {
                let mut out = "snez".to_string();
                push_word(&mut out, register.to_string().as_str());
                push_word(&mut out, a.to_string().as_str());
                out
            },
        }
    }
}

} // verus!
