//! Arithmetic.
use vstd::prelude::*;
use vstd::string::*;
use crate::mips::types::{Register, RegisterOrNumber};
use crate::text::{push_word, words2, words3, words4};

verus! {

/// Instructions for mathematical operations.
#[derive(Clone, Debug, PartialEq, Eq)]
pub enum Arithmetic {
    /// Register = abs(a)
    ///
    /// abs r? a(r?|num)
    AbsoluteValue {
        /// the register to store the result in
        register: Register,
        a: RegisterOrNumber,
    },
    /// Register = acos(a)
    ///
    /// acos r? a(r?|num)
    ArcCosine {
        /// the register to store the result in
        register: Register,
        a: RegisterOrNumber,
    },
    /// Register = a + b
    ///
    /// add r? a(r?|num) b(r?|num)
    Add {
        /// the register to store the result in
        register: Register,
        /// the first operand
        a: RegisterOrNumber,
        /// the second operand
        b: RegisterOrNumber,
    },
    /// Register = asin(a)
    ///
    /// asin r? a(r?|num)
    ArcSine {
        /// the register to store the result in
        register: Register,
        a: RegisterOrNumber,
    },
    /// Register = atan(a)
    ///
    /// atan r? a(r?|num)
    ArcTangent {
        /// the register to store the result in
        register: Register,
        a: RegisterOrNumber,
    },
    /// Register = ceil(a)
    ///
    /// ceil r? a(r?|num)
    Ceiling {
        /// the register to store the result in
        register: Register,
        a: RegisterOrNumber,
    },
    /// Register = cos(a)
    ///
    /// cos r? a(r?|num)
    Cosine {
        /// the register to store the result in
        register: Register,
        a: RegisterOrNumber,
    },
    /// Register = a / b
    ///
    /// div r? a(r?|num) b(r?|num)
    Divide {
        /// the register to store the result in
        register: Register,
        a: RegisterOrNumber,
        b: RegisterOrNumber,
    },
    /// Register = exp(a)
    ///
    /// exp r? a(r?|num)
    Exponent {
        /// the register to store the result in
        register: Register,
        a: RegisterOrNumber,
    },
    /// Register = floor(a)
    ///
    /// floor r? a(r?|num)
    Floor {
        /// the register to store the result in
        register: Register,
        a: RegisterOrNumber,
    },
    /// Register = log(a)
    ///
    /// log r? a(r?|num)
    Logarithm {
        /// the register to store the result in
        register: Register,
        a: RegisterOrNumber,
    },
    /// Register = max(a, b)
    ///
    /// max r? a(r?|num) b(r?|num)
    Maximum {
        /// the register to store the result in
        register: Register,
        a: RegisterOrNumber,
        b: RegisterOrNumber,
    },
    /// Register = min(a, b)
    ///
    /// min r? a(r?|num) b(r?|num)
    Minimum {
        /// the register to store the result in
        register: Register,
        a: RegisterOrNumber,
        b: RegisterOrNumber,
    },
    /// Register = a mod b (NOT a % b)
    ///
    /// mod r? a(r?|num) b(r?|num)
    Mod {
        /// the register to store the result in
        register: Register,
        a: RegisterOrNumber,
        b: RegisterOrNumber,
    },
    /// Register = a * b
    ///
    /// mul r? a(r?|num) b(r?|num)
    Multiply {
        /// the register to store the result in
        register: Register,
        a: RegisterOrNumber,
        b: RegisterOrNumber,
    },
    /// Register = a random x with 0 <= x < 1
    ///
    /// rand r?
    Random {
        /// the register to store the result in
        register: Register,
    },
    /// Register = round(a) (round to nearest integer)
    ///
    /// round r? a(r?|num)
    Round {
        /// the register to store the result in
        register: Register,
        a: RegisterOrNumber,
    },
    /// Register = sin(a)
    ///
    /// sin r? a(r?|num)
    Sine {
        /// the register to store the result in
        register: Register,
        a: RegisterOrNumber,
    },
    /// Register = sqrt(a)
    ///
    /// sqrt r? a(r?|num)
    SquareRoot {
        /// the register to store the result in
        register: Register,
        a: RegisterOrNumber,
    },
    /// Register = a - b
    ///
    /// sub r? a(r?|num) b(r?|num)
    Subtract {
        /// the register to store the result in
        register: Register,
        a: RegisterOrNumber,
        b: RegisterOrNumber,
    },
    /// Register = tan(a)
    ///
    /// tan r? a(r?|num)
    Tangent {
        /// the register to store the result in
        register: Register,
        a: RegisterOrNumber,
    },
    /// Register = trunc(a) (round towards zero)
    ///
    /// trunc r? a(r?|num)
    Truncate {
        /// the register to store the result in
        register: Register,
        a: RegisterOrNumber,
    },
}

impl Arithmetic {
    /// The line of assembly that the instruction is written as.
    pub open spec fn text(self) -> Seq<char> {
        match self {
            Arithmetic::AbsoluteValue { register, a } => words3("abs"@, register.text(), a.text()),
            Arithmetic::ArcCosine { register, a } => words3("acos"@, register.text(), a.text()),
            Arithmetic::Add { register, a, b } => {
                words4("add"@, register.text(), a.text(), b.text())
            },
            Arithmetic::ArcSine { register, a } => words3("asin"@, register.text(), a.text()),
            Arithmetic::ArcTangent { register, a } => words3("atan"@, register.text(), a.text()),
            Arithmetic::Ceiling { register, a } => words3("ceil"@, register.text(), a.text()),
            Arithmetic::Cosine { register, a } => words3("cos"@, register.text(), a.text()),
            Arithmetic::Divide { register, a, b } => {
                words4("div"@, register.text(), a.text(), b.text())
            },
            Arithmetic::Exponent { register, a } => words3("exp"@, register.text(), a.text()),
            Arithmetic::Floor { register, a } => words3("floor"@, register.text(), a.text()),
            Arithmetic::Logarithm { register, a } => words3("log"@, register.text(), a.text()),
            Arithmetic::Maximum { register, a, b } => {
                words4("max"@, register.text(), a.text(), b.text())
            },
            Arithmetic::Minimum { register, a, b } => {
                words4("min"@, register.text(), a.text(), b.text())
            },
            Arithmetic::Mod { register, a, b } => {
                words4("mod"@, register.text(), a.text(), b.text())
            },
            Arithmetic::Multiply { register, a, b } => {
                words4("mul"@, register.text(), a.text(), b.text())
            },
            Arithmetic::Random { register } => words2("rand"@, register.text()),
            Arithmetic::Round { register, a } => words3("round"@, register.text(), a.text()),
            Arithmetic::Sine { register, a } => words3("sin"@, register.text(), a.text()),
            Arithmetic::SquareRoot { register, a } => words3("sqrt"@, register.text(), a.text()),
            Arithmetic::Subtract { register, a, b } => {
                words4("sub"@, register.text(), a.text(), b.text())
            },
            Arithmetic::Tangent { register, a } => words3("tan"@, register.text(), a.text()),
            Arithmetic::Truncate { register, a } => words3("trunc"@, register.text(), a.text()),
        }
    }

    /// Writes the instruction as a line of assembly.
    pub fn to_string(&self) -> (r: String)
        ensures
            r@ == self.text(),
    {
        match self {
            Arithmetic::AbsoluteValue { register, a } => {
                let mut out = "abs".to_string();
                push_word(&mut out, register.to_string().as_str());
                push_word(&mut out, a.to_string().as_str());
                out
            },
            Arithmetic::ArcCosine { register, a } => {
                let mut out = "acos".to_string();
                push_word(&mut out, register.to_string().as_str());
                push_word(&mut out, a.to_string().as_str());
                out
            },
            Arithmetic::Add { register, a, b } => {
                let mut out = "add".to_string();
                push_word(&mut out, register.to_string().as_str());
                push_word(&mut out, a.to_string().as_str());
                push_word(&mut out, b.to_string().as_str());
                out
            },
            Arithmetic::ArcSine { register, a } => {
                let mut out = "asin".to_string();
                push_word(&mut out, register.to_string().as_str());
                push_word(&mut out, a.to_string().as_str());
                out
            },
            Arithmetic::ArcTangent { register, a } => {
                let mut out = "atan".to_string();
                push_word(&mut out, register.to_string().as_str());
                push_word(&mut out, a.to_string().as_str());
                out
            },
            Arithmetic::Ceiling { register, a } => {
                let mut out = "ceil".to_string();
                push_word(&mut out, register.to_string().as_str());
                push_word(&mut out, a.to_string().as_str());
                out
            },
            Arithmetic::Cosine { register, a } => {
                let mut out = "cos".to_string();
                push_word(&mut out, register.to_string().as_str());
                push_word(&mut out, a.to_string().as_str());
                out
            },
            Arithmetic::Divide { register, a, b } => {
                let mut out = "div".to_string();
                push_word(&mut out, register.to_string().as_str());
                push_word(&mut out, a.to_string().as_str());
                push_word(&mut out, b.to_string().as_str());
                out
            },
            Arithmetic::Exponent { register, a } => {
                let mut out = "exp".to_string();
                push_word(&mut out, register.to_string().as_str());
                push_word(&mut out, a.to_string().as_str());
                out
            },
            Arithmetic::Floor { register, a } => {
                let mut out = "floor".to_string();
                push_word(&mut out, register.to_string().as_str());
                push_word(&mut out, a.to_string().as_str());
                out
            },
            Arithmetic::Logarithm { register, a } => {
                let mut out = "log".to_string();
                push_word(&mut out, register.to_string().as_str());
                push_word(&mut out, a.to_string().as_str());
                out
            },
            Arithmetic::Maximum { register, a, b } => {
                let mut out = "max".to_string();
                push_word(&mut out, register.to_string().as_str());
                push_word(&mut out, a.to_string().as_str());
                push_word(&mut out, b.to_string().as_str());
                out
            },
            Arithmetic::Minimum { register, a, b } => {
                let mut out = "min".to_string();
                push_word(&mut out, register.to_string().as_str());
                push_word(&mut out, a.to_string().as_str());
                push_word(&mut out, b.to_string().as_str());
                out
            },
            Arithmetic::Mod { register, a, b } => {
                let mut out = "mod".to_string();
                push_word(&mut out, register.to_string().as_str());
                push_word(&mut out, a.to_string().as_str());
                push_word(&mut out, b.to_string().as_str());
                out
            },
            Arithmetic::Multiply { register, a, b } => {
                let mut out = "mul".to_string();
                push_word(&mut out, register.to_string().as_str());
                push_word(&mut out, a.to_string().as_str());
                push_word(&mut out, b.to_string().as_str());
                out
            },
            Arithmetic::Random { register } => {
                let mut out = "rand".to_string();
                push_word(&mut out, register.to_string().as_str());
                out
            },
            Arithmetic::Round { register, a } => {
                let mut out = "round".to_string();
                push_word(&mut out, register.to_string().as_str());
                push_word(&mut out, a.to_string().as_str());
                out
            },
            Arithmetic::Sine { register, a } => {
                let mut out = "sin".to_string();
                push_word(&mut out, register.to_string().as_str());
                push_word(&mut out, a.to_string().as_str());
                out
            },
            Arithmetic::SquareRoot { register, a } => {
                let mut out = "sqrt".to_string();
                push_word(&mut out, register.to_string().as_str());
                push_word(&mut out, a.to_string().as_str());
                out
            },
            Arithmetic::Subtract { register, a, b } => {
                let mut out = "sub".to_string();
                push_word(&mut out, register.to_string().as_str());
                push_word(&mut out, a.to_string().as_str());
                push_word(&mut out, b.to_string().as_str());
                out
            },
            Arithmetic::Tangent { register, a } => {
                let mut out = "tan".to_string();
                push_word(&mut out, register.to_string().as_str());
                push_word(&mut out, a.to_string().as_str());
                out
            },
            Arithmetic::Truncate { register, a } => {
                let mut out = "trunc".to_string();
                push_word(&mut out, register.to_string().as_str());
                push_word(&mut out, a.to_string().as_str());
                out
            },
        }
    }
}

} // verus!
