//! The code generator: two passes over the syntax tree, the first to learn
//! where the labels fall, the second to write the program.
use vstd::prelude::*;
use crate::compiler::codegen::{CodeGenerator, CodeModel};
use crate::compiler::error::{Error, ErrorView};
use crate::compiler::expr::Lowered;
use crate::compiler::stack::{Stack, StackModel};
use crate::compiler::statement::{generate_block, lower_prefix};
use crate::mips::types::Register;
use crate::parser::ast::Program;

pub mod balance;
pub mod codegen;
pub mod error;
pub mod expr;
pub mod laws;
pub mod parity;
pub mod stability;
pub mod stack;
pub mod statement;
pub mod util;

verus! {

/// The pass of the compiler.
/// Two passes are made so that a jump can name a line that comes later.
#[derive(Copy, Clone, Debug, PartialEq, Eq)]
pub enum Pass {
    /// Places every label. Where a target is not known yet, a line with the
    /// target 0 holds its place.
    First,
    /// Writes the program with the targets that the first pass found.
    Second,
}

/// Where a variable lives.
#[derive(Copy, Clone, Debug, PartialEq, Eq)]
pub enum Location {
    /// A position on the stack
    Stack(i32),
    /// A register
    Register(Register),
}

/// The first pass over a program: its statements are lowered from the
/// empty state.
pub open spec fn first_pass(program: Program) -> Lowered {
    lower_prefix(
        program.statements@,
        program.statements@.len(),
        StackModel::empty(),
        CodeModel::empty(),
        Pass::First,
    )
}

/// The second pass over a program: its statements are lowered again, from
/// the state that the first pass left, with the lines dropped and the
/// counters of loops and conditionals at zero.
pub open spec fn second_pass(program: Program) -> Lowered {
    lower_prefix(
        program.statements@,
        program.statements@.len(),
        first_pass(program).stack.clear(),
        first_pass(program).code.reset_for_pass_two(),
        Pass::Second,
    )
}

/// What the compilation of a program gives: the error of the first pass,
/// or else that of the second; a missing `main` if, after both, no label
/// has that name; and else the text of the lines that the second pass
/// wrote.
pub open spec fn compile(program: Program) -> Result<Seq<char>, ErrorView> {
    if first_pass(program).error is Some {
        Err(first_pass(program).error->Some_0)
    } else if second_pass(program).error is Some {
        Err(second_pass(program).error->Some_0)
    } else if !second_pass(program).code.labels.dom().contains("main"@) {
        Err(ErrorView::UndefinedMain)
    } else {
        Ok(second_pass(program).code.text())
    }
}

/// A result of `generate_program` as a value of the model.
pub open spec fn result_view(r: Result<String, Error>) -> Result<Seq<char>, ErrorView> {
    match r {
        Ok(text) => Ok(text@),
        Err(e) => Err(e@),
    }
}

/// Converts an entire program into MIPS assembly code.
/// This function is the entry point for the code generation and handles the
/// initial setup of the stack frame and code generator.
pub fn generate_program(program: Program) -> (r: Result<String, Error>)
    ensures
        result_view(r) == compile(program),
{
    let mut codegen = CodeGenerator::new();
    let mut stack = Stack::new();
    match generate_block(&program.statements, &mut stack, &mut codegen, Pass::First) {
        Err(e) => {
            return Err(e);
        },
        Ok(_) => {},
    }
    codegen.clear_first_pass();
    stack.clear();
    match generate_block(&program.statements, &mut stack, &mut codegen, Pass::Second) {
        Err(e) => {
            return Err(e);
        },
        Ok(_) => {},
    }
    // ensure the existence of a main function
    if !codegen.has_label("main") {
        return Err(Error::UndefinedMain);
    }
    Ok(codegen.get_code())
}

} // verus!
