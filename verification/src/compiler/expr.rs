//! Lowering of expressions. The code of an expression leaves exactly one
//! value on top of the machine's stack.
use vstd::prelude::*;
use vstd::string::*;
use crate::compiler::codegen::{line_number, CodeGenerator, CodeModel, Line};
use crate::compiler::error::{Error, ErrorView};
use crate::compiler::stack::{Stack, StackModel};
use crate::compiler::util::{
    lower_sp_line, peek_line, pop_line, push_line, raise_sp_line, slot_distance, stack_pop,
    stack_push,
};
use crate::compiler::{Location, Pass};
use crate::mips::instructions::{Arithmetic, FlowControl, Instruction, Stack as StackInstruction};
use crate::mips::types::{Number, Register, RegisterOrNumber};
use crate::parser::ast::{BinaryOpcode, Expr, Identifier, Value};
use crate::text::{concat2, decimal, int_to_string};

verus! {

/// What a lowering leaves behind: the two states, and the error that
/// stopped it, if one did.
pub struct Lowered {
    pub stack: StackModel,
    pub code: CodeModel,
    pub error: Option<ErrorView>,
}

/// The error of a result, if it is one.
pub open spec fn error_of(r: Result<(), Error>) -> Option<ErrorView> {
    match r {
        Ok(_) => None,
        Err(e) => Some(e@),
    }
}

/// The number that is pushed for a literal value: an integer cut to the
/// width of a machine number, a number with a fraction as written, and 1 or
/// 0 for true or false.
pub open spec fn constant_number(value: Value) -> Number {
    match value {
        Value::Integer(i) => Number::Int(i as i32),
        Value::Float(t) => Number::Float(t),
        Value::Boolean(b) => Number::Int(
            if b {
                1
            } else {
                0
            },
        ),
    }
}

/// `r0 = r0 op r1` for the four arithmetic operators.
pub open spec fn arithmetic_line(op: BinaryOpcode) -> Option<Line> {
    let register = Register::R0;
    let a = RegisterOrNumber::Register(Register::R0);
    let b = RegisterOrNumber::Register(Register::R1);
    match op {
        BinaryOpcode::Add => Some(
            Line::Code(Instruction::Arithmetic(Arithmetic::Add { register, a, b })),
        ),
        BinaryOpcode::Sub => Some(
            Line::Code(Instruction::Arithmetic(Arithmetic::Subtract { register, a, b })),
        ),
        BinaryOpcode::Mul => Some(
            Line::Code(Instruction::Arithmetic(Arithmetic::Multiply { register, a, b })),
        ),
        BinaryOpcode::Div => Some(
            Line::Code(Instruction::Arithmetic(Arithmetic::Divide { register, a, b })),
        ),
        _ => None,
    }
}

/// The branch that compares `r0` with `r1` for the three comparisons that
/// are lowered, with the line to branch to.
pub open spec fn comparison_line(op: BinaryOpcode, target: i32) -> Option<Line> {
    let a = RegisterOrNumber::Register(Register::R0);
    let b = RegisterOrNumber::Register(Register::R1);
    let c = RegisterOrNumber::Number(Number::Int(target));
    match op {
        BinaryOpcode::Equals => Some(
            Line::Code(Instruction::FlowControl(FlowControl::BranchEqual { a, b, c })),
        ),
        BinaryOpcode::Greater => Some(
            Line::Code(Instruction::FlowControl(FlowControl::BranchGreaterThan { a, b, c })),
        ),
        BinaryOpcode::Lower => Some(
            Line::Code(Instruction::FlowControl(FlowControl::BranchLessThan { a, b, c })),
        ),
        _ => None,
    }
}

/// `add r0 0 value`: sets `r0` to `value`.
pub open spec fn set_r0_line(value: i32) -> Line {
    Line::Code(
        Instruction::Arithmetic(
            Arithmetic::Add {
                register: Register::R0,
                a: RegisterOrNumber::Number(Number::Int(0)),
                b: RegisterOrNumber::Number(Number::Int(value)),
            },
        ),
    )
}

impl CodeModel {
    /// Pushes a literal value, under a comment line that shows it.
    pub open spec fn lower_constant(self, value: Value) -> CodeModel {
        self.emit_comment_line("expr constant "@ + value.debug_text()).emit(
            push_line(RegisterOrNumber::Number(constant_number(value))),
        )
    }

    /// Pushes the value of the variable at `location`. A register is pushed
    /// as it is. A stack slot at distance 1 is the top of the stack: it is
    /// peeked into `r0` and pushed. Any other slot is reached by moving the
    /// stack pointer down to it, peeking, and moving it back.
    pub open spec fn lower_read(self, name: Seq<char>, location: Location) -> CodeModel {
        match location {
            Location::Register(register) => self.emit(
                push_line(RegisterOrNumber::Register(register)),
            ),
            Location::Stack(offset) => {
                let distance = slot_distance(offset);
                let note = "retrieve "@ + Identifier::debug_of(name) + " from offset "@ + decimal(
                    distance as int,
                );
                if distance != 1 {
                    self.emit(lower_sp_line(distance)).annotate_last(note).emit(
                        peek_line(Register::R0),
                    ).emit(raise_sp_line(distance)).emit(
                        push_line(RegisterOrNumber::Register(Register::R0)),
                    )
                } else {
                    self.emit_comment_line(note).emit(peek_line(Register::R0)).emit(
                        push_line(RegisterOrNumber::Register(Register::R0)),
                    )
                }
            },
        }
    }

    /// Combines `r0` and `r1` into `r0`, or nothing where the operator is
    /// not lowered. An arithmetic operator is one instruction. A comparison
    /// is three: a branch over the next line if the comparison holds, a line
    /// that sets `r0` to 0 and a line that sets it to 1. The first pass
    /// writes the same three with 0 in place of what it does not know.
    pub open spec fn lower_operator(self, op: BinaryOpcode, pass: Pass) -> Option<CodeModel> {
        if arithmetic_line(op) is Some {
            Some(self.emit(arithmetic_line(op)->Some_0))
        } else if comparison_line(op, 0) is Some {
            match pass {
                Pass::Second => Some(
                    self.emit(
                        comparison_line(
                            op,
                            line_number(self.lines.len() as int).wrapping_add(2),
                        )->Some_0,
                    ).emit(set_r0_line(0)).emit(set_r0_line(1)),
                ),
                Pass::First => Some(
                    self.emit(comparison_line(op, 0)->Some_0).emit(set_r0_line(0)).emit(
                        set_r0_line(0),
                    ),
                ),
            }
        } else {
            None
        }
    }
}

/// The lowering of an expression: the code after it, and the error that
/// stopped it, if one did. The stack model is only read.
///
/// A literal is pushed. A name is a constant, whose value is pushed, or
/// else a variable, whose value is read and pushed; a name that is neither
/// is an undefined variable. A binary operation lowers its left and right
/// operands, pops them into `r0` and `r1`, combines them and pushes `r0`.
/// Each form starts with a comment line that shows it. A unary operation,
/// and a binary operator other than the four of arithmetic and `==`, `<`,
/// `>`, stops the lowering as unimplemented.
pub open spec fn lower_expr(expr: Expr, stack: StackModel, code: CodeModel, pass: Pass) -> Lowered
    decreases expr,
{
    match expr {
        Expr::Identifier(identifier) => {
            let code = code.emit_comment_line("expr identifier "@ + identifier.debug_text());
            if code.constants.dom().contains(identifier@) {
                Lowered { stack, code: code.lower_constant(code.constants[identifier@]), error: None }
            } else if stack.locals.dom().contains(identifier@) {
                Lowered {
                    stack,
                    code: code.lower_read(identifier@, stack.locals[identifier@]),
                    error: None,
                }
            } else {
                Lowered { stack, code, error: Some(ErrorView::UndefinedVariable(identifier@)) }
            }
        },
        Expr::Constant(value) => Lowered { stack, code: code.lower_constant(value), error: None },
        Expr::BinaryOp(left, op, right) => {
            let code = code.emit_comment_line("expr binary op "@ + op.debug_text());
            let left = lower_expr(*left, stack, code, pass);
            if left.error is Some {
                left
            } else {
                let right = lower_expr(*right, stack, left.code, pass);
                if right.error is Some {
                    right
                } else {
                    let code = right.code.emit(pop_line(Register::R1)).emit(
                        pop_line(Register::R0),
                    );
                    match code.lower_operator(op, pass) {
                        Some(code) => Lowered {
                            stack,
                            code: code.emit(push_line(RegisterOrNumber::Register(Register::R0))),
                            error: None,
                        },
                        None => Lowered {
                            stack,
                            code,
                            error: Some(ErrorView::Unimplemented(op.debug_text())),
                        },
                    }
                }
            }
        },
        Expr::UnaryOp(op, _) => Lowered {
            stack,
            code: code.emit_comment_line("expr unary op "@ + op.debug_text()),
            error: Some(ErrorView::Unimplemented(op.debug_text())),
        },
    }
}

/// Emits code that pushes a literal value.
fn generate_constant(value: &Value, codegen: &mut CodeGenerator)
    ensures
        final(codegen)@ == old(codegen)@.lower_constant(*value),
{
    codegen.add_comment_line(concat2("expr constant ", value.debug_string().as_str()));
    match value {
        Value::Integer(i) => {
            // push the integer onto the stack
            let number = #[verifier::truncate]
            (*i as i32);
            stack_push(codegen, RegisterOrNumber::Number(Number::Int(number)));
        },
        Value::Float(t) => {
            // push the number as it is written
            stack_push(codegen, RegisterOrNumber::Number(Number::Float(t.clone())));
        },
        Value::Boolean(b) => {
            // push the boolean onto the stack
            stack_push(
                codegen,
                RegisterOrNumber::Number(
                    Number::Int(
                        if *b {
                            1
                        } else {
                            0
                        },
                    ),
                ),
            );
        },
    }
}

/// Emits code that pushes the value of a variable.
fn generate_read(identifier: &Identifier, location: Location, codegen: &mut CodeGenerator)
    ensures
        final(codegen)@ == old(codegen)@.lower_read(identifier@, location),
{
    match location {
        Location::Register(register) => {
            // push the value of the register onto the stack
            stack_push(codegen, RegisterOrNumber::Register(register));
        },
        Location::Stack(offset) => {
            let distance = 0i32.wrapping_sub(offset);
            let mut note = concat2("retrieve ", identifier.debug_string().as_str());
            note.append(" from offset ");
            note.append(int_to_string(distance as i64).as_str());
            // adjust the stack pointer to be at the location of the local variable
            if distance != 1 {
                codegen.add_instruction(
                    Instruction::Arithmetic(
                        Arithmetic::Subtract {
                            register: Register::Sp,
                            a: RegisterOrNumber::Register(Register::Sp),
                            b: RegisterOrNumber::Number(Number::Int(distance)),
                        },
                    ),
                );
                codegen.add_comment(note);
            } else {
                codegen.add_comment_line(note);
            }
            // peek the value from the stack
            codegen.add_instruction(
                Instruction::Stack(StackInstruction::Peek { register: Register::R0 }),
            );
            if distance != 1 {
                // move the stack pointer back to where it was
                codegen.add_instruction(
                    Instruction::Arithmetic(
                        Arithmetic::Add {
                            register: Register::Sp,
                            a: RegisterOrNumber::Register(Register::Sp),
                            b: RegisterOrNumber::Number(Number::Int(distance)),
                        },
                    ),
                );
            }
            // push the value onto the stack
            stack_push(codegen, RegisterOrNumber::Register(Register::R0));
        },
    }
}

/// Emits the three lines of a comparison. The branch goes to the third
/// line if the comparison holds, over the line that sets `r0` to 0.
fn generate_comparison(op: BinaryOpcode, codegen: &mut CodeGenerator, pass: Pass)
    requires
        comparison_line(op, 0) is Some,
    ensures
        Some(final(codegen)@) == old(codegen)@.lower_operator(op, pass),
{
    let (target, last) = match pass {
        Pass::Second => {
            let here = #[verifier::truncate]
            (codegen.len() as i32);
            (here.wrapping_add(2), 1)
        },
        // hold the place of the three lines for the second pass
        Pass::First => (0, 0),
    };
    let a = RegisterOrNumber::Register(Register::R0);
    let b = RegisterOrNumber::Register(Register::R1);
    let c = RegisterOrNumber::Number(Number::Int(target));
    let branch = match op {
        BinaryOpcode::Equals => FlowControl::BranchEqual { a, b, c },
        BinaryOpcode::Greater => FlowControl::BranchGreaterThan { a, b, c },
        _ => FlowControl::BranchLessThan { a, b, c },
    };
    codegen.add_instruction(Instruction::FlowControl(branch));
    codegen.add_instruction(
        Instruction::Arithmetic(
            Arithmetic::Add {
                register: Register::R0,
                a: RegisterOrNumber::Number(Number::Int(0)),
                b: RegisterOrNumber::Number(Number::Int(0)),
            },
        ),
    );
    codegen.add_instruction(
        Instruction::Arithmetic(
            Arithmetic::Add {
                register: Register::R0,
                a: RegisterOrNumber::Number(Number::Int(0)),
                b: RegisterOrNumber::Number(Number::Int(last)),
            },
        ),
    );
}

/// Emits the code that combines `r0` and `r1` into `r0`. Returns whether
/// the operator is one that is lowered; if it is not, nothing is emitted.
fn generate_operator(op: BinaryOpcode, codegen: &mut CodeGenerator, pass: Pass) -> (done: bool)
    ensures
        match old(codegen)@.lower_operator(op, pass) {
            Some(code) => done && final(codegen)@ == code,
            None => !done && final(codegen)@ == old(codegen)@,
        },
{
    let register = Register::R0;
    let a = RegisterOrNumber::Register(Register::R0);
    let b = RegisterOrNumber::Register(Register::R1);
    match op {
        BinaryOpcode::Add => {
            codegen.add_instruction(Instruction::Arithmetic(Arithmetic::Add { register, a, b }));
            true
        },
        BinaryOpcode::Sub => {
            codegen.add_instruction(
                Instruction::Arithmetic(Arithmetic::Subtract { register, a, b }),
            );
            true
        },
        BinaryOpcode::Mul => {
            codegen.add_instruction(
                Instruction::Arithmetic(Arithmetic::Multiply { register, a, b }),
            );
            true
        },
        BinaryOpcode::Div => {
            codegen.add_instruction(Instruction::Arithmetic(Arithmetic::Divide { register, a, b }));
            true
        },
        BinaryOpcode::Equals | BinaryOpcode::Greater | BinaryOpcode::Lower => {
            generate_comparison(op, codegen, pass);
            true
        },
        BinaryOpcode::Conj
        | BinaryOpcode::Disj
        | BinaryOpcode::NotEquals
        | BinaryOpcode::GreaterEquals
        | BinaryOpcode::LowerEquals => false,
    }
}

/// Emits code that evaluates an expression and pushes the result onto the stack.
#[verifier::rlimit(40)]
pub fn generate_expr(expr: &Expr, stack: &Stack, codegen: &mut CodeGenerator, pass: Pass) -> (r:
    Result<(), Error>)
    ensures
        lower_expr(*expr, stack@, old(codegen)@, pass) == (Lowered {
            stack: stack@,
            code: final(codegen)@,
            error: error_of(r),
        }),
    decreases expr,
{
    match expr {
        Expr::Identifier(identifier) => {
            codegen.add_comment_line(
                concat2("expr identifier ", identifier.debug_string().as_str()),
            );
            // Check if the identifier refers to a constant
            if let Some(value) = codegen.get_constant(identifier.as_str()) {
                generate_constant(&value, codegen);
                return Ok(());
            }
            if let Some(location) = stack.get_local(identifier.as_str()) {
                generate_read(identifier, location, codegen);
                Ok(())
            } else {
                Err(Error::UndefinedVariable(identifier.to_string()))
            }
        },
        Expr::Constant(value) => {
            generate_constant(value, codegen);
            Ok(())
        },
        Expr::BinaryOp(left, op, right) => {
            codegen.add_comment_line(concat2("expr binary op ", op.debug_string().as_str()));
            // lower the left and the right operand
            match generate_expr(left, stack, codegen, pass) {
                Err(e) => {
                    return Err(e);
                },
                Ok(_) => {},
            }
            match generate_expr(right, stack, codegen, pass) {
                Err(e) => {
                    return Err(e);
                },
                Ok(_) => {},
            }
            // pop the results of the left and right operands off the stack
            stack_pop(codegen, Register::R1);
            stack_pop(codegen, Register::R0);
            // perform operation
            if !generate_operator(*op, codegen, pass) {
                return Err(Error::Unimplemented(op.debug_string()));
            }
            // push the result of the operation onto the stack
            stack_push(codegen, RegisterOrNumber::Register(Register::R0));
            Ok(())
        },
        Expr::UnaryOp(op, _operand) => {
            codegen.add_comment_line(concat2("expr unary op ", op.debug_string().as_str()));
            Err(Error::Unimplemented(op.debug_string()))
        },
    }
}

} // verus!
