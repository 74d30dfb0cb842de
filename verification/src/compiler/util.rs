//! The short sequences of instructions that the lowering is made of.
use vstd::prelude::*;
use crate::compiler::codegen::{CodeGenerator, CodeModel, Line};
use crate::compiler::Location;
use crate::mips::instructions::{Arithmetic, FlowControl, Instruction, Stack as StackInstruction};
use crate::mips::types::{Number, Register, RegisterOrNumber};

verus! {

/// `push a`
pub open spec fn push_line(a: RegisterOrNumber) -> Line {
    Line::Code(Instruction::Stack(StackInstruction::Push { a }))
}

/// `pop register`
pub open spec fn pop_line(register: Register) -> Line {
    Line::Code(Instruction::Stack(StackInstruction::Pop { register }))
}

/// `peek register`
pub open spec fn peek_line(register: Register) -> Line {
    Line::Code(Instruction::Stack(StackInstruction::Peek { register }))
}

/// `sub sp sp distance`: moves the stack pointer down by `distance` slots.
pub open spec fn lower_sp_line(distance: i32) -> Line {
    Line::Code(
        Instruction::Arithmetic(
            Arithmetic::Subtract {
                register: Register::Sp,
                a: RegisterOrNumber::Register(Register::Sp),
                b: RegisterOrNumber::Number(Number::Int(distance)),
            },
        ),
    )
}

/// `add sp sp distance`: moves the stack pointer up by `distance` slots.
pub open spec fn raise_sp_line(distance: i32) -> Line {
    Line::Code(
        Instruction::Arithmetic(
            Arithmetic::Add {
                register: Register::Sp,
                a: RegisterOrNumber::Register(Register::Sp),
                b: RegisterOrNumber::Number(Number::Int(distance)),
            },
        ),
    )
}

/// `add register r0 0`: copies `r0` into `register`.
pub open spec fn move_r0_line(register: Register) -> Line {
    Line::Code(
        Instruction::Arithmetic(
            Arithmetic::Add {
                register,
                a: RegisterOrNumber::Register(Register::R0),
                b: RegisterOrNumber::Number(Number::Int(0)),
            },
        ),
    )
}

/// `beqz 0 ra`: a branch that is always taken, to the line held in `ra`.
pub open spec fn return_line() -> Line {
    Line::Code(
        Instruction::FlowControl(
            FlowControl::BranchEqualZero {
                a: RegisterOrNumber::Number(Number::Int(0)),
                b: RegisterOrNumber::Register(Register::Ra),
            },
        ),
    )
}

/// The distance from the top of the stack to a slot that was recorded under
/// `offset`.
pub open spec fn slot_distance(offset: i32) -> i32 {
    0i32.wrapping_sub(offset)
}

impl CodeModel {
    /// Stores `r0` into the variable at `location`. For a stack slot the
    /// stack pointer is moved below the slot, `r0` is pushed into it, and
    /// the stack pointer is moved back; for a register, `r0` is copied.
    pub open spec fn assign_variable(self, location: Location) -> CodeModel {
        match location {
            Location::Stack(offset) => self.emit(lower_sp_line(slot_distance(offset))).emit(
                push_line(RegisterOrNumber::Register(Register::R0)),
            ).emit(raise_sp_line(slot_distance(offset))),
            Location::Register(register) => self.emit(move_r0_line(register)),
        }
    }
}

/// Pushes a value onto the stack.
pub fn stack_push(codegen: &mut CodeGenerator, a: RegisterOrNumber)
    ensures
        final(codegen)@ == old(codegen)@.emit(push_line(a)),
{
    codegen.add_instruction(Instruction::Stack(StackInstruction::Push { a }));
}

/// Pops a value from the stack into a register.
pub fn stack_pop(codegen: &mut CodeGenerator, register: Register)
    ensures
        final(codegen)@ == old(codegen)@.emit(pop_line(register)),
{
    codegen.add_instruction(Instruction::Stack(StackInstruction::Pop { register }));
}

/// Cause a function to return to the caller.
pub fn function_return(codegen: &mut CodeGenerator)
    ensures
        final(codegen)@ == old(codegen)@.emit(return_line()),
{
    // beqz instead of j, because the line to return to is held in a register;
    // the value 0 makes the branch one that is always taken
    codegen.add_instruction(
        Instruction::FlowControl(
            FlowControl::BranchEqualZero {
                a: RegisterOrNumber::Number(Number::Int(0)),
                b: RegisterOrNumber::Register(Register::Ra),
            },
        ),
    );
}

/// Assigns the value in `r0` to a variable.
/// The variable can be stored on the stack or in a register.
/// If the variable is stored on the stack, the stack pointer is adjusted in
/// order to store the value.
pub fn assign_variable(codegen: &mut CodeGenerator, location: Location)
    ensures
        final(codegen)@ == old(codegen)@.assign_variable(location),
{
    match location {
        Location::Stack(offset) => {
            let distance = 0i32.wrapping_sub(offset);
            // adjust the stack pointer
            codegen.add_instruction(
                Instruction::Arithmetic(
                    Arithmetic::Subtract {
                        register: Register::Sp,
                        a: RegisterOrNumber::Register(Register::Sp),
                        b: RegisterOrNumber::Number(Number::Int(distance)),
                    },
                ),
            );
            // store the value in the variable
            stack_push(codegen, RegisterOrNumber::Register(Register::R0));
            // restore the stack pointer
            codegen.add_instruction(
                Instruction::Arithmetic(
                    Arithmetic::Add {
                        register: Register::Sp,
                        a: RegisterOrNumber::Register(Register::Sp),
                        b: RegisterOrNumber::Number(Number::Int(distance)),
                    },
                ),
            );
        },
        Location::Register(register) => {
            // there is no move between registers here: add 0 to the value
            codegen.add_instruction(
                Instruction::Arithmetic(
                    Arithmetic::Add {
                        register,
                        a: RegisterOrNumber::Register(Register::R0),
                        b: RegisterOrNumber::Number(Number::Int(0)),
                    },
                ),
            );
        },
    }
}

} // verus!
