//! Lowering of statements.
use vstd::prelude::*;
use vstd::string::*;
use crate::compiler::codegen::{CodeGenerator, CodeModel, Line};
use crate::compiler::error::{Error, ErrorView};
use crate::compiler::expr::{error_of, generate_expr, lower_expr, Lowered};
use crate::compiler::stack::{if_name, loop_name, Stack, StackModel};
use crate::compiler::util::{
    assign_variable, function_return, pop_line, push_line, return_line, stack_pop, stack_push,
};
use crate::compiler::{Location, Pass};
use crate::mips::instructions::{DeviceIo, FlowControl, Instruction, Misc};
use crate::mips::types::{Device, DeviceVariable, Number, Register, RegisterOrNumber};
use crate::parser::ast::{
    exprs_debug, exprs_debug_string, identifiers_debug, identifiers_debug_string, Block,
    DeviceStatement, Expr, Identifier, IfStatement, Statement,
};
use crate::text::{concat2, decimal, int_to_string};

verus! {

/// The names of a list of identifiers.
pub open spec fn names(list: Seq<Identifier>) -> Seq<Seq<char>> {
    list.map_values(|identifier: Identifier| identifier@)
}

/// The list with the name at its end, unless the list holds the name.
pub open spec fn remember(found: Seq<Seq<char>>, name: Seq<char>) -> Seq<Seq<char>> {
    if found.contains(name) {
        found
    } else {
        found.push(name)
    }
}

/// What the first `n` arguments of a call add to the names found: each
/// argument that is a bare name.
pub open spec fn discovered_arguments(
    arguments: Seq<Box<Expr>>,
    n: nat,
    found: Seq<Seq<char>>,
) -> Seq<Seq<char>>
    decreases n,
{
    if n == 0 || n > arguments.len() {
        found
    } else {
        let before = discovered_arguments(arguments, (n - 1) as nat, found);
        match *arguments[n - 1] {
            Expr::Identifier(identifier) => remember(before, identifier@),
            _ => before,
        }
    }
}

/// The names that a scan of the statement adds to those found: the name
/// of a definition, the bare names among the arguments of a call, and what
/// the statements of a block add in turn. Each name is held once, where it
/// was met first. Nothing else is looked into: not a function, a loop or a
/// conditional.
pub open spec fn discovered(statement: Statement, found: Seq<Seq<char>>) -> Seq<Seq<char>>
    decreases statement,
{
    match statement {
        Statement::Definition { identifier, .. } => remember(found, identifier@),
        Statement::Block(Block::Statements(list)) => discovered_prefix(list@, list@.len(), found),
        Statement::FunctionCall { arguments, .. } => discovered_arguments(
            arguments@,
            arguments@.len(),
            found,
        ),
        _ => found,
    }
}

/// What the first `n` statements of a list add to the names found.
pub open spec fn discovered_prefix(statements: Seq<Statement>, n: nat, found: Seq<Seq<char>>) -> Seq<
    Seq<char>,
>
    decreases statements, n,
{
    if n == 0 || n > statements.len() {
        found
    } else {
        discovered(statements[n - 1], discovered_prefix(statements, (n - 1) as nat, found))
    }
}

/// The stack position of the parameter with the given index, among `count`
/// parameters, as it is handed to `allocate_local_at`.
pub open spec fn parameter_offset(count: nat, index: nat) -> i32 {
    (count - index) as i32
}

/// The states after the first `n` parameters of a function are bound. The
/// first four live in the registers `r0` to `r3`; the second pass pushes
/// each of them, with a comment. Every further one lives on the stack,
/// where the caller left it; the second pass writes a comment line for it.
pub open spec fn bind_parameters(
    parameters: Seq<Identifier>,
    n: nat,
    stack: StackModel,
    code: CodeModel,
    pass: Pass,
) -> Lowered
    decreases n,
{
    if n == 0 || n > parameters.len() {
        Lowered { stack, code, error: None }
    } else {
        let before = bind_parameters(parameters, (n - 1) as nat, stack, code, pass);
        let index = (n - 1) as nat;
        let parameter = parameters[index as int];
        if index < 4 {
            let register = Register::of_index(index as int)->Some_0;
            Lowered {
                stack: before.stack.allocate_local_at(parameter@, Location::Register(register)),
                code: match pass {
                    Pass::Second => before.code.emit(
                        push_line(RegisterOrNumber::Register(register)),
                    ).annotate_last(
                        "parameter "@ + parameter.debug_text() + " from "@ + register.debug_text(),
                    ),
                    Pass::First => before.code,
                },
                error: None,
            }
        } else {
            let offset = parameter_offset(parameters.len(), index);
            Lowered {
                stack: before.stack.allocate_local_at(parameter@, Location::Stack(offset)),
                code: match pass {
                    Pass::Second => before.code.emit_comment_line(
                        "parameter "@ + parameter.debug_text() + " from stack offset "@ + decimal(
                            offset as int,
                        ),
                    ),
                    Pass::First => before.code,
                },
                error: None,
            }
        }
    }
}

/// The states after the first `n` of a function's variables have their
/// slots. The first pass counts a slot for each in the stack model and
/// writes nothing. The second pushes a 0 for each, with a comment, records
/// the variable one slot below the stack pointer and counts nothing.
pub open spec fn bind_locals(
    locals: Seq<Seq<char>>,
    n: nat,
    stack: StackModel,
    code: CodeModel,
    pass: Pass,
) -> Lowered
    decreases n,
{
    if n == 0 || n > locals.len() {
        Lowered { stack, code, error: None }
    } else {
        let before = bind_locals(locals, (n - 1) as nat, stack, code, pass);
        let name = locals[n - 1];
        Lowered {
            stack: match pass {
                Pass::First => before.stack.allocate_local(name),
                Pass::Second => before.stack.allocate_local_at(name, Location::Stack(-1i32)),
            },
            code: match pass {
                Pass::First => before.code,
                Pass::Second => before.code.emit(
                    push_line(RegisterOrNumber::Number(Number::Int(0))),
                ).annotate_last("local "@ + Identifier::debug_of(name)),
            },
            error: None,
        }
    }
}

/// The stack model after the first `n` of the names are given up.
pub open spec fn unbind(list: Seq<Seq<char>>, n: nat, stack: StackModel) -> StackModel
    decreases n,
{
    if n == 0 || n > list.len() {
        stack
    } else {
        unbind(list, (n - 1) as nat, stack).deallocate_local(list[n - 1])
    }
}

/// The states at the start of a function's body: the label of the function
/// is placed, with a comment that shows the function, then the parameters
/// and the variables are bound.
pub open spec fn function_prologue(
    identifier: Identifier,
    parameters: Seq<Identifier>,
    locals: Seq<Seq<char>>,
    stack: StackModel,
    code: CodeModel,
    pass: Pass,
) -> Lowered {
    let code = code.define_label(identifier@).annotate_last(
        "Function: "@ + identifier.debug_text() + " "@ + identifiers_debug(parameters),
    );
    let bound = bind_parameters(parameters, parameters.len(), stack, code, pass);
    bind_locals(locals, locals.len(), bound.stack, bound.code, pass)
}

/// The states at the end of a function: the variables and then the
/// parameters are given up, and the function returns to its caller.
pub open spec fn function_epilogue(
    parameters: Seq<Identifier>,
    locals: Seq<Seq<char>>,
    stack: StackModel,
    code: CodeModel,
) -> Lowered {
    Lowered {
        stack: unbind(
            names(parameters),
            parameters.len(),
            unbind(locals, locals.len(), stack),
        ),
        code: code.emit(return_line()),
        error: None,
    }
}

/// The lowering of the first `n` arguments of a call. Each is lowered as an
/// expression, which pushes it. Each of the first four is then popped into
/// its register, `r0` to `r3`; the others stay on the stack.
pub open spec fn lower_arguments(
    arguments: Seq<Box<Expr>>,
    n: nat,
    stack: StackModel,
    code: CodeModel,
    pass: Pass,
) -> Lowered
    decreases n,
{
    if n == 0 || n > arguments.len() {
        Lowered { stack, code, error: None }
    } else {
        let before = lower_arguments(arguments, (n - 1) as nat, stack, code, pass);
        if before.error is Some {
            before
        } else {
            let pushed = lower_expr(*arguments[n - 1], stack, before.code, pass);
            if pushed.error is None && n - 1 < 4 {
                Lowered {
                    code: pushed.code.emit(pop_line(Register::of_index(n - 1)->Some_0)),
                    ..pushed
                }
            } else {
                pushed
            }
        }
    }
}

/// The code after `count` values are popped into `r0`.
pub open spec fn discard(code: CodeModel, count: nat) -> CodeModel
    decreases count,
{
    if count == 0 {
        code
    } else {
        discard(code, (count - 1) as nat).emit(pop_line(Register::R0))
    }
}

/// The number of arguments that a call leaves on the stack.
pub open spec fn stacked_arguments(count: nat) -> nat {
    if count > 4 {
        (count - 4) as nat
    } else {
        0
    }
}

/// The line that a jump to the label goes to: in the first pass 0, which
/// holds the place; in the second what the label is bound to, if it is
/// bound.
pub open spec fn target_line(code: CodeModel, label: Seq<char>, pass: Pass) -> Option<i32> {
    match pass {
        Pass::First => Some(0),
        Pass::Second => if code.labels.dom().contains(label) {
            Some(code.labels[label])
        } else {
            None
        },
    }
}

/// `jal target`
pub open spec fn call_line(target: i32) -> Line {
    Line::Code(Instruction::FlowControl(FlowControl::JumpAndLink { a: target }))
}

/// `j target`
pub open spec fn jump_line(target: i32) -> Line {
    Line::Code(Instruction::FlowControl(FlowControl::Jump { a: target }))
}

/// `beqz r0 target`: a branch to `target` if `r0` holds 0.
pub open spec fn branch_if_zero_line(target: i32) -> Line {
    Line::Code(
        Instruction::FlowControl(
            FlowControl::BranchEqualZero {
                a: RegisterOrNumber::Register(Register::R0),
                b: RegisterOrNumber::Number(Number::Int(target)),
            },
        ),
    )
}

/// `l r0 device variable`
pub open spec fn load_line(device: Device, variable: DeviceVariable) -> Line {
    Line::Code(
        Instruction::DeviceIo(
            DeviceIo::LoadDeviceVariable { register: Register::R0, device, variable },
        ),
    )
}

/// `s device variable r0`
pub open spec fn store_line(device: Device, variable: DeviceVariable) -> Line {
    Line::Code(
        Instruction::DeviceIo(
            DeviceIo::StoreDeviceVariable { device, variable, register: Register::R0 },
        ),
    )
}

/// `yield`
pub open spec fn yield_line() -> Line {
    Line::Code(Instruction::Misc(Misc::Yield))
}

/// The states after the registers that a call must keep are saved: `ra`,
/// then `r4` to `r7`.
#[verifier::opaque]
pub open spec fn save_registers(stack: StackModel, code: CodeModel) -> Lowered {
    Lowered {
        stack: stack.save_register(Register::Ra).save_register(Register::R4).save_register(
            Register::R5,
        ).save_register(Register::R6).save_register(Register::R7),
        code: code.emit(push_line(RegisterOrNumber::Register(Register::Ra))).emit(
            push_line(RegisterOrNumber::Register(Register::R4)),
        ).emit(push_line(RegisterOrNumber::Register(Register::R5))).emit(
            push_line(RegisterOrNumber::Register(Register::R6)),
        ).emit(push_line(RegisterOrNumber::Register(Register::R7))),
        error: None,
    }
}

/// The states after the saved registers are restored, in the reverse
/// order: `r7` to `r4`, then `ra`.
#[verifier::opaque]
pub open spec fn restore_registers(stack: StackModel, code: CodeModel) -> Lowered {
    Lowered {
        stack: stack.restore_register().restore_register().restore_register().restore_register().restore_register(),
        code: code.emit(pop_line(Register::R7)).emit(pop_line(Register::R6)).emit(
            pop_line(Register::R5),
        ).emit(pop_line(Register::R4)).emit(pop_line(Register::Ra)),
        error: None,
    }
}

/// The lowering of a call. The arguments are lowered, a comment line is
/// written, the registers are saved, and the jump to the function is
/// written: with the function's line and a comment in the second pass,
/// where a function without a label is an undefined function, and with 0
/// in the first. Then the registers are restored and the arguments that
/// stayed on the stack are popped.
pub open spec fn lower_call(
    identifier: Identifier,
    arguments: Seq<Box<Expr>>,
    stack: StackModel,
    code: CodeModel,
    pass: Pass,
) -> Lowered {
    let passed = lower_arguments(arguments, arguments.len(), stack, code, pass);
    if passed.error is Some {
        passed
    } else {
        let saved = save_registers(passed.stack, passed.code.emit_comment_line("saving registers"@));
        match target_line(saved.code, identifier@, pass) {
            None => Lowered { error: Some(ErrorView::UndefinedFunction(identifier@)), ..saved },
            Some(target) => {
                let called = saved.code.emit(call_line(target));
                let called = match pass {
                    Pass::Second => called.annotate_last(
                        "FunctionCall: "@ + identifier.debug_text() + " "@ + exprs_debug(arguments),
                    ),
                    Pass::First => called,
                };
                let restored = restore_registers(saved.stack, called);
                Lowered {
                    code: discard(restored.code, stacked_arguments(arguments.len())),
                    ..restored
                }
            },
        }
    }
}

/// The device and the variable that a device statement names. The first
/// pass takes `d0` and `Setting` to hold the place. The second looks up the
/// device under its alias, and reads the variable from its name: an alias
/// that is not defined is an undefined variable, and a name that is no
/// device variable is a parse error.
pub open spec fn resolve_device(code: CodeModel, device: Seq<char>, variable: Seq<char>, pass: Pass)
    -> Result<(Device, DeviceVariable), ErrorView> {
    match pass {
        Pass::First => Ok((Device::D0, DeviceVariable::Setting)),
        Pass::Second => if !code.devices.dom().contains(device) {
            Err(ErrorView::UndefinedVariable(device))
        } else {
            match DeviceVariable::parse(variable) {
                Some(parsed) => Ok((code.devices[device], parsed)),
                None => Err(
                    ErrorView::Mips(crate::mips::error::ErrorView::ParseError(variable)),
                ),
            }
        },
    }
}

/// The lowering of an assignment: a comment line that shows it, then,
/// for a variable that is known, the value is lowered, popped into `r0`
/// and stored into the variable. A name that is no variable is an undefined
/// variable.
pub open spec fn lower_assignment(
    identifier: Identifier,
    expression: Expr,
    stack: StackModel,
    code: CodeModel,
    pass: Pass,
) -> Lowered {
    let code = code.emit_comment_line(
        "Assignment: "@ + identifier.debug_text() + " "@ + expression.debug_text(),
    );
    if !stack.locals.dom().contains(identifier@) {
        Lowered { stack, code, error: Some(ErrorView::UndefinedVariable(identifier@)) }
    } else {
        let value = lower_expr(expression, stack, code, pass);
        if value.error is Some {
            value
        } else {
            Lowered {
                code: value.code.emit(pop_line(Register::R0)).assign_variable(
                    stack.locals[identifier@],
                ),
                ..value
            }
        }
    }
}

/// The lowering of a definition: a comment line that shows it, then the
/// value is lowered. The value that this pushes is the variable: it is
/// recorded one slot below the stack pointer.
pub open spec fn lower_definition(
    identifier: Identifier,
    expression: Expr,
    stack: StackModel,
    code: CodeModel,
    pass: Pass,
) -> Lowered {
    let code = code.emit_comment_line(
        "Definition: "@ + identifier.debug_text() + " "@ + expression.debug_text(),
    );
    let value = lower_expr(expression, stack, code, pass);
    if value.error is Some {
        value
    } else {
        Lowered { stack: stack.allocate_local_at(identifier@, Location::Stack(-1i32)), ..value }
    }
}

/// The lowering of an alias: the device that the text names is bound to
/// the alias, and the declaration is written into the program. A text that
/// names no device is a parse error.
pub open spec fn lower_alias(
    identifier: Identifier,
    alias: Identifier,
    stack: StackModel,
    code: CodeModel,
) -> Lowered {
    match Device::parse(identifier@) {
        Some(device) => Lowered {
            stack,
            code: code.define_alias(alias@, device).emit(Line::Alias(alias@, identifier@)),
            error: None,
        },
        None => Lowered {
            stack,
            code,
            error: Some(ErrorView::Mips(crate::mips::error::ErrorView::ParseError(identifier@))),
        },
    }
}

/// The name of the conditional that is lowered next.
pub open spec fn next_if(stack: StackModel) -> Seq<char> {
    if_name(stack.if_counter)
}

/// The lowering of the test of a conditional: the condition is lowered and
/// popped into `r0`, the conditional is counted, and a branch is written
/// that is taken if `r0` holds 0, to the label made of the conditional's
/// name and `suffix`. In the second pass a label that is not bound stops
/// the lowering.
pub open spec fn lower_test(
    condition: Expr,
    suffix: Seq<char>,
    stack: StackModel,
    code: CodeModel,
    pass: Pass,
) -> Lowered {
    let tested = lower_expr(condition, stack, code, pass);
    if tested.error is Some {
        tested
    } else {
        let code = tested.code.emit(pop_line(Register::R0));
        let label = next_if(stack) + suffix;
        match target_line(code, label, pass) {
            None => Lowered {
                stack: stack.new_if(),
                code,
                error: Some(ErrorView::UndefinedFunction(label)),
            },
            Some(target) => Lowered {
                stack: stack.new_if(),
                code: code.emit(branch_if_zero_line(target)),
                error: None,
            },
        }
    }
}

/// The code after a jump to the label is written, or the error of a label
/// that is not bound in the second pass.
pub open spec fn lower_jump(label: Seq<char>, stack: StackModel, code: CodeModel, pass: Pass)
    -> Lowered {
    match target_line(code, label, pass) {
        None => Lowered { stack, code, error: Some(ErrorView::UndefinedFunction(label)) },
        Some(target) => Lowered { stack, code: code.emit(jump_line(target)), error: None },
    }
}

/// The lowering of a read from a device into a variable: the variable must
/// be known, else it is an undefined variable; then the device variable is
/// loaded into `r0` and stored into the variable.
pub open spec fn lower_device_read(
    device: Identifier,
    device_variable: Identifier,
    local: Identifier,
    stack: StackModel,
    code: CodeModel,
    pass: Pass,
) -> Lowered {
    if !stack.locals.dom().contains(local@) {
        Lowered { stack, code, error: Some(ErrorView::UndefinedVariable(local@)) }
    } else {
        match resolve_device(code, device@, device_variable@, pass) {
            Err(error) => Lowered { stack, code, error: Some(error) },
            Ok((device, variable)) => Lowered {
                stack,
                code: code.emit(load_line(device, variable)).assign_variable(stack.locals[local@]),
                error: None,
            },
        }
    }
}

/// The lowering of a write to a device: the value is lowered and popped
/// into `r0`, which is stored into the device variable.
pub open spec fn lower_device_write(
    value: Expr,
    device: Identifier,
    device_variable: Identifier,
    stack: StackModel,
    code: CodeModel,
    pass: Pass,
) -> Lowered {
    let value = lower_expr(value, stack, code, pass);
    if value.error is Some {
        value
    } else {
        let code = value.code.emit(pop_line(Register::R0));
        match resolve_device(code, device@, device_variable@, pass) {
            Err(error) => Lowered { stack, code, error: Some(error) },
            Ok((device, variable)) => Lowered {
                stack,
                code: code.emit(store_line(device, variable)),
                error: None,
            },
        }
    }
}

/// The lowering of the first `n` statements of a list, which stops at the
/// first statement that fails.
pub open spec fn lower_prefix(
    statements: Seq<Statement>,
    n: nat,
    stack: StackModel,
    code: CodeModel,
    pass: Pass,
) -> Lowered
    decreases statements, n,
{
    if n == 0 || n > statements.len() {
        Lowered { stack, code, error: None }
    } else {
        let before = lower_prefix(statements, (n - 1) as nat, stack, code, pass);
        if before.error is Some {
            before
        } else {
            lower_statement(statements[n - 1], before.stack, before.code, pass)
        }
    }
}

/// The lowering of a statement: the two states after it, and the error
/// that stopped it, if one did.
///
/// A constant is recorded and writes nothing. A function is its prologue,
/// its body and its epilogue. A block is its statements in order. A loop
/// places its label, lowers its body and jumps back to the label. A
/// conditional tests its condition, lowers its body and places its end
/// label; with an else branch, the test branches to the else label, the
/// body is followed by a jump to the end label, and the else branch stands
/// between the two labels. The other statements are described where they
/// are defined.
pub open spec fn lower_statement(statement: Statement, stack: StackModel, code: CodeModel, pass: Pass)
    -> Lowered
    decreases statement,
{
    match statement {
        Statement::Assignment { identifier, expression } => lower_assignment(
            identifier,
            *expression,
            stack,
            code,
            pass,
        ),
        Statement::Definition { identifier, expression } => lower_definition(
            identifier,
            *expression,
            stack,
            code,
            pass,
        ),
        Statement::Alias { identifier, alias } => lower_alias(identifier, alias, stack, code),
        Statement::Constant(identifier, value) => Lowered {
            stack,
            code: code.define_constant(identifier@, value),
            error: None,
        },
        Statement::Function { identifier, parameters, body: Block::Statements(list) } => {
            let locals = discovered_prefix(list@, list@.len(), Seq::empty());
            let entered = function_prologue(identifier, parameters@, locals, stack, code, pass);
            let inner = lower_prefix(list@, list@.len(), entered.stack, entered.code, pass);
            if inner.error is Some {
                inner
            } else {
                function_epilogue(parameters@, locals, inner.stack, inner.code)
            }
        },
        Statement::FunctionCall { identifier, arguments } => lower_call(
            identifier,
            arguments@,
            stack,
            code,
            pass,
        ),
        Statement::Block(Block::Statements(list)) => lower_prefix(
            list@,
            list@.len(),
            stack,
            code,
            pass,
        ),
        Statement::Loop { body: Block::Statements(list) } => {
            let label = loop_name(stack.loop_counter);
            let inner = lower_prefix(
                list@,
                list@.len(),
                stack.new_loop(),
                code.define_label(label),
                pass,
            );
            if inner.error is Some {
                inner
            } else {
                let back = lower_jump(label, inner.stack, inner.code, pass);
                if back.error is Some {
                    back
                } else {
                    Lowered { stack: back.stack.end_loop(), ..back }
                }
            }
        },
        Statement::IfStatement(IfStatement::If { condition, body: Block::Statements(list) }) => {
            let tested = lower_test(*condition, "_end"@, stack, code, pass);
            if tested.error is Some {
                tested
            } else {
                let inner = lower_prefix(list@, list@.len(), tested.stack, tested.code, pass);
                if inner.error is Some {
                    inner
                } else {
                    Lowered { code: inner.code.define_label(next_if(stack) + "_end"@), ..inner }
                }
            }
        },
        Statement::IfStatement(
            IfStatement::IfElse {
                condition,
                body: Block::Statements(list),
                else_body: Block::Statements(else_list),
            },
        ) => {
            let tested = lower_test(*condition, "_else"@, stack, code, pass);
            if tested.error is Some {
                tested
            } else {
                let inner = lower_prefix(list@, list@.len(), tested.stack, tested.code, pass);
                if inner.error is Some {
                    inner
                } else {
                    let over = lower_jump(next_if(stack) + "_end"@, inner.stack, inner.code, pass);
                    if over.error is Some {
                        over
                    } else {
                        let other = lower_prefix(
                            else_list@,
                            else_list@.len(),
                            over.stack,
                            over.code.define_label(next_if(stack) + "_else"@),
                            pass,
                        );
                        if other.error is Some {
                            other
                        } else {
                            Lowered {
                                code: other.code.define_label(next_if(stack) + "_end"@),
                                ..other
                            }
                        }
                    }
                }
            }
        },
        Statement::DeviceStatement(DeviceStatement::Read { device, device_variable, local }) => {
            lower_device_read(device, device_variable, local, stack, code, pass)
        },
        Statement::DeviceStatement(DeviceStatement::Write { value, device, device_variable }) => {
            lower_device_write(*value, device, device_variable, stack, code, pass)
        },
        Statement::Yield => Lowered { stack, code: code.emit(yield_line()), error: None },
    }
}

/// Once a statement of a list has failed, the lowering of any longer
/// prefix of the list is the same.
pub proof fn lemma_prefix_stops(
    statements: Seq<Statement>,
    n: nat,
    m: nat,
    stack: StackModel,
    code: CodeModel,
    pass: Pass,
)
    requires
        n <= m <= statements.len(),
        lower_prefix(statements, n, stack, code, pass).error is Some,
    ensures
        lower_prefix(statements, m, stack, code, pass) == lower_prefix(
            statements,
            n,
            stack,
            code,
            pass,
        ),
    decreases m,
{
    if n < m {
        lemma_prefix_stops(statements, n, (m - 1) as nat, stack, code, pass);
    }
}

/// Once an argument of a call has failed, the lowering of any longer prefix
/// of the arguments is the same.
pub proof fn lemma_arguments_stop(
    arguments: Seq<Box<Expr>>,
    n: nat,
    m: nat,
    stack: StackModel,
    code: CodeModel,
    pass: Pass,
)
    requires
        n <= m <= arguments.len(),
        lower_arguments(arguments, n, stack, code, pass).error is Some,
    ensures
        lower_arguments(arguments, m, stack, code, pass) == lower_arguments(
            arguments,
            n,
            stack,
            code,
            pass,
        ),
    decreases m,
{
    if n < m {
        lemma_arguments_stop(arguments, n, (m - 1) as nat, stack, code, pass);
    }
}

/// Tells whether the list holds the name.
fn contains_name(list: &Vec<Identifier>, name: &str) -> (r: bool)
    ensures
        r == names(list@).contains(name@),
{
    let mut i: usize = 0;
    while i < list.len()
        invariant
            i <= list.len(),
            forall|j: int| 0 <= j < i ==> names(list@)[j] != name@,
        decreases list.len() - i,
    {
        if list[i].as_str().eq(name) {
            assert(names(list@)[i as int] == name@);
            return true;
        }
        i += 1;
    }
    false
}

/// Puts the name at the end of the list, unless the list holds it.
fn remember_name(locals: &mut Vec<Identifier>, identifier: &Identifier)
    ensures
        names(final(locals)@) == remember(names(old(locals)@), identifier@),
{
    if !contains_name(locals, identifier.as_str()) {
        locals.push(Identifier::new(identifier.as_str()));
        assert(names(locals@) =~= names(old(locals)@).push(identifier@));
    }
}

/// Finds all of the locals used in a list of statements.
fn find_locals_in(statements: &Vec<Statement>, locals: &mut Vec<Identifier>)
    ensures
        names(final(locals)@) == discovered_prefix(
            statements@,
            statements@.len(),
            names(old(locals)@),
        ),
    decreases statements,
{
    let mut i: usize = 0;
    while i < statements.len()
        invariant
            i <= statements.len(),
            names(locals@) == discovered_prefix(statements@, i as nat, names(old(locals)@)),
        decreases statements.len() - i,
    {
        find_locals(&statements[i], locals);
        i += 1;
    }
}

/// Finds all of the locals used in a statement: the variables that it
/// defines and the names that it passes to functions, each once, in the
/// order in which they are met. Blocks are searched; functions, loops and
/// conditionals are not.
pub fn find_locals(statement: &Statement, locals: &mut Vec<Identifier>)
    ensures
        names(final(locals)@) == discovered(*statement, names(old(locals)@)),
    decreases statement,
{
    match statement {
        Statement::Definition { identifier, .. } => {
            remember_name(locals, identifier);
        },
        Statement::Block(Block::Statements(statements)) => {
            find_locals_in(statements, locals);
        },
        Statement::FunctionCall { arguments, .. } => {
            let mut i: usize = 0;
            while i < arguments.len()
                invariant
                    i <= arguments.len(),
                    names(locals@) == discovered_arguments(
                        arguments@,
                        i as nat,
                        names(old(locals)@),
                    ),
                decreases arguments.len() - i,
            {
                match &*arguments[i] {
                    Expr::Identifier(identifier) => {
                        remember_name(locals, identifier);
                    },
                    _ => {},
                }
                i += 1;
            }
        },
        _ => {},
    }
}

/// The register in which the argument with the given index is passed.
fn argument_register(index: usize) -> (r: Register)
    requires
        index < 4,
    ensures
        Some(r) == Register::of_index(index as int),
{
    if index == 0 {
        Register::R0
    } else if index == 1 {
        Register::R1
    } else if index == 2 {
        Register::R2
    } else {
        Register::R3
    }
}

/// Binds the parameters of a function to the places in which the caller
/// left the arguments.
fn receive_parameters(
    parameters: &Vec<Identifier>,
    stack: &mut Stack,
    codegen: &mut CodeGenerator,
    pass: Pass,
)
    ensures
        bind_parameters(parameters@, parameters@.len(), old(stack)@, old(codegen)@, pass) == (
        Lowered { stack: final(stack)@, code: final(codegen)@, error: None }),
{
    let mut i: usize = 0;
    while i < parameters.len()
        invariant
            i <= parameters.len(),
            bind_parameters(parameters@, i as nat, old(stack)@, old(codegen)@, pass) == (Lowered {
                stack: stack@,
                code: codegen@,
                error: None,
            }),
        decreases parameters.len() - i,
    {
        let parameter = &parameters[i];
        if i < 4 {
            // receive parameter from register
            let register = argument_register(i);
            match pass {
                Pass::Second => {
                    stack_push(codegen, RegisterOrNumber::Register(register));
                    let mut note = concat2("parameter ", parameter.debug_string().as_str());
                    note.append(" from ");
                    note.append(register.debug_string().as_str());
                    codegen.add_comment(note);
                },
                Pass::First => {},
            }
            stack.allocate_local_at(parameter.to_string(), Location::Register(register));
        } else {
            // receive parameter from stack
            let offset = #[verifier::truncate]
            ((parameters.len() - i) as i32);
            stack.allocate_local_at(parameter.to_string(), Location::Stack(offset));
            match pass {
                Pass::Second => {
                    let mut note = concat2("parameter ", parameter.debug_string().as_str());
                    note.append(" from stack offset ");
                    note.append(int_to_string(offset as i64).as_str());
                    codegen.add_comment_line(note);
                },
                Pass::First => {},
            }
        }
        i += 1;
    }
}

/// Gives each variable of a function a slot that holds 0.
fn reserve_locals(
    locals: &Vec<Identifier>,
    stack: &mut Stack,
    codegen: &mut CodeGenerator,
    pass: Pass,
)
    ensures
        bind_locals(names(locals@), locals@.len(), old(stack)@, old(codegen)@, pass) == (Lowered {
            stack: final(stack)@,
            code: final(codegen)@,
            error: None,
        }),
{
    let mut i: usize = 0;
    while i < locals.len()
        invariant
            i <= locals.len(),
            bind_locals(names(locals@), i as nat, old(stack)@, old(codegen)@, pass) == (Lowered {
                stack: stack@,
                code: codegen@,
                error: None,
            }),
        decreases locals.len() - i,
    {
        let local = &locals[i];
        match pass {
            Pass::First => {
                // only count the slot
                stack.allocate_local(local.to_string());
            },
            Pass::Second => {
                stack_push(codegen, RegisterOrNumber::Number(Number::Int(0)));
                codegen.add_comment(concat2("local ", local.debug_string().as_str()));
                stack.allocate_local_at(local.to_string(), Location::Stack(-1));
            },
        }
        i += 1;
    }
}

/// Gives up the variables of the list, first to last.
fn release(list: &Vec<Identifier>, stack: &mut Stack)
    ensures
        final(stack)@ == unbind(names(list@), list@.len(), old(stack)@),
{
    let mut i: usize = 0;
    while i < list.len()
        invariant
            i <= list.len(),
            stack@ == unbind(names(list@), i as nat, old(stack)@),
        decreases list.len() - i,
    {
        stack.deallocate_local(list[i].as_str());
        i += 1;
    }
}

/// Lowers the arguments of a call, each into its register or onto the
/// stack.
fn generate_arguments(
    arguments: &Vec<Box<Expr>>,
    stack: &Stack,
    codegen: &mut CodeGenerator,
    pass: Pass,
) -> (r: Result<(), Error>)
    ensures
        lower_arguments(arguments@, arguments@.len(), stack@, old(codegen)@, pass) == (Lowered {
            stack: stack@,
            code: final(codegen)@,
            error: error_of(r),
        }),
{
    let mut i: usize = 0;
    while i < arguments.len()
        invariant
            i <= arguments.len(),
            lower_arguments(arguments@, i as nat, stack@, old(codegen)@, pass) == (Lowered {
                stack: stack@,
                code: codegen@,
                error: None,
            }),
        decreases arguments.len() - i,
    {
        match generate_expr(&arguments[i], stack, codegen, pass) {
            Err(e) => {
                proof {
                    lemma_arguments_stop(
                        arguments@,
                        (i + 1) as nat,
                        arguments@.len(),
                        stack@,
                        old(codegen)@,
                        pass,
                    );
                }
                return Err(e);
            },
            Ok(_) => {},
        }
        if i < 4 {
            // pass argument as register
            stack_pop(codegen, argument_register(i));
        }
        // otherwise the argument stays where the expression left it: on the stack

        i += 1;
    }
    Ok(())
}

/// The line that a jump to the label is written with.
fn lookup(codegen: &CodeGenerator, label: &str, pass: Pass) -> (r: Option<i32>)
    ensures
        r == target_line(codegen@, label@, pass),
{
    match pass {
        // hold the place for the second pass
        Pass::First => Some(0),
        Pass::Second => codegen.get_label(label),
    }
}

/// Saves the registers that a call must keep.
fn save_all(stack: &mut Stack, codegen: &mut CodeGenerator)
    ensures
        save_registers(old(stack)@, old(codegen)@) == (Lowered {
            stack: final(stack)@,
            code: final(codegen)@,
            error: None,
        }),
{
    proof {
        reveal(save_registers);
    }
    stack.save_register(Register::Ra, codegen);
    stack.save_register(Register::R4, codegen);
    stack.save_register(Register::R5, codegen);
    stack.save_register(Register::R6, codegen);
    stack.save_register(Register::R7, codegen);
}

/// Restores the registers that a call has saved.
fn restore_all(stack: &mut Stack, codegen: &mut CodeGenerator)
    ensures
        restore_registers(old(stack)@, old(codegen)@) == (Lowered {
            stack: final(stack)@,
            code: final(codegen)@,
            error: None,
        }),
{
    proof {
        reveal(restore_registers);
    }
    stack.restore_register(Register::R7, codegen);
    stack.restore_register(Register::R6, codegen);
    stack.restore_register(Register::R5, codegen);
    stack.restore_register(Register::R4, codegen);
    stack.restore_register(Register::Ra, codegen);
}

/// Lowers a call of a function.
#[verifier::rlimit(40)]
fn generate_call(
    identifier: &Identifier,
    arguments: &Vec<Box<Expr>>,
    stack: &mut Stack,
    codegen: &mut CodeGenerator,
    pass: Pass,
) -> (r: Result<(), Error>)
    ensures
        lower_call(*identifier, arguments@, old(stack)@, old(codegen)@, pass) == (Lowered {
            stack: final(stack)@,
            code: final(codegen)@,
            error: error_of(r),
        }),
{
    // pass arguments
    match generate_arguments(arguments, stack, codegen, pass) {
        Err(e) => {
            return Err(e);
        },
        Ok(_) => {},
    }
    // save registers
    codegen.add_comment_line("saving registers".to_string());
    save_all(stack, codegen);
    // call function
    let target = match lookup(codegen, identifier.as_str(), pass) {
        Some(target) => target,
        None => {
            return Err(Error::UndefinedFunction(identifier.to_string()));
        },
    };
    codegen.add_instruction(Instruction::FlowControl(FlowControl::JumpAndLink { a: target }));
    match pass {
        Pass::Second => {
            let mut note = concat2("FunctionCall: ", identifier.debug_string().as_str());
            note.append(" ");
            note.append(exprs_debug_string(arguments).as_str());
            codegen.add_comment(note);
        },
        Pass::First => {},
    }
    // restore saved registers
    restore_all(stack, codegen);
    // deallocate arguments
    let ghost restored = codegen@;
    let mut i: usize = 4;
    while i < arguments.len()
        invariant
            4 <= i,
            i == 4 || i <= arguments.len(),
            codegen@ == discard(restored, (i - 4) as nat),
        decreases arguments.len() - i,
    {
        stack_pop(codegen, Register::R0);
        i += 1;
    }
    assert((i - 4) as nat == stacked_arguments(arguments@.len()));
    Ok(())
}

/// Finds the device and the variable that a device statement names.
fn resolve(codegen: &CodeGenerator, device: &Identifier, variable: &Identifier, pass: Pass) -> (r:
    Result<(Device, DeviceVariable), Error>)
    ensures
        match r {
            Ok(found) => resolve_device(codegen@, device@, variable@, pass) == Ok::<
                (Device, DeviceVariable),
                ErrorView,
            >(found),
            Err(e) => resolve_device(codegen@, device@, variable@, pass) == Err::<
                (Device, DeviceVariable),
                ErrorView,
            >(e@),
        },
{
    match pass {
        // hold the place for the second pass
        Pass::First => Ok((Device::D0, DeviceVariable::Setting)),
        Pass::Second => {
            let found = match codegen.get_device(device.as_str()) {
                Some(found) => found,
                None => {
                    return Err(Error::UndefinedVariable(device.to_string()));
                },
            };
            match DeviceVariable::from_str(variable.as_str()) {
                Ok(parsed) => Ok((found, parsed)),
                Err(e) => Err(Error::Mips(e)),
            }
        },
    }
}

/// Lowers the statements of a list in order, up to the first that fails.
pub fn generate_block(
    statements: &Vec<Statement>,
    stack: &mut Stack,
    codegen: &mut CodeGenerator,
    pass: Pass,
) -> (r: Result<(), Error>)
    ensures
        lower_prefix(statements@, statements@.len(), old(stack)@, old(codegen)@, pass) == (Lowered {
            stack: final(stack)@,
            code: final(codegen)@,
            error: error_of(r),
        }),
    decreases statements,
{
    let mut i: usize = 0;
    while i < statements.len()
        invariant
            i <= statements.len(),
            lower_prefix(statements@, i as nat, old(stack)@, old(codegen)@, pass) == (Lowered {
                stack: stack@,
                code: codegen@,
                error: None,
            }),
        decreases statements.len() - i,
    {
        match generate_statement(&statements[i], stack, codegen, pass) {
            Err(e) => {
                proof {
                    lemma_prefix_stops(
                        statements@,
                        (i + 1) as nat,
                        statements@.len(),
                        old(stack)@,
                        old(codegen)@,
                        pass,
                    );
                }
                return Err(e);
            },
            Ok(_) => {},
        }
        i += 1;
    }
    Ok(())
}

/// Lowers an assignment to a variable.
fn generate_assignment(
    identifier: &Identifier,
    expression: &Expr,
    stack: &Stack,
    codegen: &mut CodeGenerator,
    pass: Pass,
) -> (r: Result<(), Error>)
    ensures
        lower_assignment(*identifier, *expression, stack@, old(codegen)@, pass) == (Lowered {
            stack: stack@,
            code: final(codegen)@,
            error: error_of(r),
        }),
{
    let mut note = concat2("Assignment: ", identifier.debug_string().as_str());
    note.append(" ");
    note.append(expression.debug_string().as_str());
    codegen.add_comment_line(note);
    let location = match stack.get_local(identifier.as_str()) {
        Some(location) => location,
        None => {
            return Err(Error::UndefinedVariable(identifier.to_string()));
        },
    };
    match generate_expr(expression, stack, codegen, pass) {
        Err(e) => {
            return Err(e);
        },
        Ok(_) => {},
    }
    // pop the result of the expression off the stack
    stack_pop(codegen, Register::R0);
    assign_variable(codegen, location);
    Ok(())
}

/// Lowers the definition of a variable.
fn generate_definition(
    identifier: &Identifier,
    expression: &Expr,
    stack: &mut Stack,
    codegen: &mut CodeGenerator,
    pass: Pass,
) -> (r: Result<(), Error>)
    ensures
        lower_definition(*identifier, *expression, old(stack)@, old(codegen)@, pass) == (Lowered {
            stack: final(stack)@,
            code: final(codegen)@,
            error: error_of(r),
        }),
{
    let mut note = concat2("Definition: ", identifier.debug_string().as_str());
    note.append(" ");
    note.append(expression.debug_string().as_str());
    codegen.add_comment_line(note);
    // generate code for value expression
    match generate_expr(expression, stack, codegen, pass) {
        Err(e) => {
            return Err(e);
        },
        Ok(_) => {},
    }
    // the value that the expression pushed is the local variable
    stack.allocate_local_at(identifier.to_string(), Location::Stack(-1));
    Ok(())
}

/// Lowers the declaration of a name for a device.
fn generate_alias(identifier: &Identifier, alias: &Identifier, codegen: &mut CodeGenerator) -> (r:
    Result<(), Error>)
    ensures
        forall|stack: StackModel|
            #[trigger] lower_alias(*identifier, *alias, stack, old(codegen)@) == (Lowered {
                stack,
                code: final(codegen)@,
                error: error_of(r),
            }),
{
    let device = match Device::from_str(identifier.as_str()) {
        Ok(device) => device,
        Err(e) => {
            return Err(Error::Mips(e));
        },
    };
    codegen.add_alias(alias.to_string(), device);
    // The alias is tracked here, so the program would do without this line;
    // it is written for its reader.
    codegen.add_instruction(
        Instruction::Misc(Misc::Alias { name: alias.to_string(), target: identifier.to_string() }),
    );
    Ok(())
}

/// Places the label of a function and binds its parameters and its
/// variables. Returns the variables.
fn enter_function(
    identifier: &Identifier,
    parameters: &Vec<Identifier>,
    body: &Vec<Statement>,
    stack: &mut Stack,
    codegen: &mut CodeGenerator,
    pass: Pass,
) -> (locals: Vec<Identifier>)
    ensures
        names(locals@) == discovered_prefix(body@, body@.len(), Seq::empty()),
        function_prologue(
            *identifier,
            parameters@,
            names(locals@),
            old(stack)@,
            old(codegen)@,
            pass,
        ) == (Lowered { stack: final(stack)@, code: final(codegen)@, error: None }),
{
    codegen.add_label(identifier.to_string());
    let mut note = concat2("Function: ", identifier.debug_string().as_str());
    note.append(" ");
    note.append(identifiers_debug_string(parameters).as_str());
    codegen.add_comment(note);
    // allocate space for function parameters
    receive_parameters(parameters, stack, codegen, pass);
    // allocate locals
    let mut locals = Vec::new();
    assert(names(locals@) =~= Seq::empty());
    find_locals_in(body, &mut locals);
    reserve_locals(&locals, stack, codegen, pass);
    locals
}

/// Gives up the variables and the parameters of a function and returns to
/// its caller.
fn leave_function(
    parameters: &Vec<Identifier>,
    locals: &Vec<Identifier>,
    stack: &mut Stack,
    codegen: &mut CodeGenerator,
)
    ensures
        function_epilogue(parameters@, names(locals@), old(stack)@, old(codegen)@) == (Lowered {
            stack: final(stack)@,
            code: final(codegen)@,
            error: None,
        }),
{
    // deallocate locals
    release(locals, stack);
    // deallocate parameters
    release(parameters, stack);
    function_return(codegen);
}

/// Lowers the test of a conditional, and returns the conditional's name.
fn generate_test(
    condition: &Expr,
    suffix: &str,
    stack: &mut Stack,
    codegen: &mut CodeGenerator,
    pass: Pass,
) -> (r: Result<String, Error>)
    ensures
        lower_test(*condition, suffix@, old(stack)@, old(codegen)@, pass) == (Lowered {
            stack: final(stack)@,
            code: final(codegen)@,
            error: match r {
                Ok(_) => None,
                Err(e) => Some(e@),
            },
        }),
        r matches Ok(name) ==> name@ == next_if(old(stack)@),
{
    // evaluate the condition
    match generate_expr(condition, stack, codegen, pass) {
        Err(e) => {
            return Err(e);
        },
        Ok(_) => {},
    }
    // pop the condition from the stack
    stack_pop(codegen, Register::R0);
    let if_label = stack.new_if();
    let label = concat2(if_label.as_str(), suffix);
    // jump to the label if the condition is false
    let target = match lookup(codegen, label.as_str(), pass) {
        Some(target) => target,
        None => {
            return Err(Error::UndefinedFunction(label));
        },
    };
    codegen.add_instruction(
        Instruction::FlowControl(
            FlowControl::BranchEqualZero {
                a: RegisterOrNumber::Register(Register::R0),
                b: RegisterOrNumber::Number(Number::Int(target)),
            },
        ),
    );
    Ok(if_label)
}

/// Writes a jump to a label.
fn generate_jump(label: &str, codegen: &mut CodeGenerator, pass: Pass) -> (r: Result<(), Error>)
    ensures
        forall|stack: StackModel|
            #[trigger] lower_jump(label@, stack, old(codegen)@, pass) == (Lowered {
                stack,
                code: final(codegen)@,
                error: error_of(r),
            }),
{
    let target = match lookup(codegen, label, pass) {
        Some(target) => target,
        None => {
            return Err(Error::UndefinedFunction(label.to_string()));
        },
    };
    codegen.add_instruction(Instruction::FlowControl(FlowControl::Jump { a: target }));
    Ok(())
}

/// Lowers a read from a device into a variable.
fn generate_device_read(
    device: &Identifier,
    device_variable: &Identifier,
    local: &Identifier,
    stack: &Stack,
    codegen: &mut CodeGenerator,
    pass: Pass,
) -> (r: Result<(), Error>)
    ensures
        lower_device_read(*device, *device_variable, *local, stack@, old(codegen)@, pass) == (
        Lowered { stack: stack@, code: final(codegen)@, error: error_of(r) }),
{
    let location = match stack.get_local(local.as_str()) {
        Some(location) => location,
        None => {
            return Err(Error::UndefinedVariable(local.to_string()));
        },
    };
    let (device, variable) = match resolve(codegen, device, device_variable, pass) {
        Ok(found) => found,
        Err(e) => {
            return Err(e);
        },
    };
    // Load the device variable into a register
    codegen.add_instruction(
        Instruction::DeviceIo(
            DeviceIo::LoadDeviceVariable { register: Register::R0, device, variable },
        ),
    );
    assign_variable(codegen, location);
    Ok(())
}

/// Lowers a write of a value to a device.
fn generate_device_write(
    value: &Expr,
    device: &Identifier,
    device_variable: &Identifier,
    stack: &Stack,
    codegen: &mut CodeGenerator,
    pass: Pass,
) -> (r: Result<(), Error>)
    ensures
        lower_device_write(*value, *device, *device_variable, stack@, old(codegen)@, pass) == (
        Lowered { stack: stack@, code: final(codegen)@, error: error_of(r) }),
{
    match generate_expr(value, stack, codegen, pass) {
        Err(e) => {
            return Err(e);
        },
        Ok(_) => {},
    }
    // pop the value from the stack
    stack_pop(codegen, Register::R0);
    let (device, variable) = match resolve(codegen, device, device_variable, pass) {
        Ok(found) => found,
        Err(e) => {
            return Err(e);
        },
    };
    // Store the register into the device variable
    codegen.add_instruction(
        Instruction::DeviceIo(
            DeviceIo::StoreDeviceVariable { device, variable, register: Register::R0 },
        ),
    );
    Ok(())
}

/// Evaluates a single statement and generates the corresponding MIPS assembly code.
#[verifier::rlimit(40)]
pub fn generate_statement(
    statement: &Statement,
    stack: &mut Stack,
    codegen: &mut CodeGenerator,
    pass: Pass,
) -> (r: Result<(), Error>)
    ensures
        lower_statement(*statement, old(stack)@, old(codegen)@, pass) == (Lowered {
            stack: final(stack)@,
            code: final(codegen)@,
            error: error_of(r),
        }),
    decreases statement,
{
    match statement {
        Statement::Assignment { identifier, expression } => generate_assignment(
            identifier,
            expression,
            stack,
            codegen,
            pass,
        ),
        Statement::Definition { identifier, expression } => generate_definition(
            identifier,
            expression,
            stack,
            codegen,
            pass,
        ),
        Statement::Alias { identifier, alias } => generate_alias(identifier, alias, codegen),
        Statement::Constant(identifier, value) => {
            codegen.add_constant(identifier.to_string(), value.copy());
            Ok(())
        },
        Statement::Function { identifier, parameters, body: Block::Statements(body) } => {
            // function prologue
            let locals = enter_function(identifier, parameters, body, stack, codegen, pass);
            // function body
            match generate_block(body, stack, codegen, pass) {
                Err(e) => {
                    return Err(e);
                },
                Ok(_) => {},
            }
            // function epilogue
            leave_function(parameters, &locals, stack, codegen);
            Ok(())
        },
        Statement::FunctionCall { identifier, arguments } => generate_call(
            identifier,
            arguments,
            stack,
            codegen,
            pass,
        ),
        Statement::Block(Block::Statements(statements)) => generate_block(
            statements,
            stack,
            codegen,
            pass,
        ),
        Statement::Loop { body: Block::Statements(body) } => {
            let loop_label = stack.new_loop();
            codegen.add_label(loop_label.clone());
            match generate_block(body, stack, codegen, pass) {
                Err(e) => {
                    return Err(e);
                },
                Ok(_) => {},
            }
            // jump back to the start of the loop
            match generate_jump(loop_label.as_str(), codegen, pass) {
                Err(e) => {
                    return Err(e);
                },
                Ok(_) => {},
            }
            stack.end_loop();
            Ok(())
        },
        Statement::IfStatement(IfStatement::If { condition, body: Block::Statements(body) }) => {
            // handle if without else
            // if the condition is false, jump to the end of the if statement
            let if_label = match generate_test(condition, "_end", stack, codegen, pass) {
                Err(e) => {
                    return Err(e);
                },
                Ok(if_label) => if_label,
            };
            // generate the if body
            match generate_block(body, stack, codegen, pass) {
                Err(e) => {
                    return Err(e);
                },
                Ok(_) => {},
            }
            // add label for end of if statement
            codegen.add_label(concat2(if_label.as_str(), "_end"));
            Ok(())
        },
        Statement::IfStatement(
            IfStatement::IfElse {
                condition,
                body: Block::Statements(body),
                else_body: Block::Statements(else_body),
            },
        ) => {
            // handle if with else
            // if the condition is false, jump to the else statement
            let if_label = match generate_test(condition, "_else", stack, codegen, pass) {
                Err(e) => {
                    return Err(e);
                },
                Ok(if_label) => if_label,
            };
            let else_label = concat2(if_label.as_str(), "_else");
            let end_label = concat2(if_label.as_str(), "_end");
            // generate the if body
            match generate_block(body, stack, codegen, pass) {
                Err(e) => {
                    return Err(e);
                },
                Ok(_) => {},
            }
            // jump to end of if statement
            match generate_jump(end_label.as_str(), codegen, pass) {
                Err(e) => {
                    return Err(e);
                },
                Ok(_) => {},
            }
            // add label for else statement
            codegen.add_label(else_label);
            // generate the else body
            match generate_block(else_body, stack, codegen, pass) {
                Err(e) => {
                    return Err(e);
                },
                Ok(_) => {},
            }
            // add label for end of if statement
            codegen.add_label(end_label);
            Ok(())
        },
        Statement::DeviceStatement(DeviceStatement::Read { device, device_variable, local }) => {
            generate_device_read(device, device_variable, local, stack, codegen, pass)
        },
        Statement::DeviceStatement(DeviceStatement::Write { value, device, device_variable }) => {
            generate_device_write(value, device, device_variable, stack, codegen, pass)
        },
        Statement::Yield => {
            codegen.add_instruction(Instruction::Misc(Misc::Yield));
            Ok(())
        },
    }
}

} // verus!
