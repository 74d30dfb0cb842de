//! How the lowering moves the stack offset: a function leaves it where it
//! found it, if it has no parameters and, in the second pass, no variables
//! of its own.
use vstd::prelude::*;
use crate::compiler::codegen::CodeModel;
use crate::compiler::laws::{
    lemma_bind_locals_labels, lemma_bind_parameters_labels, lemma_call_frame, lemma_expr_frame,
};
use crate::compiler::stack::{loop_name, StackModel};
use crate::compiler::statement::{
    bind_locals, bind_parameters, discovered_prefix, function_epilogue, function_prologue,
    lower_assignment, lower_definition, lower_device_read, lower_device_write, lower_jump,
    lower_prefix, lower_statement, lower_test, names, next_if, unbind,
};
use crate::compiler::Pass;
use crate::parser::ast::{Block, DeviceStatement, Expr, Identifier, IfStatement, Statement};

verus! {

/// The stack offset that an integer stands for: the value in the 32 bits
/// of an offset that differs from it by a multiple of 2^32.
#[verifier::opaque]
pub open spec fn wrapped(value: int) -> i32 {
    let low = value % 0x1_0000_0000;
    if low > i32::MAX {
        (low - 0x1_0000_0000) as i32
    } else {
        low as i32
    }
}

/// An offset stands for itself.
pub proof fn lemma_wrapped_offset(offset: i32)
    ensures
        wrapped(offset as int) == offset,
{
    reveal(wrapped);
}

/// Counting an offset up or down by one is counting the integer.
pub proof fn lemma_wrapped_step(value: int)
    ensures
        wrapped(value).wrapping_add(1) == wrapped(value + 1),
        wrapped(value).wrapping_sub(1) == wrapped(value - 1),
{
    reveal(wrapped);
}

/// Changes of an offset add up as integers do.
pub proof fn lemma_wrapped_sum(value: int, change: int)
    ensures
        wrapped(wrapped(value) + change) == wrapped(value + change),
{
    reveal(wrapped);
}

/// Binding parameters moves no stack offset.
pub proof fn lemma_bind_parameters_offset(
    parameters: Seq<Identifier>,
    n: nat,
    stack: StackModel,
    code: CodeModel,
    pass: Pass,
)
    ensures
        bind_parameters(parameters, n, stack, code, pass).stack.sp_offset == stack.sp_offset,
    decreases n,
{
    if n == 0 || n > parameters.len() {
    } else {
        lemma_bind_parameters_offset(parameters, (n - 1) as nat, stack, code, pass);
    }
}

/// Binding `n` variables counts `n` slots in the first pass and none in
/// the second.
pub proof fn lemma_bind_locals_offset(
    locals: Seq<Seq<char>>,
    n: nat,
    stack: StackModel,
    code: CodeModel,
    pass: Pass,
)
    requires
        n <= locals.len(),
    ensures
        bind_locals(locals, n, stack, code, pass).stack.sp_offset == match pass {
            Pass::First => wrapped(stack.sp_offset + n),
            Pass::Second => stack.sp_offset,
        },
    decreases n,
{
    if n == 0 {
        lemma_wrapped_offset(stack.sp_offset);
    } else {
        lemma_bind_locals_offset(locals, (n - 1) as nat, stack, code, pass);
        lemma_wrapped_step(stack.sp_offset + n - 1);
    }
}

/// Giving up `n` variables gives up `n` slots.
pub proof fn lemma_unbind_offset(list: Seq<Seq<char>>, n: nat, stack: StackModel)
    requires
        n <= list.len(),
    ensures
        unbind(list, n, stack).sp_offset == wrapped(stack.sp_offset - n),
    decreases n,
{
    if n == 0 {
        lemma_wrapped_offset(stack.sp_offset);
    } else {
        lemma_unbind_offset(list, (n - 1) as nat, stack);
        lemma_wrapped_step(stack.sp_offset - (n - 1));
    }
}

/// The prologue of a function counts a slot for each variable in the first
/// pass and none in the second.
pub proof fn lemma_prologue_offset(
    identifier: Identifier,
    parameters: Seq<Identifier>,
    locals: Seq<Seq<char>>,
    stack: StackModel,
    code: CodeModel,
    pass: Pass,
)
    ensures
        function_prologue(identifier, parameters, locals, stack, code, pass).error is None,
        function_prologue(identifier, parameters, locals, stack, code, pass).stack.sp_offset
            == match pass {
            Pass::First => wrapped(stack.sp_offset + locals.len()),
            Pass::Second => stack.sp_offset,
        },
{
    let labelled = code.define_label(identifier@).annotate_last(
        "Function: "@ + identifier.debug_text() + " "@ + crate::parser::ast::identifiers_debug(
            parameters,
        ),
    );
    lemma_bind_parameters_offset(parameters, parameters.len(), stack, labelled, pass);
    lemma_bind_parameters_labels(parameters, parameters.len(), stack, labelled, pass);
    let bound = bind_parameters(parameters, parameters.len(), stack, labelled, pass);
    lemma_bind_locals_offset(locals, locals.len(), bound.stack, bound.code, pass);
    lemma_bind_locals_labels(locals, locals.len(), bound.stack, bound.code, pass);
}

/// The epilogue of a function gives up a slot for each variable and each
/// parameter.
pub proof fn lemma_epilogue_offset(
    parameters: Seq<Identifier>,
    locals: Seq<Seq<char>>,
    stack: StackModel,
    code: CodeModel,
)
    ensures
        function_epilogue(parameters, locals, stack, code).stack.sp_offset == wrapped(
            stack.sp_offset - locals.len() - parameters.len(),
        ),
{
    lemma_unbind_offset(locals, locals.len(), stack);
    lemma_unbind_offset(names(parameters), parameters.len(), unbind(locals, locals.len(), stack));
    lemma_wrapped_sum(stack.sp_offset - locals.len(), -(parameters.len() as int));
}

/// Two changes of an offset, one after the other, are their sum.
pub proof fn lemma_wrapped_chain(offset: i32, first: int, second: int, middle: i32, end: i32)
    requires
        middle == wrapped(offset - first),
        end == wrapped(middle - second),
    ensures
        end == wrapped(offset - (first + second)),
{
    lemma_wrapped_sum(offset - first, -second);
}

/// An assignment moves no stack offset.
pub proof fn lemma_assignment_offset(
    identifier: Identifier,
    expression: Expr,
    stack: StackModel,
    code: CodeModel,
    pass: Pass,
)
    ensures
        lower_assignment(identifier, expression, stack, code, pass).stack.sp_offset
            == stack.sp_offset,
{
    let commented = code.emit_comment_line(
        "Assignment: "@ + identifier.debug_text() + " "@ + expression.debug_text(),
    );
    lemma_expr_frame(expression, stack, commented, pass);
}

/// A definition moves no stack offset.
pub proof fn lemma_definition_offset(
    identifier: Identifier,
    expression: Expr,
    stack: StackModel,
    code: CodeModel,
    pass: Pass,
)
    ensures
        lower_definition(identifier, expression, stack, code, pass).stack.sp_offset
            == stack.sp_offset,
{
    let commented = code.emit_comment_line(
        "Definition: "@ + identifier.debug_text() + " "@ + expression.debug_text(),
    );
    lemma_expr_frame(expression, stack, commented, pass);
}

/// The test of a conditional moves no stack offset.
pub proof fn lemma_test_offset(
    condition: Expr,
    suffix: Seq<char>,
    stack: StackModel,
    code: CodeModel,
    pass: Pass,
)
    ensures
        lower_test(condition, suffix, stack, code, pass).stack.sp_offset == stack.sp_offset,
{
    lemma_expr_frame(condition, stack, code, pass);
}

/// A write to a device moves no stack offset.
pub proof fn lemma_write_offset(
    value: Expr,
    device: Identifier,
    device_variable: Identifier,
    stack: StackModel,
    code: CodeModel,
    pass: Pass,
)
    ensures
        lower_device_write(value, device, device_variable, stack, code, pass).stack.sp_offset
            == stack.sp_offset,
{
    lemma_expr_frame(value, stack, code, pass);
}

/// A read from a device moves no stack offset.
pub proof fn lemma_read_offset(
    device: Identifier,
    device_variable: Identifier,
    local: Identifier,
    stack: StackModel,
    code: CodeModel,
    pass: Pass,
)
    ensures
        lower_device_read(device, device_variable, local, stack, code, pass).stack.sp_offset
            == stack.sp_offset,
{
}

/// By how many slots the lowering of a statement lowers the stack offset:
/// each function in it gives up a slot for each of its parameters, which it
/// never counted, and in the second pass a slot for each of its variables
/// too.
pub open spec fn drift(statement: Statement, pass: Pass) -> nat
    decreases statement,
{
    match statement {
        Statement::Function { parameters, body: Block::Statements(list), .. } => parameters@.len()
            + (match pass {
            Pass::First => 0,
            Pass::Second => discovered_prefix(list@, list@.len(), Seq::empty()).len(),
        }) + list_drift(list@, list@.len(), pass),
        Statement::Block(Block::Statements(list)) => list_drift(list@, list@.len(), pass),
        Statement::Loop { body: Block::Statements(list) } => list_drift(list@, list@.len(), pass),
        Statement::IfStatement(IfStatement::If { body: Block::Statements(list), .. }) => list_drift(
            list@,
            list@.len(),
            pass,
        ),
        Statement::IfStatement(
            IfStatement::IfElse {
                body: Block::Statements(list),
                else_body: Block::Statements(else_list),
                ..
            },
        ) => list_drift(list@, list@.len(), pass) + list_drift(else_list@, else_list@.len(), pass),
        _ => 0,
    }
}

/// The drift of the first `n` statements of a list.
pub open spec fn list_drift(statements: Seq<Statement>, n: nat, pass: Pass) -> nat
    decreases statements, n,
{
    if n == 0 || n > statements.len() {
        0
    } else {
        list_drift(statements, (n - 1) as nat, pass) + drift(statements[n - 1], pass)
    }
}

/// A statement without statements inside it, lowered without an error,
/// moves no stack offset.
#[verifier::rlimit(40)]
pub proof fn lemma_simple_offset(
    statement: Statement,
    stack: StackModel,
    code: CodeModel,
    pass: Pass,
)
    requires
        lower_statement(statement, stack, code, pass).error is None,
        statement !is Function,
        statement !is Block,
        statement !is Loop,
        statement !is IfStatement,
    ensures
        lower_statement(statement, stack, code, pass).stack.sp_offset == wrapped(
            stack.sp_offset - drift(statement, pass),
        ),
{
    lemma_wrapped_offset(stack.sp_offset);
    match statement {
        Statement::Assignment { identifier, expression } => {
            lemma_assignment_offset(identifier, *expression, stack, code, pass);
        },
        Statement::Definition { identifier, expression } => {
            lemma_definition_offset(identifier, *expression, stack, code, pass);
        },
        Statement::FunctionCall { identifier, arguments } => {
            lemma_call_frame(identifier, arguments@, stack, code, pass);
        },
        Statement::DeviceStatement(DeviceStatement::Read { device, device_variable, local }) => {
            lemma_read_offset(device, device_variable, local, stack, code, pass);
        },
        Statement::DeviceStatement(DeviceStatement::Write { value, device, device_variable }) => {
            lemma_write_offset(*value, device, device_variable, stack, code, pass);
        },
        _ => {},
    }
}

/// A function that is lowered without an error lowers the stack offset by
/// its drift.
#[verifier::rlimit(40)]
pub proof fn lemma_function_offset(
    statement: Statement,
    stack: StackModel,
    code: CodeModel,
    pass: Pass,
)
    requires
        lower_statement(statement, stack, code, pass).error is None,
        statement is Function,
    ensures
        lower_statement(statement, stack, code, pass).stack.sp_offset == wrapped(
            stack.sp_offset - drift(statement, pass),
        ),
    decreases statement, 0nat,
{
    match statement {
        Statement::Function { identifier, parameters, body: Block::Statements(list) } => {
            let locals = discovered_prefix(list@, list@.len(), Seq::empty());
            let entered = function_prologue(identifier, parameters@, locals, stack, code, pass);
            let inner = lower_prefix(list@, list@.len(), entered.stack, entered.code, pass);
            let left = function_epilogue(parameters@, locals, inner.stack, inner.code);
            let inside = list_drift(list@, list@.len(), pass);
            lemma_prologue_offset(identifier, parameters@, locals, stack, code, pass);
            lemma_list_offset(list@, list@.len(), entered.stack, entered.code, pass);
            lemma_epilogue_offset(parameters@, locals, inner.stack, inner.code);
            match pass {
                Pass::First => {
                    lemma_wrapped_chain(
                        stack.sp_offset,
                        -(locals.len() as int),
                        inside as int,
                        entered.stack.sp_offset,
                        inner.stack.sp_offset,
                    );
                    lemma_wrapped_chain(
                        stack.sp_offset,
                        inside - locals.len(),
                        (locals.len() + parameters@.len()) as int,
                        inner.stack.sp_offset,
                        left.stack.sp_offset,
                    );
                },
                Pass::Second => {
                    lemma_wrapped_chain(
                        stack.sp_offset,
                        inside as int,
                        (locals.len() + parameters@.len()) as int,
                        inner.stack.sp_offset,
                        left.stack.sp_offset,
                    );
                },
            }
        },
        _ => {},
    }
}

/// A block or a loop that is lowered without an error lowers the stack
/// offset by its drift.
pub proof fn lemma_nested_offset(
    statement: Statement,
    stack: StackModel,
    code: CodeModel,
    pass: Pass,
)
    requires
        lower_statement(statement, stack, code, pass).error is None,
        statement is Block || statement is Loop,
    ensures
        lower_statement(statement, stack, code, pass).stack.sp_offset == wrapped(
            stack.sp_offset - drift(statement, pass),
        ),
    decreases statement, 0nat,
{
    match statement {
        Statement::Block(Block::Statements(list)) => {
            lemma_list_offset(list@, list@.len(), stack, code, pass);
        },
        Statement::Loop { body: Block::Statements(list) } => {
            lemma_list_offset(
                list@,
                list@.len(),
                stack.new_loop(),
                code.define_label(loop_name(stack.loop_counter)),
                pass,
            );
        },
        _ => {},
    }
}

/// A conditional that is lowered without an error lowers the stack offset
/// by its drift.
#[verifier::rlimit(40)]
pub proof fn lemma_conditional_offset(
    statement: Statement,
    stack: StackModel,
    code: CodeModel,
    pass: Pass,
)
    requires
        lower_statement(statement, stack, code, pass).error is None,
        statement is IfStatement,
    ensures
        lower_statement(statement, stack, code, pass).stack.sp_offset == wrapped(
            stack.sp_offset - drift(statement, pass),
        ),
    decreases statement, 0nat,
{
    match statement {
        Statement::IfStatement(IfStatement::If { condition, body: Block::Statements(list) }) => {
            lemma_test_offset(*condition, "_end"@, stack, code, pass);
            let tested = lower_test(*condition, "_end"@, stack, code, pass);
            lemma_list_offset(list@, list@.len(), tested.stack, tested.code, pass);
        },
        Statement::IfStatement(
            IfStatement::IfElse {
                condition,
                body: Block::Statements(list),
                else_body: Block::Statements(else_list),
            },
        ) => {
            lemma_test_offset(*condition, "_else"@, stack, code, pass);
            let tested = lower_test(*condition, "_else"@, stack, code, pass);
            lemma_list_offset(list@, list@.len(), tested.stack, tested.code, pass);
            let inner = lower_prefix(list@, list@.len(), tested.stack, tested.code, pass);
            let over = lower_jump(next_if(stack) + "_end"@, inner.stack, inner.code, pass);
            assert(over.stack == inner.stack);
            lemma_list_offset(
                else_list@,
                else_list@.len(),
                over.stack,
                over.code.define_label(next_if(stack) + "_else"@),
                pass,
            );
            let other = lower_prefix(
                else_list@,
                else_list@.len(),
                over.stack,
                over.code.define_label(next_if(stack) + "_else"@),
                pass,
            );
            lemma_wrapped_chain(
                stack.sp_offset,
                list_drift(list@, list@.len(), pass) as int,
                list_drift(else_list@, else_list@.len(), pass) as int,
                inner.stack.sp_offset,
                other.stack.sp_offset,
            );
        },
        _ => {},
    }
}

/// A statement that is lowered without an error lowers the stack offset by
/// its drift.
pub proof fn lemma_statement_offset(
    statement: Statement,
    stack: StackModel,
    code: CodeModel,
    pass: Pass,
)
    requires
        lower_statement(statement, stack, code, pass).error is None,
    ensures
        lower_statement(statement, stack, code, pass).stack.sp_offset == wrapped(
            stack.sp_offset - drift(statement, pass),
        ),
    decreases statement, 1nat,
{
    if statement is Function {
        lemma_function_offset(statement, stack, code, pass);
    } else if statement is Block || statement is Loop {
        lemma_nested_offset(statement, stack, code, pass);
    } else if statement is IfStatement {
        lemma_conditional_offset(statement, stack, code, pass);
    } else {
        lemma_simple_offset(statement, stack, code, pass);
    }
}

/// Statements that are lowered without an error lower the stack offset by
/// the sum of their drifts.
pub proof fn lemma_list_offset(
    statements: Seq<Statement>,
    n: nat,
    stack: StackModel,
    code: CodeModel,
    pass: Pass,
)
    requires
        lower_prefix(statements, n, stack, code, pass).error is None,
    ensures
        lower_prefix(statements, n, stack, code, pass).stack.sp_offset == wrapped(
            stack.sp_offset - list_drift(statements, n, pass),
        ),
    decreases statements, n,
{
    lemma_wrapped_offset(stack.sp_offset);
    if n == 0 || n > statements.len() {
    } else {
        let before = lower_prefix(statements, (n - 1) as nat, stack, code, pass);
        let after = lower_statement(statements[n - 1], before.stack, before.code, pass);
        let d1 = list_drift(statements, (n - 1) as nat, pass);
        let d2 = drift(statements[n - 1], pass);
        assert(before.error is None);
        assert(lower_prefix(statements, n, stack, code, pass) == after);
        lemma_list_offset(statements, (n - 1) as nat, stack, code, pass);
        lemma_statement_offset(statements[n - 1], before.stack, before.code, pass);
        lemma_wrapped_chain(
            stack.sp_offset,
            d1 as int,
            d2 as int,
            before.stack.sp_offset,
            after.stack.sp_offset,
        );
    }
}

/// The stack offset at the exit of a function is the offset at its entry,
/// for a function whose drift is nothing: one without parameters, with
/// nothing in it for the scan for variables to find in the second pass, and
/// with no function of another kind inside it.
pub proof fn lemma_sp_balance(statement: Statement, stack: StackModel, code: CodeModel, pass: Pass)
    requires
        statement is Function,
        drift(statement, pass) == 0,
        lower_statement(statement, stack, code, pass).error is None,
    ensures
        lower_statement(statement, stack, code, pass).stack.sp_offset == stack.sp_offset,
{
    lemma_statement_offset(statement, stack, code, pass);
    lemma_wrapped_offset(stack.sp_offset);
}

} // verus!
