//! The two passes write the same number of lines and bind the same labels,
//! for the programs in which nothing is bound to a place that differs
//! between the passes.
use vstd::prelude::*;
use crate::compiler::codegen::{line_number, CodeModel};
use crate::compiler::expr::lower_expr;
use crate::compiler::laws::{lemma_arguments_frame, lemma_call_frame, lemma_expr_frame};
use crate::compiler::stack::{if_name, loop_name, StackModel};
use crate::compiler::statement::{
    discard, discovered_prefix, function_epilogue, function_prologue, lower_arguments,
    lower_assignment, lower_call, lower_definition, lower_device_read, lower_device_write,
    lower_jump, lower_prefix, lower_statement, lower_test, next_if, restore_registers,
    save_registers, stacked_arguments,
};
use crate::compiler::{first_pass, second_pass, Location, Pass};
use crate::parser::ast::{
    BinaryOpcode, Block, DeviceStatement, Expr, Identifier, IfStatement, Program, Statement,
};

verus! {

/// Whether a statement is one of those for which the two passes agree,
/// given the names of the program's constants: every function in it is
/// without parameters and has nothing in its body for the scan for
/// variables to find, every constant in it has its name in `constants`, and
/// no variable that it defines has.
pub open spec fn steady(statement: Statement, constants: Set<Seq<char>>) -> bool
    decreases statement,
{
    match statement {
        Statement::Definition { identifier, .. } => !constants.contains(identifier@),
        Statement::Constant(identifier, _) => constants.contains(identifier@),
        Statement::Function { parameters, body: Block::Statements(list), .. } => {
            &&& parameters@.len() == 0
            &&& discovered_prefix(list@, list@.len(), Seq::empty()).len() == 0
            &&& steady_list(list@, list@.len(), constants)
        },
        Statement::Block(Block::Statements(list)) => steady_list(list@, list@.len(), constants),
        Statement::Loop { body: Block::Statements(list) } => steady_list(
            list@,
            list@.len(),
            constants,
        ),
        Statement::IfStatement(IfStatement::If { body: Block::Statements(list), .. }) => steady_list(
            list@,
            list@.len(),
            constants,
        ),
        Statement::IfStatement(
            IfStatement::IfElse {
                body: Block::Statements(list),
                else_body: Block::Statements(else_list),
                ..
            },
        ) => steady_list(list@, list@.len(), constants) && steady_list(
            else_list@,
            else_list@.len(),
            constants,
        ),
        _ => true,
    }
}

/// Whether the first `n` statements of a list are steady.
pub open spec fn steady_list(statements: Seq<Statement>, n: nat, constants: Set<Seq<char>>) -> bool
    decreases statements, n,
{
    if n == 0 || n > statements.len() {
        true
    } else {
        steady_list(statements, (n - 1) as nat, constants) && steady(statements[n - 1], constants)
    }
}

/// The states that the lowering of steady statements moves among: every
/// variable lives one slot below the stack pointer and is no constant, and
/// every constant has its name in `constants`.
pub open spec fn settled(stack: StackModel, code: CodeModel, constants: Set<Seq<char>>) -> bool {
    &&& forall|name: Seq<char>| #[trigger]
        stack.locals.dom().contains(name) ==> stack.locals[name] == Location::Stack(-1i32)
            && !constants.contains(name)
    &&& forall|name: Seq<char>| #[trigger]
        code.constants.dom().contains(name) ==> constants.contains(name)
}

/// What of a lowering does not depend on the pass: the number of lines, the
/// labels placed, and the counts of loops and conditionals.
pub struct Shape {
    pub lines: nat,
    pub labels: Map<Seq<char>, i32>,
    pub loop_counter: i32,
    pub if_counter: i32,
}

impl Shape {
    /// Nothing written, nothing placed, nothing counted.
    pub open spec fn empty() -> Shape {
        Shape { lines: 0, labels: Map::empty(), loop_counter: 0, if_counter: 0 }
    }

    /// `count` more lines.
    pub open spec fn grow(self, count: nat) -> Shape {
        Shape { lines: self.lines + count, ..self }
    }

    /// One more line, a label marker, and its name bound to the line after.
    pub open spec fn label(self, name: Seq<char>) -> Shape {
        Shape {
            lines: self.lines + 1,
            labels: self.labels.insert(name, line_number(self.lines as int + 1)),
            ..self
        }
    }

    /// One more loop.
    pub open spec fn count_loop(self) -> Shape {
        Shape { loop_counter: self.loop_counter.wrapping_add(1), ..self }
    }

    /// One more conditional.
    pub open spec fn count_if(self) -> Shape {
        Shape { if_counter: self.if_counter.wrapping_add(1), ..self }
    }
}

/// The number of lines that the operator of a binary operation takes.
pub open spec fn operator_lines(op: BinaryOpcode) -> nat {
    match op {
        BinaryOpcode::Equals | BinaryOpcode::Greater | BinaryOpcode::Lower => 3,
        _ => 1,
    }
}

/// The number of lines of an expression: two for a literal, three for a
/// constant, four for a variable, and for a binary operation those of its
/// operands, of its operator, and four more.
pub open spec fn expr_lines(expr: Expr, constants: Set<Seq<char>>) -> nat
    decreases expr,
{
    match expr {
        Expr::Constant(_) => 2,
        Expr::Identifier(identifier) => if constants.contains(identifier@) {
            3
        } else {
            4
        },
        Expr::BinaryOp(left, op, right) => expr_lines(*left, constants) + expr_lines(
            *right,
            constants,
        ) + operator_lines(op) + 4,
        Expr::UnaryOp(_, _) => 1,
    }
}

/// The number of lines of the first `n` arguments of a call.
pub open spec fn arguments_lines(arguments: Seq<Box<Expr>>, n: nat, constants: Set<Seq<char>>) -> nat
    decreases n,
{
    if n == 0 || n > arguments.len() {
        0
    } else {
        arguments_lines(arguments, (n - 1) as nat, constants) + expr_lines(
            *arguments[n - 1],
            constants,
        ) + if n - 1 < 4 {
            1nat
        } else {
            0nat
        }
    }
}

/// The shape after a steady statement.
pub open spec fn shape_after(statement: Statement, constants: Set<Seq<char>>, shape: Shape) -> Shape
    decreases statement,
{
    match statement {
        Statement::Assignment { expression, .. } => shape.grow(
            expr_lines(*expression, constants) + 5,
        ),
        Statement::Definition { expression, .. } => shape.grow(
            expr_lines(*expression, constants) + 1,
        ),
        Statement::Alias { .. } => shape.grow(1),
        Statement::Constant(_, _) => shape,
        Statement::Function { identifier, body: Block::Statements(list), .. } => shape_after_list(
            list@,
            list@.len(),
            constants,
            shape.label(identifier@),
        ).grow(1),
        Statement::FunctionCall { arguments, .. } => shape.grow(
            arguments_lines(arguments@, arguments@.len(), constants) + 12 + stacked_arguments(
                arguments@.len(),
            ),
        ),
        Statement::Block(Block::Statements(list)) => shape_after_list(
            list@,
            list@.len(),
            constants,
            shape,
        ),
        Statement::Loop { body: Block::Statements(list) } => shape_after_list(
            list@,
            list@.len(),
            constants,
            shape.label(loop_name(shape.loop_counter)).count_loop(),
        ).grow(1),
        Statement::IfStatement(IfStatement::If { condition, body: Block::Statements(list) }) => {
            shape_after_list(
                list@,
                list@.len(),
                constants,
                shape.grow(expr_lines(*condition, constants) + 2).count_if(),
            ).label(if_name(shape.if_counter) + "_end"@)
        },
        Statement::IfStatement(
            IfStatement::IfElse {
                condition,
                body: Block::Statements(list),
                else_body: Block::Statements(else_list),
            },
        ) => shape_after_list(
            else_list@,
            else_list@.len(),
            constants,
            shape_after_list(
                list@,
                list@.len(),
                constants,
                shape.grow(expr_lines(*condition, constants) + 2).count_if(),
            ).grow(1).label(if_name(shape.if_counter) + "_else"@),
        ).label(if_name(shape.if_counter) + "_end"@),
        Statement::DeviceStatement(DeviceStatement::Read { .. }) => shape.grow(4),
        Statement::DeviceStatement(DeviceStatement::Write { value, .. }) => shape.grow(
            expr_lines(*value, constants) + 2,
        ),
        Statement::Yield => shape.grow(1),
    }
}

/// The shape after the first `n` statements of a steady list.
pub open spec fn shape_after_list(
    statements: Seq<Statement>,
    n: nat,
    constants: Set<Seq<char>>,
    shape: Shape,
) -> Shape
    decreases statements, n,
{
    if n == 0 || n > statements.len() {
        shape
    } else {
        shape_after(
            statements[n - 1],
            constants,
            shape_after_list(statements, (n - 1) as nat, constants, shape),
        )
    }
}

/// The states have the given shape, over the labels that were there
/// before: the shape's lines and counts are theirs, and their labels are
/// those of `base`, overwritten by the shape's.
pub open spec fn tracks(
    stack: StackModel,
    code: CodeModel,
    shape: Shape,
    base: Map<Seq<char>, i32>,
) -> bool {
    &&& code.lines.len() == shape.lines
    &&& stack.loop_counter == shape.loop_counter
    &&& stack.if_counter == shape.if_counter
    &&& code.labels == base.union_prefer_right(shape.labels)
}

/// Placing a label keeps the states on the shape.
pub proof fn lemma_label_tracks(
    stack: StackModel,
    code: CodeModel,
    shape: Shape,
    base: Map<Seq<char>, i32>,
    name: Seq<char>,
)
    requires
        tracks(stack, code, shape, base),
    ensures
        tracks(stack, code.define_label(name), shape.label(name), base),
{
    assert(code.define_label(name).labels =~= base.union_prefer_right(shape.label(name).labels));
}

/// The number of lines that a settled expression writes.
pub proof fn lemma_expr_lines(
    expr: Expr,
    stack: StackModel,
    code: CodeModel,
    pass: Pass,
    constants: Set<Seq<char>>,
)
    requires
        settled(stack, code, constants),
        lower_expr(expr, stack, code, pass).error is None,
    ensures
        lower_expr(expr, stack, code, pass).code.lines.len() == code.lines.len() + expr_lines(
            expr,
            constants,
        ),
    decreases expr,
{
    match expr {
        Expr::BinaryOp(left, op, right) => {
            let code = code.emit_comment_line("expr binary op "@ + op.debug_text());
            lemma_expr_frame(*left, stack, code, pass);
            lemma_expr_lines(*left, stack, code, pass, constants);
            let left = lower_expr(*left, stack, code, pass);
            lemma_expr_lines(*right, stack, left.code, pass, constants);
        },
        Expr::Identifier(identifier) => {
            let code = code.emit_comment_line("expr identifier "@ + identifier.debug_text());
            if code.constants.dom().contains(identifier@) {
            } else {
                assert(stack.locals.dom().contains(identifier@));
                assert(stack.locals[identifier@] == Location::Stack(-1i32));
            }
        },
        _ => {},
    }
}

/// The number of lines that settled arguments write.
pub proof fn lemma_arguments_lines(
    arguments: Seq<Box<Expr>>,
    n: nat,
    stack: StackModel,
    code: CodeModel,
    pass: Pass,
    constants: Set<Seq<char>>,
)
    requires
        n <= arguments.len(),
        settled(stack, code, constants),
        lower_arguments(arguments, n, stack, code, pass).error is None,
    ensures
        lower_arguments(arguments, n, stack, code, pass).code.lines.len() == code.lines.len()
            + arguments_lines(arguments, n, constants),
    decreases n,
{
    if n > 0 {
        let before = lower_arguments(arguments, (n - 1) as nat, stack, code, pass);
        lemma_arguments_frame(arguments, (n - 1) as nat, stack, code, pass);
        lemma_arguments_lines(arguments, (n - 1) as nat, stack, code, pass, constants);
        lemma_expr_lines(*arguments[n - 1], stack, before.code, pass, constants);
    }
}

/// Popping `count` values writes `count` lines.
pub proof fn lemma_discard_lines(code: CodeModel, count: nat)
    ensures
        discard(code, count).lines.len() == code.lines.len() + count,
    decreases count,
{
    if count > 0 {
        lemma_discard_lines(code, (count - 1) as nat);
    }
}

/// The number of lines that a settled call writes.
#[verifier::rlimit(40)]
pub proof fn lemma_call_lines(
    identifier: Identifier,
    arguments: Seq<Box<Expr>>,
    stack: StackModel,
    code: CodeModel,
    pass: Pass,
    constants: Set<Seq<char>>,
)
    requires
        settled(stack, code, constants),
        lower_call(identifier, arguments, stack, code, pass).error is None,
    ensures
        lower_call(identifier, arguments, stack, code, pass).code.lines.len() == code.lines.len()
            + arguments_lines(arguments, arguments.len(), constants) + 12 + stacked_arguments(
            arguments.len(),
        ),
{
    reveal(save_registers);
    reveal(restore_registers);
    lemma_arguments_lines(arguments, arguments.len(), stack, code, pass, constants);
    let passed = lower_arguments(arguments, arguments.len(), stack, code, pass);
    let saved = save_registers(passed.stack, passed.code.emit_comment_line("saving registers"@));
    assert(saved.code.lines.len() == passed.code.lines.len() + 6);
    let count = stacked_arguments(arguments.len());
    assert forall|c: CodeModel| #[trigger] discard(c, count).lines.len() == c.lines.len() + count by {
        lemma_discard_lines(c, count);
    }
}

/// A settled assignment keeps the states settled and on the shape.
pub proof fn lemma_assignment_shape(
    identifier: Identifier,
    expression: Expr,
    stack: StackModel,
    code: CodeModel,
    pass: Pass,
    constants: Set<Seq<char>>,
    shape: Shape,
    base: Map<Seq<char>, i32>,
)
    requires
        settled(stack, code, constants),
        tracks(stack, code, shape, base),
        lower_assignment(identifier, expression, stack, code, pass).error is None,
    ensures
        settled(
            lower_assignment(identifier, expression, stack, code, pass).stack,
            lower_assignment(identifier, expression, stack, code, pass).code,
            constants,
        ),
        tracks(
            lower_assignment(identifier, expression, stack, code, pass).stack,
            lower_assignment(identifier, expression, stack, code, pass).code,
            shape.grow(expr_lines(expression, constants) + 5),
            base,
        ),
{
    let commented = code.emit_comment_line(
        "Assignment: "@ + identifier.debug_text() + " "@ + expression.debug_text(),
    );
    lemma_expr_frame(expression, stack, commented, pass);
    lemma_expr_lines(expression, stack, commented, pass, constants);
    assert(stack.locals[identifier@] == Location::Stack(-1i32));
}

/// A settled definition keeps the states settled and on the shape, if the
/// name that it defines is no constant.
pub proof fn lemma_definition_shape(
    identifier: Identifier,
    expression: Expr,
    stack: StackModel,
    code: CodeModel,
    pass: Pass,
    constants: Set<Seq<char>>,
    shape: Shape,
    base: Map<Seq<char>, i32>,
)
    requires
        !constants.contains(identifier@),
        settled(stack, code, constants),
        tracks(stack, code, shape, base),
        lower_definition(identifier, expression, stack, code, pass).error is None,
    ensures
        settled(
            lower_definition(identifier, expression, stack, code, pass).stack,
            lower_definition(identifier, expression, stack, code, pass).code,
            constants,
        ),
        tracks(
            lower_definition(identifier, expression, stack, code, pass).stack,
            lower_definition(identifier, expression, stack, code, pass).code,
            shape.grow(expr_lines(expression, constants) + 1),
            base,
        ),
{
    let commented = code.emit_comment_line(
        "Definition: "@ + identifier.debug_text() + " "@ + expression.debug_text(),
    );
    lemma_expr_frame(expression, stack, commented, pass);
    lemma_expr_lines(expression, stack, commented, pass, constants);
}

/// A settled call keeps the states settled and on the shape.
pub proof fn lemma_call_shape(
    identifier: Identifier,
    arguments: Seq<Box<Expr>>,
    stack: StackModel,
    code: CodeModel,
    pass: Pass,
    constants: Set<Seq<char>>,
    shape: Shape,
    base: Map<Seq<char>, i32>,
)
    requires
        settled(stack, code, constants),
        tracks(stack, code, shape, base),
        lower_call(identifier, arguments, stack, code, pass).error is None,
    ensures
        settled(
            lower_call(identifier, arguments, stack, code, pass).stack,
            lower_call(identifier, arguments, stack, code, pass).code,
            constants,
        ),
        tracks(
            lower_call(identifier, arguments, stack, code, pass).stack,
            lower_call(identifier, arguments, stack, code, pass).code,
            shape.grow(
                arguments_lines(arguments, arguments.len(), constants) + 12 + stacked_arguments(
                    arguments.len(),
                ),
            ),
            base,
        ),
{
    lemma_call_frame(identifier, arguments, stack, code, pass);
    lemma_call_lines(identifier, arguments, stack, code, pass, constants);
}

/// A settled read from a device keeps the states settled and on the shape.
pub proof fn lemma_read_shape(
    device: Identifier,
    device_variable: Identifier,
    local: Identifier,
    stack: StackModel,
    code: CodeModel,
    pass: Pass,
    constants: Set<Seq<char>>,
    shape: Shape,
    base: Map<Seq<char>, i32>,
)
    requires
        settled(stack, code, constants),
        tracks(stack, code, shape, base),
        lower_device_read(device, device_variable, local, stack, code, pass).error is None,
    ensures
        settled(
            lower_device_read(device, device_variable, local, stack, code, pass).stack,
            lower_device_read(device, device_variable, local, stack, code, pass).code,
            constants,
        ),
        tracks(
            lower_device_read(device, device_variable, local, stack, code, pass).stack,
            lower_device_read(device, device_variable, local, stack, code, pass).code,
            shape.grow(4),
            base,
        ),
{
    assert(stack.locals[local@] == Location::Stack(-1i32));
}

/// A settled write to a device keeps the states settled and on the shape.
pub proof fn lemma_write_shape(
    value: Expr,
    device: Identifier,
    device_variable: Identifier,
    stack: StackModel,
    code: CodeModel,
    pass: Pass,
    constants: Set<Seq<char>>,
    shape: Shape,
    base: Map<Seq<char>, i32>,
)
    requires
        settled(stack, code, constants),
        tracks(stack, code, shape, base),
        lower_device_write(value, device, device_variable, stack, code, pass).error is None,
    ensures
        settled(
            lower_device_write(value, device, device_variable, stack, code, pass).stack,
            lower_device_write(value, device, device_variable, stack, code, pass).code,
            constants,
        ),
        tracks(
            lower_device_write(value, device, device_variable, stack, code, pass).stack,
            lower_device_write(value, device, device_variable, stack, code, pass).code,
            shape.grow(expr_lines(value, constants) + 2),
            base,
        ),
{
    lemma_expr_frame(value, stack, code, pass);
    lemma_expr_lines(value, stack, code, pass, constants);
}

/// The settled test of a conditional keeps the states settled and on the
/// shape.
pub proof fn lemma_test_shape(
    condition: Expr,
    suffix: Seq<char>,
    stack: StackModel,
    code: CodeModel,
    pass: Pass,
    constants: Set<Seq<char>>,
    shape: Shape,
    base: Map<Seq<char>, i32>,
)
    requires
        settled(stack, code, constants),
        tracks(stack, code, shape, base),
        lower_test(condition, suffix, stack, code, pass).error is None,
    ensures
        settled(
            lower_test(condition, suffix, stack, code, pass).stack,
            lower_test(condition, suffix, stack, code, pass).code,
            constants,
        ),
        tracks(
            lower_test(condition, suffix, stack, code, pass).stack,
            lower_test(condition, suffix, stack, code, pass).code,
            shape.grow(expr_lines(condition, constants) + 2).count_if(),
            base,
        ),
{
    lemma_expr_frame(condition, stack, code, pass);
    lemma_expr_lines(condition, stack, code, pass, constants);
}

/// The prologue of a function without parameters and variables places the
/// function's label and does nothing else.
pub proof fn lemma_prologue_shape(
    identifier: Identifier,
    parameters: Seq<Identifier>,
    locals: Seq<Seq<char>>,
    stack: StackModel,
    code: CodeModel,
    pass: Pass,
    constants: Set<Seq<char>>,
    shape: Shape,
    base: Map<Seq<char>, i32>,
)
    requires
        parameters.len() == 0,
        locals.len() == 0,
        settled(stack, code, constants),
        tracks(stack, code, shape, base),
    ensures
        function_prologue(identifier, parameters, locals, stack, code, pass).error is None,
        settled(
            function_prologue(identifier, parameters, locals, stack, code, pass).stack,
            function_prologue(identifier, parameters, locals, stack, code, pass).code,
            constants,
        ),
        tracks(
            function_prologue(identifier, parameters, locals, stack, code, pass).stack,
            function_prologue(identifier, parameters, locals, stack, code, pass).code,
            shape.label(identifier@),
            base,
        ),
{
    lemma_label_tracks(stack, code, shape, base, identifier@);
}

/// The epilogue of a function without parameters and variables writes the
/// return and does nothing else.
pub proof fn lemma_epilogue_shape(
    parameters: Seq<Identifier>,
    locals: Seq<Seq<char>>,
    stack: StackModel,
    code: CodeModel,
    constants: Set<Seq<char>>,
    shape: Shape,
    base: Map<Seq<char>, i32>,
)
    requires
        parameters.len() == 0,
        locals.len() == 0,
        settled(stack, code, constants),
        tracks(stack, code, shape, base),
    ensures
        settled(
            function_epilogue(parameters, locals, stack, code).stack,
            function_epilogue(parameters, locals, stack, code).code,
            constants,
        ),
        tracks(
            function_epilogue(parameters, locals, stack, code).stack,
            function_epilogue(parameters, locals, stack, code).code,
            shape.grow(1),
            base,
        ),
{
}

/// A steady statement that is lowered from settled states without an
/// error leaves settled states, and takes them from a shape to the shape
/// after the statement.
#[verifier::rlimit(40)]
pub proof fn lemma_statement_shape(
    statement: Statement,
    stack: StackModel,
    code: CodeModel,
    pass: Pass,
    constants: Set<Seq<char>>,
    shape: Shape,
    base: Map<Seq<char>, i32>,
)
    requires
        steady(statement, constants),
        settled(stack, code, constants),
        tracks(stack, code, shape, base),
        lower_statement(statement, stack, code, pass).error is None,
    ensures
        settled(
            lower_statement(statement, stack, code, pass).stack,
            lower_statement(statement, stack, code, pass).code,
            constants,
        ),
        tracks(
            lower_statement(statement, stack, code, pass).stack,
            lower_statement(statement, stack, code, pass).code,
            shape_after(statement, constants, shape),
            base,
        ),
    decreases statement,
{
    match statement {
        Statement::Assignment { identifier, expression } => {
            lemma_assignment_shape(identifier, *expression, stack, code, pass, constants, shape, base);
        },
        Statement::Definition { identifier, expression } => {
            lemma_definition_shape(identifier, *expression, stack, code, pass, constants, shape, base);
        },
        Statement::Function { identifier, parameters, body: Block::Statements(list) } => {
            let locals = discovered_prefix(list@, list@.len(), Seq::empty());
            lemma_prologue_shape(
                identifier,
                parameters@,
                locals,
                stack,
                code,
                pass,
                constants,
                shape,
                base,
            );
            let entered = function_prologue(identifier, parameters@, locals, stack, code, pass);
            lemma_list_shape(
                list@,
                list@.len(),
                entered.stack,
                entered.code,
                pass,
                constants,
                shape.label(identifier@),
                base,
            );
            let inner = lower_prefix(list@, list@.len(), entered.stack, entered.code, pass);
            lemma_epilogue_shape(
                parameters@,
                locals,
                inner.stack,
                inner.code,
                constants,
                shape_after_list(list@, list@.len(), constants, shape.label(identifier@)),
                base,
            );
        },
        Statement::FunctionCall { identifier, arguments } => {
            lemma_call_shape(identifier, arguments@, stack, code, pass, constants, shape, base);
        },
        Statement::Block(Block::Statements(list)) => {
            lemma_list_shape(list@, list@.len(), stack, code, pass, constants, shape, base);
        },
        Statement::Loop { body: Block::Statements(list) } => {
            let label = loop_name(stack.loop_counter);
            lemma_label_tracks(stack, code, shape, base, label);
            lemma_list_shape(
                list@,
                list@.len(),
                stack.new_loop(),
                code.define_label(label),
                pass,
                constants,
                shape.label(label).count_loop(),
                base,
            );
        },
        Statement::IfStatement(IfStatement::If { condition, body: Block::Statements(list) }) => {
            lemma_test_shape(*condition, "_end"@, stack, code, pass, constants, shape, base);
            let tested = lower_test(*condition, "_end"@, stack, code, pass);
            let started = shape.grow(expr_lines(*condition, constants) + 2).count_if();
            lemma_list_shape(
                list@,
                list@.len(),
                tested.stack,
                tested.code,
                pass,
                constants,
                started,
                base,
            );
            let inner = lower_prefix(list@, list@.len(), tested.stack, tested.code, pass);
            lemma_label_tracks(
                inner.stack,
                inner.code,
                shape_after_list(list@, list@.len(), constants, started),
                base,
                next_if(stack) + "_end"@,
            );
        },
        Statement::IfStatement(
            IfStatement::IfElse {
                condition,
                body: Block::Statements(list),
                else_body: Block::Statements(else_list),
            },
        ) => {
            lemma_test_shape(*condition, "_else"@, stack, code, pass, constants, shape, base);
            let tested = lower_test(*condition, "_else"@, stack, code, pass);
            let started = shape.grow(expr_lines(*condition, constants) + 2).count_if();
            lemma_list_shape(
                list@,
                list@.len(),
                tested.stack,
                tested.code,
                pass,
                constants,
                started,
                base,
            );
            let inner = lower_prefix(list@, list@.len(), tested.stack, tested.code, pass);
            let over = lower_jump(next_if(stack) + "_end"@, inner.stack, inner.code, pass);
            let jumped = shape_after_list(list@, list@.len(), constants, started).grow(1);
            lemma_label_tracks(over.stack, over.code, jumped, base, next_if(stack) + "_else"@);
            lemma_list_shape(
                else_list@,
                else_list@.len(),
                over.stack,
                over.code.define_label(next_if(stack) + "_else"@),
                pass,
                constants,
                jumped.label(next_if(stack) + "_else"@),
                base,
            );
            let other = lower_prefix(
                else_list@,
                else_list@.len(),
                over.stack,
                over.code.define_label(next_if(stack) + "_else"@),
                pass,
            );
            lemma_label_tracks(
                other.stack,
                other.code,
                shape_after_list(
                    else_list@,
                    else_list@.len(),
                    constants,
                    jumped.label(next_if(stack) + "_else"@),
                ),
                base,
                next_if(stack) + "_end"@,
            );
        },
        Statement::DeviceStatement(DeviceStatement::Read { device, device_variable, local }) => {
            lemma_read_shape(
                device,
                device_variable,
                local,
                stack,
                code,
                pass,
                constants,
                shape,
                base,
            );
        },
        Statement::DeviceStatement(DeviceStatement::Write { value, device, device_variable }) => {
            lemma_write_shape(
                *value,
                device,
                device_variable,
                stack,
                code,
                pass,
                constants,
                shape,
                base,
            );
        },
        _ => {},
    }
}

/// Steady statements that are lowered from settled states without an
/// error leave settled states, and take them from a shape to the shape
/// after the statements.
pub proof fn lemma_list_shape(
    statements: Seq<Statement>,
    n: nat,
    stack: StackModel,
    code: CodeModel,
    pass: Pass,
    constants: Set<Seq<char>>,
    shape: Shape,
    base: Map<Seq<char>, i32>,
)
    requires
        steady_list(statements, n, constants),
        settled(stack, code, constants),
        tracks(stack, code, shape, base),
        lower_prefix(statements, n, stack, code, pass).error is None,
    ensures
        settled(
            lower_prefix(statements, n, stack, code, pass).stack,
            lower_prefix(statements, n, stack, code, pass).code,
            constants,
        ),
        tracks(
            lower_prefix(statements, n, stack, code, pass).stack,
            lower_prefix(statements, n, stack, code, pass).code,
            shape_after_list(statements, n, constants, shape),
            base,
        ),
    decreases statements, n,
{
    if n == 0 || n > statements.len() {
    } else {
        let before = lower_prefix(statements, (n - 1) as nat, stack, code, pass);
        assert(before.error is None);
        lemma_list_shape(statements, (n - 1) as nat, stack, code, pass, constants, shape, base);
        lemma_statement_shape(
            statements[n - 1],
            before.stack,
            before.code,
            pass,
            constants,
            shape_after_list(statements, (n - 1) as nat, constants, shape),
            base,
        );
    }
}

/// The two passes agree: for a program of steady statements that both passes
/// lower without an error, the second pass writes as many lines as the
/// first, and binds every label to the line that the first bound it to.
/// `constants` is any set that holds the names of the program's constants
/// and the name of none of its variables.
pub proof fn lemma_pass_parity(program: Program, constants: Set<Seq<char>>)
    requires
        steady_list(program.statements@, program.statements@.len(), constants),
        first_pass(program).error is None,
        second_pass(program).error is None,
    ensures
        second_pass(program).code.lines.len() == first_pass(program).code.lines.len(),
        second_pass(program).code.labels == first_pass(program).code.labels,
{
    let statements = program.statements@;
    let shape = shape_after_list(statements, statements.len(), constants, Shape::empty());
    let nothing = Map::<Seq<char>, i32>::empty();
    assert(CodeModel::empty().labels =~= nothing.union_prefer_right(Shape::empty().labels));
    lemma_list_shape(
        statements,
        statements.len(),
        StackModel::empty(),
        CodeModel::empty(),
        Pass::First,
        constants,
        Shape::empty(),
        nothing,
    );
    let first = first_pass(program);
    assert(first.code.labels =~= shape.labels);
    assert(first.code.reset_for_pass_two().labels =~= first.code.labels.union_prefer_right(
        Shape::empty().labels,
    ));
    lemma_list_shape(
        statements,
        statements.len(),
        first.stack.clear(),
        first.code.reset_for_pass_two(),
        Pass::Second,
        constants,
        Shape::empty(),
        first.code.labels,
    );
    assert(second_pass(program).code.labels =~= first.code.labels);
}

} // verus!
