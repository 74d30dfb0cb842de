//! The jumps of a compiled program go to lines of the program.
use vstd::prelude::*;
use crate::compiler::codegen::{CodeModel, Entry, Line};
use crate::compiler::expr::lower_expr;
use crate::compiler::laws::{lemma_arguments_frame, lemma_expr_frame};
use crate::compiler::parity::{
    arguments_lines, expr_lines, lemma_arguments_lines, lemma_call_lines, lemma_call_shape,
    lemma_expr_lines, lemma_label_tracks, lemma_list_shape, lemma_pass_parity,
    lemma_prologue_shape, lemma_test_shape, settled, shape_after, shape_after_list, steady,
    steady_list, tracks, Shape,
};
use crate::compiler::stack::{if_name, loop_name, StackModel};
use crate::compiler::statement::{
    discard, discovered_prefix, function_prologue, lower_arguments, lower_assignment, lower_call,
    lower_definition, lower_device_write, lower_jump, lower_prefix, lower_statement, lower_test,
    next_if, restore_registers, save_registers, stacked_arguments,
};
use crate::compiler::{first_pass, second_pass, Location, Pass};
use crate::mips::instructions::{FlowControl, Instruction};
use crate::mips::types::{Number, RegisterOrNumber};
use crate::parser::ast::{
    Block, DeviceStatement, Expr, Identifier, IfStatement, Program, Statement,
};

verus! {

/// The line that an operand names, if it is a whole number.
pub open spec fn operand_line(operand: RegisterOrNumber) -> Option<int> {
    match operand {
        RegisterOrNumber::Number(Number::Int(line)) => Some(line as int),
        _ => None,
    }
}

/// The line that a line of the program jumps to, if it is a jump, a call or
/// one of the branches that the compiler writes, and names its target by a
/// number.
pub open spec fn jump_target(line: Line) -> Option<int> {
    match line {
        Line::Code(Instruction::FlowControl(FlowControl::Jump { a })) => Some(a as int),
        Line::Code(Instruction::FlowControl(FlowControl::JumpAndLink { a })) => Some(a as int),
        Line::Code(Instruction::FlowControl(FlowControl::BranchEqualZero { b, .. })) => {
            operand_line(b)
        },
        Line::Code(Instruction::FlowControl(FlowControl::BranchEqual { c, .. })) => operand_line(
            c,
        ),
        Line::Code(Instruction::FlowControl(FlowControl::BranchGreaterThan { c, .. })) => {
            operand_line(c)
        },
        Line::Code(Instruction::FlowControl(FlowControl::BranchLessThan { c, .. })) => {
            operand_line(c)
        },
        _ => None,
    }
}

/// Whether every jump among the lines goes to a line below `limit`.
pub open spec fn targets_within(lines: Seq<Entry>, limit: int) -> bool {
    forall|i: int|
        0 <= i < lines.len() ==> (#[trigger] jump_target(lines[i].line) matches Some(target)
            ==> 0 <= target < limit)
}

/// Whether every label is bound to a line from 0 to `limit`.
pub open spec fn bound_within(labels: Map<Seq<char>, i32>, limit: int) -> bool {
    forall|name: Seq<char>| #[trigger] labels.dom().contains(name) ==> 0 <= labels[name] <= limit
}

/// Where labels are placed the lines only become more, and a label is
/// bound to no line beyond those written.
pub proof fn lemma_shape_bound(statement: Statement, constants: Set<Seq<char>>, shape: Shape)
    requires
        bound_within(shape.labels, shape.lines as int),
        shape_after(statement, constants, shape).lines <= i32::MAX,
    ensures
        shape.lines <= shape_after(statement, constants, shape).lines,
        bound_within(
            shape_after(statement, constants, shape).labels,
            shape_after(statement, constants, shape).lines as int,
        ),
    decreases statement,
{
    lemma_statement_grows(statement, constants, shape);
    match statement {
        Statement::Function { identifier, body: Block::Statements(list), .. } => {
            lemma_list_grows(list@, list@.len(), constants, shape.label(identifier@));
            lemma_list_bound(list@, list@.len(), constants, shape.label(identifier@));
        },
        Statement::Block(Block::Statements(list)) => {
            lemma_list_bound(list@, list@.len(), constants, shape);
        },
        Statement::Loop { body: Block::Statements(list) } => {
            let started = shape.label(loop_name(shape.loop_counter)).count_loop();
            lemma_list_grows(list@, list@.len(), constants, started);
            lemma_list_bound(list@, list@.len(), constants, started);
        },
        Statement::IfStatement(IfStatement::If { condition, body: Block::Statements(list) }) => {
            let started = shape.grow(expr_lines(*condition, constants) + 2).count_if();
            lemma_list_grows(list@, list@.len(), constants, started);
            lemma_list_bound(list@, list@.len(), constants, started);
        },
        Statement::IfStatement(
            IfStatement::IfElse {
                condition,
                body: Block::Statements(list),
                else_body: Block::Statements(else_list),
            },
        ) => {
            let started = shape.grow(expr_lines(*condition, constants) + 2).count_if();
            let middle = shape_after_list(list@, list@.len(), constants, started).grow(1).label(
                if_name(shape.if_counter) + "_else"@,
            );
            lemma_list_grows(else_list@, else_list@.len(), constants, middle);
            lemma_list_grows(list@, list@.len(), constants, started);
            lemma_list_bound(list@, list@.len(), constants, started);
            lemma_list_bound(else_list@, else_list@.len(), constants, middle);
        },
        _ => {},
    }
}

/// The lines of a shape only become more.
pub proof fn lemma_statement_grows(statement: Statement, constants: Set<Seq<char>>, shape: Shape)
    ensures
        shape.lines <= shape_after(statement, constants, shape).lines,
    decreases statement,
{
    match statement {
        Statement::Function { identifier, body: Block::Statements(list), .. } => {
            lemma_list_grows(list@, list@.len(), constants, shape.label(identifier@));
        },
        Statement::Block(Block::Statements(list)) => {
            lemma_list_grows(list@, list@.len(), constants, shape);
        },
        Statement::Loop { body: Block::Statements(list) } => {
            let started = shape.label(loop_name(shape.loop_counter)).count_loop();
            lemma_list_grows(list@, list@.len(), constants, started);
        },
        Statement::IfStatement(IfStatement::If { condition, body: Block::Statements(list) }) => {
            let started = shape.grow(expr_lines(*condition, constants) + 2).count_if();
            lemma_list_grows(list@, list@.len(), constants, started);
        },
        Statement::IfStatement(
            IfStatement::IfElse {
                condition,
                body: Block::Statements(list),
                else_body: Block::Statements(else_list),
            },
        ) => {
            let started = shape.grow(expr_lines(*condition, constants) + 2).count_if();
            let middle = shape_after_list(list@, list@.len(), constants, started).grow(1).label(
                if_name(shape.if_counter) + "_else"@,
            );
            lemma_list_grows(list@, list@.len(), constants, started);
            lemma_list_grows(else_list@, else_list@.len(), constants, middle);
        },
        _ => {},
    }
}

/// The lines of a shape only become more.
pub proof fn lemma_list_grows(
    statements: Seq<Statement>,
    n: nat,
    constants: Set<Seq<char>>,
    shape: Shape,
)
    ensures
        shape.lines <= shape_after_list(statements, n, constants, shape).lines,
    decreases statements, n,
{
    if n == 0 || n > statements.len() {
    } else {
        lemma_list_grows(statements, (n - 1) as nat, constants, shape);
        lemma_statement_grows(
            statements[n - 1],
            constants,
            shape_after_list(statements, (n - 1) as nat, constants, shape),
        );
    }
}

/// In a list of statements a label is bound to no line beyond those
/// written.
pub proof fn lemma_list_bound(
    statements: Seq<Statement>,
    n: nat,
    constants: Set<Seq<char>>,
    shape: Shape,
)
    requires
        bound_within(shape.labels, shape.lines as int),
        shape_after_list(statements, n, constants, shape).lines <= i32::MAX,
    ensures
        bound_within(
            shape_after_list(statements, n, constants, shape).labels,
            shape_after_list(statements, n, constants, shape).lines as int,
        ),
    decreases statements, n,
{
    if n == 0 || n > statements.len() {
    } else {
        let before = shape_after_list(statements, (n - 1) as nat, constants, shape);
        lemma_statement_grows(statements[n - 1], constants, before);
        lemma_list_bound(statements, (n - 1) as nat, constants, shape);
        lemma_shape_bound(statements[n - 1], constants, before);
    }
}

/// Whether every label is bound to a line from 0 to below `limit`.
pub open spec fn bound_below(labels: Map<Seq<char>, i32>, limit: int) -> bool {
    forall|name: Seq<char>| #[trigger] labels.dom().contains(name) ==> 0 <= labels[name] < limit
}

/// Where the labels that were there before are bound below the limit, and
/// fewer lines are written than the limit, every label is bound below it.
pub proof fn lemma_labels_below(
    stack: StackModel,
    code: CodeModel,
    shape: Shape,
    base: Map<Seq<char>, i32>,
    limit: int,
)
    requires
        tracks(stack, code, shape, base),
        bound_within(shape.labels, shape.lines as int),
        bound_below(base, limit),
        shape.lines < limit,
    ensures
        bound_below(code.labels, limit),
{
    assert forall|name: Seq<char>| #[trigger] code.labels.dom().contains(name) implies 0
        <= code.labels[name] < limit by {
        if shape.labels.dom().contains(name) {
        } else {
            assert(base.dom().contains(name));
        }
    }
}

/// The jumps that a settled expression writes go below the limit, if the
/// lines that it writes end at or below the limit.
#[verifier::rlimit(40)]
pub proof fn lemma_expr_targets(
    expr: Expr,
    stack: StackModel,
    code: CodeModel,
    pass: Pass,
    constants: Set<Seq<char>>,
    limit: int,
)
    requires
        settled(stack, code, constants),
        lower_expr(expr, stack, code, pass).error is None,
        targets_within(code.lines, limit),
        code.lines.len() + expr_lines(expr, constants) <= limit <= i32::MAX,
    ensures
        targets_within(lower_expr(expr, stack, code, pass).code.lines, limit),
    decreases expr,
{
    match expr {
        Expr::BinaryOp(left, op, right) => {
            let commented = code.emit_comment_line("expr binary op "@ + op.debug_text());
            lemma_expr_frame(*left, stack, commented, pass);
            lemma_expr_lines(*left, stack, commented, pass, constants);
            lemma_expr_targets(*left, stack, commented, pass, constants, limit);
            let left = lower_expr(*left, stack, commented, pass);
            lemma_expr_lines(*right, stack, left.code, pass, constants);
            lemma_expr_targets(*right, stack, left.code, pass, constants, limit);
        },
        Expr::Identifier(identifier) => {
            let commented = code.emit_comment_line("expr identifier "@ + identifier.debug_text());
            if commented.constants.dom().contains(identifier@) {
            } else {
                assert(stack.locals.dom().contains(identifier@));
                assert(stack.locals[identifier@] == Location::Stack(-1i32));
            }
        },
        _ => {},
    }
}

/// The jumps that the settled arguments of a call write go below the
/// limit.
pub proof fn lemma_arguments_targets(
    arguments: Seq<Box<Expr>>,
    n: nat,
    stack: StackModel,
    code: CodeModel,
    pass: Pass,
    constants: Set<Seq<char>>,
    limit: int,
)
    requires
        n <= arguments.len(),
        settled(stack, code, constants),
        lower_arguments(arguments, n, stack, code, pass).error is None,
        targets_within(code.lines, limit),
        code.lines.len() + arguments_lines(arguments, n, constants) <= limit <= i32::MAX,
    ensures
        targets_within(lower_arguments(arguments, n, stack, code, pass).code.lines, limit),
    decreases n,
{
    if n > 0 {
        let before = lower_arguments(arguments, (n - 1) as nat, stack, code, pass);
        lemma_arguments_frame(arguments, (n - 1) as nat, stack, code, pass);
        lemma_arguments_lines(arguments, (n - 1) as nat, stack, code, pass, constants);
        lemma_arguments_targets(arguments, (n - 1) as nat, stack, code, pass, constants, limit);
        lemma_expr_targets(*arguments[n - 1], stack, before.code, pass, constants, limit);
    }
}

/// Popping values writes no jump.
pub proof fn lemma_discard_targets(code: CodeModel, count: nat, limit: int)
    requires
        targets_within(code.lines, limit),
    ensures
        targets_within(discard(code, count).lines, limit),
    decreases count,
{
    if count > 0 {
        lemma_discard_targets(code, (count - 1) as nat, limit);
    }
}

/// The jumps that a settled call writes go below the limit, if every label
/// is bound below it.
#[verifier::rlimit(40)]
pub proof fn lemma_call_targets(
    identifier: Identifier,
    arguments: Seq<Box<Expr>>,
    stack: StackModel,
    code: CodeModel,
    pass: Pass,
    constants: Set<Seq<char>>,
    limit: int,
)
    requires
        settled(stack, code, constants),
        lower_call(identifier, arguments, stack, code, pass).error is None,
        targets_within(code.lines, limit),
        bound_below(code.labels, limit),
        lower_call(identifier, arguments, stack, code, pass).code.lines.len() <= limit
            <= i32::MAX,
    ensures
        targets_within(lower_call(identifier, arguments, stack, code, pass).code.lines, limit),
{
    reveal(save_registers);
    reveal(restore_registers);
    lemma_call_lines(identifier, arguments, stack, code, pass, constants);
    lemma_arguments_frame(arguments, arguments.len(), stack, code, pass);
    lemma_arguments_lines(arguments, arguments.len(), stack, code, pass, constants);
    lemma_arguments_targets(arguments, arguments.len(), stack, code, pass, constants, limit);
    let passed = lower_arguments(arguments, arguments.len(), stack, code, pass);
    let saved = save_registers(passed.stack, passed.code.emit_comment_line("saving registers"@));
    assert(targets_within(saved.code.lines, limit));
    let count = stacked_arguments(arguments.len());
    assert forall|c: CodeModel| targets_within(c.lines, limit) implies targets_within(
        #[trigger] discard(c, count).lines,
        limit,
    ) by {
        lemma_discard_targets(c, count, limit);
    }
}

/// The jump that the settled test of a conditional writes, and those of
/// its condition, go below the limit, if every label is bound below it.
pub proof fn lemma_test_targets(
    condition: Expr,
    suffix: Seq<char>,
    stack: StackModel,
    code: CodeModel,
    pass: Pass,
    constants: Set<Seq<char>>,
    limit: int,
)
    requires
        settled(stack, code, constants),
        lower_test(condition, suffix, stack, code, pass).error is None,
        targets_within(code.lines, limit),
        bound_below(code.labels, limit),
        code.lines.len() + expr_lines(condition, constants) + 2 <= limit <= i32::MAX,
    ensures
        targets_within(lower_test(condition, suffix, stack, code, pass).code.lines, limit),
{
    lemma_expr_frame(condition, stack, code, pass);
    lemma_expr_lines(condition, stack, code, pass, constants);
    lemma_expr_targets(condition, stack, code, pass, constants, limit);
}

/// The jumps of a settled assignment go below the limit.
pub proof fn lemma_assignment_targets(
    identifier: Identifier,
    expression: Expr,
    stack: StackModel,
    code: CodeModel,
    pass: Pass,
    constants: Set<Seq<char>>,
    limit: int,
)
    requires
        settled(stack, code, constants),
        lower_assignment(identifier, expression, stack, code, pass).error is None,
        targets_within(code.lines, limit),
        code.lines.len() + expr_lines(expression, constants) + 5 <= limit <= i32::MAX,
    ensures
        targets_within(
            lower_assignment(identifier, expression, stack, code, pass).code.lines,
            limit,
        ),
{
    let commented = code.emit_comment_line(
        "Assignment: "@ + identifier.debug_text() + " "@ + expression.debug_text(),
    );
    lemma_expr_frame(expression, stack, commented, pass);
    lemma_expr_lines(expression, stack, commented, pass, constants);
    lemma_expr_targets(expression, stack, commented, pass, constants, limit);
}

/// The jumps of a settled definition go below the limit.
pub proof fn lemma_definition_targets(
    identifier: Identifier,
    expression: Expr,
    stack: StackModel,
    code: CodeModel,
    pass: Pass,
    constants: Set<Seq<char>>,
    limit: int,
)
    requires
        settled(stack, code, constants),
        lower_definition(identifier, expression, stack, code, pass).error is None,
        targets_within(code.lines, limit),
        code.lines.len() + expr_lines(expression, constants) + 1 <= limit <= i32::MAX,
    ensures
        targets_within(
            lower_definition(identifier, expression, stack, code, pass).code.lines,
            limit,
        ),
{
    let commented = code.emit_comment_line(
        "Definition: "@ + identifier.debug_text() + " "@ + expression.debug_text(),
    );
    lemma_expr_frame(expression, stack, commented, pass);
    lemma_expr_lines(expression, stack, commented, pass, constants);
    lemma_expr_targets(expression, stack, commented, pass, constants, limit);
}

/// The jumps of a settled write to a device go below the limit.
pub proof fn lemma_write_targets(
    value: Expr,
    device: Identifier,
    device_variable: Identifier,
    stack: StackModel,
    code: CodeModel,
    pass: Pass,
    constants: Set<Seq<char>>,
    limit: int,
)
    requires
        settled(stack, code, constants),
        lower_device_write(value, device, device_variable, stack, code, pass).error is None,
        targets_within(code.lines, limit),
        code.lines.len() + expr_lines(value, constants) + 2 <= limit <= i32::MAX,
    ensures
        targets_within(
            lower_device_write(value, device, device_variable, stack, code, pass).code.lines,
            limit,
        ),
{
    lemma_expr_frame(value, stack, code, pass);
    lemma_expr_lines(value, stack, code, pass, constants);
    lemma_expr_targets(value, stack, code, pass, constants, limit);
}

/// The jump to a label goes below the limit, if every label is bound below
/// it.
pub proof fn lemma_jump_targets(
    label: Seq<char>,
    stack: StackModel,
    code: CodeModel,
    pass: Pass,
    limit: int,
)
    requires
        lower_jump(label, stack, code, pass).error is None,
        targets_within(code.lines, limit),
        bound_below(code.labels, limit),
        0 < limit,
    ensures
        targets_within(lower_jump(label, stack, code, pass).code.lines, limit),
        lower_jump(label, stack, code, pass).code.lines.len() == code.lines.len() + 1,
        lower_jump(label, stack, code, pass).stack == stack,
        lower_jump(label, stack, code, pass).code.labels == code.labels,
        lower_jump(label, stack, code, pass).code.constants == code.constants,
{
}

/// The jumps of a steady statement that is lowered from settled states
/// without an error go below the limit, if those written before do, the
/// labels that were there before are bound below it, and the statement's
/// lines end at or below it.
#[verifier::rlimit(40)]
pub proof fn lemma_statement_targets(
    statement: Statement,
    stack: StackModel,
    code: CodeModel,
    pass: Pass,
    constants: Set<Seq<char>>,
    shape: Shape,
    base: Map<Seq<char>, i32>,
    limit: int,
)
    requires
        steady(statement, constants),
        settled(stack, code, constants),
        tracks(stack, code, shape, base),
        lower_statement(statement, stack, code, pass).error is None,
        bound_within(shape.labels, shape.lines as int),
        bound_below(base, limit),
        shape_after(statement, constants, shape).lines <= limit <= i32::MAX,
        targets_within(code.lines, limit),
    ensures
        targets_within(lower_statement(statement, stack, code, pass).code.lines, limit),
    decreases statement,
{
    match statement {
        Statement::Assignment { identifier, expression } => {
            lemma_assignment_targets(identifier, *expression, stack, code, pass, constants, limit);
        },
        Statement::Definition { identifier, expression } => {
            lemma_definition_targets(identifier, *expression, stack, code, pass, constants, limit);
        },
        Statement::Function { identifier, parameters, body: Block::Statements(list) } => {
            let locals = discovered_prefix(list@, list@.len(), Seq::empty());
            let entered = function_prologue(identifier, parameters@, locals, stack, code, pass);
            let started = shape.label(identifier@);
            lemma_prologue_shape(
                identifier,
                parameters@,
                locals,
                stack,
                code,
                pass,
                constants,
                shape,
                base,
            );
            lemma_list_grows(list@, list@.len(), constants, started);
            assert(bound_within(started.labels, started.lines as int));
            assert(targets_within(entered.code.lines, limit));
            lemma_list_targets(
                list@,
                list@.len(),
                entered.stack,
                entered.code,
                pass,
                constants,
                started,
                base,
                limit,
            );
        },
        Statement::FunctionCall { identifier, arguments } => {
            lemma_labels_below(stack, code, shape, base, limit);
            lemma_call_shape(
                identifier,
                arguments@,
                stack,
                code,
                pass,
                constants,
                shape,
                base,
            );
            lemma_call_targets(identifier, arguments@, stack, code, pass, constants, limit);
        },
        Statement::Block(Block::Statements(list)) => {
            lemma_list_targets(
                list@,
                list@.len(),
                stack,
                code,
                pass,
                constants,
                shape,
                base,
                limit,
            );
        },
        Statement::Loop { body: Block::Statements(list) } => {
            let label = loop_name(stack.loop_counter);
            let started = shape.label(label).count_loop();
            lemma_label_tracks(stack, code, shape, base, label);
            lemma_list_grows(list@, list@.len(), constants, started);
            assert(bound_within(started.labels, started.lines as int));
            lemma_list_targets(
                list@,
                list@.len(),
                stack.new_loop(),
                code.define_label(label),
                pass,
                constants,
                started,
                base,
                limit,
            );
            lemma_list_shape(
                list@,
                list@.len(),
                stack.new_loop(),
                code.define_label(label),
                pass,
                constants,
                started,
                base,
            );
            lemma_list_bound(list@, list@.len(), constants, started);
            let inner = lower_prefix(
                list@,
                list@.len(),
                stack.new_loop(),
                code.define_label(label),
                pass,
            );
            lemma_labels_below(
                inner.stack,
                inner.code,
                shape_after_list(list@, list@.len(), constants, started),
                base,
                limit,
            );
            lemma_jump_targets(label, inner.stack, inner.code, pass, limit);
        },
        Statement::IfStatement(IfStatement::If { condition, body: Block::Statements(list) }) => {
            let started = shape.grow(expr_lines(*condition, constants) + 2).count_if();
            lemma_list_grows(list@, list@.len(), constants, started);
            lemma_labels_below(stack, code, shape, base, limit);
            lemma_test_shape(*condition, "_end"@, stack, code, pass, constants, shape, base);
            lemma_test_targets(*condition, "_end"@, stack, code, pass, constants, limit);
            let tested = lower_test(*condition, "_end"@, stack, code, pass);
            lemma_list_targets(
                list@,
                list@.len(),
                tested.stack,
                tested.code,
                pass,
                constants,
                started,
                base,
                limit,
            );
        },
        Statement::IfStatement(
            IfStatement::IfElse {
                condition,
                body: Block::Statements(list),
                else_body: Block::Statements(else_list),
            },
        ) => {
            let started = shape.grow(expr_lines(*condition, constants) + 2).count_if();
            let after_body = shape_after_list(list@, list@.len(), constants, started);
            let else_label = next_if(stack) + "_else"@;
            let middle = after_body.grow(1).label(else_label);
            lemma_list_grows(list@, list@.len(), constants, started);
            lemma_list_grows(else_list@, else_list@.len(), constants, middle);
            lemma_labels_below(stack, code, shape, base, limit);
            lemma_test_shape(*condition, "_else"@, stack, code, pass, constants, shape, base);
            lemma_test_targets(*condition, "_else"@, stack, code, pass, constants, limit);
            let tested = lower_test(*condition, "_else"@, stack, code, pass);
            lemma_list_targets(
                list@,
                list@.len(),
                tested.stack,
                tested.code,
                pass,
                constants,
                started,
                base,
                limit,
            );
            lemma_list_shape(
                list@,
                list@.len(),
                tested.stack,
                tested.code,
                pass,
                constants,
                started,
                base,
            );
            lemma_list_bound(list@, list@.len(), constants, started);
            let inner = lower_prefix(list@, list@.len(), tested.stack, tested.code, pass);
            lemma_labels_below(inner.stack, inner.code, after_body, base, limit);
            lemma_jump_targets(next_if(stack) + "_end"@, inner.stack, inner.code, pass, limit);
            let over = lower_jump(next_if(stack) + "_end"@, inner.stack, inner.code, pass);
            assert(tracks(over.stack, over.code, after_body.grow(1), base));
            lemma_label_tracks(over.stack, over.code, after_body.grow(1), base, else_label);
            assert(bound_within(middle.labels, middle.lines as int));
            lemma_list_targets(
                else_list@,
                else_list@.len(),
                over.stack,
                over.code.define_label(else_label),
                pass,
                constants,
                middle,
                base,
                limit,
            );
        },
        Statement::DeviceStatement(DeviceStatement::Read { device, device_variable, local }) => {
            assert(stack.locals[local@] == Location::Stack(-1i32));
        },
        Statement::DeviceStatement(DeviceStatement::Write { value, device, device_variable }) => {
            lemma_write_targets(
                *value,
                device,
                device_variable,
                stack,
                code,
                pass,
                constants,
                limit,
            );
        },
        _ => {},
    }
}

/// The jumps of steady statements that are lowered from settled states
/// without an error go below the limit, if those written before do, the
/// labels that were there before are bound below it, and the statements'
/// lines end at or below it.
pub proof fn lemma_list_targets(
    statements: Seq<Statement>,
    n: nat,
    stack: StackModel,
    code: CodeModel,
    pass: Pass,
    constants: Set<Seq<char>>,
    shape: Shape,
    base: Map<Seq<char>, i32>,
    limit: int,
)
    requires
        steady_list(statements, n, constants),
        settled(stack, code, constants),
        tracks(stack, code, shape, base),
        lower_prefix(statements, n, stack, code, pass).error is None,
        bound_within(shape.labels, shape.lines as int),
        bound_below(base, limit),
        shape_after_list(statements, n, constants, shape).lines <= limit <= i32::MAX,
        targets_within(code.lines, limit),
    ensures
        targets_within(lower_prefix(statements, n, stack, code, pass).code.lines, limit),
    decreases statements, n,
{
    if n == 0 || n > statements.len() {
    } else {
        let before = lower_prefix(statements, (n - 1) as nat, stack, code, pass);
        let shape_before = shape_after_list(statements, (n - 1) as nat, constants, shape);
        assert(before.error is None);
        lemma_statement_grows(statements[n - 1], constants, shape_before);
        lemma_list_targets(
            statements,
            (n - 1) as nat,
            stack,
            code,
            pass,
            constants,
            shape,
            base,
            limit,
        );
        lemma_list_shape(statements, (n - 1) as nat, stack, code, pass, constants, shape, base);
        lemma_list_bound(statements, (n - 1) as nat, constants, shape);
        lemma_statement_targets(
            statements[n - 1],
            before.stack,
            before.code,
            pass,
            constants,
            shape_before,
            base,
            limit,
        );
    }
}

/// The jumps of a compiled program stay inside it: for a program of steady
/// statements that both passes lower without an error, every jump that the
/// second pass writes goes to a line of the program, if the number of
/// lines fits a jump target and no label is bound to the line after the
/// last, as the end label of a conditional is with which the program ends.
/// `constants` is any set that holds the names of the program's constants
/// and the name of none of its variables.
pub proof fn lemma_label_stability(program: Program, constants: Set<Seq<char>>)
    requires
        steady_list(program.statements@, program.statements@.len(), constants),
        first_pass(program).error is None,
        second_pass(program).error is None,
        second_pass(program).code.lines.len() <= i32::MAX,
        forall|name: Seq<char>| #[trigger]
            second_pass(program).code.labels.dom().contains(name) ==> second_pass(
                program,
            ).code.labels[name] != second_pass(program).code.lines.len(),
    ensures
        targets_within(
            second_pass(program).code.lines,
            second_pass(program).code.lines.len() as int,
        ),
{
    let statements = program.statements@;
    let shape = shape_after_list(statements, statements.len(), constants, Shape::empty());
    let nothing = Map::<Seq<char>, i32>::empty();
    let first = first_pass(program);
    let limit = second_pass(program).code.lines.len() as int;
    lemma_pass_parity(program, constants);
    assert(CodeModel::empty().labels =~= nothing.union_prefer_right(Shape::empty().labels));
    lemma_list_shape(
        statements,
        statements.len(),
        StackModel::empty(),
        CodeModel::empty(),
        Pass::First,
        constants,
        Shape::empty(),
        nothing,
    );
    assert(first.code.labels =~= shape.labels);
    assert(shape.lines == limit);
    lemma_list_bound(statements, statements.len(), constants, Shape::empty());
    assert(bound_below(first.code.labels, limit));
    assert(first.code.reset_for_pass_two().labels =~= first.code.labels.union_prefer_right(
        Shape::empty().labels,
    ));
    lemma_list_targets(
        statements,
        statements.len(),
        first.stack.clear(),
        first.code.reset_for_pass_two(),
        Pass::Second,
        constants,
        Shape::empty(),
        first.code.labels,
        limit,
    );
}

} // verus!
