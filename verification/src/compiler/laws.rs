//! What holds of every lowering: what the parts of a lowering leave as it
//! was, that a program needs its `main`, that a label names the line where
//! it was placed last, and that compiling is a function of the program.
use vstd::prelude::*;
use crate::compiler::codegen::{line_number, CodeModel};
use crate::compiler::error::{Error, ErrorView};
use crate::compiler::expr::lower_expr;
use crate::compiler::stack::{if_name, loop_name, StackModel};
use crate::compiler::statement::{
    bind_locals, bind_parameters, discard, discovered_prefix, function_prologue, lower_arguments,
    lower_call, lower_jump, lower_prefix, lower_statement, lower_test, next_if, restore_registers,
    save_registers,
};
use crate::compiler::{compile, first_pass, result_view, second_pass, Pass};
use crate::parser::ast::{Block, DeviceStatement, Expr, Identifier, IfStatement, Program, Statement};

verus! {

/// Two states of the code have the same labels, devices and constants.
pub open spec fn same_tables(a: CodeModel, b: CodeModel) -> bool {
    &&& a.labels == b.labels
    &&& a.devices == b.devices
    &&& a.constants == b.constants
}

/// The lowering of an expression writes lines and changes nothing else.
pub proof fn lemma_expr_frame(expr: Expr, stack: StackModel, code: CodeModel, pass: Pass)
    ensures
        lower_expr(expr, stack, code, pass).stack == stack,
        same_tables(lower_expr(expr, stack, code, pass).code, code),
    decreases expr,
{
    match expr {
        Expr::BinaryOp(left, op, right) => {
            let code = code.emit_comment_line("expr binary op "@ + op.debug_text());
            lemma_expr_frame(*left, stack, code, pass);
            let left = lower_expr(*left, stack, code, pass);
            lemma_expr_frame(*right, stack, left.code, pass);
        },
        _ => {},
    }
}

/// The lowering of the arguments of a call writes lines and changes
/// nothing else.
pub proof fn lemma_arguments_frame(
    arguments: Seq<Box<Expr>>,
    n: nat,
    stack: StackModel,
    code: CodeModel,
    pass: Pass,
)
    ensures
        lower_arguments(arguments, n, stack, code, pass).stack == stack,
        same_tables(lower_arguments(arguments, n, stack, code, pass).code, code),
    decreases n,
{
    if n == 0 || n > arguments.len() {
    } else {
        lemma_arguments_frame(arguments, (n - 1) as nat, stack, code, pass);
        let before = lower_arguments(arguments, (n - 1) as nat, stack, code, pass);
        lemma_expr_frame(*arguments[n - 1], stack, before.code, pass);
    }
}

/// Popping values writes lines and changes nothing else.
pub proof fn lemma_discard_frame(code: CodeModel, count: nat)
    ensures
        same_tables(discard(code, count), code),
    decreases count,
{
    if count > 0 {
        lemma_discard_frame(code, (count - 1) as nat);
    }
}

/// The lowering of a call leaves the tables of the code as they were, and
/// of the stack model all but the list of saved registers.
#[verifier::rlimit(40)]
pub proof fn lemma_call_frame(
    identifier: Identifier,
    arguments: Seq<Box<Expr>>,
    stack: StackModel,
    code: CodeModel,
    pass: Pass,
)
    ensures
        same_tables(lower_call(identifier, arguments, stack, code, pass).code, code),
        lower_call(identifier, arguments, stack, code, pass).stack.locals == stack.locals,
        lower_call(identifier, arguments, stack, code, pass).stack.loops == stack.loops,
        lower_call(identifier, arguments, stack, code, pass).stack.loop_counter
            == stack.loop_counter,
        lower_call(identifier, arguments, stack, code, pass).stack.if_counter == stack.if_counter,
        lower_call(identifier, arguments, stack, code, pass).error is None ==> lower_call(
            identifier,
            arguments,
            stack,
            code,
            pass,
        ).stack.sp_offset == stack.sp_offset,
{
    reveal(save_registers);
    reveal(restore_registers);
    lemma_arguments_frame(arguments, arguments.len(), stack, code, pass);
    let passed = lower_arguments(arguments, arguments.len(), stack, code, pass);
    if passed.error is None {
        let restored = lower_call(identifier, arguments, stack, code, pass);
        if restored.error is None {
            let count = if arguments.len() > 4 {
                (arguments.len() - 4) as nat
            } else {
                0
            };
            assert(forall|c: CodeModel| same_tables(#[trigger] discard(c, count), c)) by {
                assert forall|c: CodeModel| same_tables(#[trigger] discard(c, count), c) by {
                    lemma_discard_frame(c, count);
                }
            }
        }
    }
}

/// Binding the parameters of a function leaves the labels as they were.
pub proof fn lemma_bind_parameters_labels(
    parameters: Seq<Identifier>,
    n: nat,
    stack: StackModel,
    code: CodeModel,
    pass: Pass,
)
    ensures
        same_tables(bind_parameters(parameters, n, stack, code, pass).code, code),
        bind_parameters(parameters, n, stack, code, pass).error is None,
    decreases n,
{
    if n == 0 || n > parameters.len() {
    } else {
        lemma_bind_parameters_labels(parameters, (n - 1) as nat, stack, code, pass);
    }
}

/// Binding the variables of a function leaves the labels as they were.
pub proof fn lemma_bind_locals_labels(
    locals: Seq<Seq<char>>,
    n: nat,
    stack: StackModel,
    code: CodeModel,
    pass: Pass,
)
    ensures
        same_tables(bind_locals(locals, n, stack, code, pass).code, code),
        bind_locals(locals, n, stack, code, pass).error is None,
    decreases n,
{
    if n == 0 || n > locals.len() {
    } else {
        lemma_bind_locals_labels(locals, (n - 1) as nat, stack, code, pass);
    }
}

/// Whether the statement, or a statement inside it, is a function with the
/// given name.
pub open spec fn defines_function(statement: Statement, name: Seq<char>) -> bool
    decreases statement,
{
    match statement {
        Statement::Function { identifier, body: Block::Statements(list), .. } => identifier@
            == name || list_defines_function(list@, list@.len(), name),
        Statement::Block(Block::Statements(list)) => list_defines_function(
            list@,
            list@.len(),
            name,
        ),
        Statement::Loop { body: Block::Statements(list) } => list_defines_function(
            list@,
            list@.len(),
            name,
        ),
        Statement::IfStatement(IfStatement::If { body: Block::Statements(list), .. }) => {
            list_defines_function(list@, list@.len(), name)
        },
        Statement::IfStatement(
            IfStatement::IfElse {
                body: Block::Statements(list),
                else_body: Block::Statements(else_list),
                ..
            },
        ) => list_defines_function(list@, list@.len(), name) || list_defines_function(
            else_list@,
            else_list@.len(),
            name,
        ),
        _ => false,
    }
}

/// Whether one of the first `n` statements of the list defines a function
/// with the given name.
pub open spec fn list_defines_function(statements: Seq<Statement>, n: nat, name: Seq<char>) -> bool
    decreases statements, n,
{
    if n == 0 || n > statements.len() {
        false
    } else {
        list_defines_function(statements, (n - 1) as nat, name) || defines_function(
            statements[n - 1],
            name,
        )
    }
}

/// The names that the compiler gives to loops and conditionals are not
/// `main`.
pub proof fn lemma_minted_names(number: i32)
    ensures
        loop_name(number) != "main"@,
        if_name(number) + "_end"@ != "main"@,
        if_name(number) + "_else"@ != "main"@,
{
    reveal_strlit("main");
    reveal_strlit("loop_");
    reveal_strlit("if_");
    assert(loop_name(number)[0] == 'l');
    assert((if_name(number) + "_end"@)[0] == 'i');
    assert((if_name(number) + "_else"@)[0] == 'i');
    assert("main"@[0] == 'm');
}

/// A statement that defines no function named `main` binds no label of
/// that name.
#[verifier::rlimit(40)]
pub proof fn lemma_statement_binds_no_main(
    statement: Statement,
    stack: StackModel,
    code: CodeModel,
    pass: Pass,
)
    requires
        !defines_function(statement, "main"@),
        !code.labels.dom().contains("main"@),
    ensures
        !lower_statement(statement, stack, code, pass).code.labels.dom().contains("main"@),
    decreases statement,
{
    match statement {
        Statement::Assignment { identifier, expression } => {
            let code = code.emit_comment_line(
                "Assignment: "@ + identifier.debug_text() + " "@ + expression.debug_text(),
            );
            lemma_expr_frame(*expression, stack, code, pass);
        },
        Statement::Definition { identifier, expression } => {
            let code = code.emit_comment_line(
                "Definition: "@ + identifier.debug_text() + " "@ + expression.debug_text(),
            );
            lemma_expr_frame(*expression, stack, code, pass);
        },
        Statement::Function { identifier, parameters, body: Block::Statements(list) } => {
            let locals = discovered_prefix(list@, list@.len(), Seq::empty());
            let labelled = code.define_label(identifier@).annotate_last(
                "Function: "@ + identifier.debug_text() + " "@
                    + crate::parser::ast::identifiers_debug(parameters@),
            );
            lemma_bind_parameters_labels(parameters@, parameters@.len(), stack, labelled, pass);
            let bound = bind_parameters(parameters@, parameters@.len(), stack, labelled, pass);
            lemma_bind_locals_labels(locals, locals.len(), bound.stack, bound.code, pass);
            let entered = function_prologue(identifier, parameters@, locals, stack, code, pass);
            lemma_list_binds_no_main(list@, list@.len(), entered.stack, entered.code, pass);
        },
        Statement::FunctionCall { identifier, arguments } => {
            lemma_call_frame(identifier, arguments@, stack, code, pass);
        },
        Statement::Block(Block::Statements(list)) => {
            lemma_list_binds_no_main(list@, list@.len(), stack, code, pass);
        },
        Statement::Loop { body: Block::Statements(list) } => {
            lemma_minted_names(stack.loop_counter);
            lemma_list_binds_no_main(
                list@,
                list@.len(),
                stack.new_loop(),
                code.define_label(loop_name(stack.loop_counter)),
                pass,
            );
        },
        Statement::IfStatement(IfStatement::If { condition, body: Block::Statements(list) }) => {
            lemma_minted_names(stack.if_counter);
            lemma_expr_frame(*condition, stack, code, pass);
            let tested = lower_test(*condition, "_end"@, stack, code, pass);
            lemma_list_binds_no_main(list@, list@.len(), tested.stack, tested.code, pass);
        },
        Statement::IfStatement(
            IfStatement::IfElse {
                condition,
                body: Block::Statements(list),
                else_body: Block::Statements(else_list),
            },
        ) => {
            lemma_minted_names(stack.if_counter);
            lemma_expr_frame(*condition, stack, code, pass);
            let tested = lower_test(*condition, "_else"@, stack, code, pass);
            lemma_list_binds_no_main(list@, list@.len(), tested.stack, tested.code, pass);
            let inner = lower_prefix(list@, list@.len(), tested.stack, tested.code, pass);
            let over = lower_jump(next_if(stack) + "_end"@, inner.stack, inner.code, pass);
            lemma_list_binds_no_main(
                else_list@,
                else_list@.len(),
                over.stack,
                over.code.define_label(next_if(stack) + "_else"@),
                pass,
            );
        },
        Statement::DeviceStatement(DeviceStatement::Write { value, device, device_variable }) => {
            lemma_expr_frame(*value, stack, code, pass);
        },
        _ => {},
    }
}

/// Statements of which none defines a function named `main` bind no label
/// of that name.
pub proof fn lemma_list_binds_no_main(
    statements: Seq<Statement>,
    n: nat,
    stack: StackModel,
    code: CodeModel,
    pass: Pass,
)
    requires
        !list_defines_function(statements, n, "main"@),
        !code.labels.dom().contains("main"@),
    ensures
        !lower_prefix(statements, n, stack, code, pass).code.labels.dom().contains("main"@),
    decreases statements, n,
{
    if n == 0 || n > statements.len() {
    } else {
        lemma_list_binds_no_main(statements, (n - 1) as nat, stack, code, pass);
        let before = lower_prefix(statements, (n - 1) as nat, stack, code, pass);
        if before.error is None {
            lemma_statement_binds_no_main(statements[n - 1], before.stack, before.code, pass);
        }
    }
}

/// A program without a function named `main`, at any depth, is not
/// compiled: the compilation ends in an error and gives no text. The error
/// is that of the pass that failed, and the missing `main` if both passes
/// went through.
pub proof fn lemma_main_required(program: Program)
    requires
        !list_defines_function(program.statements@, program.statements@.len(), "main"@),
    ensures
        compile(program) is Err,
        first_pass(program).error is None && second_pass(program).error is None ==> compile(
            program,
        ) == Err::<Seq<char>, ErrorView>(ErrorView::UndefinedMain),
{
    let statements = program.statements@;
    lemma_list_binds_no_main(
        statements,
        statements.len(),
        StackModel::empty(),
        CodeModel::empty(),
        Pass::First,
    );
    lemma_list_binds_no_main(
        statements,
        statements.len(),
        first_pass(program).stack.clear(),
        first_pass(program).code.reset_for_pass_two(),
        Pass::Second,
    );
}

/// Placing a label anew overwrites what its name was bound to: after a
/// label is placed, its name is bound to the line after the marker,
/// whatever it was bound to before, and every other name is bound as it
/// was.
pub proof fn lemma_label_rebinding(code: CodeModel, name: Seq<char>)
    ensures
        code.define_label(name).labels.dom().contains(name),
        code.define_label(name).labels[name] == line_number(code.lines.len() as int + 1),
        forall|other: Seq<char>|
            other != name ==> (#[trigger] code.define_label(name).labels.dom().contains(other)
                <==> code.labels.dom().contains(other)),
        forall|other: Seq<char>|
            other != name && code.labels.dom().contains(other) ==> #[trigger] code.define_label(
                name,
            ).labels[other] == code.labels[other],
{
}

/// A label that is placed twice is bound to the later line: of two
/// placements of one name, with any state `later` in between that has the
/// labels of the first, only the second counts.
pub proof fn lemma_label_placed_twice(code: CodeModel, later: CodeModel, name: Seq<char>)
    requires
        later.labels == code.define_label(name).labels,
    ensures
        later.define_label(name).labels == code.labels.insert(
            name,
            line_number(later.lines.len() as int + 1),
        ),
{
    assert(later.define_label(name).labels =~= code.labels.insert(
        name,
        line_number(later.lines.len() as int + 1),
    ));
}

/// Compiling is a function of the program: two results that `compile`
/// allows for one program are the same text, or the same error.
pub proof fn lemma_deterministic(program: Program, a: Result<String, Error>, b: Result<String, Error>)
    requires
        result_view(a) == compile(program),
        result_view(b) == compile(program),
    ensures
        match (a, b) {
            (Ok(x), Ok(y)) => x@ == y@,
            (Err(x), Err(y)) => x@ == y@,
            _ => false,
        },
{
}

} // verus!
