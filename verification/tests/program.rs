use ayysee::compiler::codegen::CodeGenerator;
use ayysee::compiler::error::Error;
use ayysee::compiler::generate_program;
use ayysee::compiler::stack::Stack;
use ayysee::compiler::statement::{generate_block, generate_statement};
use ayysee::compiler::Pass;
use ayysee::mips::instructions::{FlowControl, Instruction, Misc};
use ayysee::mips::types::{Number, RegisterOrNumber};
use ayysee::parser::ast::{
    BinaryOpcode, Block, Expr, Identifier, IfStatement, Program, Statement, UnaryOpcode, Value,
};

fn id(name: &str) -> Identifier {
    Identifier::new(name)
}

fn whole(value: i64) -> Box<Expr> {
    Box::new(Expr::Constant(Value::Integer(value)))
}

fn var(name: &str) -> Box<Expr> {
    Box::new(Expr::Identifier(id(name)))
}

fn block(statements: Vec<Statement>) -> Block {
    Block::new_statements(Some(statements))
}

fn function(name: &str, parameters: &[&str], body: Vec<Statement>) -> Statement {
    Statement::new_function(id(name), parameters.iter().map(|p| id(p)).collect(), block(body))
}

fn call(name: &str, arguments: Vec<Box<Expr>>) -> Statement {
    Statement::new_function_call(id(name), arguments)
}

/// A program in which no function has parameters or variables of its own.
fn steady_program() -> Vec<Statement> {
    vec![
        Statement::new_constant(id("limit"), Value::Integer(3)),
        function(
            "main",
            &[],
            vec![Statement::new_loop(block(vec![
                Statement::new_definition(id("x"), var("limit")),
                Statement::new_if(IfStatement::new_if_else(
                    Box::new(Expr::BinaryOp(var("x"), BinaryOpcode::Equals, whole(1))),
                    block(vec![Statement::Yield]),
                    block(vec![Statement::new_assignment(id("x"), whole(2))]),
                )),
                call("helper", vec![]),
            ]))],
        ),
        function("helper", &[], vec![Statement::Yield]),
    ]
}

/// Both passes over the statements, as the compiler makes them.
fn two_passes(statements: &Vec<Statement>) -> (usize, Stack, CodeGenerator) {
    let mut stack = Stack::new();
    let mut codegen = CodeGenerator::new();
    assert_eq!(generate_block(statements, &mut stack, &mut codegen, Pass::First), Ok(()));
    let first = codegen.len();
    codegen.clear_first_pass();
    stack.clear();
    assert_eq!(generate_block(statements, &mut stack, &mut codegen, Pass::Second), Ok(()));
    (first, stack, codegen)
}

/// The line that an instruction jumps to, where it names one by a number.
fn target(instruction: &Instruction) -> Option<i32> {
    let operand = match instruction {
        Instruction::FlowControl(FlowControl::Jump { a }) => return Some(*a),
        Instruction::FlowControl(FlowControl::JumpAndLink { a }) => return Some(*a),
        Instruction::FlowControl(FlowControl::BranchEqualZero { b, .. }) => b,
        Instruction::FlowControl(FlowControl::BranchEqual { c, .. }) => c,
        Instruction::FlowControl(FlowControl::BranchGreaterThan { c, .. }) => c,
        Instruction::FlowControl(FlowControl::BranchLessThan { c, .. }) => c,
        _ => return None,
    };
    match operand {
        RegisterOrNumber::Number(Number::Int(line)) => Some(*line),
        _ => None,
    }
}

#[test]
fn empty_main() {
    let program = Program::new(vec![function("main", &[], vec![])]);
    let text = generate_program(program).unwrap();
    assert_eq!(text, "main: # Function: Identifier(\"main\") []\nbeqz 0 ra");
    assert_eq!(text.lines().filter(|line| line.starts_with("main:")).count(), 1);
    assert_eq!(text.lines().filter(|line| *line == "beqz 0 ra").count(), 1);
}

#[test]
fn forward_function_call() {
    let statements = vec![function("main", &[], vec![call("f", vec![])]), function("f", &[], vec![])];
    let (first, _, codegen) = two_passes(&statements);
    assert_eq!(first, codegen.len());
    assert_eq!(codegen.get_label("f"), Some(15));
    assert_eq!(
        codegen.instruction(7),
        Some(&Instruction::FlowControl(FlowControl::JumpAndLink { a: 15 }))
    );
    assert_eq!(
        codegen.instruction(14),
        Some(&Instruction::Misc(Misc::Label { name: "f".to_string() }))
    );
    assert_eq!(codegen.comment(7).map(|c| c.as_str()), Some("FunctionCall: Identifier(\"f\") []"));
    let text = generate_program(Program::new(statements)).unwrap();
    assert_eq!(
        text,
        "main: # Function: Identifier(\"main\") []\n\
         # saving registers\n\
         push ra\n\
         push r4\n\
         push r5\n\
         push r6\n\
         push r7\n\
         jal 15 # FunctionCall: Identifier(\"f\") []\n\
         pop r7\n\
         pop r6\n\
         pop r5\n\
         pop r4\n\
         pop ra\n\
         beqz 0 ra\n\
         f: # Function: Identifier(\"f\") []\n\
         beqz 0 ra"
    );
}

#[test]
fn a_program_without_main_is_not_compiled() {
    assert_eq!(generate_program(Program::new(vec![])), Err(Error::UndefinedMain));
    assert_eq!(
        generate_program(Program::new(vec![function("f", &[], vec![])])),
        Err(Error::UndefinedMain)
    );
    assert_eq!(
        generate_program(Program::new(vec![Statement::Yield, function("Main", &[], vec![])])),
        Err(Error::UndefinedMain)
    );
    assert_eq!(
        generate_program(Program::new(vec![Statement::new_loop(block(vec![]))])),
        Err(Error::UndefinedMain)
    );
}

#[test]
fn an_earlier_error_is_reported_before_the_missing_main() {
    let program = Program::new(vec![Statement::new_assignment(id("ghost"), whole(1))]);
    assert_eq!(generate_program(program), Err(Error::UndefinedVariable("ghost".to_string())));
}

#[test]
fn main_may_stand_inside_a_block() {
    let program = Program::new(vec![Statement::new_block(block(vec![function("main", &[], vec![])]))]);
    assert_eq!(
        generate_program(program),
        Ok("main: # Function: Identifier(\"main\") []\nbeqz 0 ra".to_string())
    );
}

#[test]
fn a_call_of_a_function_that_is_not_defined() {
    let program = Program::new(vec![function("main", &[], vec![call("f", vec![])])]);
    assert_eq!(generate_program(program), Err(Error::UndefinedFunction("f".to_string())));
}

#[test]
fn an_operator_that_is_not_lowered_stops_the_compilation() {
    let not = Box::new(Expr::UnaryOp(UnaryOpcode::Not, whole(1)));
    let program = Program::new(vec![function("main", &[], vec![Statement::new_definition(id("x"), not)])]);
    assert_eq!(generate_program(program), Err(Error::Unimplemented("Not".to_string())));
}

#[test]
fn a_text_that_is_no_device_stops_the_compilation() {
    let program = Program::new(vec![
        Statement::new_alias(id("e7"), id("sensor")),
        function("main", &[], vec![]),
    ]);
    assert_eq!(
        generate_program(program),
        Err(Error::Mips(ayysee::mips::error::Error::ParseError("e7".to_string())))
    );
}

#[test]
fn messages_of_the_errors() {
    assert_eq!(
        Error::UndefinedVariable("x".to_string()).to_string(),
        "usage of undefined variable: x"
    );
    assert_eq!(
        Error::UndefinedFunction("f".to_string()).to_string(),
        "usage of undefined function: f"
    );
    assert_eq!(Error::UndefinedMain.to_string(), "main function not defined");
    assert_eq!(
        Error::Mips(ayysee::mips::error::Error::ParseError("d9".to_string())).to_string(),
        "failed to parse"
    );
    assert_eq!(Error::Mips(ayysee::mips::error::Error::Todo).to_string(), "todo");
    assert_eq!(Error::Unimplemented("Not".to_string()).to_string(), "unimplemented operator: Not");
    assert_eq!(
        Error::from(ayysee::mips::error::Error::Todo),
        Error::Mips(ayysee::mips::error::Error::Todo)
    );
}

#[test]
fn compiling_twice_gives_the_same_text() {
    let first = generate_program(Program::new(steady_program()));
    let second = generate_program(Program::new(steady_program()));
    assert!(first.is_ok());
    assert_eq!(first, second);
    let failed = generate_program(Program::new(vec![call("f", vec![var("q")])]));
    let again = generate_program(Program::new(vec![call("f", vec![var("q")])]));
    assert_eq!(failed, Err(Error::UndefinedVariable("q".to_string())));
    assert_eq!(failed, again);
}

#[test]
fn the_passes_write_the_same_number_of_lines_and_bind_the_same_labels() {
    let statements = steady_program();
    let mut stack = Stack::new();
    let mut codegen = CodeGenerator::new();
    assert_eq!(generate_block(&statements, &mut stack, &mut codegen, Pass::First), Ok(()));
    let names = ["main", "helper", "loop_0", "if_0_else", "if_0_end"];
    let first_lines = codegen.len();
    let first_labels: Vec<Option<i32>> = names.iter().map(|name| codegen.get_label(name)).collect();
    assert!(first_labels.iter().all(|label| label.is_some()));
    codegen.clear_first_pass();
    stack.clear();
    assert_eq!(generate_block(&statements, &mut stack, &mut codegen, Pass::Second), Ok(()));
    let second_labels: Vec<Option<i32>> = names.iter().map(|name| codegen.get_label(name)).collect();
    assert_eq!(codegen.len(), first_lines);
    assert_eq!(second_labels, first_labels);
    assert_eq!(codegen.get_label("main"), Some(1));
    assert_eq!(codegen.get_label("loop_0"), Some(2));
}

#[test]
fn parameters_make_the_second_pass_longer() {
    let statements = vec![function("main", &["a"], vec![])];
    let (first, _, codegen) = two_passes(&statements);
    assert_eq!(first, 2);
    assert_eq!(codegen.len(), 3);
}

#[test]
fn variables_make_the_second_pass_longer() {
    let statements = vec![function(
        "main",
        &[],
        vec![Statement::new_definition(id("x"), whole(1)), Statement::new_definition(id("y"), whole(2))],
    )];
    let (first, _, codegen) = two_passes(&statements);
    assert_eq!(codegen.len(), first + 2);
}

#[test]
fn a_function_without_parameters_and_variables_leaves_the_stack_offset() {
    for pass in [Pass::First, Pass::Second] {
        let mut stack = Stack::new();
        let mut codegen = CodeGenerator::new();
        stack.allocate_local("outer".to_string());
        let before = stack.sp_offset();
        let statement = function(
            "f",
            &[],
            vec![
                Statement::Yield,
                call("g", vec![whole(1), whole(2), whole(3), whole(4), whole(5)]),
                Statement::new_loop(block(vec![Statement::new_definition(id("x"), whole(1))])),
            ],
        );
        if let Pass::Second = pass {
            codegen.add_label("g".to_string());
        }
        assert_eq!(generate_statement(&statement, &mut stack, &mut codegen, pass), Ok(()));
        assert_eq!(stack.sp_offset(), before);
    }
}

#[test]
fn parameters_and_variables_lower_the_stack_offset() {
    let make = || function("f", &["a", "b"], vec![Statement::new_definition(id("x"), whole(1))]);
    let mut stack = Stack::new();
    let mut codegen = CodeGenerator::new();
    assert_eq!(generate_statement(&make(), &mut stack, &mut codegen, Pass::First), Ok(()));
    assert_eq!(stack.sp_offset(), -2);
    let mut stack = Stack::new();
    let mut codegen = CodeGenerator::new();
    assert_eq!(generate_statement(&make(), &mut stack, &mut codegen, Pass::Second), Ok(()));
    assert_eq!(stack.sp_offset(), -3);
}

#[test]
fn every_jump_goes_to_a_line_of_the_program() {
    let (_, _, codegen) = two_passes(&steady_program());
    let mut jumps = 0;
    let mut line = 0;
    while line < codegen.len() {
        if let Some(to) = target(codegen.instruction(line).unwrap()) {
            assert!(0 <= to && (to as usize) < codegen.len(), "line {} jumps to {}", line, to);
            jumps += 1;
        }
        line += 1;
    }
    assert_eq!(jumps, 5);
}

#[test]
fn a_conditional_at_the_end_jumps_past_the_last_line() {
    let statements = vec![
        function("main", &[], vec![]),
        Statement::new_if(IfStatement::new_if(whole(1), block(vec![]))),
    ];
    let (_, _, codegen) = two_passes(&statements);
    assert_eq!(codegen.len(), 7);
    assert_eq!(codegen.get_label("if_0_end"), Some(7));
    assert_eq!(target(codegen.instruction(5).unwrap()), Some(7));
}

#[test]
fn a_whole_program() {
    let text = generate_program(Program::new(steady_program())).unwrap();
    let lines: Vec<&str> = text.lines().collect();
    assert_eq!(lines[0], "main: # Function: Identifier(\"main\") []");
    assert_eq!(lines[1], "loop_0:");
    assert_eq!(lines[2], "# Definition: Identifier(\"x\") Identifier(Identifier(\"limit\"))");
    assert_eq!(lines[3], "# expr identifier Identifier(\"limit\")");
    assert_eq!(lines[4], "# expr constant Integer(3)");
    assert_eq!(lines[5], "push 3");
    assert_eq!(lines[6], "# expr binary op Equals");
    assert_eq!(lines[7], "# expr identifier Identifier(\"x\")");
    assert_eq!(lines[8], "# retrieve Identifier(\"x\") from offset 1");
    assert_eq!(lines[9], "peek r0");
    assert_eq!(lines[10], "push r0");
    assert_eq!(lines[lines.len() - 3], "helper: # Function: Identifier(\"helper\") []");
    assert_eq!(lines[lines.len() - 2], "yield");
    assert_eq!(lines[lines.len() - 1], "beqz 0 ra");
    assert!(!text.ends_with('\n'));
}
