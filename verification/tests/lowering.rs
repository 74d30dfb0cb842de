use ayysee::compiler::codegen::CodeGenerator;
use ayysee::compiler::error::Error;
use ayysee::compiler::expr::generate_expr;
use ayysee::compiler::stack::Stack;
use ayysee::compiler::statement::{find_locals, generate_block, generate_statement};
use ayysee::compiler::{Location, Pass};
use ayysee::mips::types::{Device, Register};
use ayysee::parser::ast::{
    BinaryOpcode, Block, DeviceStatement, Expr, Identifier, IfStatement, Statement, UnaryOpcode,
    Value,
};

fn id(name: &str) -> Identifier {
    Identifier::new(name)
}

fn whole(value: i64) -> Box<Expr> {
    Box::new(Expr::Constant(Value::Integer(value)))
}

fn var(name: &str) -> Box<Expr> {
    Box::new(Expr::Identifier(id(name)))
}

fn binary(left: Box<Expr>, op: BinaryOpcode, right: Box<Expr>) -> Box<Expr> {
    Box::new(Expr::BinaryOp(left, op, right))
}

fn block(statements: Vec<Statement>) -> Block {
    Block::new_statements(Some(statements))
}

fn function(name: &str, parameters: &[&str], body: Vec<Statement>) -> Statement {
    Statement::new_function(id(name), parameters.iter().map(|p| id(p)).collect(), block(body))
}

fn call(name: &str, arguments: Vec<Box<Expr>>) -> Statement {
    Statement::new_function_call(id(name), arguments)
}

/// Every line of the buffer, without the comments attached to lines.
fn lines(codegen: &CodeGenerator) -> Vec<String> {
    let mut all = Vec::new();
    let mut i = 0;
    while i < codegen.len() {
        all.push(codegen.instruction(i).unwrap().to_string());
        i += 1;
    }
    all
}

/// The lines of the buffer that are no comment lines.
fn code(codegen: &CodeGenerator) -> Vec<String> {
    lines(codegen).into_iter().filter(|line| !line.starts_with("# ")).collect()
}

#[test]
fn integer_add() {
    let mut stack = Stack::new();
    let mut codegen = CodeGenerator::new();
    let statement = Statement::new_definition(id("x"), binary(whole(2), BinaryOpcode::Add, whole(3)));
    assert_eq!(generate_statement(&statement, &mut stack, &mut codegen, Pass::Second), Ok(()));
    assert_eq!(code(&codegen), vec!["push 2", "push 3", "pop r1", "pop r0", "add r0 r0 r1", "push r0"]);
    assert_eq!(stack.get_local("x"), Some(Location::Stack(-1)));
    assert_eq!(
        codegen.get_code(),
        "# Definition: Identifier(\"x\") BinaryOp(Constant(Integer(2)), Add, Constant(Integer(3)))\n\
         # expr binary op Add\n\
         # expr constant Integer(2)\n\
         push 2\n\
         # expr constant Integer(3)\n\
         push 3\n\
         pop r1\n\
         pop r0\n\
         add r0 r0 r1\n\
         push r0"
    );
}

#[test]
fn the_four_arithmetic_operators() {
    for (op, mnemonic) in [
        (BinaryOpcode::Add, "add"),
        (BinaryOpcode::Sub, "sub"),
        (BinaryOpcode::Mul, "mul"),
        (BinaryOpcode::Div, "div"),
    ] {
        for pass in [Pass::First, Pass::Second] {
            let stack = Stack::new();
            let mut codegen = CodeGenerator::new();
            let expr = binary(whole(8), op, whole(4));
            assert_eq!(generate_expr(&expr, &stack, &mut codegen, pass), Ok(()));
            assert_eq!(
                code(&codegen),
                vec![
                    "push 8".to_string(),
                    "push 4".to_string(),
                    "pop r1".to_string(),
                    "pop r0".to_string(),
                    format!("{} r0 r0 r1", mnemonic),
                    "push r0".to_string()
                ]
            );
        }
    }
}

#[test]
fn a_comparison_is_three_lines() {
    for (op, mnemonic) in [
        (BinaryOpcode::Equals, "beq"),
        (BinaryOpcode::Greater, "bgt"),
        (BinaryOpcode::Lower, "blt"),
    ] {
        let stack = Stack::new();
        let mut first = CodeGenerator::new();
        assert_eq!(generate_expr(&binary(whole(1), op, whole(2)), &stack, &mut first, Pass::First), Ok(()));
        assert_eq!(
            code(&first)[4..],
            [format!("{} r0 r1 0", mnemonic), "add r0 0 0".to_string(), "add r0 0 0".to_string(), "push r0".to_string()]
        );
        let mut second = CodeGenerator::new();
        assert_eq!(generate_expr(&binary(whole(1), op, whole(2)), &stack, &mut second, Pass::Second), Ok(()));
        assert_eq!(
            lines(&second)[7..],
            [format!("{} r0 r1 9", mnemonic), "add r0 0 0".to_string(), "add r0 0 1".to_string(), "push r0".to_string()]
        );
        assert_eq!(first.len(), second.len());
    }
}

#[test]
fn operators_that_are_not_lowered() {
    for (op, name) in [
        (BinaryOpcode::Conj, "Conj"),
        (BinaryOpcode::Disj, "Disj"),
        (BinaryOpcode::NotEquals, "NotEquals"),
        (BinaryOpcode::GreaterEquals, "GreaterEquals"),
        (BinaryOpcode::LowerEquals, "LowerEquals"),
    ] {
        let stack = Stack::new();
        let mut codegen = CodeGenerator::new();
        assert_eq!(
            generate_expr(&binary(whole(1), op, whole(2)), &stack, &mut codegen, Pass::Second),
            Err(Error::Unimplemented(name.to_string()))
        );
    }
    let stack = Stack::new();
    let mut codegen = CodeGenerator::new();
    let not = Expr::UnaryOp(UnaryOpcode::Not, whole(1));
    assert_eq!(
        generate_expr(&not, &stack, &mut codegen, Pass::First),
        Err(Error::Unimplemented("Not".to_string()))
    );
    assert_eq!(lines(&codegen), vec!["# expr unary op Not"]);
}

#[test]
fn literal_values_are_pushed() {
    let stack = Stack::new();
    let mut codegen = CodeGenerator::new();
    for value in [
        Value::Integer(-4),
        Value::Boolean(true),
        Value::Boolean(false),
        Value::Float(format!("{}", 2.5f64 as f32)),
        Value::Integer(4294967298),
        Value::Integer(2147483648),
    ] {
        assert_eq!(generate_expr(&Expr::Constant(value), &stack, &mut codegen, Pass::Second), Ok(()));
    }
    assert_eq!(
        lines(&codegen),
        vec![
            "# expr constant Integer(-4)",
            "push -4",
            "# expr constant Boolean(true)",
            "push 1",
            "# expr constant Boolean(false)",
            "push 0",
            "# expr constant Float(2.5)",
            "push 2.5",
            "# expr constant Integer(4294967298)",
            "push 2",
            "# expr constant Integer(2147483648)",
            "push -2147483648",
        ]
    );
}

#[test]
fn a_variable_on_top_of_the_stack_is_peeked() {
    let mut stack = Stack::new();
    let mut codegen = CodeGenerator::new();
    stack.allocate_local_at("x".to_string(), Location::Stack(-1));
    assert_eq!(generate_expr(&var("x"), &stack, &mut codegen, Pass::Second), Ok(()));
    assert_eq!(
        lines(&codegen),
        vec![
            "# expr identifier Identifier(\"x\")",
            "# retrieve Identifier(\"x\") from offset 1",
            "peek r0",
            "push r0",
        ]
    );
}

#[test]
fn a_variable_deeper_in_the_stack_is_reached_by_moving_the_stack_pointer() {
    let mut stack = Stack::new();
    let mut codegen = CodeGenerator::new();
    stack.allocate_local_at("x".to_string(), Location::Stack(-3));
    assert_eq!(generate_expr(&var("x"), &stack, &mut codegen, Pass::Second), Ok(()));
    assert_eq!(code(&codegen), vec!["sub sp sp 3", "peek r0", "add sp sp 3", "push r0"]);
    assert_eq!(
        codegen.comment(1).map(|c| c.as_str()),
        Some("retrieve Identifier(\"x\") from offset 3")
    );
    assert_eq!(
        codegen.get_code(),
        "# expr identifier Identifier(\"x\")\n\
         sub sp sp 3 # retrieve Identifier(\"x\") from offset 3\n\
         peek r0\n\
         add sp sp 3\n\
         push r0"
    );
}

#[test]
fn a_variable_in_a_register_is_pushed() {
    let mut stack = Stack::new();
    let mut codegen = CodeGenerator::new();
    stack.allocate_local_at("p".to_string(), Location::Register(Register::R2));
    assert_eq!(generate_expr(&var("p"), &stack, &mut codegen, Pass::First), Ok(()));
    assert_eq!(code(&codegen), vec!["push r2"]);
}

#[test]
fn a_constant_is_inlined_and_hides_a_variable() {
    let mut stack = Stack::new();
    let mut codegen = CodeGenerator::new();
    stack.allocate_local_at("c".to_string(), Location::Stack(-1));
    let statement = Statement::new_constant(id("c"), Value::Integer(7));
    assert_eq!(generate_statement(&statement, &mut stack, &mut codegen, Pass::First), Ok(()));
    assert_eq!(codegen.len(), 0);
    assert_eq!(codegen.get_constant("c"), Some(Value::Integer(7)));
    assert_eq!(generate_expr(&var("c"), &stack, &mut codegen, Pass::Second), Ok(()));
    assert_eq!(
        lines(&codegen),
        vec!["# expr identifier Identifier(\"c\")", "# expr constant Integer(7)", "push 7"]
    );
}

#[test]
fn a_name_that_is_nothing_is_an_undefined_variable() {
    let stack = Stack::new();
    let mut codegen = CodeGenerator::new();
    assert_eq!(
        generate_expr(&var("ghost"), &stack, &mut codegen, Pass::First),
        Err(Error::UndefinedVariable("ghost".to_string()))
    );
    let mut stack = Stack::new();
    let mut codegen = CodeGenerator::new();
    let assignment = Statement::new_assignment(id("ghost"), whole(1));
    assert_eq!(
        generate_statement(&assignment, &mut stack, &mut codegen, Pass::First),
        Err(Error::UndefinedVariable("ghost".to_string()))
    );
    assert_eq!(lines(&codegen), vec!["# Assignment: Identifier(\"ghost\") Constant(Integer(1))"]);
    let read = Statement::new_device(DeviceStatement::new_read(id("d"), id("Setting"), id("ghost")));
    assert_eq!(
        generate_statement(&read, &mut stack, &mut codegen, Pass::First),
        Err(Error::UndefinedVariable("ghost".to_string()))
    );
}

#[test]
fn an_assignment_stores_into_the_variable() {
    let mut stack = Stack::new();
    let mut codegen = CodeGenerator::new();
    stack.allocate_local_at("x".to_string(), Location::Stack(-1));
    stack.allocate_local_at("p".to_string(), Location::Register(Register::R2));
    let to_stack = Statement::new_assignment(id("x"), whole(5));
    assert_eq!(generate_statement(&to_stack, &mut stack, &mut codegen, Pass::Second), Ok(()));
    assert_eq!(code(&codegen), vec!["push 5", "pop r0", "sub sp sp 1", "push r0", "add sp sp 1"]);
    let mut codegen = CodeGenerator::new();
    let to_register = Statement::new_assignment(id("p"), whole(6));
    assert_eq!(generate_statement(&to_register, &mut stack, &mut codegen, Pass::Second), Ok(()));
    assert_eq!(code(&codegen), vec!["push 6", "pop r0", "add r2 r0 0"]);
}

#[test]
fn if_else_with_equality() {
    let mut stack = Stack::new();
    let mut codegen = CodeGenerator::new();
    let make = || {
        Statement::new_if(IfStatement::new_if_else(
            binary(whole(1), BinaryOpcode::Equals, whole(1)),
            block(vec![Statement::Yield]),
            block(vec![Statement::Yield]),
        ))
    };
    assert_eq!(generate_statement(&make(), &mut stack, &mut codegen, Pass::First), Ok(()));
    assert_eq!(
        code(&codegen),
        vec![
            "push 1", "push 1", "pop r1", "pop r0", "beq r0 r1 0", "add r0 0 0", "add r0 0 0",
            "push r0", "pop r0", "beqz r0 0", "yield", "j 0", "if_0_else:", "yield", "if_0_end:",
        ]
    );
    let first_pass_lines = codegen.len();
    codegen.clear_first_pass();
    stack.clear();
    assert_eq!(generate_statement(&make(), &mut stack, &mut codegen, Pass::Second), Ok(()));
    assert_eq!(
        code(&codegen),
        vec![
            "push 1", "push 1", "pop r1", "pop r0", "beq r0 r1 9", "add r0 0 0", "add r0 0 1",
            "push r0", "pop r0", "beqz r0 16", "yield", "j 18", "if_0_else:", "yield", "if_0_end:",
        ]
    );
    assert_eq!(codegen.len(), first_pass_lines);
    assert_eq!(codegen.get_label("if_0_else"), Some(16));
    assert_eq!(codegen.get_label("if_0_end"), Some(18));
    assert_eq!(lines(&codegen)[15], "if_0_else:");
    assert_eq!(lines(&codegen)[17], "if_0_end:");
}

#[test]
fn a_conditional_is_named_by_the_count_at_its_entry() {
    let mut stack = Stack::new();
    let mut codegen = CodeGenerator::new();
    stack.new_if();
    stack.new_if();
    stack.new_if();
    let statement = Statement::new_if(IfStatement::new_if_else(
        whole(1),
        block(vec![]),
        block(vec![]),
    ));
    assert_eq!(generate_statement(&statement, &mut stack, &mut codegen, Pass::First), Ok(()));
    assert_eq!(code(&codegen), vec!["push 1", "pop r0", "beqz r0 0", "j 0", "if_3_else:", "if_3_end:"]);
    assert_eq!(stack.new_if(), "if_4");
}

#[test]
fn a_conditional_without_else() {
    let mut stack = Stack::new();
    let mut codegen = CodeGenerator::new();
    let make = || Statement::new_if(IfStatement::new_if(whole(0), block(vec![Statement::Yield])));
    assert_eq!(
        generate_statement(&make(), &mut stack, &mut codegen, Pass::Second),
        Err(Error::UndefinedFunction("if_0_end".to_string()))
    );
    let mut stack = Stack::new();
    let mut codegen = CodeGenerator::new();
    assert_eq!(generate_statement(&make(), &mut stack, &mut codegen, Pass::First), Ok(()));
    assert_eq!(code(&codegen), vec!["push 0", "pop r0", "beqz r0 0", "yield", "if_0_end:"]);
    codegen.clear_first_pass();
    stack.clear();
    assert_eq!(generate_statement(&make(), &mut stack, &mut codegen, Pass::Second), Ok(()));
    assert_eq!(code(&codegen), vec!["push 0", "pop r0", "beqz r0 6", "yield", "if_0_end:"]);
}

#[test]
fn a_loop_jumps_back_to_its_label() {
    let mut stack = Stack::new();
    let mut codegen = CodeGenerator::new();
    codegen.add_comment_line("before".to_string());
    let make = || Statement::new_loop(block(vec![Statement::Yield]));
    assert_eq!(generate_statement(&make(), &mut stack, &mut codegen, Pass::Second), Ok(()));
    assert_eq!(lines(&codegen), vec!["# before", "loop_0:", "yield", "j 2"]);
    assert_eq!(codegen.get_label("loop_0"), Some(2));
    assert_eq!(stack.end_loop(), None);
    assert_eq!(generate_statement(&make(), &mut stack, &mut codegen, Pass::First), Ok(()));
    assert_eq!(lines(&codegen)[4..], ["loop_1:", "yield", "j 0"]);
}

#[test]
fn stack_passed_argument() {
    let mut stack = Stack::new();
    let mut codegen = CodeGenerator::new();
    let statement = call("g", vec![whole(1), whole(2), whole(3), whole(4), whole(5)]);
    assert_eq!(generate_statement(&statement, &mut stack, &mut codegen, Pass::First), Ok(()));
    assert_eq!(
        code(&codegen),
        vec![
            "push 1", "pop r0", "push 2", "pop r1", "push 3", "pop r2", "push 4", "pop r3",
            "push 5", "push ra", "push r4", "push r5", "push r6", "push r7", "jal 0", "pop r7",
            "pop r6", "pop r5", "pop r4", "pop ra", "pop r0",
        ]
    );
    assert!(lines(&codegen).contains(&"# saving registers".to_string()));
    assert_eq!(stack.sp_offset(), 0);
}

#[test]
fn a_call_with_seven_arguments_discards_three() {
    let mut stack = Stack::new();
    let mut codegen = CodeGenerator::new();
    let arguments = vec![whole(1), whole(2), whole(3), whole(4), whole(5), whole(6), whole(7)];
    assert_eq!(generate_statement(&call("g", arguments), &mut stack, &mut codegen, Pass::First), Ok(()));
    let all = code(&codegen);
    assert_eq!(all[all.len() - 4..], ["pop ra", "pop r0", "pop r0", "pop r0"]);
    assert_eq!(all.iter().filter(|line| line.as_str() == "pop r0").count(), 4);
}

#[test]
fn a_call_of_an_unknown_function_fails_in_the_second_pass() {
    let mut stack = Stack::new();
    let mut codegen = CodeGenerator::new();
    assert_eq!(generate_statement(&call("f", vec![]), &mut stack, &mut codegen, Pass::First), Ok(()));
    assert_eq!(
        generate_statement(&call("f", vec![]), &mut stack, &mut codegen, Pass::Second),
        Err(Error::UndefinedFunction("f".to_string()))
    );
}

#[test]
fn a_function_receives_its_parameters() {
    let mut stack = Stack::new();
    let mut codegen = CodeGenerator::new();
    let make = || function("g", &["a", "b", "c", "d", "e"], vec![]);
    assert_eq!(generate_statement(&make(), &mut stack, &mut codegen, Pass::Second), Ok(()));
    assert_eq!(
        codegen.get_code(),
        "g: # Function: Identifier(\"g\") [Identifier(\"a\"), Identifier(\"b\"), Identifier(\"c\"), Identifier(\"d\"), Identifier(\"e\")]\n\
         push r0 # parameter Identifier(\"a\") from R0\n\
         push r1 # parameter Identifier(\"b\") from R1\n\
         push r2 # parameter Identifier(\"c\") from R2\n\
         push r3 # parameter Identifier(\"d\") from R3\n\
         # parameter Identifier(\"e\") from stack offset 1\n\
         beqz 0 ra"
    );
    assert_eq!(stack.get_local("a"), None);
    assert_eq!(stack.sp_offset(), -5);
    let mut stack = Stack::new();
    let mut codegen = CodeGenerator::new();
    assert_eq!(generate_statement(&make(), &mut stack, &mut codegen, Pass::First), Ok(()));
    assert_eq!(lines(&codegen), vec!["g:", "beqz 0 ra"]);
    assert_eq!(stack.sp_offset(), -5);
}

#[test]
fn a_function_reserves_its_variables() {
    let make = || {
        function(
            "h",
            &[],
            vec![Statement::new_definition(id("x"), whole(1)), Statement::new_assignment(id("x"), whole(2))],
        )
    };
    let mut stack = Stack::new();
    let mut codegen = CodeGenerator::new();
    assert_eq!(generate_statement(&make(), &mut stack, &mut codegen, Pass::Second), Ok(()));
    assert_eq!(
        code(&codegen),
        vec![
            "h:", "push 0", "push 1", "push 2", "pop r0", "sub sp sp 1", "push r0", "add sp sp 1",
            "beqz 0 ra",
        ]
    );
    assert_eq!(codegen.comment(1).map(|c| c.as_str()), Some("local Identifier(\"x\")"));
    assert_eq!(stack.get_local("x"), None);
    assert_eq!(stack.sp_offset(), -1);
    let mut stack = Stack::new();
    let mut codegen = CodeGenerator::new();
    assert_eq!(generate_statement(&make(), &mut stack, &mut codegen, Pass::First), Ok(()));
    assert_eq!(
        code(&codegen),
        vec!["h:", "push 1", "push 2", "pop r0", "sub sp sp 1", "push r0", "add sp sp 1", "beqz 0 ra"]
    );
    assert_eq!(stack.sp_offset(), 0);
}

#[test]
fn device_round_trip() {
    let mut stack = Stack::new();
    let mut codegen = CodeGenerator::new();
    let statements = vec![
        Statement::new_alias(id("d2"), id("sensor")),
        Statement::new_definition(id("t"), whole(0)),
        Statement::new_device(DeviceStatement::new_read(id("sensor"), id("Temperature"), id("t"))),
    ];
    assert_eq!(generate_statement(&statements[0], &mut stack, &mut codegen, Pass::Second), Ok(()));
    assert_eq!(codegen.get_device("sensor"), Some(Device::D2));
    assert_eq!(generate_statement(&statements[1], &mut stack, &mut codegen, Pass::Second), Ok(()));
    assert_eq!(stack.get_local("t"), Some(Location::Stack(-1)));
    assert_eq!(generate_statement(&statements[2], &mut stack, &mut codegen, Pass::Second), Ok(()));
    assert_eq!(
        code(&codegen),
        vec!["alias sensor d2", "push 0", "l r0 d2 Temperature", "sub sp sp 1", "push r0", "add sp sp 1"]
    );
}

#[test]
fn the_first_pass_holds_the_place_of_device_lines() {
    let mut stack = Stack::new();
    let mut codegen = CodeGenerator::new();
    stack.allocate_local_at("t".to_string(), Location::Stack(-1));
    let read = Statement::new_device(DeviceStatement::new_read(id("nodev"), id("Bogus"), id("t")));
    let write = Statement::new_device(DeviceStatement::new_write(whole(1), id("nodev"), id("Bogus")));
    assert_eq!(generate_statement(&read, &mut stack, &mut codegen, Pass::First), Ok(()));
    assert_eq!(generate_statement(&write, &mut stack, &mut codegen, Pass::First), Ok(()));
    assert_eq!(
        code(&codegen),
        vec![
            "l r0 d0 Setting", "sub sp sp 1", "push r0", "add sp sp 1", "push 1", "pop r0",
            "s d0 Setting r0",
        ]
    );
}

#[test]
fn a_write_to_a_device() {
    let mut stack = Stack::new();
    let mut codegen = CodeGenerator::new();
    codegen.add_alias("pump".to_string(), Device::D4);
    let write = Statement::new_device(DeviceStatement::new_write(whole(1), id("pump"), id("On")));
    assert_eq!(generate_statement(&write, &mut stack, &mut codegen, Pass::Second), Ok(()));
    assert_eq!(code(&codegen), vec!["push 1", "pop r0", "s d4 On r0"]);
}

#[test]
fn device_statements_that_name_nothing() {
    let mut stack = Stack::new();
    let mut codegen = CodeGenerator::new();
    codegen.add_alias("pump".to_string(), Device::D4);
    stack.allocate_local_at("t".to_string(), Location::Stack(-1));
    let unknown_device =
        Statement::new_device(DeviceStatement::new_write(whole(1), id("nodev"), id("On")));
    assert_eq!(
        generate_statement(&unknown_device, &mut stack, &mut codegen, Pass::Second),
        Err(Error::UndefinedVariable("nodev".to_string()))
    );
    let unknown_variable =
        Statement::new_device(DeviceStatement::new_read(id("pump"), id("Bogus"), id("t")));
    assert_eq!(
        generate_statement(&unknown_variable, &mut stack, &mut codegen, Pass::Second),
        Err(Error::Mips(ayysee::mips::error::Error::ParseError("Bogus".to_string())))
    );
    let unknown_slot = Statement::new_alias(id("d9"), id("far"));
    assert_eq!(
        generate_statement(&unknown_slot, &mut stack, &mut codegen, Pass::First),
        Err(Error::Mips(ayysee::mips::error::Error::ParseError("d9".to_string())))
    );
    assert_eq!(codegen.get_device("far"), None);
}

#[test]
fn yield_is_one_line() {
    let mut stack = Stack::new();
    let mut codegen = CodeGenerator::new();
    assert_eq!(generate_statement(&Statement::Yield, &mut stack, &mut codegen, Pass::First), Ok(()));
    assert_eq!(lines(&codegen), vec!["yield"]);
}

#[test]
fn a_block_stops_at_the_first_error() {
    let mut stack = Stack::new();
    let mut codegen = CodeGenerator::new();
    let statements = vec![
        Statement::Yield,
        Statement::new_assignment(id("ghost"), whole(1)),
        Statement::Yield,
    ];
    assert_eq!(
        generate_block(&statements, &mut stack, &mut codegen, Pass::First),
        Err(Error::UndefinedVariable("ghost".to_string()))
    );
    assert_eq!(code(&codegen), vec!["yield"]);
}

#[test]
fn the_scan_for_variables() {
    let statement = Statement::new_block(block(vec![
        Statement::new_definition(id("a"), whole(1)),
        call("f", vec![var("b"), whole(1), var("a"), binary(var("c"), BinaryOpcode::Add, whole(1))]),
        Statement::new_definition(id("a"), whole(2)),
        Statement::new_loop(block(vec![Statement::new_definition(id("inside_loop"), whole(1))])),
        Statement::new_if(IfStatement::new_if(
            whole(1),
            block(vec![Statement::new_definition(id("inside_if"), whole(1))]),
        )),
        function("g", &["p"], vec![Statement::new_definition(id("inside_function"), whole(1))]),
        Statement::new_block(block(vec![Statement::new_definition(id("d"), whole(1))])),
        Statement::new_assignment(id("e"), whole(1)),
    ]));
    let mut locals = Vec::new();
    find_locals(&statement, &mut locals);
    let names: Vec<String> = locals.iter().map(|local| local.to_string()).collect();
    assert_eq!(names, vec!["a", "b", "d"]);
    find_locals(&Statement::new_definition(id("z"), whole(1)), &mut locals);
    find_locals(&Statement::new_definition(id("b"), whole(1)), &mut locals);
    let names: Vec<String> = locals.iter().map(|local| local.to_string()).collect();
    assert_eq!(names, vec!["a", "b", "d", "z"]);
}
