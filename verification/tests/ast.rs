use ayysee::parser::ast::{
    exprs_debug_string, identifiers_debug_string, BinaryOpcode, Block, DeviceStatement, Expr,
    Identifier, IfStatement, Program, Statement, UnaryOpcode, Value,
};

fn id(name: &str) -> Identifier {
    Identifier::new(name)
}

fn whole(value: i64) -> Box<Expr> {
    Box::new(Expr::Constant(Value::Integer(value)))
}

#[test]
fn a_name_is_its_characters() {
    assert_eq!(Identifier::new("speed").to_string(), "speed");
    assert_eq!(Identifier::new("speed").as_str(), "speed");
    assert_eq!(Identifier::from("speed".to_string()), Identifier::new("speed"));
    assert_eq!(String::from(Identifier::new("speed")), "speed");
    assert_ne!(Identifier::new("speed"), Identifier::new("Speed"));
    assert_eq!(Identifier::new("").to_string(), "");
}

#[test]
fn the_builders_build_the_variants() {
    assert_eq!(
        Statement::new_assignment(id("x"), whole(1)),
        Statement::Assignment { identifier: id("x"), expression: whole(1) }
    );
    assert_eq!(
        Statement::new_definition(id("x"), whole(1)),
        Statement::Definition { identifier: id("x"), expression: whole(1) }
    );
    assert_eq!(
        Statement::new_alias(id("d0"), id("pump")),
        Statement::Alias { identifier: id("d0"), alias: id("pump") }
    );
    assert_eq!(
        Statement::new_constant(id("c"), Value::Boolean(true)),
        Statement::Constant(id("c"), Value::Boolean(true))
    );
    assert_eq!(
        Statement::new_function(id("f"), vec![id("a")], Block::Statements(vec![Statement::Yield])),
        Statement::Function {
            identifier: id("f"),
            parameters: vec![id("a")],
            body: Block::Statements(vec![Statement::Yield])
        }
    );
    assert_eq!(
        Statement::new_function_call(id("f"), vec![whole(1)]),
        Statement::FunctionCall { identifier: id("f"), arguments: vec![whole(1)] }
    );
    assert_eq!(
        Statement::new_block(Block::Statements(vec![])),
        Statement::Block(Block::Statements(vec![]))
    );
    assert_eq!(
        Statement::new_loop(Block::Statements(vec![])),
        Statement::Loop { body: Block::Statements(vec![]) }
    );
    assert_eq!(
        Statement::new_if(IfStatement::new_if(whole(1), Block::Statements(vec![]))),
        Statement::IfStatement(IfStatement::If { condition: whole(1), body: Block::Statements(vec![]) })
    );
    assert_eq!(
        IfStatement::new_if_else(whole(1), Block::Statements(vec![]), Block::Statements(vec![Statement::Yield])),
        IfStatement::IfElse {
            condition: whole(1),
            body: Block::Statements(vec![]),
            else_body: Block::Statements(vec![Statement::Yield])
        }
    );
    assert_eq!(
        Statement::new_device(DeviceStatement::new_read(id("d"), id("On"), id("x"))),
        Statement::DeviceStatement(DeviceStatement::Read {
            device: id("d"),
            device_variable: id("On"),
            local: id("x")
        })
    );
    assert_eq!(
        DeviceStatement::new_write(whole(1), id("d"), id("On")),
        DeviceStatement::Write { value: whole(1), device: id("d"), device_variable: id("On") }
    );
    assert_eq!(Program::new(vec![Statement::Yield]).statements, vec![Statement::Yield]);
}

#[test]
fn an_absent_list_is_an_empty_block() {
    assert_eq!(Block::new_statements(None), Block::Statements(vec![]));
    assert_eq!(
        Block::new_statements(Some(vec![Statement::Yield])),
        Block::Statements(vec![Statement::Yield])
    );
}

#[test]
fn values_are_printed_and_copied() {
    assert_eq!(Value::Integer(-3).debug_string(), "Integer(-3)");
    assert_eq!(Value::Boolean(true).debug_string(), "Boolean(true)");
    assert_eq!(Value::Boolean(false).debug_string(), "Boolean(false)");
    assert_eq!(Value::Float("2.5".to_string()).debug_string(), "Float(2.5)");
    assert_eq!(Value::Integer(-3).copy(), Value::Integer(-3));
    assert_eq!(Value::Float("2.5".to_string()).copy(), Value::Float("2.5".to_string()));
    assert_eq!(Value::Boolean(true).copy(), Value::Boolean(true));
    assert_eq!(format!("{:?}", Value::Integer(-3)), Value::Integer(-3).debug_string());
    assert_eq!(format!("{:?}", Value::Boolean(true)), Value::Boolean(true).debug_string());
}

#[test]
fn expressions_are_printed_as_they_are_built() {
    let sum = Expr::BinaryOp(
        whole(2),
        BinaryOpcode::Add,
        Box::new(Expr::BinaryOp(
            Box::new(Expr::Identifier(id("x"))),
            BinaryOpcode::LowerEquals,
            Box::new(Expr::UnaryOp(UnaryOpcode::Not, Box::new(Expr::Constant(Value::Boolean(false))))),
        )),
    );
    assert_eq!(
        sum.debug_string(),
        "BinaryOp(Constant(Integer(2)), Add, BinaryOp(Identifier(Identifier(\"x\")), LowerEquals, \
         UnaryOp(Not, Constant(Boolean(false)))))"
    );
    assert_eq!(sum.debug_string(), format!("{:?}", sum));
}

#[test]
fn operators_are_printed_by_their_names() {
    let all = [
        BinaryOpcode::Add,
        BinaryOpcode::Sub,
        BinaryOpcode::Mul,
        BinaryOpcode::Div,
        BinaryOpcode::Conj,
        BinaryOpcode::Disj,
        BinaryOpcode::Equals,
        BinaryOpcode::NotEquals,
        BinaryOpcode::Greater,
        BinaryOpcode::GreaterEquals,
        BinaryOpcode::Lower,
        BinaryOpcode::LowerEquals,
    ];
    for op in all {
        assert_eq!(op.debug_string(), format!("{:?}", op));
    }
    assert_eq!(UnaryOpcode::Not.debug_string(), "Not");
}

#[test]
fn lists_are_printed_in_brackets() {
    assert_eq!(identifiers_debug_string(&vec![]), "[]");
    assert_eq!(identifiers_debug_string(&vec![id("a")]), "[Identifier(\"a\")]");
    let names = vec![id("a"), id("b"), id("c")];
    assert_eq!(identifiers_debug_string(&names), format!("{:?}", names));
    assert_eq!(exprs_debug_string(&vec![]), "[]");
    let arguments = vec![whole(1), Box::new(Expr::Identifier(id("x")))];
    assert_eq!(
        exprs_debug_string(&arguments),
        "[Constant(Integer(1)), Identifier(Identifier(\"x\"))]"
    );
    assert_eq!(exprs_debug_string(&arguments), format!("{:?}", arguments));
}
