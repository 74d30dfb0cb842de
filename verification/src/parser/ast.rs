//! The syntax tree that the compiler takes in.
use vstd::prelude::*;
use vstd::string::*;
use crate::text::{decimal, int_to_string, quote, quoted};

verus! {

/// A whole program: its statements in order.
#[derive(Debug, PartialEq)]
pub struct Program {
    pub statements: Vec<Statement>,
}

impl Program {
    pub fn new(statements: Vec<Statement>) -> (r: Program)
        ensures
            r.statements == statements,
    {
        Program { statements }
    }
}

#[derive(Debug, PartialEq)]
pub enum Statement {
    /// Gives a new value to a variable that exists.
    Assignment { identifier: Identifier, expression: Box<Expr> },
    /// Introduces a variable with its first value.
    Definition { identifier: Identifier, expression: Box<Expr> },
    Alias {
        /// The device slot to give a name to
        identifier: Identifier,
        /// The new name of the slot
        alias: Identifier,
    },
    /// Names a value that is known when the program is compiled.
    Constant(Identifier, Value),
    Function { identifier: Identifier, parameters: Vec<Identifier>, body: Block },
    FunctionCall { identifier: Identifier, arguments: Vec<Box<Expr>> },
    Block(Block),
    Loop { body: Block },
    IfStatement(IfStatement),
    DeviceStatement(DeviceStatement),
    /// Gives up the processor until the next tick.
    Yield,
}

impl Statement {
    pub fn new_assignment(identifier: Identifier, expression: Box<Expr>) -> (r: Statement)
        ensures
            r == (Statement::Assignment { identifier, expression }),
    {
        Statement::Assignment { identifier, expression }
    }

    pub fn new_definition(identifier: Identifier, expression: Box<Expr>) -> (r: Statement)
        ensures
            r == (Statement::Definition { identifier, expression }),
    {
        Statement::Definition { identifier, expression }
    }

    pub fn new_alias(identifier: Identifier, alias: Identifier) -> (r: Statement)
        ensures
            r == (Statement::Alias { identifier, alias }),
    {
        Statement::Alias { identifier, alias }
    }

    pub fn new_constant(identifier: Identifier, value: Value) -> (r: Statement)
        ensures
            r == Statement::Constant(identifier, value),
    {
        Statement::Constant(identifier, value)
    }

    pub fn new_function(identifier: Identifier, parameters: Vec<Identifier>, body: Block) -> (r:
        Statement)
        ensures
            r == (Statement::Function { identifier, parameters, body }),
    {
        Statement::Function { identifier, parameters, body }
    }

    pub fn new_function_call(identifier: Identifier, arguments: Vec<Box<Expr>>) -> (r: Statement)
        ensures
            r == (Statement::FunctionCall { identifier, arguments }),
    {
        Statement::FunctionCall { identifier, arguments }
    }

    pub fn new_block(block: Block) -> (r: Statement)
        ensures
            r == Statement::Block(block),
    {
        Statement::Block(block)
    }

    pub fn new_loop(body: Block) -> (r: Statement)
        ensures
            r == (Statement::Loop { body }),
    {
        Statement::Loop { body }
    }

    pub fn new_if(if_statement: IfStatement) -> (r: Statement)
        ensures
            r == Statement::IfStatement(if_statement),
    {
        Statement::IfStatement(if_statement)
    }

    pub fn new_device(statement: DeviceStatement) -> (r: Statement)
        ensures
            r == Statement::DeviceStatement(statement),
    {
        Statement::DeviceStatement(statement)
    }
}

#[derive(Debug, PartialEq)]
pub enum Expr {
    Constant(Value),
    Identifier(Identifier),
    BinaryOp(Box<Expr>, BinaryOpcode, Box<Expr>),
    UnaryOp(UnaryOpcode, Box<Expr>),
}

#[derive(Debug, Clone, Copy, PartialEq, Eq)]
pub enum BinaryOpcode {
    Add,
    Sub,
    Mul,
    Div,
    Conj,
    Disj,
    Equals,
    NotEquals,
    Greater,
    GreaterEquals,
    Lower,
    LowerEquals,
}

#[derive(Debug, Clone, Copy, PartialEq, Eq)]
pub enum UnaryOpcode {
    Not,
}

/// A literal value. A number with a fraction is held as the decimal text
/// under which it is written into the compiled program.
#[derive(Clone, Debug, PartialEq)]
pub enum Value {
    Integer(i64),
    Float(String),
    Boolean(bool),
}

/// A name in a program.
#[derive(Debug, Eq, Hash, PartialEq, Clone)]
pub struct Identifier(String);

impl View for Identifier {
    type V = Seq<char>;

    /// The characters of the name.
    closed spec fn view(&self) -> Seq<char> {
        self.0@
    }
}

impl From<String> for Identifier {
    fn from(s: String) -> (r: Identifier) {
        Identifier(s)
    }
}

impl vstd::std_specs::convert::FromSpecImpl<String> for Identifier {
    open spec fn obeys_from_spec() -> bool {
        true
    }

    closed spec fn from_spec(s: String) -> Identifier {
        Identifier(s)
    }
}

impl From<Identifier> for String {
    fn from(id: Identifier) -> (r: String) {
        id.0
    }
}

impl vstd::std_specs::convert::FromSpecImpl<Identifier> for String {
    open spec fn obeys_from_spec() -> bool {
        true
    }

    closed spec fn from_spec(id: Identifier) -> String {
        id.0
    }
}

impl Identifier {
    /// The name with the given characters.
    pub fn new(s: &str) -> (r: Identifier)
        ensures
            r@ == s@,
    {
        Identifier(s.to_string())
    }

    /// The characters of the name, as a new string.
    pub fn to_string(&self) -> (r: String)
        ensures
            r@ == self@,
    {
        self.0.clone()
    }

    /// The characters of the name.
    pub fn as_str(&self) -> (r: &str)
        ensures
            r@ == self@,
    {
        self.0.as_str()
    }

    /// `Identifier::from` gives the name with the characters of the string,
    /// and `String::from` the string with the characters of the name.
    pub proof fn lemma_conversions(s: String, id: Identifier)
        ensures
            <Identifier as vstd::std_specs::convert::FromSpec<String>>::from_spec(s)@ == s@,
            <String as vstd::std_specs::convert::FromSpec<Identifier>>::from_spec(id)@ == id@,
    {
    }
}

#[derive(Debug, PartialEq)]
pub enum Block {
    Statements(Vec<Statement>),
}

impl Block {
    /// The block of the given statements; an absent list is an empty block.
    pub fn new_statements(statements: Option<Vec<Statement>>) -> (r: Block)
        ensures
            match statements {
                Some(list) => r == Block::Statements(list),
                None => r.statements().len() == 0,
            },
    {
        match statements {
            Some(statements) => Block::Statements(statements),
            None => Block::Statements(Vec::new()),
        }
    }

    /// The statements of the block.
    pub open spec fn statements(self) -> Seq<Statement> {
        match self {
            Block::Statements(list) => list@,
        }
    }
}

#[derive(Debug, PartialEq)]
pub enum IfStatement {
    If { condition: Box<Expr>, body: Block },
    IfElse { condition: Box<Expr>, body: Block, else_body: Block },
}

impl IfStatement {
    pub fn new_if(condition: Box<Expr>, body: Block) -> (r: IfStatement)
        ensures
            r == (IfStatement::If { condition, body }),
    {
        IfStatement::If { condition, body }
    }

    pub fn new_if_else(condition: Box<Expr>, body: Block, else_body: Block) -> (r: IfStatement)
        ensures
            r == (IfStatement::IfElse { condition, body, else_body }),
    {
        IfStatement::IfElse { condition, body, else_body }
    }
}

/// A statement that interacts with a device
#[derive(Debug, PartialEq)]
pub enum DeviceStatement {
    Read {
        /// The device to read from
        device: Identifier,
        /// The attribute to read from the device
        device_variable: Identifier,
        /// The local variable to store the read value
        local: Identifier,
    },
    Write {
        /// The value to write to the device
        value: Box<Expr>,
        /// The device to write to
        device: Identifier,
        /// The attribute to write to the device
        device_variable: Identifier,
    },
}

impl DeviceStatement {
    pub fn new_read(device: Identifier, device_variable: Identifier, local: Identifier) -> (r:
        DeviceStatement)
        ensures
            r == (DeviceStatement::Read { device, device_variable, local }),
    {
        DeviceStatement::Read { device, device_variable, local }
    }

    pub fn new_write(value: Box<Expr>, device: Identifier, device_variable: Identifier) -> (r:
        DeviceStatement)
        ensures
            r == (DeviceStatement::Write { value, device, device_variable }),
    {
        DeviceStatement::Write { value, device, device_variable }
    }
}

/// The items with a comma and a space between neighbours.
pub open spec fn joined(items: Seq<Seq<char>>) -> Seq<char>
    decreases items.len(),
{
    if items.len() == 0 {
        Seq::empty()
    } else if items.len() == 1 {
        items[0]
    } else {
        joined(items.drop_last()) + ", "@ + items.last()
    }
}

/// The items as a list in square brackets.
pub open spec fn list_text(items: Seq<Seq<char>>) -> Seq<char> {
    "["@ + joined(items) + "]"@
}

/// The printed form of a list of names.
pub open spec fn identifiers_debug(list: Seq<Identifier>) -> Seq<char> {
    list_text(list.map_values(|i: Identifier| i.debug_text()))
}

/// The printed form of a list of expressions.
pub open spec fn exprs_debug(list: Seq<Box<Expr>>) -> Seq<char> {
    list_text(list.map_values(|e: Box<Expr>| e.debug_text()))
}

proof fn joined_step(items: Seq<Seq<char>>, i: int)
    requires
        0 <= i < items.len(),
    ensures
        joined(items.take(i + 1)) == if i == 0 {
            items[i]
        } else {
            joined(items.take(i)) + ", "@ + items[i]
        },
{
    assert(items.take(i + 1).drop_last() =~= items.take(i));
}

impl Identifier {
    /// The printed form of the name: the type's name around the quoted
    /// characters.
    pub open spec fn debug_text(self) -> Seq<char> {
        Identifier::debug_of(self@)
    }

    /// The printed form of the name with the given characters.
    pub open spec fn debug_of(name: Seq<char>) -> Seq<char> {
        "Identifier("@ + quoted(name) + ")"@
    }

    /// Prints the name.
    pub fn debug_string(&self) -> (r: String)
        ensures
            r@ == self.debug_text(),
    {
        let mut out = "Identifier(".to_string();
        out.append(quote(self.as_str()).as_str());
        out.append(")");
        out
    }
}

impl Value {
    /// The printed form of the value: the variant's name around the value.
    pub open spec fn debug_text(self) -> Seq<char> {
        match self {
            Value::Integer(i) => "Integer("@ + decimal(i as int) + ")"@,
            Value::Float(t) => "Float("@ + t@ + ")"@,
            Value::Boolean(b) => "Boolean("@ + (if b {
                "true"@
            } else {
                "false"@
            }) + ")"@,
        }
    }

    /// Prints the value.
    pub fn debug_string(&self) -> (r: String)
        ensures
            r@ == self.debug_text(),
    {
        match self {
            Value::Integer(i) => {
                let mut out = "Integer(".to_string();
                out.append(int_to_string(*i).as_str());
                out.append(")");
                out
            },
            Value::Float(t) => {
                let mut out = "Float(".to_string();
                out.append(t.as_str());
                out.append(")");
                out
            },
            Value::Boolean(b) => {
                let mut out = "Boolean(".to_string();
                if *b {
                    out.append("true");
                } else {
                    out.append("false");
                }
                out.append(")");
                out
            },
        }
    }

    /// A copy of the value.
    pub fn copy(&self) -> (r: Value)
        ensures
            r == *self,
    {
        match self {
            Value::Integer(i) => Value::Integer(*i),
            Value::Float(t) => Value::Float(t.clone()),
            Value::Boolean(b) => Value::Boolean(*b),
        }
    }
}

impl BinaryOpcode {
    /// The printed form of the operator: its name.
    pub open spec fn debug_text(self) -> Seq<char> {
        match self {
            BinaryOpcode::Add => "Add"@,
            BinaryOpcode::Sub => "Sub"@,
            BinaryOpcode::Mul => "Mul"@,
            BinaryOpcode::Div => "Div"@,
            BinaryOpcode::Conj => "Conj"@,
            BinaryOpcode::Disj => "Disj"@,
            BinaryOpcode::Equals => "Equals"@,
            BinaryOpcode::NotEquals => "NotEquals"@,
            BinaryOpcode::Greater => "Greater"@,
            BinaryOpcode::GreaterEquals => "GreaterEquals"@,
            BinaryOpcode::Lower => "Lower"@,
            BinaryOpcode::LowerEquals => "LowerEquals"@,
        }
    }

    /// Prints the operator.
    pub fn debug_string(&self) -> (r: String)
        ensures
            r@ == self.debug_text(),
    {
        match self {
            BinaryOpcode::Add => "Add".to_string(),
            BinaryOpcode::Sub => "Sub".to_string(),
            BinaryOpcode::Mul => "Mul".to_string(),
            BinaryOpcode::Div => "Div".to_string(),
            BinaryOpcode::Conj => "Conj".to_string(),
            BinaryOpcode::Disj => "Disj".to_string(),
            BinaryOpcode::Equals => "Equals".to_string(),
            BinaryOpcode::NotEquals => "NotEquals".to_string(),
            BinaryOpcode::Greater => "Greater".to_string(),
            BinaryOpcode::GreaterEquals => "GreaterEquals".to_string(),
            BinaryOpcode::Lower => "Lower".to_string(),
            BinaryOpcode::LowerEquals => "LowerEquals".to_string(),
        }
    }
}

impl UnaryOpcode {
    /// The printed form of the operator: its name.
    pub open spec fn debug_text(self) -> Seq<char> {
        match self {
            UnaryOpcode::Not => "Not"@,
        }
    }

    /// Prints the operator.
    pub fn debug_string(&self) -> (r: String)
        ensures
            r@ == self.debug_text(),
    {
        match self {
            UnaryOpcode::Not => "Not".to_string(),
        }
    }
}

impl Expr {
    /// The printed form of the expression: each node as its variant's name
    /// around its parts.
    pub open spec fn debug_text(self) -> Seq<char>
        decreases self,
    {
        match self {
            Expr::Constant(value) => "Constant("@ + value.debug_text() + ")"@,
            Expr::Identifier(identifier) => "Identifier("@ + identifier.debug_text() + ")"@,
            Expr::BinaryOp(left, op, right) => "BinaryOp("@ + left.debug_text() + ", "@
                + op.debug_text() + ", "@ + right.debug_text() + ")"@,
            Expr::UnaryOp(op, operand) => "UnaryOp("@ + op.debug_text() + ", "@
                + operand.debug_text() + ")"@,
        }
    }

    /// Prints the expression.
    pub fn debug_string(&self) -> (r: String)
        ensures
            r@ == self.debug_text(),
        decreases self,
    {
        match self {
            Expr::Constant(value) => {
                let mut out = "Constant(".to_string();
                out.append(value.debug_string().as_str());
                out.append(")");
                out
            },
            Expr::Identifier(identifier) => {
                let mut out = "Identifier(".to_string();
                out.append(identifier.debug_string().as_str());
                out.append(")");
                out
            },
            Expr::BinaryOp(left, op, right) => {
                let mut out = "BinaryOp(".to_string();
                out.append(left.debug_string().as_str());
                out.append(", ");
                out.append(op.debug_string().as_str());
                out.append(", ");
                out.append(right.debug_string().as_str());
                out.append(")");
                out
            },
            Expr::UnaryOp(op, operand) => {
                let mut out = "UnaryOp(".to_string();
                out.append(op.debug_string().as_str());
                out.append(", ");
                out.append(operand.debug_string().as_str());
                out.append(")");
                out
            },
        }
    }
}

/// Prints a list of names.
pub fn identifiers_debug_string(list: &Vec<Identifier>) -> (r: String)
    ensures
        r@ == identifiers_debug(list@),
{
    let ghost items = list@.map_values(|i: Identifier| i.debug_text());
    let mut out = "[".to_string();
    let mut i: usize = 0;
    assert(items.take(0) =~= Seq::empty());
    assert(out@ =~= "["@ + joined(items.take(0)));
    while i < list.len()
        invariant
            i <= list.len(),
            items == list@.map_values(|i: Identifier| i.debug_text()),
            out@ == "["@ + joined(items.take(i as int)),
        decreases list.len() - i,
    {
        proof {
            joined_step(items, i as int);
        }
        if i > 0 {
            out.append(", ");
        }
        out.append(list[i].debug_string().as_str());
        assert(out@ =~= "["@ + joined(items.take(i + 1)));
        i += 1;
    }
    assert(items.take(i as int) =~= items);
    out.append("]");
    out
}

/// Prints a list of expressions.
pub fn exprs_debug_string(list: &Vec<Box<Expr>>) -> (r: String)
    ensures
        r@ == exprs_debug(list@),
{
    let ghost items = list@.map_values(|e: Box<Expr>| e.debug_text());
    let mut out = "[".to_string();
    let mut i: usize = 0;
    assert(items.take(0) =~= Seq::empty());
    assert(out@ =~= "["@ + joined(items.take(0)));
    while i < list.len()
        invariant
            i <= list.len(),
            items == list@.map_values(|e: Box<Expr>| e.debug_text()),
            out@ == "["@ + joined(items.take(i as int)),
        decreases list.len() - i,
    {
        proof {
            joined_step(items, i as int);
        }
        if i > 0 {
            out.append(", ");
        }
        out.append(list[i].debug_string().as_str());
        assert(out@ =~= "["@ + joined(items.take(i + 1)));
        i += 1;
    }
    assert(items.take(i as int) =~= items);
    out.append("]");
    out
}

} // verus!
