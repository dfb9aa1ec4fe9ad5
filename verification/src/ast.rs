//! The abstract syntax tree that the evaluator walks.

use crate::value::Value;
use std::rc::Rc;
use vstd::prelude::*;

verus! {

/// A whole program: its statements in source order.
#[derive(Debug)]
pub enum Program {
    Body { statements: Vec<Statement> },
}

/// A statement: it is run for what it does to the bindings and to what is printed.
#[derive(Debug)]
#[allow(inconsistent_fields)]
pub enum Statement {
    Import { path: String },
    Expression { expression: Expression },
    Assignment { lhs: Expression, rhs: Expression },
    OperatorAssignment { name: String, operator: Operator, rhs: Expression },
    If { params: IfBranch },
    While { condition: Expression, statements: Vec<Statement> },
    For { params: ForLoop },
    /// The parameter names, the body and the return expression are shared
    /// with every function value made from this definition.
    FunctionDefinition {
        name: String,
        arguments: Rc<Vec<String>>,
        statements: Rc<Vec<Statement>>,
        return_expression: Rc<Option<Expression>>,
    },
}

/// An expression: it is evaluated to a value.
#[derive(Debug)]
#[allow(inconsistent_fields)]
pub enum Expression {
    Int { v: i32 },
    String { s: String },
    Boolean { b: bool },
    /// A 64-bit IEEE-754 number, held as its bit pattern.
    Float { bits: u64 },
    Character { c: char },
    List { items: Vec<ListItem> },
    ClassDef { params: Box<UserClass> },
    Identifier { name: String },
    Call { function: String, arguments: Vec<Expression> },
    Operation { lhs: Box<Expression>, rhs: Box<Expression>, operator: Operator },
    Prefix { name: String, operator: Operator, rhs: Box<Expression> },
    Index { name: String, idx_exp: Box<Expression> },
    Comprehension { iterate_exp: Box<Expression>, var: String, control_exp: Box<Expression> },
    FieldAccess { name: String, field: String },
    ObjectCreation { class_name: String, arguments: Vec<Expression> },
    MethodCall { name: String, method: String, arguments: Vec<Expression> },
}

/// A `for` loop: `loop_var` is bound to each item of what
/// `iterate_expression` evaluates to, and the statements run once for each.
#[derive(Debug)]
pub struct ForLoop {
    pub loop_var: String,
    pub iterate_expression: Expression,
    pub statements: Vec<Statement>,
}

/// An `if` with its `elif` arms and its `else`.
#[derive(Debug)]
pub struct IfBranch {
    pub condition: Expression,
    pub statements: Vec<Statement>,
    pub else_statements: Option<Vec<Statement>>,
    /// The conditions of the `elif` arms and, at the same positions, their bodies.
    pub elif_data: (Vec<Expression>, Vec<Vec<Statement>>),
}

/// An item of a list literal or of a list pattern. In a literal an item
/// may be a spread: a list whose elements are put in its place. In a
/// pattern the last item may be a pack: it takes all values that are left.
#[derive(Debug)]
pub struct ListItem {
    pub expression: Expression,
    pub is_spread: bool,
    pub is_pack: bool,
}

/// A class as written in the source. Fields and methods are kept in
/// declaration order; a name is looked up from the front.
#[derive(Debug)]
pub struct UserClass {
    pub name: String,
    pub fields: Vec<(String, ClassField)>,
    pub init: Rc<ClassInitDef>,
    pub methods: Rc<Vec<(String, ClassMethod)>>,
    pub parent: Option<String>,
}

/// A field of a class or of an object, with its value.
#[derive(Debug)]
pub struct ClassField {
    pub is_private: bool,
    pub value: Value,
}

/// The constructor of a class. A class has none where `name` is `None`.
#[derive(Debug)]
pub struct ClassInitDef {
    pub name: Option<String>,
    pub arguments: Option<Vec<String>>,
    pub statements: Option<Vec<Statement>>,
}

/// A method of a class.
#[derive(Debug)]
pub struct ClassMethod {
    pub arguments: Vec<String>,
    pub statements: Vec<Statement>,
    pub return_exp: Option<Expression>,
    pub is_private: bool,
}

/// A binary operator.
#[derive(Clone, Copy, Debug, PartialEq, Eq, Structural)]
pub enum Operator {
    Plus,
    Minus,
    Times,
    Divide,
    LessThan,
    GreaterThan,
    Equal,
    NotEqual,
}

} // verus!
