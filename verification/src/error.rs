//! The failures of an evaluation.
//!
//! Every failure is fatal: the language has no way to recover from one.

use crate::text::{decimal, decimal_text};
use vstd::prelude::*;
use vstd::string::*;

verus! {

/// The kinds that failures fall into.
#[derive(Clone, Copy, Debug, PartialEq, Eq, Structural)]
pub enum ErrorKind {
    NameError,
    TypeError,
    ArityError,
    BoundsError,
    AssignmentError,
    RedefinitionError,
    ImportError,
    KeywordError,
    /// The evaluation needed more nesting than it was allowed.
    DepthError,
}

/// A failure of an evaluation, with what it is about.
#[derive(Debug)]
pub enum EvalError {
    /// A name that is not bound.
    Undefined { name: String },
    /// No field of that name is in scope inside a method or constructor.
    NoSuchField { field: String },
    /// The object has no field of that name that the caller may read.
    NoAccess { field: String },
    /// The object has no method of that name that the caller may call.
    NoSuchMethod { method: String },
    /// `super` is used where no parent instance is bound.
    NoParent,
    /// A field of the class or of its parent has no value after the constructor ran.
    Uninitialized { field: String },
    /// An arithmetic operator on operands that it is not defined for.
    InvalidOperation,
    /// A compound assignment whose operator is not defined for the operands.
    CannotOperate { name: String },
    /// An ordering between values that have none.
    NotComparable,
    ConditionNotBool,
    NotIterable,
    NotIndexable,
    IndexNotInt,
    /// A list pattern is assigned something that is no list.
    NotAList,
    /// A spread item in a list literal is no list.
    SpreadNonList,
    NotAFunction { name: String },
    NotAnObject { name: String },
    /// An argument of a built-in function has the wrong type or value.
    InvalidType,
    /// A call with the wrong number of arguments.
    Arity { expected: usize, got: usize },
    /// A list pattern that cannot take the values it is assigned.
    Destructure { values: usize, targets: usize },
    OutOfBounds { index: i32 },
    /// The left-hand side is an expression that denotes no place.
    CannotAssign,
    /// A write to a private field from outside the object.
    PrivateField,
    /// A spread item in a list pattern.
    SpreadInAssignment,
    AlreadyDefined { name: String },
    /// The module was not found, or could not be read; `path` is the last
    /// file that was tried.
    Import { path: String },
    /// The module is not among those that the evaluation was given.
    Unloaded { path: String },
    /// A reserved word names a class or a field.
    Keyword { word: String },
    /// The evaluation needed more nesting than it was allowed.
    Exhausted,
}

/// A failure as a mathematical value.
pub enum ErrorView {
    Undefined { name: Seq<char> },
    NoSuchField { field: Seq<char> },
    NoAccess { field: Seq<char> },
    NoSuchMethod { method: Seq<char> },
    NoParent,
    Uninitialized { field: Seq<char> },
    InvalidOperation,
    CannotOperate { name: Seq<char> },
    NotComparable,
    ConditionNotBool,
    NotIterable,
    NotIndexable,
    IndexNotInt,
    NotAList,
    SpreadNonList,
    NotAFunction { name: Seq<char> },
    NotAnObject { name: Seq<char> },
    InvalidType,
    Arity { expected: nat, got: nat },
    Destructure { values: nat, targets: nat },
    OutOfBounds { index: int },
    CannotAssign,
    PrivateField,
    SpreadInAssignment,
    AlreadyDefined { name: Seq<char> },
    Import { path: Seq<char> },
    Unloaded { path: Seq<char> },
    Keyword { word: Seq<char> },
    Exhausted,
}

impl View for EvalError {
    type V = ErrorView;

    open spec fn view(&self) -> ErrorView {
        match self {
            EvalError::Undefined { name } => ErrorView::Undefined { name: name@ },
            EvalError::NoSuchField { field } => ErrorView::NoSuchField { field: field@ },
            EvalError::NoAccess { field } => ErrorView::NoAccess { field: field@ },
            EvalError::NoSuchMethod { method } => ErrorView::NoSuchMethod { method: method@ },
            EvalError::NoParent => ErrorView::NoParent,
            EvalError::Uninitialized { field } => ErrorView::Uninitialized { field: field@ },
            EvalError::InvalidOperation => ErrorView::InvalidOperation,
            EvalError::CannotOperate { name } => ErrorView::CannotOperate { name: name@ },
            EvalError::NotComparable => ErrorView::NotComparable,
            EvalError::ConditionNotBool => ErrorView::ConditionNotBool,
            EvalError::NotIterable => ErrorView::NotIterable,
            EvalError::NotIndexable => ErrorView::NotIndexable,
            EvalError::IndexNotInt => ErrorView::IndexNotInt,
            EvalError::NotAList => ErrorView::NotAList,
            EvalError::SpreadNonList => ErrorView::SpreadNonList,
            EvalError::NotAFunction { name } => ErrorView::NotAFunction { name: name@ },
            EvalError::NotAnObject { name } => ErrorView::NotAnObject { name: name@ },
            EvalError::InvalidType => ErrorView::InvalidType,
            EvalError::Arity { expected, got } => ErrorView::Arity {
                expected: *expected as nat,
                got: *got as nat,
            },
            EvalError::Destructure { values, targets } => ErrorView::Destructure {
                values: *values as nat,
                targets: *targets as nat,
            },
            EvalError::OutOfBounds { index } => ErrorView::OutOfBounds { index: *index as int },
            EvalError::CannotAssign => ErrorView::CannotAssign,
            EvalError::PrivateField => ErrorView::PrivateField,
            EvalError::SpreadInAssignment => ErrorView::SpreadInAssignment,
            EvalError::AlreadyDefined { name } => ErrorView::AlreadyDefined { name: name@ },
            EvalError::Import { path } => ErrorView::Import { path: path@ },
            EvalError::Unloaded { path } => ErrorView::Unloaded { path: path@ },
            EvalError::Keyword { word } => ErrorView::Keyword { word: word@ },
            EvalError::Exhausted => ErrorView::Exhausted,
        }
    }
}

impl ErrorView {
    /// The kind that the failure falls into.
    pub open spec fn kind(self) -> ErrorKind {
        match self {
            ErrorView::Undefined { .. }
            | ErrorView::NoSuchField { .. }
            | ErrorView::NoAccess { .. }
            | ErrorView::NoSuchMethod { .. }
            | ErrorView::NoParent
            | ErrorView::Uninitialized { .. } => ErrorKind::NameError,
            ErrorView::InvalidOperation
            | ErrorView::CannotOperate { .. }
            | ErrorView::NotComparable
            | ErrorView::ConditionNotBool
            | ErrorView::NotIterable
            | ErrorView::NotIndexable
            | ErrorView::IndexNotInt
            | ErrorView::NotAList
            | ErrorView::SpreadNonList
            | ErrorView::NotAFunction { .. }
            | ErrorView::NotAnObject { .. }
            | ErrorView::InvalidType => ErrorKind::TypeError,
            ErrorView::Arity { .. } | ErrorView::Destructure { .. } => ErrorKind::ArityError,
            ErrorView::OutOfBounds { .. } => ErrorKind::BoundsError,
            ErrorView::CannotAssign
            | ErrorView::PrivateField
            | ErrorView::SpreadInAssignment => ErrorKind::AssignmentError,
            ErrorView::AlreadyDefined { .. } => ErrorKind::RedefinitionError,
            ErrorView::Import { .. } | ErrorView::Unloaded { .. } => ErrorKind::ImportError,
            ErrorView::Keyword { .. } => ErrorKind::KeywordError,
            ErrorView::Exhausted => ErrorKind::DepthError,
        }
    }

    /// The message that reports the failure.
    pub open spec fn message(self) -> Seq<char> {
        match self {
            ErrorView::Undefined { name } => "'"@ + name + "' is not defined"@,
            ErrorView::NoSuchField { field } => "No such field \""@ + field + "\""@,
            ErrorView::NoAccess { field } => "Cannot access field \""@ + field + "\""@,
            ErrorView::NoSuchMethod { method } => method + " is not a valid method or is private"@,
            ErrorView::NoParent => "super used with no parent"@,
            ErrorView::Uninitialized { field } => "An error occured when initalizing "@ + field,
            ErrorView::InvalidOperation => "Invalid Operation"@,
            ErrorView::CannotOperate { name } => "Cannot operate on "@ + name,
            ErrorView::NotComparable => "Cannot compare these two types!"@,
            ErrorView::ConditionNotBool => "Condition must be of type 'bool'"@,
            ErrorView::NotIterable => "Value is not iterable"@,
            ErrorView::NotIndexable => "Value cannot be indexed"@,
            ErrorView::IndexNotInt => "Index must be of type int"@,
            ErrorView::NotAList => "cannot destructure non-list into list"@,
            ErrorView::SpreadNonList => "only lists can be spread!"@,
            ErrorView::NotAFunction { name } => "'"@ + name + "' is not a function"@,
            ErrorView::NotAnObject { name } => name + " is not an object"@,
            ErrorView::InvalidType => "Invalid Type"@,
            ErrorView::Arity { expected, got } => "Expected "@ + decimal(expected as int)
                + " arguments, got "@ + decimal(got as int),
            ErrorView::Destructure { values, targets } => "Cannot assign "@ + decimal(
                values as int,
            ) + " values to "@ + decimal(targets as int) + " items"@,
            ErrorView::OutOfBounds { index } => "Index "@ + decimal(index) + " is out of bounds"@,
            ErrorView::CannotAssign => "Cannot assign to this expression"@,
            ErrorView::PrivateField => "Cannot access private field"@,
            ErrorView::SpreadInAssignment => "Cannot use spread in list assignment"@,
            ErrorView::AlreadyDefined { name } => "Function '"@ + name + "' is already defined!"@,
            ErrorView::Import { path } => "Error opening file at "@ + path,
            ErrorView::Unloaded { path } => "Module is not loaded: "@ + path,
            ErrorView::Keyword { word } => "\""@ + word + "\" is a protected keyword"@,
            ErrorView::Exhausted => "Evaluation is nested too deeply"@,
        }
    }
}

fn frame(before: &str, middle: &str, after: &str) -> (out: String)
    ensures
        out@ == before@ + middle@ + after@,
{
    let mut out = String::from_str(before);
    out.append(middle);
    out.append(after);
    out
}

fn count_text(n: usize) -> (out: String)
    ensures
        out@ == decimal(n as int),
{
    crate::text::digits_text(n as u64)
}

impl EvalError {
    /// The kind that the failure falls into.
    pub fn kind(&self) -> (out: ErrorKind)
        ensures
            out == self@.kind(),
    {
        match self {
            EvalError::Undefined { .. }
            | EvalError::NoSuchField { .. }
            | EvalError::NoAccess { .. }
            | EvalError::NoSuchMethod { .. }
            | EvalError::NoParent
            | EvalError::Uninitialized { .. } => ErrorKind::NameError,
            EvalError::InvalidOperation
            | EvalError::CannotOperate { .. }
            | EvalError::NotComparable
            | EvalError::ConditionNotBool
            | EvalError::NotIterable
            | EvalError::NotIndexable
            | EvalError::IndexNotInt
            | EvalError::NotAList
            | EvalError::SpreadNonList
            | EvalError::NotAFunction { .. }
            | EvalError::NotAnObject { .. }
            | EvalError::InvalidType => ErrorKind::TypeError,
            EvalError::Arity { .. } | EvalError::Destructure { .. } => ErrorKind::ArityError,
            EvalError::OutOfBounds { .. } => ErrorKind::BoundsError,
            EvalError::CannotAssign
            | EvalError::PrivateField
            | EvalError::SpreadInAssignment => ErrorKind::AssignmentError,
            EvalError::AlreadyDefined { .. } => ErrorKind::RedefinitionError,
            EvalError::Import { .. } | EvalError::Unloaded { .. } => ErrorKind::ImportError,
            EvalError::Keyword { .. } => ErrorKind::KeywordError,
            EvalError::Exhausted => ErrorKind::DepthError,
        }
    }

    /// The message that reports the failure.
    pub fn message(&self) -> (out: String)
        ensures
            out@ == self@.message(),
    {
        match self {
            EvalError::Undefined { name } => frame("'", name.as_str(), "' is not defined"),
            EvalError::NoSuchField { field } => frame("No such field \"", field.as_str(), "\""),
            EvalError::NoAccess { field } => frame("Cannot access field \"", field.as_str(), "\""),
            EvalError::NoSuchMethod { method } => {
                let mut out = method.clone();
                out.append(" is not a valid method or is private");
                out
            },
            EvalError::NoParent => String::from_str("super used with no parent"),
            EvalError::Uninitialized { field } => {
                let mut out = String::from_str("An error occured when initalizing ");
                out.append(field.as_str());
                out
            },
            EvalError::InvalidOperation => String::from_str("Invalid Operation"),
            EvalError::CannotOperate { name } => {
                let mut out = String::from_str("Cannot operate on ");
                out.append(name.as_str());
                out
            },
            EvalError::NotComparable => String::from_str("Cannot compare these two types!"),
            EvalError::ConditionNotBool => String::from_str("Condition must be of type 'bool'"),
            EvalError::NotIterable => String::from_str("Value is not iterable"),
            EvalError::NotIndexable => String::from_str("Value cannot be indexed"),
            EvalError::IndexNotInt => String::from_str("Index must be of type int"),
            EvalError::NotAList => String::from_str("cannot destructure non-list into list"),
            EvalError::SpreadNonList => String::from_str("only lists can be spread!"),
            EvalError::NotAFunction { name } => frame("'", name.as_str(), "' is not a function"),
            EvalError::NotAnObject { name } => {
                let mut out = name.clone();
                out.append(" is not an object");
                out
            },
            EvalError::InvalidType => String::from_str("Invalid Type"),
            EvalError::Arity { expected, got } => {
                let mut out = frame(
                    "Expected ",
                    count_text(*expected).as_str(),
                    " arguments, got ",
                );
                out.append(count_text(*got).as_str());
                out
            },
            EvalError::Destructure { values, targets } => {
                let mut out = frame("Cannot assign ", count_text(*values).as_str(), " values to ");
                out.append(count_text(*targets).as_str());
                out.append(" items");
                out
            },
            EvalError::OutOfBounds { index } => frame(
                "Index ",
                decimal_text(*index as i64).as_str(),
                " is out of bounds",
            ),
            EvalError::CannotAssign => String::from_str("Cannot assign to this expression"),
            EvalError::PrivateField => String::from_str("Cannot access private field"),
            EvalError::SpreadInAssignment => String::from_str(
                "Cannot use spread in list assignment",
            ),
            EvalError::AlreadyDefined { name } => frame(
                "Function '",
                name.as_str(),
                "' is already defined!",
            ),
            EvalError::Import { path } => {
                let mut out = String::from_str("Error opening file at ");
                out.append(path.as_str());
                out
            },
            EvalError::Unloaded { path } => {
                let mut out = String::from_str("Module is not loaded: ");
                out.append(path.as_str());
                out
            },
            EvalError::Keyword { word } => frame("\"", word.as_str(), "\" is a protected keyword"),
            EvalError::Exhausted => String::from_str("Evaluation is nested too deeply"),
        }
    }
}

} // verus!
