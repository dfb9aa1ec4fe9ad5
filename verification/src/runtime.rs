//! What an evaluation is given from outside: the floating-point unit, the
//! modules that can be imported, and the reserved words.

use crate::ast::Program;
use crate::unit::{model_of, FloatModel, FloatUnit};
use crate::error::{ErrorView, EvalError};
use crate::value::{views, Value, ValueView};
use vstd::prelude::*;

verus! {

/// A module that an `import` can name.
pub struct Module {
    /// The path as the `import` statement writes it.
    pub path: String,
    /// The module's program; `None` where the module was looked for and
    /// no file of it could be read.
    pub program: Option<Program>,
    /// The last file that was tried for it.
    pub tried: String,
}

/// What an evaluation is given from outside.
pub struct Runtime<U: FloatUnit> {
    pub unit: U,
    /// The modules, each under the path that an `import` names it by. An
    /// earlier entry hides a later one with the same path.
    pub modules: Vec<Module>,
    /// The words that may name neither a class nor a field.
    pub keywords: Vec<String>,
}

/// The characters of each text.
pub open spec fn texts(s: Seq<String>) -> Seq<Seq<char>> {
    Seq::new(s.len(), |i: int| s[i]@)
}

/// A `Runtime` as mathematical values.
pub struct Setting {
    pub model: FloatModel,
    pub modules: Seq<Module>,
    pub keywords: Seq<Seq<char>>,
}

impl<U: FloatUnit> Runtime<U> {
    /// The runtime as mathematical values.
    pub open spec fn setting(&self) -> Setting {
        Setting {
            model: model_of(&self.unit),
            modules: self.modules@,
            keywords: texts(self.keywords@),
        }
    }
}

/// The state that evaluation changes: the bindings, and the text printed so far.
pub struct World {
    pub env: Map<Seq<char>, ValueView>,
    pub out: Seq<char>,
}

/// Where an evaluation ends: the state it leaves, and its value or failure.
pub struct Outcome<T> {
    pub world: World,
    pub result: Result<T, ErrorView>,
}

/// The outcome of an evaluation that ends with a value.
pub open spec fn done<T>(world: World, value: T) -> Outcome<T> {
    Outcome { world, result: Ok(value) }
}

/// The outcome of an evaluation that fails.
pub open spec fn fail<T>(world: World, error: ErrorView) -> Outcome<T> {
    Outcome { world, result: Err(error) }
}

/// Whether an evaluation that left the bindings `env`, the printed text
/// `out` and `result` has come to the outcome `o`.
pub open spec fn reached<T>(
    o: Outcome<T>,
    env: Map<Seq<char>, ValueView>,
    out: Seq<char>,
    result: Result<T, ErrorView>,
) -> bool {
    o.world.env == env && o.world.out == out && o.result == result
}

/// A result as mathematical values.
pub open spec fn value_result(r: Result<Value, EvalError>) -> Result<ValueView, ErrorView> {
    match r {
        Ok(v) => Ok(v@),
        Err(e) => Err(e@),
    }
}

/// A result as mathematical values.
pub open spec fn values_result(r: Result<Vec<Value>, EvalError>) -> Result<
    Seq<ValueView>,
    ErrorView,
> {
    match r {
        Ok(v) => Ok(views(v@)),
        Err(e) => Err(e@),
    }
}

/// A result as mathematical values.
pub open spec fn unit_result(r: Result<(), EvalError>) -> Result<(), ErrorView> {
    match r {
        Ok(_) => Ok(()),
        Err(e) => Err(e@),
    }
}

} // verus!
