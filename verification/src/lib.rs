//! A tree-walking interpreter for a small dynamically typed scripting
//! language with lists, texts, functions, classes with single inheritance,
//! and modules.
//!
//! `ast` is the syntax tree, `value` the runtime values, `env` the bindings
//! of names. `algebra`, `order`, `display` and `iterate` are the algebra of
//! values. `semantics` says, as mathematical functions, what every
//! expression and statement means; `eval` is the interpreter, which does
//! what `semantics` says. `laws` and `quiet` hold what is proved of the
//! semantics. `imports` computes where a module is looked for.
//!
//! The interpreter computes on nothing but integers and texts. Floating-point
//! numbers are bit patterns to it: their arithmetic is supplied from
//! outside, as a `unit::FloatUnit`. What a program prints is collected in a
//! text that the caller hands in, and the modules it may import are handed
//! in with the `runtime::Runtime`.

pub mod algebra;
pub mod ast;
pub mod builtins;
pub mod display;
pub mod env;
pub mod error;
pub mod eval;
pub mod fuel;
pub mod imports;
pub mod iterate;
pub mod laws;
pub mod lookup;
pub mod order;
pub mod quiet;
pub mod runtime;
pub mod semantics;
pub mod steps;
pub mod text;
pub mod unit;
pub mod value;
