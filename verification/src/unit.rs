//! The floating-point unit.
//!
//! The interpreter holds a 64-bit IEEE-754 number as its bit pattern and
//! never computes on it. Whoever runs the interpreter supplies the
//! arithmetic, as a `FloatUnit`. The trait promises nothing: every function
//! of this library is verified for whatever a unit answers, and states its
//! result exactly for a unit that answers as a function of what it is asked.

use crate::ast::Operator;
use vstd::prelude::*;

verus! {

/// The arithmetic of floating-point numbers, each given and returned as
/// its bit pattern.
pub trait FloatUnit {
    /// `lhs op rhs`, for `op` one of `Plus`, `Minus`, `Times`, `Divide`.
    fn arith(&self, op: Operator, lhs: u64, rhs: u64) -> u64;

    /// Whether `lhs op rhs` holds, for `op` one of `LessThan`,
    /// `GreaterThan`, `Equal`, `NotEqual`. The last two allow for the
    /// unit's error margin.
    fn compare(&self, op: Operator, lhs: u64, rhs: u64) -> bool;

    /// The number that a 32-bit integer widens to.
    fn widen(&self, v: i32) -> u64;

    /// The number as it is printed.
    fn text(&self, bits: u64) -> String;
}

/// A floating-point unit as four mathematical functions.
pub struct FloatModel {
    pub arith: spec_fn(Operator, u64, u64) -> u64,
    pub compare: spec_fn(Operator, u64, u64) -> bool,
    pub widen: spec_fn(i32) -> u64,
    pub text: spec_fn(u64) -> Seq<char>,
}

/// The answers of `unit`, each picked among those it can give.
pub open spec fn model_of<U: FloatUnit>(unit: &U) -> FloatModel {
    FloatModel {
        arith: |op: Operator, lhs: u64, rhs: u64|
            choose|r: u64| call_ensures(U::arith, (unit, op, lhs, rhs), r),
        compare: |op: Operator, lhs: u64, rhs: u64|
            choose|r: bool| call_ensures(U::compare, (unit, op, lhs, rhs), r),
        widen: |v: i32| choose|r: u64| call_ensures(U::widen, (unit, v), r),
        text: |bits: u64| (choose|r: String| call_ensures(U::text, (unit, bits), r))@,
    }
}

/// `unit` answers as a function: asked the same, it answers the same.
pub open spec fn functional<U: FloatUnit>(unit: &U) -> bool {
    &&& forall|op: Operator, lhs: u64, rhs: u64, r1: u64, r2: u64|
        call_ensures(U::arith, (unit, op, lhs, rhs), r1) && call_ensures(
            U::arith,
            (unit, op, lhs, rhs),
            r2,
        ) ==> r1 == r2
    &&& forall|op: Operator, lhs: u64, rhs: u64, r1: bool, r2: bool|
        call_ensures(U::compare, (unit, op, lhs, rhs), r1) && call_ensures(
            U::compare,
            (unit, op, lhs, rhs),
            r2,
        ) ==> r1 == r2
    &&& forall|v: i32, r1: u64, r2: u64|
        call_ensures(U::widen, (unit, v), r1) && call_ensures(U::widen, (unit, v), r2) ==> r1
            == r2
    &&& forall|bits: u64, r1: String, r2: String|
        call_ensures(U::text, (unit, bits), r1) && call_ensures(U::text, (unit, bits), r2)
            ==> r1@ == r2@
}

/// Asks the unit for `lhs op rhs`.
pub fn float_arith<U: FloatUnit>(unit: &U, op: Operator, lhs: u64, rhs: u64) -> (out: u64)
    ensures
        functional(unit) ==> out == (model_of(unit).arith)(op, lhs, rhs),
{
    unit.arith(op, lhs, rhs)
}

/// Asks the unit whether `lhs op rhs` holds.
pub fn float_compare<U: FloatUnit>(unit: &U, op: Operator, lhs: u64, rhs: u64) -> (out: bool)
    ensures
        functional(unit) ==> out == (model_of(unit).compare)(op, lhs, rhs),
{
    unit.compare(op, lhs, rhs)
}

/// Asks the unit for the number that `v` widens to.
pub fn float_widen<U: FloatUnit>(unit: &U, v: i32) -> (out: u64)
    ensures
        functional(unit) ==> out == (model_of(unit).widen)(v),
{
    unit.widen(v)
}

/// Asks the unit for the number as it is printed.
pub fn float_text<U: FloatUnit>(unit: &U, bits: u64) -> (out: String)
    ensures
        functional(unit) ==> out@ == (model_of(unit).text)(bits),
{
    unit.text(bits)
}

} // verus!
