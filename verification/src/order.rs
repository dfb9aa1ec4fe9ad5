//! The ordering of values, and the operator engine.

use crate::algebra::{arith, arithmetic, equal, float_takes_part, is_arithmetic, unequal};
use crate::ast::Operator;
use crate::error::{ErrorView, EvalError};
use crate::text::{char_code, code_point};
use crate::unit::{float_compare, float_widen, functional, model_of, FloatModel, FloatUnit};
use crate::value::{Value, ValueView};
use std::cmp::Ordering;
use vstd::prelude::*;

verus! {

/// `Less` where `less` holds, else `Greater` where `greater` holds, else `Equal`.
pub open spec fn order_by(less: bool, greater: bool) -> Ordering {
    if less {
        Ordering::Less
    } else if greater {
        Ordering::Greater
    } else {
        Ordering::Equal
    }
}

/// Two texts, compared character by character from the front, by code
/// point; a proper prefix comes first.
pub open spec fn text_order(a: Seq<char>, b: Seq<char>) -> Ordering
    decreases a.len(),
{
    if a.len() == 0 {
        if b.len() == 0 {
            Ordering::Equal
        } else {
            Ordering::Less
        }
    } else if b.len() == 0 {
        Ordering::Greater
    } else if code_point(a[0]) != code_point(b[0]) {
        order_by(code_point(a[0]) < code_point(b[0]), code_point(a[0]) > code_point(b[0]))
    } else {
        text_order(a.drop_first(), b.drop_first())
    }
}

/// Two floats: less or greater where the unit says so, else equal.
pub open spec fn float_order(m: FloatModel, a: u64, b: u64) -> Ordering {
    order_by((m.compare)(Operator::LessThan, a, b), (m.compare)(Operator::GreaterThan, a, b))
}

/// How two values are ordered: two integers, floats, texts, booleans
/// (false first) or characters among themselves, an integer and a float
/// after widening, `Null` equal to itself. No other pair is ordered.
pub open spec fn ordering(m: FloatModel, lhs: ValueView, rhs: ValueView) -> Option<Ordering> {
    match (lhs, rhs) {
        (ValueView::Null, ValueView::Null) => Some(Ordering::Equal),
        (ValueView::Int { v: a }, ValueView::Int { v: b }) => Some(order_by(a < b, a > b)),
        (ValueView::Float { bits }, ValueView::Int { v }) => Some(
            float_order(m, bits, (m.widen)(v)),
        ),
        (ValueView::Int { v }, ValueView::Float { bits }) => Some(
            float_order(m, (m.widen)(v), bits),
        ),
        (ValueView::Str { s: a }, ValueView::Str { s: b }) => Some(text_order(a, b)),
        (ValueView::Bool { b: a }, ValueView::Bool { b }) => Some(order_by(!a && b, a && !b)),
        (ValueView::Float { bits: a }, ValueView::Float { bits: b }) => Some(float_order(m, a, b)),
        (ValueView::Char { c: a }, ValueView::Char { c: b }) => Some(
            order_by(code_point(a) < code_point(b), code_point(a) > code_point(b)),
        ),
        _ => None,
    }
}

/// What the operator engine gives for `lhs op rhs`: the arithmetic result
/// (which may be `Null`), or the truth of a comparison. Only an ordering
/// between values that have none fails.
pub open spec fn operate_spec(m: FloatModel, op: Operator, lhs: ValueView, rhs: ValueView) -> Result<
    ValueView,
    ErrorView,
> {
    match op {
        Operator::LessThan => match ordering(m, lhs, rhs) {
            Some(o) => Ok(ValueView::Bool { b: o == Ordering::Less }),
            None => Err(ErrorView::NotComparable),
        },
        Operator::GreaterThan => match ordering(m, lhs, rhs) {
            Some(o) => Ok(ValueView::Bool { b: o == Ordering::Greater }),
            None => Err(ErrorView::NotComparable),
        },
        Operator::Equal => Ok(ValueView::Bool { b: equal(m, lhs, rhs) }),
        Operator::NotEqual => Ok(ValueView::Bool { b: unequal(m, lhs, rhs) }),
        _ => Ok(arith(m, op, lhs, rhs)),
    }
}

/// `str::cmp`: texts are ordered lexicographically by their bytes, which
/// orders them by the code points of their characters.
#[verifier::external_body]
fn text_cmp(a: &str, b: &str) -> (out: Ordering)
    ensures
        out == text_order(a@, b@),
{
    a.cmp(b)
}

fn pick(less: bool, greater: bool) -> (out: Ordering)
    ensures
        out == order_by(less, greater),
{
    if less {
        Ordering::Less
    } else if greater {
        Ordering::Greater
    } else {
        Ordering::Equal
    }
}

fn order_of_floats<U: FloatUnit>(unit: &U, a: u64, b: u64) -> (out: Ordering)
    ensures
        functional(unit) ==> out == float_order(model_of(unit), a, b),
{
    if float_compare(unit, Operator::LessThan, a, b) {
        Ordering::Less
    } else if float_compare(unit, Operator::GreaterThan, a, b) {
        Ordering::Greater
    } else {
        Ordering::Equal
    }
}

impl Value {
    /// How the value is ordered against `other`, where the two are ordered.
    pub fn partial_cmp<U: FloatUnit>(&self, other: &Value, unit: &U) -> (out: Option<Ordering>)
        ensures
            functional(unit) ==> out == ordering(model_of(unit), self@, other@),
            out is Some <==> ordering(model_of(unit), self@, other@) is Some,
    {
        match (self, other) {
            (Value::Null, Value::Null) => Some(Ordering::Equal),
            (Value::Int { v: a }, Value::Int { v: b }) => Some(pick(*a < *b, *a > *b)),
            (Value::Float { bits }, Value::Int { v }) => {
                let wide = float_widen(unit, *v);
                Some(order_of_floats(unit, *bits, wide))
            },
            (Value::Int { v }, Value::Float { bits }) => {
                let wide = float_widen(unit, *v);
                Some(order_of_floats(unit, wide, *bits))
            },
            (Value::Str { s: a }, Value::Str { s: b }) => Some(text_cmp(a.as_str(), b.as_str())),
            (Value::Bool { b: a }, Value::Bool { b }) => Some(pick(!*a && *b, *a && !*b)),
            (Value::Float { bits: a }, Value::Float { bits: b }) => Some(
                order_of_floats(unit, *a, *b),
            ),
            (Value::Char { c: a }, Value::Char { c: b }) => {
                let x = char_code(*a);
                let y = char_code(*b);
                Some(pick(x < y, x > y))
            },
            _ => None,
        }
    }

    /// How the value is ordered against `other`. Values that are not
    /// ordered give `NotComparable`.
    pub fn cmp<U: FloatUnit>(&self, other: &Value, unit: &U) -> (out: Result<Ordering, EvalError>)
        ensures
            out is Ok <==> ordering(model_of(unit), self@, other@) is Some,
            out matches Err(e) ==> e@ == ErrorView::NotComparable,
            functional(unit) ==> (out matches Ok(o) ==> Some(o) == ordering(
                model_of(unit),
                self@,
                other@,
            )),
    {
        match self.partial_cmp(other, unit) {
            Some(o) => Ok(o),
            None => Err(EvalError::NotComparable),
        }
    }
}

/// Applies a binary operator to two values.
pub fn operate<U: FloatUnit>(unit: &U, operator: &Operator, lhs: &Value, rhs: &Value) -> (out:
    Result<Value, EvalError>)
    ensures
        out is Ok <==> operate_spec(model_of(unit), *operator, lhs@, rhs@) is Ok,
        out matches Err(e) ==> e@ == ErrorView::NotComparable,
        functional(unit) ==> (out matches Ok(v) ==> Ok::<ValueView, ErrorView>(v@) == operate_spec(
            model_of(unit),
            *operator,
            lhs@,
            rhs@,
        )),
        lhs@ is Int && rhs@ is Int && is_arithmetic(*operator) ==> (out matches Ok(v) && v@
            == crate::algebra::int_arith(*operator, lhs@->Int_v, rhs@->Int_v)),
        is_arithmetic(*operator) && float_takes_part(lhs@, rhs@) ==> (out matches Ok(v)
            && v@ is Float),
{
    match operator {
        Operator::LessThan => match lhs.cmp(rhs, unit) {
            Ok(o) => Ok(Value::Bool { b: matches!(o, Ordering::Less) }),
            Err(e) => Err(e),
        },
        Operator::GreaterThan => match lhs.cmp(rhs, unit) {
            Ok(o) => Ok(Value::Bool { b: matches!(o, Ordering::Greater) }),
            Err(e) => Err(e),
        },
        Operator::Equal => Ok(Value::Bool { b: lhs.eq(rhs, unit) }),
        Operator::NotEqual => Ok(Value::Bool { b: lhs.ne(rhs, unit) }),
        _ => Ok(arithmetic(unit, *operator, lhs, rhs)),
    }
}

} // verus!
