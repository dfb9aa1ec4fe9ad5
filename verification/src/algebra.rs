//! Arithmetic and equality of values.

use crate::ast::Operator;
use crate::unit::{float_arith, float_compare, float_widen, functional, model_of, FloatModel, FloatUnit};
use crate::value::{lemma_list_view, views, Value, ValueView};
use vstd::prelude::*;

verus! {

/// The 32-bit signed integer that `x` wraps to: the one that differs from
/// `x` by a multiple of 2^32.
pub open spec fn wrap32(x: int) -> i32 {
    let m = x % 0x1_0000_0000;
    if m > i32::MAX {
        (m - 0x1_0000_0000) as i32
    } else {
        m as i32
    }
}

/// The quotient of `x` by `d`, rounded toward zero; `d` is not zero.
pub open spec fn trunc_div(x: int, d: int) -> int {
    if x >= 0 && d > 0 {
        x / d
    } else if x < 0 && d < 0 {
        (-x) / (-d)
    } else if x < 0 {
        -((-x) / d)
    } else {
        -(x / (-d))
    }
}

/// `op` is one of `+ - * /`.
pub open spec fn is_arithmetic(op: Operator) -> bool {
    op == Operator::Plus || op == Operator::Minus || op == Operator::Times || op
        == Operator::Divide
}

/// Integer arithmetic wraps around. A division by zero has no value.
pub open spec fn int_arith(op: Operator, lhs: i32, rhs: i32) -> ValueView {
    match op {
        Operator::Plus => ValueView::Int { v: wrap32(lhs + rhs) },
        Operator::Minus => ValueView::Int { v: wrap32(lhs - rhs) },
        Operator::Times => ValueView::Int { v: wrap32(lhs * rhs) },
        Operator::Divide => if rhs == 0 {
            ValueView::Null
        } else {
            ValueView::Int { v: wrap32(trunc_div(lhs as int, rhs as int)) }
        },
        _ => ValueView::Null,
    }
}

/// What `lhs op rhs` is for an arithmetic `op`: an integer for two
/// integers, a float where a float takes part (an integer is widened
/// first), and `Null` for any other pair.
pub open spec fn arith(m: FloatModel, op: Operator, lhs: ValueView, rhs: ValueView) -> ValueView {
    if !is_arithmetic(op) {
        ValueView::Null
    } else {
        match (lhs, rhs) {
            (ValueView::Int { v: a }, ValueView::Int { v: b }) => int_arith(op, a, b),
            (ValueView::Float { bits: a }, ValueView::Float { bits: b }) => ValueView::Float {
                bits: (m.arith)(op, a, b),
            },
            (ValueView::Int { v }, ValueView::Float { bits }) => ValueView::Float {
                bits: (m.arith)(op, (m.widen)(v), bits),
            },
            (ValueView::Float { bits }, ValueView::Int { v }) => ValueView::Float {
                bits: (m.arith)(op, bits, (m.widen)(v)),
            },
            _ => ValueView::Null,
        }
    }
}

/// A float takes part in `lhs op rhs`: one operand is a float, the other a
/// float or an integer.
pub open spec fn float_takes_part(lhs: ValueView, rhs: ValueView) -> bool {
    (lhs is Float && (rhs is Float || rhs is Int)) || (lhs is Int && rhs is Float)
}

/// Whether two values are of the same variant.
pub open spec fn same_variant(lhs: ValueView, rhs: ValueView) -> bool {
    match lhs {
        ValueView::Null => rhs is Null,
        ValueView::Int { .. } => rhs is Int,
        ValueView::Str { .. } => rhs is Str,
        ValueView::Bool { .. } => rhs is Bool,
        ValueView::Float { .. } => rhs is Float,
        ValueView::Char { .. } => rhs is Char,
        ValueView::List { .. } => rhs is List,
        ValueView::Function { .. } => rhs is Function,
        ValueView::UserDefFunction { .. } => rhs is UserDefFunction,
        ValueView::Object { .. } => rhs is Object,
    }
}

/// Whether two values are equal. Primitives are compared by what they
/// hold, a float through the unit (an integer beside it is widened), two
/// lists where they are of the same length and equal position by position;
/// functions and objects are equal to any value of their own variant.
pub open spec fn equal(m: FloatModel, lhs: ValueView, rhs: ValueView) -> bool
    decreases lhs,
{
    match (lhs, rhs) {
        (ValueView::Int { v: a }, ValueView::Int { v: b }) => a == b,
        (ValueView::Str { s: a }, ValueView::Str { s: b }) => a == b,
        (ValueView::Bool { b: a }, ValueView::Bool { b }) => a == b,
        (ValueView::Float { bits: a }, ValueView::Float { bits: b }) => (m.compare)(
            Operator::Equal,
            a,
            b,
        ),
        (ValueView::Char { c: a }, ValueView::Char { c: b }) => a == b,
        (ValueView::List { e: a }, ValueView::List { e: b }) => a.len() == b.len() && forall|
            i: int,
        | 0 <= i < a.len() ==> equal(m, #[trigger] a[i], b[i]),
        (ValueView::Float { bits }, ValueView::Int { v }) => (m.compare)(
            Operator::Equal,
            (m.widen)(v),
            bits,
        ),
        (ValueView::Int { v }, ValueView::Float { bits }) => (m.compare)(
            Operator::Equal,
            (m.widen)(v),
            bits,
        ),
        _ => same_variant(lhs, rhs),
    }
}

/// Whether two values are unequal: for two numbers of which one is a
/// float, what the unit says; for any other pair, that they are not equal.
pub open spec fn unequal(m: FloatModel, lhs: ValueView, rhs: ValueView) -> bool {
    match (lhs, rhs) {
        (ValueView::Float { bits: a }, ValueView::Float { bits: b }) => (m.compare)(
            Operator::NotEqual,
            a,
            b,
        ),
        (ValueView::Float { bits }, ValueView::Int { v }) => (m.compare)(
            Operator::NotEqual,
            (m.widen)(v),
            bits,
        ),
        (ValueView::Int { v }, ValueView::Float { bits }) => (m.compare)(
            Operator::NotEqual,
            (m.widen)(v),
            bits,
        ),
        _ => !equal(m, lhs, rhs),
    }
}

/// Integer arithmetic stays within the integers: for two integers, and a
/// divisor that is not zero, the result is an integer.
pub proof fn law_int_arith_is_int(m: FloatModel, op: Operator, lhs: i32, rhs: i32)
    requires
        is_arithmetic(op),
        op == Operator::Divide ==> rhs != 0,
    ensures
        arith(m, op, ValueView::Int { v: lhs }, ValueView::Int { v: rhs }) is Int,
        i32::MIN <= lhs + rhs <= i32::MAX && op == Operator::Plus ==> arith(
            m,
            op,
            ValueView::Int { v: lhs },
            ValueView::Int { v: rhs },
        ) == (ValueView::Int { v: (lhs + rhs) as i32 }),
        i32::MIN <= lhs - rhs <= i32::MAX && op == Operator::Minus ==> arith(
            m,
            op,
            ValueView::Int { v: lhs },
            ValueView::Int { v: rhs },
        ) == (ValueView::Int { v: (lhs - rhs) as i32 }),
        i32::MIN <= lhs * rhs <= i32::MAX && op == Operator::Times ==> arith(
            m,
            op,
            ValueView::Int { v: lhs },
            ValueView::Int { v: rhs },
        ) == (ValueView::Int { v: (lhs * rhs) as i32 }),
{
}

/// Arithmetic on an integer and a float, in either order, gives a float.
pub proof fn law_mixed_arith_is_float(m: FloatModel, op: Operator, v: i32, bits: u64)
    requires
        is_arithmetic(op),
    ensures
        arith(m, op, ValueView::Int { v }, ValueView::Float { bits }) is Float,
        arith(m, op, ValueView::Float { bits }, ValueView::Int { v }) is Float,
{
}

fn int_quotient(lhs: i32, rhs: i32) -> (out: i32)
    requires
        rhs != 0,
    ensures
        out == wrap32(trunc_div(lhs as int, rhs as int)),
{
    match lhs.checked_div(rhs) {
        Some(q) => {
            assert(q == trunc_div(lhs as int, rhs as int)) by (nonlinear_arith)
                requires
                    rhs != 0,
                    q == if lhs == 0 {
                        0
                    } else if lhs > 0 && rhs > 0 {
                        lhs as int / rhs as int
                    } else if lhs < 0 && rhs < 0 {
                        ((lhs * -1) / (rhs * -1))
                    } else if lhs < 0 {
                        ((lhs * -1) / rhs as int) * -1
                    } else {
                        (lhs as int / (rhs * -1)) * -1
                    },
            ;
            q
        },
        None => {
            assert(lhs == i32::MIN && rhs == -1) by (nonlinear_arith)
                requires
                    rhs != 0,
                    i32::MIN <= lhs <= i32::MAX,
                    i32::MIN <= rhs <= i32::MAX,
                    ({
                        let output = if lhs == 0 {
                            0
                        } else if lhs > 0 && rhs > 0 {
                            lhs as int / rhs as int
                        } else if lhs < 0 && rhs < 0 {
                            ((lhs * -1) / (rhs * -1))
                        } else if lhs < 0 {
                            ((lhs * -1) / rhs as int) * -1
                        } else {
                            (lhs as int / (rhs * -1)) * -1
                        };
                        output < i32::MIN || output > i32::MAX
                    }),
            ;
            i32::MIN
        },
    }
}

/// `lhs op rhs` for two integers.
pub fn int_arithmetic(op: Operator, lhs: i32, rhs: i32) -> (out: Value)
    ensures
        out@ == int_arith(op, lhs, rhs),
{
    match op {
        Operator::Plus => Value::Int { v: lhs.wrapping_add(rhs) },
        Operator::Minus => Value::Int { v: lhs.wrapping_sub(rhs) },
        Operator::Times => Value::Int { v: lhs.wrapping_mul(rhs) },
        Operator::Divide => if rhs == 0 {
            Value::Null
        } else {
            Value::Int { v: int_quotient(lhs, rhs) }
        },
        _ => Value::Null,
    }
}

/// `lhs op rhs` for an arithmetic `op`; `Null` where it has no value.
pub fn arithmetic<U: FloatUnit>(unit: &U, op: Operator, lhs: &Value, rhs: &Value) -> (out: Value)
    ensures
        functional(unit) ==> out@ == arith(model_of(unit), op, lhs@, rhs@),
        !is_arithmetic(op) ==> out@ is Null,
        lhs@ is Int && rhs@ is Int ==> out@ == int_arith(op, lhs@->Int_v, rhs@->Int_v),
        is_arithmetic(op) && float_takes_part(lhs@, rhs@) ==> out@ is Float,
        is_arithmetic(op) && !float_takes_part(lhs@, rhs@) && !(lhs@ is Int && rhs@ is Int)
            ==> out@ is Null,
{
    match op {
        Operator::Plus | Operator::Minus | Operator::Times | Operator::Divide => {},
        _ => {
            return Value::Null;
        },
    }
    match (lhs, rhs) {
        (Value::Int { v: a }, Value::Int { v: b }) => int_arithmetic(op, *a, *b),
        (Value::Float { bits: a }, Value::Float { bits: b }) => Value::Float {
            bits: float_arith(unit, op, *a, *b),
        },
        (Value::Int { v }, Value::Float { bits }) => {
            let wide = float_widen(unit, *v);
            Value::Float { bits: float_arith(unit, op, wide, *bits) }
        },
        (Value::Float { bits }, Value::Int { v }) => {
            let wide = float_widen(unit, *v);
            Value::Float { bits: float_arith(unit, op, *bits, wide) }
        },
        _ => Value::Null,
    }
}

impl Value {
    /// Whether the value equals `other`.
    pub fn eq<U: FloatUnit>(&self, other: &Value, unit: &U) -> (out: bool)
        ensures
            functional(unit) ==> out == equal(model_of(unit), self@, other@),
            self@ is Null ==> out == (other@ is Null),
            other@ is Null ==> out == (self@ is Null),
            self@ is List && other@ is List && self@->e.len() != other@->e.len() ==> !out,
        decreases self,
    {
        match (self, other) {
            (Value::Null, Value::Null) => true,
            (Value::Int { v: a }, Value::Int { v: b }) => *a == *b,
            (Value::Str { s: a }, Value::Str { s: b }) => *a == *b,
            (Value::Bool { b: a }, Value::Bool { b }) => *a == *b,
            (Value::Float { bits: a }, Value::Float { bits: b }) => float_compare(
                unit,
                Operator::Equal,
                *a,
                *b,
            ),
            (Value::Char { c: a }, Value::Char { c: b }) => *a == *b,
            (Value::List { e: a }, Value::List { e: b }) => {
                proof {
                    lemma_list_view(*a);
                    lemma_list_view(*b);
                }
                if a.len() != b.len() {
                    return false;
                }
                let mut i: usize = 0;
                while i < a.len()
                    invariant
                        a.len() == b.len(),
                        *a == self->e,
                        self@ == (ValueView::List { e: views(a@) }),
                        other@ == (ValueView::List { e: views(b@) }),
                        functional(unit) ==> forall|k: int|
                            0 <= k < i ==> equal(model_of(unit), #[trigger] views(a@)[k], views(b@)[k]),
                    decreases a.len() - i,
                {
                    assert(decreases_to!(self => self->e[i as int]));
                    if !a[i].eq(&b[i], unit) {
                        proof {
                            if functional(unit) {
                                let m = model_of(unit);
                                assert(views(a@)[i as int] == a[i as int]@);
                                assert(views(b@)[i as int] == b[i as int]@);
                                assert(!equal(m, views(a@)[i as int], views(b@)[i as int]));
                                reveal_with_fuel(equal, 2);
                                if equal(m, self@, other@) {
                                    assert(equal(m, self@->e[i as int], other@->e[i as int]));
                                }
                            }
                        }
                        return false;
                    }
                    i += 1;
                }
                proof {
                    reveal_with_fuel(equal, 2);
                }
                true
            },
            (Value::Float { bits }, Value::Int { v }) => {
                let wide = float_widen(unit, *v);
                float_compare(unit, Operator::Equal, wide, *bits)
            },
            (Value::Int { v }, Value::Float { bits }) => {
                let wide = float_widen(unit, *v);
                float_compare(unit, Operator::Equal, wide, *bits)
            },
            (Value::Function { .. }, Value::Function { .. }) => true,
            (Value::UserDefFunction { .. }, Value::UserDefFunction { .. }) => true,
            (Value::Object { .. }, Value::Object { .. }) => true,
            _ => false,
        }
    }

    /// Whether the value is unequal to `other`.
    pub fn ne<U: FloatUnit>(&self, other: &Value, unit: &U) -> (out: bool)
        ensures
            functional(unit) ==> out == unequal(model_of(unit), self@, other@),
    {
        match (self, other) {
            (Value::Float { bits: a }, Value::Float { bits: b }) => float_compare(
                unit,
                Operator::NotEqual,
                *a,
                *b,
            ),
            (Value::Float { bits }, Value::Int { v }) => {
                let wide = float_widen(unit, *v);
                float_compare(unit, Operator::NotEqual, wide, *bits)
            },
            (Value::Int { v }, Value::Float { bits }) => {
                let wide = float_widen(unit, *v);
                float_compare(unit, Operator::NotEqual, wide, *bits)
            },
            _ => !self.eq(other, unit),
        }
    }

    /// The sum; `Null` where there is none.
    pub fn add<U: FloatUnit>(&self, rhs: &Value, unit: &U) -> (out: Value)
        ensures
            functional(unit) ==> out@ == arith(model_of(unit), Operator::Plus, self@, rhs@),
            self@ is Int && rhs@ is Int ==> out@ == int_arith(
                Operator::Plus,
                self@->Int_v,
                rhs@->Int_v,
            ),
            float_takes_part(self@, rhs@) ==> out@ is Float,
    {
        arithmetic(unit, Operator::Plus, self, rhs)
    }

    /// The difference; `Null` where there is none.
    pub fn sub<U: FloatUnit>(&self, rhs: &Value, unit: &U) -> (out: Value)
        ensures
            functional(unit) ==> out@ == arith(model_of(unit), Operator::Minus, self@, rhs@),
            self@ is Int && rhs@ is Int ==> out@ == int_arith(
                Operator::Minus,
                self@->Int_v,
                rhs@->Int_v,
            ),
            float_takes_part(self@, rhs@) ==> out@ is Float,
    {
        arithmetic(unit, Operator::Minus, self, rhs)
    }

    /// The product; `Null` where there is none.
    pub fn mul<U: FloatUnit>(&self, rhs: &Value, unit: &U) -> (out: Value)
        ensures
            functional(unit) ==> out@ == arith(model_of(unit), Operator::Times, self@, rhs@),
            self@ is Int && rhs@ is Int ==> out@ == int_arith(
                Operator::Times,
                self@->Int_v,
                rhs@->Int_v,
            ),
            float_takes_part(self@, rhs@) ==> out@ is Float,
    {
        arithmetic(unit, Operator::Times, self, rhs)
    }

    /// The quotient; `Null` where there is none.
    pub fn div<U: FloatUnit>(&self, rhs: &Value, unit: &U) -> (out: Value)
        ensures
            functional(unit) ==> out@ == arith(model_of(unit), Operator::Divide, self@, rhs@),
            self@ is Int && rhs@ is Int ==> out@ == int_arith(
                Operator::Divide,
                self@->Int_v,
                rhs@->Int_v,
            ),
            float_takes_part(self@, rhs@) ==> out@ is Float,
    {
        arithmetic(unit, Operator::Divide, self, rhs)
    }

    /// Replaces the value by its sum with `other`.
    pub fn add_assign<U: FloatUnit>(&mut self, other: &Value, unit: &U)
        ensures
            functional(unit) ==> final(self)@ == arith(
                model_of(unit),
                Operator::Plus,
                old(self)@,
                other@,
            ),
            old(self)@ is Int && other@ is Int ==> final(self)@ == int_arith(
                Operator::Plus,
                old(self)@->Int_v,
                other@->Int_v,
            ),
            float_takes_part(old(self)@, other@) ==> final(self)@ is Float,
    {
        let out = arithmetic(unit, Operator::Plus, self, other);
        *self = out;
    }

    /// Replaces the value by its difference with `other`.
    pub fn sub_assign<U: FloatUnit>(&mut self, other: &Value, unit: &U)
        ensures
            functional(unit) ==> final(self)@ == arith(
                model_of(unit),
                Operator::Minus,
                old(self)@,
                other@,
            ),
            old(self)@ is Int && other@ is Int ==> final(self)@ == int_arith(
                Operator::Minus,
                old(self)@->Int_v,
                other@->Int_v,
            ),
            float_takes_part(old(self)@, other@) ==> final(self)@ is Float,
    {
        let out = arithmetic(unit, Operator::Minus, self, other);
        *self = out;
    }

    /// Replaces the value by its product with `other`.
    pub fn mul_assign<U: FloatUnit>(&mut self, other: &Value, unit: &U)
        ensures
            functional(unit) ==> final(self)@ == arith(
                model_of(unit),
                Operator::Times,
                old(self)@,
                other@,
            ),
            old(self)@ is Int && other@ is Int ==> final(self)@ == int_arith(
                Operator::Times,
                old(self)@->Int_v,
                other@->Int_v,
            ),
            float_takes_part(old(self)@, other@) ==> final(self)@ is Float,
    {
        let out = arithmetic(unit, Operator::Times, self, other);
        *self = out;
    }

    /// Replaces the value by its quotient by `other`.
    pub fn div_assign<U: FloatUnit>(&mut self, other: &Value, unit: &U)
        ensures
            functional(unit) ==> final(self)@ == arith(
                model_of(unit),
                Operator::Divide,
                old(self)@,
                other@,
            ),
            old(self)@ is Int && other@ is Int ==> final(self)@ == int_arith(
                Operator::Divide,
                old(self)@->Int_v,
                other@->Int_v,
            ),
            float_takes_part(old(self)@, other@) ==> final(self)@ is Float,
    {
        let out = arithmetic(unit, Operator::Divide, self, other);
        *self = out;
    }
}

} // verus!
