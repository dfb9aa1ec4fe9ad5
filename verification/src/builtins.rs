//! The built-in functions.

use crate::display::display_values;
use crate::display::display_all;
use crate::error::EvalError;
use crate::lookup::range_values;
use crate::runtime::value_result;
use crate::semantics::{call_builtin, range_spec, range_step_spec};
use crate::unit::{functional, model_of, FloatUnit};
use crate::value::{lemma_list_view, views, Builtin, Value, ValueView};
use vstd::prelude::*;
use vstd::string::*;

verus! {

/// The list of the integers from `args[0]` on, each `args[2]` more than
/// the one before, as long as they are less than `args[1]`.
pub fn range_step(args: Vec<Value>) -> (out: Result<Value, EvalError>)
    ensures
        value_result(out) == range_step_spec(views(args@)),
{
    if args.len() < 3 {
        return Err(EvalError::Arity { expected: 3, got: args.len() });
    }
    match (&args[0], &args[1], &args[2]) {
        (Value::Int { v: start }, Value::Int { v: end }, Value::Int { v: step }) => {
            if *step <= 0 {
                return Err(EvalError::InvalidType);
            }
            let mut vals: Vec<Value> = Vec::new();
            let mut x: i64 = *start as i64;
            assert(views(vals@) + range_values(x as int, *end as int, *step as int)
                =~= range_values(*start as int, *end as int, *step as int));
            while x < *end as i64
                invariant
                    *start <= x,
                    x <= 2 * i32::MAX,
                    0 < *step,
                    range_values(*start as int, *end as int, *step as int) == views(vals@)
                        + range_values(x as int, *end as int, *step as int),
                decreases
                        (if x < *end {
                            *end - x
                        } else {
                            0
                        }),
            {
                let ghost before = views(vals@);
                vals.push(Value::Int { v: x as i32 });
                proof {
                    assert(views(vals@) =~= before.push(ValueView::Int { v: x as i32 }));
                    assert(views(vals@) + range_values(x + *step, *end as int, *step as int)
                        =~= before + range_values(x as int, *end as int, *step as int));
                }
                x = x + *step as i64;
            }
            proof {
                lemma_list_view(vals);
                assert(views(vals@) =~= range_values(*start as int, *end as int, *step as int));
            }
            Ok(Value::List { e: vals })
        },
        _ => Err(EvalError::InvalidType),
    }
}

/// The list of the integers from `args[0]` up to, and without, `args[1]`.
pub fn range(args: Vec<Value>) -> (out: Result<Value, EvalError>)
    ensures
        value_result(out) == range_spec(views(args@)),
{
    if args.len() < 2 {
        return Err(EvalError::Arity { expected: 2, got: args.len() });
    }
    let mut vals = args;
    vals.push(Value::Int { v: 1 });
    assert(views(vals@) =~= views(args@).push(ValueView::Int { v: 1 }));
    range_step(vals)
}

/// Appends the printed form of each argument to `out`.
pub fn print_<U: FloatUnit>(unit: &U, args: &Vec<Value>, out: &mut String) -> (r: Result<
    Value,
    EvalError,
>)
    ensures
        r matches Ok(v) && v@ is Null,
        functional(unit) ==> final(out)@ == old(out)@ + display_all(model_of(unit), views(args@)),
{
    let text = display_values(unit, args);
    out.append(text.as_str());
    Ok(Value::Null)
}

/// Appends the printed form of each argument to `out`, and a line feed.
pub fn println_<U: FloatUnit>(unit: &U, args: &Vec<Value>, out: &mut String) -> (r: Result<
    Value,
    EvalError,
>)
    ensures
        r matches Ok(v) && v@ is Null,
        functional(unit) ==> final(out)@ == old(out)@ + display_all(model_of(unit), views(args@))
            + seq!['\n'],
{
    let text = display_values(unit, args);
    out.append(text.as_str());
    proof {
        reveal_strlit("\n");
    }
    out.append("\n");
    assert("\n"@ =~= seq!['\n']);
    Ok(Value::Null)
}

/// Applies the built-in function `f` to `args`.
pub fn apply_builtin<U: FloatUnit>(unit: &U, f: Builtin, args: Vec<Value>, out: &mut String) -> (r:
    Result<Value, EvalError>)
    ensures
        functional(unit) ==> (final(out)@, value_result(r)) == call_builtin(
            model_of(unit),
            f,
            views(args@),
            old(out)@,
        ),
        f == Builtin::Range || f == Builtin::RangeStep ==> final(out)@ == old(out)@,
{
    match f {
        Builtin::Print => print_(unit, &args, out),
        Builtin::Println => println_(unit, &args, out),
        Builtin::Range => range(args),
        Builtin::RangeStep => range_step(args),
    }
}

} // verus!
