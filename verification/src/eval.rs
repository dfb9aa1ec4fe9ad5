//! The evaluators: they walk the syntax tree and do what `semantics` says.
//!
//! Every function here states its result twice over. For a floating-point
//! unit that answers as a function, the bindings, the printed text and the
//! result are exactly those of the function of the same name in
//! `semantics`. For any unit at all: nothing is printed while a module is
//! imported; an expression that binds nothing leaves the bindings as they
//! were; and an assignment to names, which asks the unit nothing, is
//! exactly that of `semantics`.

use crate::ast::{ClassMethod, Expression, IfBranch, ListItem, Program, Statement};
use crate::builtins::apply_builtin;
use crate::env::Environment;
use crate::error::EvalError;
use crate::iterate::items_of;
use crate::lookup::{find_method, find_module};
use crate::order::operate;
use crate::runtime::{reached, texts, unit_result, value_result, values_result, Runtime, World};
use crate::semantics;
use crate::steps::{
    assign_field, bind_field_values, bind_values, carry_over_fields, check_targets, define_class, element_at, instance_fields, is_word, parent_of, read_field, set_element,
};
use crate::unit::{functional, FloatUnit};
use crate::value::{
    lemma_list_view, lemma_object_view, share, views, Builtin, Value, ValueView,
};
use vstd::prelude::*;
use vstd::string::*;

verus! {

/// Runs a program.
pub fn eval_program<U: FloatUnit>(
    rt: &Runtime<U>,
    env: &mut Environment,
    program: &Program,
    importing: bool,
    fuel: u64,
    out: &mut String,
) -> (r: Result<(), EvalError>)
    ensures
        functional(&rt.unit) ==> reached(
            semantics::eval_program(
                rt.setting(),
                importing,
                fuel as nat,
                World { env: old(env)@, out: old(out)@ },
                *program,
            ),
            final(env)@,
            final(out)@,
            unit_result(r),
        ),
        importing ==> final(out)@ == old(out)@,
{
    match program {
        Program::Body { statements } => eval_statements(rt, env, statements, importing, fuel, out),
    }
}

/// Runs statements in order, up to the first that fails.
pub fn eval_statements<U: FloatUnit>(
    rt: &Runtime<U>,
    env: &mut Environment,
    statements: &Vec<Statement>,
    importing: bool,
    fuel: u64,
    out: &mut String,
) -> (r: Result<(), EvalError>)
    ensures
        functional(&rt.unit) ==> reached(
            semantics::eval_statements(
                rt.setting(),
                importing,
                fuel as nat,
                World { env: old(env)@, out: old(out)@ },
                statements@,
                0,
            ),
            final(env)@,
            final(out)@,
            unit_result(r),
        ),
        importing ==> final(out)@ == old(out)@,
    decreases fuel, 1nat, 0nat,
{
    let ghost start = World { env: env@, out: out@ };
    let mut i: usize = 0;
    while i < statements.len()
        invariant
            i <= statements.len(),
            start.env == old(env)@ && start.out == old(out)@,
            importing ==> out@ == start.out,
            functional(&rt.unit) ==> semantics::eval_statements(
                rt.setting(),
                importing,
                fuel as nat,
                start,
                statements@,
                0,
            ) == semantics::eval_statements(
                rt.setting(),
                importing,
                fuel as nat,
                World { env: env@, out: out@ },
                statements@,
                i as nat,
            ),
        decreases statements.len() - i,
    {
        match eval_statement(rt, env, &statements[i], importing, fuel, out) {
            Err(e) => {
                return Err(e);
            },
            Ok(()) => {},
        }
        i += 1;
    }
    Ok(())
}

/// Runs one statement.
pub fn eval_statement<U: FloatUnit>(
    rt: &Runtime<U>,
    env: &mut Environment,
    statement: &Statement,
    importing: bool,
    fuel: u64,
    out: &mut String,
) -> (r: Result<(), EvalError>)
    ensures
        functional(&rt.unit) ==> reached(
            semantics::eval_statement(
                rt.setting(),
                importing,
                fuel as nat,
                World { env: old(env)@, out: old(out)@ },
                *statement,
            ),
            final(env)@,
            final(out)@,
            unit_result(r),
        ),
        importing || statement is Import ==> final(out)@ == old(out)@,
    decreases fuel, 0nat, 0nat,
{
    if fuel == 0 {
        return Err(EvalError::Exhausted);
    }
    let f = fuel - 1;
    match statement {
        Statement::Import { path } => match find_module(&rt.modules, path) {
            None => Err(EvalError::Unloaded { path: path.clone() }),
            Some(k) => match &rt.modules[k].program {
                None => Err(EvalError::Import { path: rt.modules[k].tried.clone() }),
                Some(program) => match program {
                    Program::Body { statements } => eval_statements(
                        rt,
                        env,
                        statements,
                        true,
                        f,
                        out,
                    ),
                },
            },
        },
        Statement::Expression { expression } => {
            match eval_expression(rt, env, expression, importing, f, out) {
                Ok(_) => Ok(()),
                Err(e) => Err(e),
            }
        },
        Statement::Assignment { lhs, rhs } => {
            match eval_expression(rt, env, rhs, importing, f, out) {
                Err(e) => Err(e),
                Ok(v) => assign(rt, env, lhs, v, importing, f, out),
            }
        },
        Statement::OperatorAssignment { name, operator, rhs } => {
            let lhs = match env.get(name) {
                Some(v) => v.clone(),
                None => {
                    return Err(EvalError::Undefined { name: name.clone() });
                },
            };
            let rv = match eval_expression(rt, env, rhs, importing, f, out) {
                Ok(v) => v,
                Err(e) => {
                    return Err(e);
                },
            };
            match operate(&rt.unit, operator, &lhs, &rv) {
                Err(e) => Err(e),
                Ok(v) => {
                    if matches!(v, Value::Null) {
                        return Err(EvalError::CannotOperate { name: name.clone() });
                    }
                    env.insert(name.clone(), v);
                    Ok(())
                },
            }
        },
        Statement::If { params } => if_chain(rt, env, params, importing, f, out),
        Statement::While { condition, statements } => while_rounds(
            rt,
            env,
            condition,
            statements,
            fuel,
            importing,
            f,
            out,
        ),
        Statement::For { params } => match &params.iterate_expression {
            Expression::List { .. } | Expression::Identifier { .. } | Expression::Call { .. } => {
                match eval_expression(rt, env, &params.iterate_expression, importing, f, out) {
                    Err(e) => Err(e),
                    Ok(v) => match v {
                        Value::List { e } => {
                            proof {
                                lemma_list_view(e);
                            }
                            for_each(
                                rt,
                                env,
                                &params.loop_var,
                                &params.statements,
                                &e,
                                importing,
                                f,
                                out,
                            )
                        },
                        _ => Err(EvalError::InvalidType),
                    },
                }
            },
            _ => Err(EvalError::NotIterable),
        },
        Statement::FunctionDefinition { name, arguments, statements, return_expression } => {
            if env.contains(name) {
                return Err(EvalError::AlreadyDefined { name: name.clone() });
            }
            env.insert(
                name.clone(),
                Value::UserDefFunction {
                    name: name.clone(),
                    statements: share(statements),
                    arguments: share(arguments),
                    return_expression: share(return_expression),
                },
            );
            Ok(())
        },
    }
}

/// Runs an `if` with its `elif` arms and its `else`.
pub fn if_chain<U: FloatUnit>(
    rt: &Runtime<U>,
    env: &mut Environment,
    params: &IfBranch,
    importing: bool,
    fuel: u64,
    out: &mut String,
) -> (r: Result<(), EvalError>)
    ensures
        functional(&rt.unit) ==> reached(
            semantics::if_chain(
                rt.setting(),
                importing,
                fuel as nat,
                World { env: old(env)@, out: old(out)@ },
                *params,
                0,
            ),
            final(env)@,
            final(out)@,
            unit_result(r),
        ),
        importing ==> final(out)@ == old(out)@,
    decreases fuel, 2nat, 0nat,
{
    let conditions = &params.elif_data.0;
    let bodies = &params.elif_data.1;
    match eval_expression(rt, env, &params.condition, importing, fuel, out) {
        Err(e) => {
            return Err(e);
        },
        Ok(v) => match v {
            Value::Bool { b } => {
                if b {
                    return eval_statements(rt, env, &params.statements, importing, fuel, out);
                }
            },
            _ => {
                return Err(EvalError::ConditionNotBool);
            },
        },
    }
    let ghost start = World { env: old(env)@, out: old(out)@ };
    let mut j: usize = 0;
    while j < conditions.len()
        invariant
            j <= conditions.len(),
            *conditions == params.elif_data.0,
            *bodies == params.elif_data.1,
            start.env == old(env)@ && start.out == old(out)@,
            importing ==> out@ == start.out,
            functional(&rt.unit) ==> semantics::if_chain(
                rt.setting(),
                importing,
                fuel as nat,
                start,
                *params,
                0,
            ) == semantics::if_chain(
                rt.setting(),
                importing,
                fuel as nat,
                World { env: env@, out: out@ },
                *params,
                (j + 1) as nat,
            ),
        decreases conditions.len() - j,
    {
        match eval_expression(rt, env, &conditions[j], importing, fuel, out) {
            Err(e) => {
                return Err(e);
            },
            Ok(v) => match v {
                Value::Bool { b } => {
                    if b {
                        if j < bodies.len() {
                            return eval_statements(rt, env, &bodies[j], importing, fuel, out);
                        } else {
                            assert(semantics::eval_statements(
                                rt.setting(),
                                importing,
                                fuel as nat,
                                World { env: env@, out: out@ },
                                Seq::empty(),
                                0,
                            ) == crate::runtime::done(World { env: env@, out: out@ }, ()));
                            return Ok(());
                        }
                    }
                },
                _ => {
                    return Err(EvalError::ConditionNotBool);
                },
            },
        }
        j += 1;
    }
    match &params.else_statements {
        Some(body) => eval_statements(rt, env, body, importing, fuel, out),
        None => Ok(()),
    }
}

/// Runs a `while` loop for at most `rounds` rounds.
pub fn while_rounds<U: FloatUnit>(
    rt: &Runtime<U>,
    env: &mut Environment,
    condition: &Expression,
    body: &Vec<Statement>,
    rounds: u64,
    importing: bool,
    fuel: u64,
    out: &mut String,
) -> (r: Result<(), EvalError>)
    ensures
        functional(&rt.unit) ==> reached(
            semantics::while_rounds(
                rt.setting(),
                importing,
                fuel as nat,
                World { env: old(env)@, out: old(out)@ },
                *condition,
                body@,
                rounds as nat,
            ),
            final(env)@,
            final(out)@,
            unit_result(r),
        ),
        importing ==> final(out)@ == old(out)@,
    decreases fuel, 2nat, 0nat,
{
    let ghost start = World { env: env@, out: out@ };
    let mut left: u64 = rounds;
    while left > 0
        invariant
            start.env == old(env)@ && start.out == old(out)@,
            importing ==> out@ == start.out,
            functional(&rt.unit) ==> semantics::while_rounds(
                rt.setting(),
                importing,
                fuel as nat,
                start,
                *condition,
                body@,
                rounds as nat,
            ) == semantics::while_rounds(
                rt.setting(),
                importing,
                fuel as nat,
                World { env: env@, out: out@ },
                *condition,
                body@,
                left as nat,
            ),
        decreases left,
    {
        match eval_expression(rt, env, condition, importing, fuel, out) {
            Err(e) => {
                return Err(e);
            },
            Ok(v) => match v {
                Value::Bool { b } => {
                    if !b {
                        return Ok(());
                    }
                },
                _ => {
                    return Err(EvalError::ConditionNotBool);
                },
            },
        }
        match eval_statements(rt, env, body, importing, fuel, out) {
            Err(e) => {
                return Err(e);
            },
            Ok(()) => {},
        }
        left -= 1;
    }
    Err(EvalError::Exhausted)
}

/// Runs the body of a `for` loop once for each item, with the item bound to `var`.
pub fn for_each<U: FloatUnit>(
    rt: &Runtime<U>,
    env: &mut Environment,
    var: &String,
    body: &Vec<Statement>,
    items: &Vec<Value>,
    importing: bool,
    fuel: u64,
    out: &mut String,
) -> (r: Result<(), EvalError>)
    ensures
        functional(&rt.unit) ==> reached(
            semantics::for_each(
                rt.setting(),
                importing,
                fuel as nat,
                World { env: old(env)@, out: old(out)@ },
                var@,
                body@,
                views(items@),
                0,
            ),
            final(env)@,
            final(out)@,
            unit_result(r),
        ),
        importing ==> final(out)@ == old(out)@,
    decreases fuel, 2nat, 0nat,
{
    let ghost start = World { env: env@, out: out@ };
    let mut i: usize = 0;
    while i < items.len()
        invariant
            i <= items.len(),
            start.env == old(env)@ && start.out == old(out)@,
            importing ==> out@ == start.out,
            functional(&rt.unit) ==> semantics::for_each(
                rt.setting(),
                importing,
                fuel as nat,
                start,
                var@,
                body@,
                views(items@),
                0,
            ) == semantics::for_each(
                rt.setting(),
                importing,
                fuel as nat,
                World { env: env@, out: out@ },
                var@,
                body@,
                views(items@),
                i as nat,
            ),
        decreases items.len() - i,
    {
        env.insert(var.clone(), items[i].clone());
        match eval_statements(rt, env, body, importing, fuel, out) {
            Err(e) => {
                return Err(e);
            },
            Ok(()) => {},
        }
        i += 1;
    }
    Ok(())
}

/// Evaluates expressions in order.
pub fn eval_expressions<U: FloatUnit>(
    rt: &Runtime<U>,
    env: &mut Environment,
    expressions: &Vec<Expression>,
    importing: bool,
    fuel: u64,
    out: &mut String,
) -> (r: Result<Vec<Value>, EvalError>)
    ensures
        functional(&rt.unit) ==> reached(
            semantics::eval_expressions(
                rt.setting(),
                importing,
                fuel as nat,
                World { env: old(env)@, out: old(out)@ },
                expressions@,
                0,
                Seq::empty(),
            ),
            final(env)@,
            final(out)@,
            values_result(r),
        ),
        importing ==> final(out)@ == old(out)@,
        semantics::all_bind_nothing(expressions@) ==> final(env)@ == old(env)@,
    decreases fuel, 1nat, 0nat,
{
    let ghost start = World { env: env@, out: out@ };
    let mut vals: Vec<Value> = Vec::new();
    let mut i: usize = 0;
    assert(views(vals@) =~= Seq::<ValueView>::empty());
    while i < expressions.len()
        invariant
            i <= expressions.len(),
            semantics::all_bind_nothing(expressions@) ==> env@ == start.env,
            start.env == old(env)@ && start.out == old(out)@,
            importing ==> out@ == start.out,
            functional(&rt.unit) ==> semantics::eval_expressions(
                rt.setting(),
                importing,
                fuel as nat,
                start,
                expressions@,
                0,
                Seq::empty(),
            ) == semantics::eval_expressions(
                rt.setting(),
                importing,
                fuel as nat,
                World { env: env@, out: out@ },
                expressions@,
                i as nat,
                views(vals@),
            ),
        decreases expressions.len() - i,
    {
        match eval_expression(rt, env, &expressions[i], importing, fuel, out) {
            Err(e) => {
                return Err(e);
            },
            Ok(v) => {
                let ghost before = views(vals@);
                vals.push(v);
                assert(views(vals@) =~= before.push(v@));
            },
        }
        i += 1;
    }
    Ok(vals)
}

/// Evaluates the items of a list literal in order.
pub fn list_items<U: FloatUnit>(
    rt: &Runtime<U>,
    env: &mut Environment,
    items: &Vec<ListItem>,
    importing: bool,
    fuel: u64,
    out: &mut String,
) -> (r: Result<Vec<Value>, EvalError>)
    ensures
        functional(&rt.unit) ==> reached(
            semantics::list_items(
                rt.setting(),
                importing,
                fuel as nat,
                World { env: old(env)@, out: old(out)@ },
                items@,
                0,
                Seq::empty(),
            ),
            final(env)@,
            final(out)@,
            values_result(r),
        ),
        importing ==> final(out)@ == old(out)@,
        semantics::items_bind_nothing(items@) ==> final(env)@ == old(env)@,
    decreases fuel, 1nat, 0nat,
{
    let ghost start = World { env: env@, out: out@ };
    let mut vals: Vec<Value> = Vec::new();
    let mut i: usize = 0;
    assert(views(vals@) =~= Seq::<ValueView>::empty());
    while i < items.len()
        invariant
            i <= items.len(),
            semantics::items_bind_nothing(items@) ==> env@ == start.env,
            start.env == old(env)@ && start.out == old(out)@,
            importing ==> out@ == start.out,
            functional(&rt.unit) ==> semantics::list_items(
                rt.setting(),
                importing,
                fuel as nat,
                start,
                items@,
                0,
                Seq::empty(),
            ) == semantics::list_items(
                rt.setting(),
                importing,
                fuel as nat,
                World { env: env@, out: out@ },
                items@,
                i as nat,
                views(vals@),
            ),
        decreases items.len() - i,
    {
        let v = match eval_expression(rt, env, &items[i].expression, importing, fuel, out) {
            Err(e) => {
                return Err(e);
            },
            Ok(v) => v,
        };
        let ghost before = views(vals@);
        if !items[i].is_spread {
            vals.push(v);
            assert(views(vals@) =~= before.push(v@));
        } else {
            match v {
                Value::List { e } => {
                    proof {
                        lemma_list_view(e);
                    }
                    let mut e = e;
                    let ghost spread = views(e@);
                    vals.append(&mut e);
                    assert(views(vals@) =~= before + spread);
                },
                _ => {
                    return Err(EvalError::SpreadNonList);
                },
            }
        }
        i += 1;
    }
    Ok(vals)
}

/// Evaluates the body of a comprehension once for each item, with the item bound to `var`.
pub fn comprehend<U: FloatUnit>(
    rt: &Runtime<U>,
    env: &mut Environment,
    body: &Expression,
    var: &String,
    items: &Vec<Value>,
    importing: bool,
    fuel: u64,
    out: &mut String,
) -> (r: Result<Vec<Value>, EvalError>)
    ensures
        functional(&rt.unit) ==> reached(
            semantics::comprehend(
                rt.setting(),
                importing,
                fuel as nat,
                World { env: old(env)@, out: old(out)@ },
                *body,
                var@,
                views(items@),
                0,
                Seq::empty(),
            ),
            final(env)@,
            final(out)@,
            values_result(r),
        ),
        importing ==> final(out)@ == old(out)@,
    decreases fuel, 1nat, 0nat,
{
    let ghost start = World { env: env@, out: out@ };
    let mut vals: Vec<Value> = Vec::new();
    let mut i: usize = 0;
    assert(views(vals@) =~= Seq::<ValueView>::empty());
    while i < items.len()
        invariant
            i <= items.len(),
            start.env == old(env)@ && start.out == old(out)@,
            importing ==> out@ == start.out,
            functional(&rt.unit) ==> semantics::comprehend(
                rt.setting(),
                importing,
                fuel as nat,
                start,
                *body,
                var@,
                views(items@),
                0,
                Seq::empty(),
            ) == semantics::comprehend(
                rt.setting(),
                importing,
                fuel as nat,
                World { env: env@, out: out@ },
                *body,
                var@,
                views(items@),
                i as nat,
                views(vals@),
            ),
        decreases items.len() - i,
    {
        env.insert(var.clone(), items[i].clone());
        match eval_expression(rt, env, body, importing, fuel, out) {
            Err(e) => {
                return Err(e);
            },
            Ok(v) => {
                let ghost before = views(vals@);
                vals.push(v);
                assert(views(vals@) =~= before.push(v@));
            },
        }
        i += 1;
    }
    Ok(vals)
}

/// Evaluates the arguments of a constructor or method on a copy of the
/// caller's bindings, and binds each in `local` under its parameter's name.
pub fn bind_arguments<U: FloatUnit>(
    rt: &Runtime<U>,
    env: &Environment,
    local: &mut Environment,
    params: &Vec<String>,
    arguments: &Vec<Expression>,
    shared: bool,
    importing: bool,
    fuel: u64,
    out: &mut String,
) -> (r: Result<(), EvalError>)
    ensures
        functional(&rt.unit) ==> ({
            let o = semantics::bind_arguments(
                rt.setting(),
                importing,
                fuel as nat,
                World { env: env@, out: old(out)@ },
                old(local)@,
                texts(params@),
                arguments@,
                0,
                shared,
            );
            &&& final(out)@ == o.world.out
            &&& match o.result {
                Ok(bound) => r is Ok && final(local)@ == bound,
                Err(e) => r matches Err(x) && x@ == e,
            }
        }),
        importing ==> final(out)@ == old(out)@,
    decreases fuel, 1nat, 0nat,
{
    let ghost start = World { env: env@, out: out@ };
    let ghost first = local@;
    let mut scratch = env.clone();
    let mut i: usize = 0;
    while i < arguments.len() && i < params.len()
        invariant
            start.env == env@ && start.out == old(out)@,
            first == old(local)@,
            importing ==> out@ == start.out,
            shared || scratch@ == env@,
            functional(&rt.unit) ==> semantics::bind_arguments(
                rt.setting(),
                importing,
                fuel as nat,
                start,
                first,
                texts(params@),
                arguments@,
                0,
                shared,
            ) == semantics::bind_arguments(
                rt.setting(),
                importing,
                fuel as nat,
                World { env: scratch@, out: out@ },
                local@,
                texts(params@),
                arguments@,
                i as nat,
                shared,
            ),
        decreases arguments.len() - i,
    {
        match eval_expression(rt, &mut scratch, &arguments[i], importing, fuel, out) {
            Err(e) => {
                return Err(e);
            },
            Ok(v) => {
                local.insert(params[i].clone(), v);
            },
        }
        if !shared {
            scratch = env.clone();
        }
        i += 1;
    }
    Ok(())
}

/// Runs the body of a method on its own bindings, then its return expression.
pub fn run_method<U: FloatUnit>(
    rt: &Runtime<U>,
    local: &mut Environment,
    method: &ClassMethod,
    importing: bool,
    fuel: u64,
    out: &mut String,
) -> (r: Result<Value, EvalError>)
    ensures
        functional(&rt.unit) ==> (forall|caller: Map<Seq<char>, ValueView>|
            reached(
                #[trigger] semantics::run_method(
                    rt.setting(),
                    importing,
                    fuel as nat,
                    World { env: caller, out: old(out)@ },
                    old(local)@,
                    *method,
                ),
                caller,
                final(out)@,
                value_result(r),
            )),
        importing ==> final(out)@ == old(out)@,
    decreases fuel, 2nat, 0nat,
{
    match eval_statements(rt, local, &method.statements, importing, fuel, out) {
        Err(e) => {
            return Err(e);
        },
        Ok(()) => {},
    }
    match &method.return_exp {
        None => Ok(Value::Null),
        Some(e) => eval_expression(rt, local, e, importing, fuel, out),
    }
}

/// Calls a method of an object.
pub fn call_method<U: FloatUnit>(
    rt: &Runtime<U>,
    env: &mut Environment,
    name: &String,
    method: &String,
    arguments: &Vec<Expression>,
    importing: bool,
    fuel: u64,
    out: &mut String,
) -> (r: Result<Value, EvalError>)
    ensures
        functional(&rt.unit) ==> reached(
            semantics::call_method(
                rt.setting(),
                importing,
                fuel as nat,
                World { env: old(env)@, out: old(out)@ },
                name@,
                method@,
                arguments@,
            ),
            final(env)@,
            final(out)@,
            value_result(r),
        ),
        final(env)@ == old(env)@,
        importing ==> final(out)@ == old(out)@,
    decreases fuel, 2nat, 1nat,
{
    let through_super = is_word(name, "super");
    let object = match env.get(name) {
        None => {
            if through_super {
                return Err(EvalError::NoParent);
            }
            return Err(EvalError::Undefined { name: name.clone() });
        },
        Some(v) => v.clone(),
    };
    match &object {
        Value::Object { name: class, fields, init, methods, parent_class } => {
            proof {
                lemma_object_view(*class, *fields, *init, *methods, *parent_class);
            }
            let table: &Vec<(String, ClassMethod)> = &**methods;
            let any = through_super || is_word(name, "this");
            let k = match find_method(table, method, any) {
                None => {
                    return Err(EvalError::NoSuchMethod { method: method.clone() });
                },
                Some(k) => k,
            };
            let md = &table[k].1;
            if arguments.len() != md.arguments.len() {
                return Err(
                    EvalError::Arity { expected: md.arguments.len(), got: arguments.len() },
                );
            }
            let mut local = Environment::new();
            if through_super {
                match bind_arguments(
                    rt,
                    env,
                    &mut local,
                    &md.arguments,
                    arguments,
                    false,
                    importing,
                    fuel,
                    out,
                ) {
                    Err(e) => {
                        return Err(e);
                    },
                    Ok(()) => {},
                }
                match carry_over_fields(env, &mut local, fields) {
                    Err(e) => {
                        return Err(e);
                    },
                    Ok(()) => {},
                }
                local.insert_builtins();
            } else {
                local.insert_builtins();
                local.insert(String::from_str("this"), object.clone());
                match bind_arguments(
                    rt,
                    env,
                    &mut local,
                    &md.arguments,
                    arguments,
                    true,
                    importing,
                    fuel,
                    out,
                ) {
                    Err(e) => {
                        return Err(e);
                    },
                    Ok(()) => {},
                }
                bind_field_values(&mut local, fields);
            }
            run_method(rt, &mut local, md, importing, fuel, out)
        },
        _ => Err(EvalError::NotAnObject { name: name.clone() }),
    }
}

/// Makes an instance of a class.
pub fn create_object<U: FloatUnit>(
    rt: &Runtime<U>,
    env: &mut Environment,
    class_name: &String,
    arguments: &Vec<Expression>,
    importing: bool,
    fuel: u64,
    out: &mut String,
) -> (r: Result<Value, EvalError>)
    ensures
        functional(&rt.unit) ==> reached(
            semantics::create_object(
                rt.setting(),
                importing,
                fuel as nat,
                World { env: old(env)@, out: old(out)@ },
                class_name@,
                arguments@,
            ),
            final(env)@,
            final(out)@,
            value_result(r),
        ),
        final(env)@ == old(env)@,
        importing ==> final(out)@ == old(out)@,
    decreases fuel, 2nat, 0nat,
{
    let class = match env.get(class_name) {
        None => {
            return Err(EvalError::Undefined { name: class_name.clone() });
        },
        Some(v) => v.clone(),
    };
    match class {
        Value::Object { name, fields, init, methods, parent_class } => {
            proof {
                lemma_object_view(name, fields, init, methods, parent_class);
            }
            if init.name.is_none() {
                return Ok(Value::Object { name, fields, init, methods, parent_class });
            }
            let none: Vec<String> = Vec::new();
            let params = match &init.arguments {
                Some(a) => a,
                None => &none,
            };
            assert(texts(none@) =~= Seq::<Seq<char>>::empty());
            let parent = match parent_of(env, &parent_class) {
                Err(e) => {
                    return Err(e);
                },
                Ok(p) => p,
            };
            if params.len() != arguments.len() {
                return Err(EvalError::Arity { expected: params.len(), got: arguments.len() });
            }
            let mut local = Environment::new();
            match &parent {
                Some(p) => {
                    local.insert(String::from_str("super"), p.clone());
                },
                None => {},
            }
            match bind_arguments(rt, env, &mut local, params, arguments, false, importing, fuel, out) {
                Err(e) => {
                    return Err(e);
                },
                Ok(()) => {},
            }
            bind_field_values(&mut local, &fields);
            match &init.statements {
                Some(body) => {
                    match eval_statements(rt, &mut local, body, importing, fuel, out) {
                        Err(e) => {
                            return Err(e);
                        },
                        Ok(()) => {},
                    }
                },
                None => {},
            }
            match instance_fields(&local, &fields, &parent) {
                Err(e) => Err(e),
                Ok(all) => {
                    proof {
                        lemma_object_view(name, all, init, methods, parent_class);
                    }
                    Ok(Value::Object { name, fields: all, init, methods, parent_class })
                },
            }
        },
        _ => Err(EvalError::NotAnObject { name: class_name.clone() }),
    }
}

/// Calls a function by name.
pub fn eval_call<U: FloatUnit>(
    rt: &Runtime<U>,
    env: &mut Environment,
    function: &String,
    arguments: &Vec<Expression>,
    importing: bool,
    fuel: u64,
    out: &mut String,
) -> (r: Result<Value, EvalError>)
    ensures
        functional(&rt.unit) ==> reached(
            semantics::eval_call(
                rt.setting(),
                importing,
                fuel as nat,
                World { env: old(env)@, out: old(out)@ },
                function@,
                arguments@,
            ),
            final(env)@,
            final(out)@,
            value_result(r),
        ),
        importing ==> final(out)@ == old(out)@,
        semantics::all_bind_nothing(arguments@) && (function@ != "super"@ || !(old(
            env,
        )@.contains_key(function@) && old(env)@[function@] is Object)) ==> final(env)@ == old(
            env,
        )@,
    decreases fuel, 3nat, 0nat,
{
    let vals = match eval_expressions(rt, env, arguments, importing, fuel, out) {
        Err(e) => {
            return Err(e);
        },
        Ok(vals) => vals,
    };
    let callee = match env.get(function) {
        None => {
            return Err(EvalError::Undefined { name: function.clone() });
        },
        Some(v) => v.clone(),
    };
    match callee {
        Value::Function { f, .. } => {
            if importing && (matches!(f, Builtin::Print) || matches!(f, Builtin::Println)) {
                return Ok(Value::Null);
            }
            apply_builtin(&rt.unit, f, vals, out)
        },
        Value::UserDefFunction { statements, arguments: params, return_expression, .. } => {
            let names: &Vec<String> = &*params;
            if vals.len() != names.len() {
                return Err(EvalError::Arity { expected: names.len(), got: vals.len() });
            }
            let mut local = env.clone();
            bind_values(&mut local, names, &vals);
            match eval_statements(rt, &mut local, &*statements, importing, fuel, out) {
                Err(e) => {
                    return Err(e);
                },
                Ok(()) => {},
            }
            match &*return_expression {
                None => Ok(Value::Null),
                Some(e) => {
                    let mut scratch = env.clone();
                    eval_expression(rt, &mut scratch, e, importing, fuel, out)
                },
            }
        },
        Value::Object { .. } => {
            if !is_word(function, "super") {
                return Err(EvalError::NotAFunction { name: function.clone() });
            }
            match create_object(rt, env, function, arguments, importing, fuel, out) {
                Err(e) => Err(e),
                Ok(instance) => match instance {
                    Value::Object { name, fields, init, methods, parent_class } => {
                        proof {
                            lemma_object_view(name, fields, init, methods, parent_class);
                        }
                        bind_field_values(env, &fields);
                        Ok(Value::Null)
                    },
                    _ => Err(EvalError::NotAnObject { name: function.clone() }),
                },
            }
        },
        _ => Err(EvalError::NotAFunction { name: function.clone() }),
    }
}

/// Evaluates an expression.
pub fn eval_expression<U: FloatUnit>(
    rt: &Runtime<U>,
    env: &mut Environment,
    expression: &Expression,
    importing: bool,
    fuel: u64,
    out: &mut String,
) -> (r: Result<Value, EvalError>)
    ensures
        functional(&rt.unit) ==> reached(
            semantics::eval_expression(
                rt.setting(),
                importing,
                fuel as nat,
                World { env: old(env)@, out: old(out)@ },
                *expression,
            ),
            final(env)@,
            final(out)@,
            value_result(r),
        ),
        importing ==> final(out)@ == old(out)@,
        semantics::binds_nothing(*expression) ==> final(env)@ == old(env)@,
    decreases fuel, 0nat, 0nat,
{
    if fuel == 0 {
        return Err(EvalError::Exhausted);
    }
    let f = fuel - 1;
    proof {
        reveal_with_fuel(semantics::binds_nothing, 2);
    }
    match expression {
        Expression::Int { v } => Ok(Value::Int { v: *v }),
        Expression::String { s } => Ok(Value::Str { s: s.clone() }),
        Expression::Boolean { b } => Ok(Value::Bool { b: *b }),
        Expression::Float { bits } => Ok(Value::Float { bits: *bits }),
        Expression::Character { c } => Ok(Value::Char { c: *c }),
        Expression::Identifier { name } => match env.get(name) {
            Some(v) => Ok(v.clone()),
            None => Err(EvalError::Undefined { name: name.clone() }),
        },
        Expression::Call { function, arguments } => eval_call(
            rt,
            env,
            function,
            arguments,
            importing,
            f,
            out,
        ),
        Expression::Operation { lhs, rhs, operator } => {
            let lv = match eval_expression(rt, env, &**lhs, importing, f, out) {
                Err(e) => {
                    return Err(e);
                },
                Ok(v) => v,
            };
            let rv = match eval_expression(rt, env, &**rhs, importing, f, out) {
                Err(e) => {
                    return Err(e);
                },
                Ok(v) => v,
            };
            match operate(&rt.unit, operator, &lv, &rv) {
                Err(e) => Err(e),
                Ok(v) => {
                    if matches!(v, Value::Null) {
                        return Err(EvalError::InvalidOperation);
                    }
                    Ok(v)
                },
            }
        },
        Expression::List { items } => match list_items(rt, env, items, importing, f, out) {
            Err(e) => Err(e),
            Ok(vals) => {
                proof {
                    lemma_list_view(vals);
                }
                Ok(Value::List { e: vals })
            },
        },
        Expression::Prefix { name, operator, rhs } => {
            let lhs = match env.get(name) {
                Some(v) => v.clone(),
                None => {
                    return Err(EvalError::Undefined { name: name.clone() });
                },
            };
            let v = match eval_expression(rt, env, &**rhs, importing, f, out) {
                Err(e) => {
                    return Err(e);
                },
                Ok(v) => v,
            };
            match operate(&rt.unit, operator, &lhs, &v) {
                Err(e) => Err(e),
                Ok(nv) => {
                    if matches!(nv, Value::Null) {
                        return Err(EvalError::CannotOperate { name: name.clone() });
                    }
                    env.insert(name.clone(), nv.clone());
                    Ok(nv)
                },
            }
        },
        Expression::Index { name, idx_exp } => {
            let var = match env.get(name) {
                Some(v) => v.clone(),
                None => {
                    return Err(EvalError::Undefined { name: name.clone() });
                },
            };
            let mut scratch = env.clone();
            match eval_expression(rt, &mut scratch, &**idx_exp, importing, f, out) {
                Err(e) => Err(e),
                Ok(iv) => match iv {
                    Value::Int { v: idx } => element_at(var, idx),
                    _ => Err(EvalError::IndexNotInt),
                },
            }
        },
        Expression::Comprehension { iterate_exp, var, control_exp } => {
            let mut local = env.clone();
            let control = match eval_expression(rt, &mut local, &**control_exp, importing, f, out) {
                Err(e) => {
                    return Err(e);
                },
                Ok(v) => v,
            };
            match items_of(&control) {
                None => Err(EvalError::NotIterable),
                Some(items) => {
                    match comprehend(rt, &mut local, &**iterate_exp, var, &items, importing, f, out) {
                        Err(e) => Err(e),
                        Ok(vals) => {
                            proof {
                                lemma_list_view(vals);
                            }
                            Ok(Value::List { e: vals })
                        },
                    }
                },
            }
        },
        Expression::ClassDef { params } => define_class(rt, env, &**params),
        Expression::FieldAccess { name, field } => read_field(env, name, field),
        Expression::ObjectCreation { class_name, arguments } => create_object(
            rt,
            env,
            class_name,
            arguments,
            importing,
            f,
            out,
        ),
        Expression::MethodCall { name, method, arguments } => call_method(
            rt,
            env,
            name,
            method,
            arguments,
            importing,
            f,
            out,
        ),
    }
}

/// Assigns a value to the place that an expression denotes.
pub fn assign<U: FloatUnit>(
    rt: &Runtime<U>,
    env: &mut Environment,
    lhs: &Expression,
    rhs: Value,
    importing: bool,
    fuel: u64,
    out: &mut String,
) -> (r: Result<(), EvalError>)
    ensures
        functional(&rt.unit) || lhs is Identifier ==> reached(
            semantics::assign(
                rt.setting(),
                importing,
                fuel as nat,
                World { env: old(env)@, out: old(out)@ },
                *lhs,
                rhs@,
            ),
            final(env)@,
            final(out)@,
            unit_result(r),
        ),
        importing ==> final(out)@ == old(out)@,
    decreases fuel, 0nat, 0nat,
{
    if fuel == 0 {
        return Err(EvalError::Exhausted);
    }
    let f = fuel - 1;
    match lhs {
        Expression::Identifier { name } => {
            if is_word(name, "_") {
                return Ok(());
            }
            env.insert(name.clone(), rhs);
            Ok(())
        },
        Expression::List { items } => match rhs {
            Value::List { e } => {
                proof {
                    lemma_list_view(e);
                }
                assign_list(rt, env, items, e, importing, f, out)
            },
            _ => Err(EvalError::NotAList),
        },
        Expression::Index { name, idx_exp } => {
            let var = match env.get(name) {
                Some(v) => v.clone(),
                None => {
                    return Err(EvalError::Undefined { name: name.clone() });
                },
            };
            let mut scratch = env.clone();
            let iv = match eval_expression(rt, &mut scratch, &**idx_exp, importing, f, out) {
                Err(e) => {
                    return Err(e);
                },
                Ok(v) => v,
            };
            match var {
                Value::List { e } => {
                    proof {
                        lemma_list_view(e);
                    }
                    match iv {
                        Value::Int { v: idx } => match set_element(&e, idx, rhs) {
                            Err(e) => Err(e),
                            Ok(items) => {
                                proof {
                                    lemma_list_view(items);
                                }
                                env.insert(name.clone(), Value::List { e: items });
                                Ok(())
                            },
                        },
                        _ => Err(EvalError::IndexNotInt),
                    }
                },
                Value::Str { .. } => Err(EvalError::CannotAssign),
                _ => Err(EvalError::NotIndexable),
            }
        },
        Expression::FieldAccess { name, field } => assign_field(env, name, field, rhs),
        _ => Err(EvalError::CannotAssign),
    }
}

/// The values from place `from` on.
fn tail_values(values: &Vec<Value>, from: usize) -> (out: Vec<Value>)
    requires
        from <= values.len(),
    ensures
        views(out@) == views(values@).subrange(from as int, values.len() as int),
{
    let mut out: Vec<Value> = Vec::new();
    let mut i: usize = from;
    while i < values.len()
        invariant
            from <= i <= values.len(),
            out.len() == i - from,
            forall|k: int| 0 <= k < out.len() ==> out[k]@ == values[from + k]@,
        decreases values.len() - i,
    {
        out.push(values[i].clone());
        i += 1;
    }
    assert(views(out@) =~= views(values@).subrange(from as int, values.len() as int));
    out
}

/// The value that target `k` of `targets` takes.
fn target_value(values: &Vec<Value>, targets: usize, k: usize) -> (out: Value)
    requires
        k < targets <= values.len(),
    ensures
        out@ == semantics::target_value(views(values@), targets as nat, k as int),
{
    if k == targets - 1 && targets < values.len() {
        let rest = tail_values(values, k);
        proof {
            lemma_list_view(rest);
        }
        Value::List { e: rest }
    } else {
        values[k].clone()
    }
}

/// Assigns a list to a list pattern.
pub fn assign_list<U: FloatUnit>(
    rt: &Runtime<U>,
    env: &mut Environment,
    lhs: &Vec<ListItem>,
    rhs: Vec<Value>,
    importing: bool,
    fuel: u64,
    out: &mut String,
) -> (r: Result<(), EvalError>)
    ensures
        functional(&rt.unit) || semantics::names_only(lhs@) || !semantics::fits(
            lhs@,
            rhs.len() as nat,
        ) ==> reached(
            semantics::assign_list(
                rt.setting(),
                importing,
                fuel as nat,
                World { env: old(env)@, out: old(out)@ },
                lhs@,
                views(rhs@),
            ),
            final(env)@,
            final(out)@,
            unit_result(r),
        ),
        importing ==> final(out)@ == old(out)@,
    decreases fuel, 2nat, 0nat,
{
    if lhs.len() > rhs.len() || (lhs.len() == 0 && rhs.len() > 0) {
        return Err(EvalError::Destructure { values: rhs.len(), targets: lhs.len() });
    }
    match check_targets(lhs, rhs.len()) {
        Some(e) => {
            return Err(e);
        },
        None => {},
    }
    assign_targets(rt, env, lhs, &rhs, importing, fuel, out)
}

/// Assigns each target of a list pattern its value, in order.
fn assign_targets<U: FloatUnit>(
    rt: &Runtime<U>,
    env: &mut Environment,
    lhs: &Vec<ListItem>,
    rhs: &Vec<Value>,
    importing: bool,
    fuel: u64,
    out: &mut String,
) -> (r: Result<(), EvalError>)
    requires
        lhs.len() <= rhs.len(),
    ensures
        functional(&rt.unit) || semantics::names_only(lhs@) ==> reached(
            semantics::assign_targets(
                rt.setting(),
                importing,
                fuel as nat,
                World { env: old(env)@, out: old(out)@ },
                lhs@,
                views(rhs@),
                0,
            ),
            final(env)@,
            final(out)@,
            unit_result(r),
        ),
        importing ==> final(out)@ == old(out)@,
    decreases fuel, 1nat, 0nat,
{
    let ghost start = World { env: env@, out: out@ };
    let ghost values = views(rhs@);
    let mut k: usize = 0;
    while k < lhs.len()
        invariant
            k <= lhs.len(),
            lhs.len() <= rhs.len(),
            values == views(rhs@),
            start.env == old(env)@ && start.out == old(out)@,
            importing ==> out@ == start.out,
            functional(&rt.unit) || semantics::names_only(lhs@) ==> semantics::assign_targets(
                rt.setting(),
                importing,
                fuel as nat,
                start,
                lhs@,
                values,
                0,
            ) == semantics::assign_targets(
                rt.setting(),
                importing,
                fuel as nat,
                World { env: env@, out: out@ },
                lhs@,
                values,
                k as nat,
            ),
        decreases lhs.len() - k,
    {
        let value = target_value(rhs, lhs.len(), k);
        match assign(rt, env, &lhs[k].expression, value, importing, fuel, out) {
            Err(e) => {
                return Err(e);
            },
            Ok(()) => {},
        }
        k += 1;
    }
    Ok(())
}

} // verus!
