//! Fuel only bounds the nesting: an evaluation that does not run out of
//! fuel comes to the same outcome with any larger amount.

use crate::ast::{ClassMethod, Expression, IfBranch, ListItem, Program, Statement};
use crate::env::with_builtins;
use crate::error::ErrorView;
use crate::lookup::{bind_all, bind_fields, carry_over, elements, method_index, module_index};
use crate::runtime::{texts, Outcome, Setting, World};
use crate::semantics::{
    arm_body, arm_condition, assign, assign_list, assign_targets, bind_arguments, call_method,
    check_targets, comprehend, create_object, eval_call, eval_expression, eval_expressions,
    eval_program, eval_statement, eval_statements, for_each, if_chain, list_items, parent_of,
    run_method, target_value, while_rounds,
};
use crate::value::ValueView;
use vstd::prelude::*;

verus! {

/// Whether an evaluation ended because it ran out of fuel.
pub open spec fn exhausted<T>(o: Outcome<T>) -> bool {
    o.result matches Err(e) && e == ErrorView::Exhausted
}

proof fn more_statements(
    cx: Setting,
    importing: bool,
    fuel: nat,
    more: nat,
    w: World,
    stmts: Seq<Statement>,
    from: nat,
)
    requires
        fuel <= more,
        !exhausted(eval_statements(cx, importing, fuel, w, stmts, from)),
    ensures
        eval_statements(cx, importing, more, w, stmts, from) == eval_statements(
            cx,
            importing,
            fuel,
            w,
            stmts,
            from,
        ),
    decreases fuel, 1nat, stmts.len() - from,
{
    if from < stmts.len() {
        more_statement(cx, importing, fuel, more, w, stmts[from as int]);
        let r = eval_statement(cx, importing, fuel, w, stmts[from as int]);
        if r.result is Ok {
            more_statements(cx, importing, fuel, more, r.world, stmts, from + 1);
        }
    }
}

proof fn more_statement(cx: Setting, importing: bool, fuel: nat, more: nat, w: World, s: Statement)
    requires
        fuel <= more,
        !exhausted(eval_statement(cx, importing, fuel, w, s)),
    ensures
        eval_statement(cx, importing, more, w, s) == eval_statement(cx, importing, fuel, w, s),
    decreases fuel, 0nat, 0nat,
{
    let f = (fuel - 1) as nat;
    let g = (more - 1) as nat;
    match s {
        Statement::Import { path } => {
            match module_index(cx.modules, path@) {
                None => {},
                Some(k) => match cx.modules[k].program {
                    None => {},
                    Some(Program::Body { statements }) => {
                        more_statements(cx, true, f, g, w, statements@, 0);
                    },
                },
            }
        },
        Statement::Expression { expression } => {
            more_expression(cx, importing, f, g, w, expression);
        },
        Statement::Assignment { lhs, rhs } => {
            more_expression(cx, importing, f, g, w, rhs);
            let r = eval_expression(cx, importing, f, w, rhs);
            match r.result {
                Err(_) => {},
                Ok(v) => {
                    more_assign(cx, importing, f, g, r.world, lhs, v);
                },
            }
        },
        Statement::OperatorAssignment { name, operator, rhs } => {
            if w.env.contains_key(name@) {
                more_expression(cx, importing, f, g, w, rhs);
            }
        },
        Statement::If { params } => {
            more_if(cx, importing, f, g, w, params, 0);
        },
        Statement::While { condition, statements } => {
            more_while(cx, importing, f, g, w, condition, statements@, fuel, more);
        },
        Statement::For { params } => {
            match params.iterate_expression {
                Expression::List { .. } | Expression::Identifier { .. } | Expression::Call { .. } => {
                    more_expression(cx, importing, f, g, w, params.iterate_expression);
                    let r = eval_expression(cx, importing, f, w, params.iterate_expression);
                    match r.result {
                        Err(_) => {},
                        Ok(v) => match v {
                            ValueView::List { e } => {
                                more_for(
                                    cx,
                                    importing,
                                    f,
                                    g,
                                    r.world,
                                    params.loop_var@,
                                    params.statements@,
                                    e,
                                    0,
                                );
                            },
                            _ => {},
                        },
                    }
                },
                _ => {},
            }
        },
        Statement::FunctionDefinition { .. } => {},
    }
}

proof fn more_if(
    cx: Setting,
    importing: bool,
    fuel: nat,
    more: nat,
    w: World,
    params: IfBranch,
    k: nat,
)
    requires
        fuel <= more,
        !exhausted(if_chain(cx, importing, fuel, w, params, k)),
    ensures
        if_chain(cx, importing, more, w, params, k) == if_chain(cx, importing, fuel, w, params, k),
    decreases fuel, 2nat, params.elif_data.0@.len() + 1 - k,
{
    if k > params.elif_data.0@.len() {
        match params.else_statements {
            Some(body) => {
                more_statements(cx, importing, fuel, more, w, body@, 0);
            },
            None => {},
        }
    } else {
        more_expression(cx, importing, fuel, more, w, arm_condition(params, k));
        let r = eval_expression(cx, importing, fuel, w, arm_condition(params, k));
        match r.result {
            Err(_) => {},
            Ok(v) => match v {
                ValueView::Bool { b } => {
                    if b {
                        more_statements(cx, importing, fuel, more, r.world, arm_body(params, k), 0);
                    } else {
                        more_if(cx, importing, fuel, more, r.world, params, k + 1);
                    }
                },
                _ => {},
            },
        }
    }
}

proof fn more_while(
    cx: Setting,
    importing: bool,
    fuel: nat,
    more: nat,
    w: World,
    condition: Expression,
    body: Seq<Statement>,
    rounds: nat,
    more_rounds: nat,
)
    requires
        fuel <= more,
        rounds <= more_rounds,
        !exhausted(while_rounds(cx, importing, fuel, w, condition, body, rounds)),
    ensures
        while_rounds(cx, importing, more, w, condition, body, more_rounds) == while_rounds(
            cx,
            importing,
            fuel,
            w,
            condition,
            body,
            rounds,
        ),
    decreases fuel, 2nat, rounds,
{
    if rounds > 0 {
        more_expression(cx, importing, fuel, more, w, condition);
        let r = eval_expression(cx, importing, fuel, w, condition);
        match r.result {
            Err(_) => {},
            Ok(v) => match v {
                ValueView::Bool { b } => {
                    if b {
                        more_statements(cx, importing, fuel, more, r.world, body, 0);
                        let s = eval_statements(cx, importing, fuel, r.world, body, 0);
                        if s.result is Ok {
                            more_while(
                                cx,
                                importing,
                                fuel,
                                more,
                                s.world,
                                condition,
                                body,
                                (rounds - 1) as nat,
                                (more_rounds - 1) as nat,
                            );
                        }
                    }
                },
                _ => {},
            },
        }
    }
}

proof fn more_for(
    cx: Setting,
    importing: bool,
    fuel: nat,
    more: nat,
    w: World,
    var: Seq<char>,
    body: Seq<Statement>,
    items: Seq<ValueView>,
    from: nat,
)
    requires
        fuel <= more,
        !exhausted(for_each(cx, importing, fuel, w, var, body, items, from)),
    ensures
        for_each(cx, importing, more, w, var, body, items, from) == for_each(
            cx,
            importing,
            fuel,
            w,
            var,
            body,
            items,
            from,
        ),
    decreases fuel, 2nat, items.len() - from,
{
    if from < items.len() {
        let start = World { env: w.env.insert(var, items[from as int]), out: w.out };
        more_statements(cx, importing, fuel, more, start, body, 0);
        let s = eval_statements(cx, importing, fuel, start, body, 0);
        if s.result is Ok {
            more_for(cx, importing, fuel, more, s.world, var, body, items, from + 1);
        }
    }
}

proof fn more_expressions(
    cx: Setting,
    importing: bool,
    fuel: nat,
    more: nat,
    w: World,
    exprs: Seq<Expression>,
    from: nat,
    acc: Seq<ValueView>,
)
    requires
        fuel <= more,
        !exhausted(eval_expressions(cx, importing, fuel, w, exprs, from, acc)),
    ensures
        eval_expressions(cx, importing, more, w, exprs, from, acc) == eval_expressions(
            cx,
            importing,
            fuel,
            w,
            exprs,
            from,
            acc,
        ),
    decreases fuel, 1nat, exprs.len() - from,
{
    if from < exprs.len() {
        more_expression(cx, importing, fuel, more, w, exprs[from as int]);
        let r = eval_expression(cx, importing, fuel, w, exprs[from as int]);
        match r.result {
            Err(_) => {},
            Ok(v) => {
                more_expressions(cx, importing, fuel, more, r.world, exprs, from + 1, acc.push(v));
            },
        }
    }
}

proof fn more_list_items(
    cx: Setting,
    importing: bool,
    fuel: nat,
    more: nat,
    w: World,
    items: Seq<ListItem>,
    from: nat,
    acc: Seq<ValueView>,
)
    requires
        fuel <= more,
        !exhausted(list_items(cx, importing, fuel, w, items, from, acc)),
    ensures
        list_items(cx, importing, more, w, items, from, acc) == list_items(
            cx,
            importing,
            fuel,
            w,
            items,
            from,
            acc,
        ),
    decreases fuel, 1nat, items.len() - from,
{
    if from < items.len() {
        more_expression(cx, importing, fuel, more, w, items[from as int].expression);
        let r = eval_expression(cx, importing, fuel, w, items[from as int].expression);
        match r.result {
            Err(_) => {},
            Ok(v) => {
                if !items[from as int].is_spread {
                    more_list_items(cx, importing, fuel, more, r.world, items, from + 1, acc.push(v));
                } else {
                    match v {
                        ValueView::List { e } => {
                            more_list_items(
                                cx,
                                importing,
                                fuel,
                                more,
                                r.world,
                                items,
                                from + 1,
                                acc + e,
                            );
                        },
                        _ => {},
                    }
                }
            },
        }
    }
}

proof fn more_comprehend(
    cx: Setting,
    importing: bool,
    fuel: nat,
    more: nat,
    w: World,
    body: Expression,
    var: Seq<char>,
    items: Seq<ValueView>,
    from: nat,
    acc: Seq<ValueView>,
)
    requires
        fuel <= more,
        !exhausted(comprehend(cx, importing, fuel, w, body, var, items, from, acc)),
    ensures
        comprehend(cx, importing, more, w, body, var, items, from, acc) == comprehend(
            cx,
            importing,
            fuel,
            w,
            body,
            var,
            items,
            from,
            acc,
        ),
    decreases fuel, 1nat, items.len() - from,
{
    if from < items.len() {
        let start = World { env: w.env.insert(var, items[from as int]), out: w.out };
        more_expression(cx, importing, fuel, more, start, body);
        let r = eval_expression(cx, importing, fuel, start, body);
        match r.result {
            Err(_) => {},
            Ok(v) => {
                more_comprehend(
                    cx,
                    importing,
                    fuel,
                    more,
                    r.world,
                    body,
                    var,
                    items,
                    from + 1,
                    acc.push(v),
                );
            },
        }
    }
}

proof fn more_arguments(
    cx: Setting,
    importing: bool,
    fuel: nat,
    more: nat,
    w: World,
    local: Map<Seq<char>, ValueView>,
    params: Seq<Seq<char>>,
    arguments: Seq<Expression>,
    from: nat,
    shared: bool,
)
    requires
        fuel <= more,
        !exhausted(bind_arguments(cx, importing, fuel, w, local, params, arguments, from, shared)),
    ensures
        bind_arguments(cx, importing, more, w, local, params, arguments, from, shared)
            == bind_arguments(cx, importing, fuel, w, local, params, arguments, from, shared),
    decreases fuel, 1nat, arguments.len() - from,
{
    if from < arguments.len() && from < params.len() {
        more_expression(cx, importing, fuel, more, w, arguments[from as int]);
        let r = eval_expression(cx, importing, fuel, w, arguments[from as int]);
        let next = if shared {
            r.world
        } else {
            World { env: w.env, out: r.world.out }
        };
        match r.result {
            Err(_) => {},
            Ok(v) => {
                more_arguments(
                    cx,
                    importing,
                    fuel,
                    more,
                    next,
                    local.insert(params[from as int], v),
                    params,
                    arguments,
                    from + 1,
                    shared,
                );
            },
        }
    }
}

proof fn more_method(
    cx: Setting,
    importing: bool,
    fuel: nat,
    more: nat,
    w: World,
    local: Map<Seq<char>, ValueView>,
    method: ClassMethod,
)
    requires
        fuel <= more,
        !exhausted(run_method(cx, importing, fuel, w, local, method)),
    ensures
        run_method(cx, importing, more, w, local, method) == run_method(
            cx,
            importing,
            fuel,
            w,
            local,
            method,
        ),
    decreases fuel, 2nat, 0nat,
{
    let start = World { env: local, out: w.out };
    more_statements(cx, importing, fuel, more, start, method.statements@, 0);
    let run = eval_statements(cx, importing, fuel, start, method.statements@, 0);
    match run.result {
        Err(_) => {},
        Ok(_) => match method.return_exp {
            None => {},
            Some(e) => {
                more_expression(cx, importing, fuel, more, run.world, e);
            },
        },
    }
}

proof fn more_call_method(
    cx: Setting,
    importing: bool,
    fuel: nat,
    more: nat,
    w: World,
    name: Seq<char>,
    method: Seq<char>,
    arguments: Seq<Expression>,
)
    requires
        fuel <= more,
        !exhausted(call_method(cx, importing, fuel, w, name, method, arguments)),
    ensures
        call_method(cx, importing, more, w, name, method, arguments) == call_method(
            cx,
            importing,
            fuel,
            w,
            name,
            method,
            arguments,
        ),
    decreases fuel, 2nat, 1nat,
{
    if w.env.contains_key(name) {
        match w.env[name] {
            ValueView::Object { methods, fields, .. } => {
                let through_super = name == "super"@;
                match method_index(methods@, method, through_super || name == "this"@) {
                    None => {},
                    Some(k) => {
                        let md = methods@[k].1;
                        if arguments.len() == md.arguments@.len() {
                            let base = if through_super {
                                Map::empty()
                            } else {
                                with_builtins(Map::empty()).insert("this"@, w.env[name])
                            };
                            more_arguments(
                                cx,
                                importing,
                                fuel,
                                more,
                                w,
                                base,
                                texts(md.arguments@),
                                arguments,
                                0,
                                !through_super,
                            );
                            let a = bind_arguments(
                                cx,
                                importing,
                                fuel,
                                w,
                                base,
                                texts(md.arguments@),
                                arguments,
                                0,
                                !through_super,
                            );
                            let back = World { env: w.env, out: a.world.out };
                            match a.result {
                                Err(_) => {},
                                Ok(local) => {
                                    if through_super {
                                        match carry_over(w.env, local, fields, 0) {
                                            Err(_) => {},
                                            Ok(all) => {
                                                more_method(
                                                    cx,
                                                    importing,
                                                    fuel,
                                                    more,
                                                    back,
                                                    with_builtins(all),
                                                    md,
                                                );
                                            },
                                        }
                                    } else {
                                        more_method(
                                            cx,
                                            importing,
                                            fuel,
                                            more,
                                            back,
                                            bind_fields(local, fields, 0),
                                            md,
                                        );
                                    }
                                },
                            }
                        }
                    },
                }
            },
            _ => {},
        }
    }
}

proof fn more_create(
    cx: Setting,
    importing: bool,
    fuel: nat,
    more: nat,
    w: World,
    class_name: Seq<char>,
    arguments: Seq<Expression>,
)
    requires
        fuel <= more,
        !exhausted(create_object(cx, importing, fuel, w, class_name, arguments)),
    ensures
        create_object(cx, importing, more, w, class_name, arguments) == create_object(
            cx,
            importing,
            fuel,
            w,
            class_name,
            arguments,
        ),
    decreases fuel, 2nat, 0nat,
{
    if w.env.contains_key(class_name) {
        match w.env[class_name] {
            ValueView::Object { name, fields, init, methods, parent_class } => {
                if init.name.is_some() {
                    let params = match &init.arguments {
                        Some(a) => texts(a@),
                        None => Seq::empty(),
                    };
                    let body = match &init.statements {
                        Some(s) => s@,
                        None => Seq::empty(),
                    };
                    match parent_of(w.env, parent_class) {
                        Err(_) => {},
                        Ok(parent) => {
                            if params.len() == arguments.len() {
                                let base = match parent {
                                    Some(p) => Map::empty().insert("super"@, p),
                                    None => Map::empty(),
                                };
                                more_arguments(
                                    cx,
                                    importing,
                                    fuel,
                                    more,
                                    w,
                                    base,
                                    params,
                                    arguments,
                                    0,
                                    false,
                                );
                                let a = bind_arguments(
                                    cx,
                                    importing,
                                    fuel,
                                    w,
                                    base,
                                    params,
                                    arguments,
                                    0,
                                    false,
                                );
                                match a.result {
                                    Err(_) => {},
                                    Ok(local) => {
                                        more_statements(
                                            cx,
                                            importing,
                                            fuel,
                                            more,
                                            World {
                                                env: bind_fields(local, fields, 0),
                                                out: a.world.out,
                                            },
                                            body,
                                            0,
                                        );
                                    },
                                }
                            }
                        },
                    }
                }
            },
            _ => {},
        }
    }
}

proof fn more_call(
    cx: Setting,
    importing: bool,
    fuel: nat,
    more: nat,
    w: World,
    function: Seq<char>,
    arguments: Seq<Expression>,
)
    requires
        fuel <= more,
        !exhausted(eval_call(cx, importing, fuel, w, function, arguments)),
    ensures
        eval_call(cx, importing, more, w, function, arguments) == eval_call(
            cx,
            importing,
            fuel,
            w,
            function,
            arguments,
        ),
    decreases fuel, 3nat, 0nat,
{
    more_expressions(cx, importing, fuel, more, w, arguments, 0, Seq::empty());
    let a = eval_expressions(cx, importing, fuel, w, arguments, 0, Seq::empty());
    match a.result {
        Err(_) => {},
        Ok(vals) => {
            if a.world.env.contains_key(function) {
                match a.world.env[function] {
                    ValueView::UserDefFunction { statements, arguments: params, return_expression, .. } => {
                        if vals.len() == params@.len() {
                            let start = World {
                                env: bind_all(a.world.env, texts(params@), vals, 0),
                                out: a.world.out,
                            };
                            more_statements(cx, importing, fuel, more, start, statements@, 0);
                            let run = eval_statements(cx, importing, fuel, start, statements@, 0);
                            let back = World { env: a.world.env, out: run.world.out };
                            match run.result {
                                Err(_) => {},
                                Ok(_) => match &*return_expression {
                                    None => {},
                                    Some(e) => {
                                        more_expression(cx, importing, fuel, more, back, *e);
                                    },
                                },
                            }
                        }
                    },
                    ValueView::Object { .. } => {
                        if function == "super"@ {
                            more_create(cx, importing, fuel, more, a.world, function, arguments);
                        }
                    },
                    _ => {},
                }
            }
        },
    }
}

proof fn more_expression(
    cx: Setting,
    importing: bool,
    fuel: nat,
    more: nat,
    w: World,
    e: Expression,
)
    requires
        fuel <= more,
        !exhausted(eval_expression(cx, importing, fuel, w, e)),
    ensures
        eval_expression(cx, importing, more, w, e) == eval_expression(cx, importing, fuel, w, e),
    decreases fuel, 0nat, 0nat,
{
    let f = (fuel - 1) as nat;
    let g = (more - 1) as nat;
    match e {
        Expression::Call { function, arguments } => {
            more_call(cx, importing, f, g, w, function@, arguments@);
        },
        Expression::Operation { lhs, rhs, operator } => {
            more_expression(cx, importing, f, g, w, *lhs);
            let l = eval_expression(cx, importing, f, w, *lhs);
            if l.result is Ok {
                more_expression(cx, importing, f, g, l.world, *rhs);
            }
        },
        Expression::List { items } => {
            more_list_items(cx, importing, f, g, w, items@, 0, Seq::empty());
        },
        Expression::Prefix { name, operator, rhs } => {
            if w.env.contains_key(name@) {
                more_expression(cx, importing, f, g, w, *rhs);
            }
        },
        Expression::Index { name, idx_exp } => {
            if w.env.contains_key(name@) {
                more_expression(cx, importing, f, g, w, *idx_exp);
            }
        },
        Expression::Comprehension { iterate_exp, var, control_exp } => {
            more_expression(cx, importing, f, g, w, *control_exp);
            let c = eval_expression(cx, importing, f, w, *control_exp);
            match c.result {
                Err(_) => {},
                Ok(cv) => match elements(cv) {
                    None => {},
                    Some(items) => {
                        more_comprehend(
                            cx,
                            importing,
                            f,
                            g,
                            c.world,
                            *iterate_exp,
                            var@,
                            items,
                            0,
                            Seq::empty(),
                        );
                    },
                },
            }
        },
        Expression::ObjectCreation { class_name, arguments } => {
            more_create(cx, importing, f, g, w, class_name@, arguments@);
        },
        Expression::MethodCall { name, method, arguments } => {
            more_call_method(cx, importing, f, g, w, name@, method@, arguments@);
        },
        _ => {},
    }
}

proof fn more_assign(
    cx: Setting,
    importing: bool,
    fuel: nat,
    more: nat,
    w: World,
    lhs: Expression,
    value: ValueView,
)
    requires
        fuel <= more,
        !exhausted(assign(cx, importing, fuel, w, lhs, value)),
    ensures
        assign(cx, importing, more, w, lhs, value) == assign(cx, importing, fuel, w, lhs, value),
    decreases fuel, 0nat, 0nat,
{
    let f = (fuel - 1) as nat;
    let g = (more - 1) as nat;
    match lhs {
        Expression::List { items } => match value {
            ValueView::List { e } => {
                more_assign_list(cx, importing, f, g, w, items@, e);
            },
            _ => {},
        },
        Expression::Index { name, idx_exp } => {
            if w.env.contains_key(name@) {
                more_expression(cx, importing, f, g, w, *idx_exp);
            }
        },
        _ => {},
    }
}

proof fn more_assign_list(
    cx: Setting,
    importing: bool,
    fuel: nat,
    more: nat,
    w: World,
    targets: Seq<ListItem>,
    values: Seq<ValueView>,
)
    requires
        fuel <= more,
        !exhausted(assign_list(cx, importing, fuel, w, targets, values)),
    ensures
        assign_list(cx, importing, more, w, targets, values) == assign_list(
            cx,
            importing,
            fuel,
            w,
            targets,
            values,
        ),
    decreases fuel, 2nat, 0nat,
{
    if !(targets.len() > values.len() || (targets.len() == 0 && values.len() > 0)) {
        if check_targets(targets, values.len(), 0) is None {
            more_assign_targets(cx, importing, fuel, more, w, targets, values, 0);
        }
    }
}

proof fn more_assign_targets(
    cx: Setting,
    importing: bool,
    fuel: nat,
    more: nat,
    w: World,
    targets: Seq<ListItem>,
    values: Seq<ValueView>,
    from: nat,
)
    requires
        fuel <= more,
        !exhausted(assign_targets(cx, importing, fuel, w, targets, values, from)),
    ensures
        assign_targets(cx, importing, more, w, targets, values, from) == assign_targets(
            cx,
            importing,
            fuel,
            w,
            targets,
            values,
            from,
        ),
    decreases fuel, 1nat, targets.len() - from,
{
    if from < targets.len() {
        let value = target_value(values, targets.len(), from as int);
        more_assign(cx, importing, fuel, more, w, targets[from as int].expression, value);
        let r = assign(cx, importing, fuel, w, targets[from as int].expression, value);
        if r.result is Ok {
            more_assign_targets(cx, importing, fuel, more, r.world, targets, values, from + 1);
        }
    }
}

/// A program that does not run out of fuel comes to the same outcome
/// with any larger amount of fuel.
pub proof fn law_more_fuel_same_outcome(
    cx: Setting,
    importing: bool,
    fuel: nat,
    more: nat,
    w: World,
    program: Program,
)
    requires
        fuel <= more,
        !exhausted(eval_program(cx, importing, fuel, w, program)),
    ensures
        eval_program(cx, importing, more, w, program) == eval_program(
            cx,
            importing,
            fuel,
            w,
            program,
        ),
{
    match program {
        Program::Body { statements } => {
            more_statements(cx, importing, fuel, more, w, statements@, 0);
        },
    }
}

} // verus!
