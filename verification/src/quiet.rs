//! Nothing is printed while a module is imported.

use crate::ast::{ClassMethod, Expression, IfBranch, ListItem, Program, Statement};
use crate::lookup::{elements, module_index};
use crate::runtime::{texts, Setting, World};
use crate::semantics::{
    arm_body, arm_condition, assign, assign_list, assign_targets, bind_arguments, call_method,
    comprehend, create_object, eval_call, eval_expression, eval_expressions, eval_program,
    eval_statement, eval_statements, for_each, if_chain, list_items, parent_of, run_method,
    target_value, while_rounds,
};
use crate::env::with_builtins;
use crate::lookup::{bind_all, bind_fields, carry_over, method_index};
use crate::value::ValueView;
use vstd::prelude::*;

verus! {

proof fn quiet_statements(cx: Setting, fuel: nat, w: World, stmts: Seq<Statement>, from: nat)
    ensures
        eval_statements(cx, true, fuel, w, stmts, from).world.out == w.out,
    decreases fuel, 1nat, stmts.len() - from,
{
    if from < stmts.len() {
        quiet_statement(cx, fuel, w, stmts[from as int]);
        let r = eval_statement(cx, true, fuel, w, stmts[from as int]);
        if r.result is Ok {
            quiet_statements(cx, fuel, r.world, stmts, from + 1);
        }
    }
}

proof fn quiet_statement(cx: Setting, fuel: nat, w: World, s: Statement)
    ensures
        eval_statement(cx, true, fuel, w, s).world.out == w.out,
    decreases fuel, 0nat, 0nat,
{
    if fuel > 0 {
        let f = (fuel - 1) as nat;
        match s {
            Statement::Import { path } => {
                match module_index(cx.modules, path@) {
                    None => {},
                    Some(k) => match cx.modules[k].program {
                        None => {},
                        Some(Program::Body { statements }) => {
                            quiet_statements(cx, f, w, statements@, 0);
                        },
                    },
                }
            },
            Statement::Expression { expression } => {
                quiet_expression(cx, f, w, expression);
            },
            Statement::Assignment { lhs, rhs } => {
                quiet_expression(cx, f, w, rhs);
                let r = eval_expression(cx, true, f, w, rhs);
                match r.result {
                    Err(_) => {},
                    Ok(v) => {
                        quiet_assign(cx, f, r.world, lhs, v);
                    },
                }
            },
            Statement::OperatorAssignment { name, operator, rhs } => {
                quiet_expression(cx, f, w, rhs);
            },
            Statement::If { params } => {
                quiet_if(cx, f, w, params, 0);
            },
            Statement::While { condition, statements } => {
                quiet_while(cx, f, w, condition, statements@, fuel);
            },
            Statement::For { params } => {
                quiet_expression(cx, f, w, params.iterate_expression);
                let r = eval_expression(cx, true, f, w, params.iterate_expression);
                match r.result {
                    Err(_) => {},
                    Ok(v) => match v {
                        ValueView::List { e } => {
                            quiet_for(cx, f, r.world, params.loop_var@, params.statements@, e, 0);
                        },
                        _ => {},
                    },
                }
            },
            Statement::FunctionDefinition { .. } => {},
        }
    }
}

proof fn quiet_if(cx: Setting, fuel: nat, w: World, params: IfBranch, k: nat)
    ensures
        if_chain(cx, true, fuel, w, params, k).world.out == w.out,
    decreases fuel, 2nat, params.elif_data.0@.len() + 1 - k,
{
    if k > params.elif_data.0@.len() {
        match params.else_statements {
            Some(body) => {
                quiet_statements(cx, fuel, w, body@, 0);
            },
            None => {},
        }
    } else {
        quiet_expression(cx, fuel, w, arm_condition(params, k));
        let r = eval_expression(cx, true, fuel, w, arm_condition(params, k));
        match r.result {
            Err(_) => {},
            Ok(v) => match v {
                ValueView::Bool { b } => {
                    if b {
                        quiet_statements(cx, fuel, r.world, arm_body(params, k), 0);
                    } else {
                        quiet_if(cx, fuel, r.world, params, k + 1);
                    }
                },
                _ => {},
            },
        }
    }
}

proof fn quiet_while(
    cx: Setting,
    fuel: nat,
    w: World,
    condition: Expression,
    body: Seq<Statement>,
    rounds: nat,
)
    ensures
        while_rounds(cx, true, fuel, w, condition, body, rounds).world.out == w.out,
    decreases fuel, 2nat, rounds,
{
    if rounds > 0 {
        quiet_expression(cx, fuel, w, condition);
        let r = eval_expression(cx, true, fuel, w, condition);
        match r.result {
            Err(_) => {},
            Ok(v) => match v {
                ValueView::Bool { b } => {
                    if b {
                        quiet_statements(cx, fuel, r.world, body, 0);
                        let s = eval_statements(cx, true, fuel, r.world, body, 0);
                        if s.result is Ok {
                            quiet_while(cx, fuel, s.world, condition, body, (rounds - 1) as nat);
                        }
                    }
                },
                _ => {},
            },
        }
    }
}

proof fn quiet_for(
    cx: Setting,
    fuel: nat,
    w: World,
    var: Seq<char>,
    body: Seq<Statement>,
    items: Seq<ValueView>,
    from: nat,
)
    ensures
        for_each(cx, true, fuel, w, var, body, items, from).world.out == w.out,
    decreases fuel, 2nat, items.len() - from,
{
    if from < items.len() {
        let start = World { env: w.env.insert(var, items[from as int]), out: w.out };
        quiet_statements(cx, fuel, start, body, 0);
        let s = eval_statements(cx, true, fuel, start, body, 0);
        if s.result is Ok {
            quiet_for(cx, fuel, s.world, var, body, items, from + 1);
        }
    }
}

proof fn quiet_expressions(
    cx: Setting,
    fuel: nat,
    w: World,
    exprs: Seq<Expression>,
    from: nat,
    acc: Seq<ValueView>,
)
    ensures
        eval_expressions(cx, true, fuel, w, exprs, from, acc).world.out == w.out,
    decreases fuel, 1nat, exprs.len() - from,
{
    if from < exprs.len() {
        quiet_expression(cx, fuel, w, exprs[from as int]);
        let r = eval_expression(cx, true, fuel, w, exprs[from as int]);
        match r.result {
            Err(_) => {},
            Ok(v) => {
                quiet_expressions(cx, fuel, r.world, exprs, from + 1, acc.push(v));
            },
        }
    }
}

proof fn quiet_list_items(
    cx: Setting,
    fuel: nat,
    w: World,
    items: Seq<ListItem>,
    from: nat,
    acc: Seq<ValueView>,
)
    ensures
        list_items(cx, true, fuel, w, items, from, acc).world.out == w.out,
    decreases fuel, 1nat, items.len() - from,
{
    if from < items.len() {
        quiet_expression(cx, fuel, w, items[from as int].expression);
        let r = eval_expression(cx, true, fuel, w, items[from as int].expression);
        match r.result {
            Err(_) => {},
            Ok(v) => {
                if !items[from as int].is_spread {
                    quiet_list_items(cx, fuel, r.world, items, from + 1, acc.push(v));
                } else {
                    match v {
                        ValueView::List { e } => {
                            quiet_list_items(cx, fuel, r.world, items, from + 1, acc + e);
                        },
                        _ => {},
                    }
                }
            },
        }
    }
}

proof fn quiet_comprehend(
    cx: Setting,
    fuel: nat,
    w: World,
    body: Expression,
    var: Seq<char>,
    items: Seq<ValueView>,
    from: nat,
    acc: Seq<ValueView>,
)
    ensures
        comprehend(cx, true, fuel, w, body, var, items, from, acc).world.out == w.out,
    decreases fuel, 1nat, items.len() - from,
{
    if from < items.len() {
        let start = World { env: w.env.insert(var, items[from as int]), out: w.out };
        quiet_expression(cx, fuel, start, body);
        let r = eval_expression(cx, true, fuel, start, body);
        match r.result {
            Err(_) => {},
            Ok(v) => {
                quiet_comprehend(cx, fuel, r.world, body, var, items, from + 1, acc.push(v));
            },
        }
    }
}

proof fn quiet_arguments(
    cx: Setting,
    fuel: nat,
    w: World,
    local: Map<Seq<char>, ValueView>,
    params: Seq<Seq<char>>,
    arguments: Seq<Expression>,
    from: nat,
    shared: bool,
)
    ensures
        bind_arguments(cx, true, fuel, w, local, params, arguments, from, shared).world.out
            == w.out,
    decreases fuel, 1nat, arguments.len() - from,
{
    if from < arguments.len() && from < params.len() {
        quiet_expression(cx, fuel, w, arguments[from as int]);
        let r = eval_expression(cx, true, fuel, w, arguments[from as int]);
        let next = if shared {
            r.world
        } else {
            World { env: w.env, out: r.world.out }
        };
        match r.result {
            Err(_) => {},
            Ok(v) => {
                quiet_arguments(
                    cx,
                    fuel,
                    next,
                    local.insert(params[from as int], v),
                    params,
                    arguments,
                    from + 1,
                    shared,
                );
            },
        }
    }
}

proof fn quiet_method(
    cx: Setting,
    fuel: nat,
    w: World,
    local: Map<Seq<char>, ValueView>,
    method: ClassMethod,
)
    ensures
        run_method(cx, true, fuel, w, local, method).world.out == w.out,
    decreases fuel, 2nat, 0nat,
{
    let start = World { env: local, out: w.out };
    quiet_statements(cx, fuel, start, method.statements@, 0);
    let run = eval_statements(cx, true, fuel, start, method.statements@, 0);
    match run.result {
        Err(_) => {},
        Ok(_) => match method.return_exp {
            None => {},
            Some(e) => {
                quiet_expression(cx, fuel, run.world, e);
            },
        },
    }
}

proof fn quiet_call_method(
    cx: Setting,
    fuel: nat,
    w: World,
    name: Seq<char>,
    method: Seq<char>,
    arguments: Seq<Expression>,
)
    ensures
        call_method(cx, true, fuel, w, name, method, arguments).world.out == w.out,
    decreases fuel, 2nat, 1nat,
{
    if w.env.contains_key(name) {
        match w.env[name] {
            ValueView::Object { methods, fields, .. } => {
                let through_super = name == "super"@;
                match method_index(methods@, method, through_super || name == "this"@) {
                    None => {},
                    Some(k) => {
                        let md = methods@[k].1;
                        if arguments.len() == md.arguments@.len() {
                            let base = if through_super {
                                Map::empty()
                            } else {
                                with_builtins(Map::empty()).insert("this"@, w.env[name])
                            };
                            quiet_arguments(
                                cx,
                                fuel,
                                w,
                                base,
                                texts(md.arguments@),
                                arguments,
                                0,
                                !through_super,
                            );
                            let a = bind_arguments(
                                cx,
                                true,
                                fuel,
                                w,
                                base,
                                texts(md.arguments@),
                                arguments,
                                0,
                                !through_super,
                            );
                            let back = World { env: w.env, out: a.world.out };
                            match a.result {
                                Err(_) => {},
                                Ok(local) => {
                                    if through_super {
                                        match carry_over(w.env, local, fields, 0) {
                                            Err(_) => {},
                                            Ok(all) => {
                                                quiet_method(cx, fuel, back, with_builtins(all), md);
                                            },
                                        }
                                    } else {
                                        quiet_method(
                                            cx,
                                            fuel,
                                            back,
                                            bind_fields(local, fields, 0),
                                            md,
                                        );
                                    }
                                },
                            }
                        }
                    },
                }
            },
            _ => {},
        }
    }
}

proof fn quiet_create(
    cx: Setting,
    fuel: nat,
    w: World,
    class_name: Seq<char>,
    arguments: Seq<Expression>,
)
    ensures
        create_object(cx, true, fuel, w, class_name, arguments).world.out == w.out,
    decreases fuel, 2nat, 0nat,
{
    if w.env.contains_key(class_name) {
        match w.env[class_name] {
            ValueView::Object { name, fields, init, methods, parent_class } => {
                if init.name.is_some() {
                    let params = match &init.arguments {
                        Some(a) => texts(a@),
                        None => Seq::empty(),
                    };
                    let body = match &init.statements {
                        Some(s) => s@,
                        None => Seq::empty(),
                    };
                    match parent_of(w.env, parent_class) {
                        Err(_) => {},
                        Ok(parent) => {
                            if params.len() == arguments.len() {
                                let base = match parent {
                                    Some(p) => Map::empty().insert("super"@, p),
                                    None => Map::empty(),
                                };
                                quiet_arguments(cx, fuel, w, base, params, arguments, 0, false);
                                let a = bind_arguments(
                                    cx,
                                    true,
                                    fuel,
                                    w,
                                    base,
                                    params,
                                    arguments,
                                    0,
                                    false,
                                );
                                match a.result {
                                    Err(_) => {},
                                    Ok(local) => {
                                        quiet_statements(
                                            cx,
                                            fuel,
                                            World {
                                                env: bind_fields(local, fields, 0),
                                                out: a.world.out,
                                            },
                                            body,
                                            0,
                                        );
                                    },
                                }
                            }
                        },
                    }
                }
            },
            _ => {},
        }
    }
}

proof fn quiet_call(
    cx: Setting,
    fuel: nat,
    w: World,
    function: Seq<char>,
    arguments: Seq<Expression>,
)
    ensures
        eval_call(cx, true, fuel, w, function, arguments).world.out == w.out,
    decreases fuel, 3nat, 0nat,
{
    quiet_expressions(cx, fuel, w, arguments, 0, Seq::empty());
    let a = eval_expressions(cx, true, fuel, w, arguments, 0, Seq::empty());
    match a.result {
        Err(_) => {},
        Ok(vals) => {
            if a.world.env.contains_key(function) {
                match a.world.env[function] {
                    ValueView::UserDefFunction { statements, arguments: params, return_expression, .. } => {
                        if vals.len() == params@.len() {
                            let start = World {
                                env: bind_all(a.world.env, texts(params@), vals, 0),
                                out: a.world.out,
                            };
                            quiet_statements(cx, fuel, start, statements@, 0);
                            let run = eval_statements(cx, true, fuel, start, statements@, 0);
                            let back = World { env: a.world.env, out: run.world.out };
                            match run.result {
                                Err(_) => {},
                                Ok(_) => match *return_expression {
                                    None => {},
                                    Some(e) => {
                                        quiet_expression(cx, fuel, back, e);
                                    },
                                },
                            }
                        }
                    },
                    ValueView::Object { .. } => {
                        if function == "super"@ {
                            quiet_create(cx, fuel, a.world, function, arguments);
                        }
                    },
                    _ => {},
                }
            }
        },
    }
}

proof fn quiet_expression(cx: Setting, fuel: nat, w: World, e: Expression)
    ensures
        eval_expression(cx, true, fuel, w, e).world.out == w.out,
    decreases fuel, 0nat, 0nat,
{
    if fuel > 0 {
        let f = (fuel - 1) as nat;
        match e {
            Expression::Call { function, arguments } => {
                quiet_call(cx, f, w, function@, arguments@);
            },
            Expression::Operation { lhs, rhs, operator } => {
                quiet_expression(cx, f, w, *lhs);
                let l = eval_expression(cx, true, f, w, *lhs);
                if l.result is Ok {
                    quiet_expression(cx, f, l.world, *rhs);
                }
            },
            Expression::List { items } => {
                quiet_list_items(cx, f, w, items@, 0, Seq::empty());
            },
            Expression::Prefix { name, operator, rhs } => {
                quiet_expression(cx, f, w, *rhs);
            },
            Expression::Index { name, idx_exp } => {
                quiet_expression(cx, f, w, *idx_exp);
            },
            Expression::Comprehension { iterate_exp, var, control_exp } => {
                quiet_expression(cx, f, w, *control_exp);
                let c = eval_expression(cx, true, f, w, *control_exp);
                match c.result {
                    Err(_) => {},
                    Ok(cv) => match elements(cv) {
                        None => {},
                        Some(items) => {
                            quiet_comprehend(
                                cx,
                                f,
                                c.world,
                                *iterate_exp,
                                var@,
                                items,
                                0,
                                Seq::empty(),
                            );
                        },
                    },
                }
            },
            Expression::ObjectCreation { class_name, arguments } => {
                quiet_create(cx, f, w, class_name@, arguments@);
            },
            Expression::MethodCall { name, method, arguments } => {
                quiet_call_method(cx, f, w, name@, method@, arguments@);
            },
            _ => {},
        }
    }
}

proof fn quiet_assign(cx: Setting, fuel: nat, w: World, lhs: Expression, value: ValueView)
    ensures
        assign(cx, true, fuel, w, lhs, value).world.out == w.out,
    decreases fuel, 0nat, 0nat,
{
    if fuel > 0 {
        let f = (fuel - 1) as nat;
        match lhs {
            Expression::List { items } => match value {
                ValueView::List { e } => {
                    quiet_assign_list(cx, f, w, items@, e);
                },
                _ => {},
            },
            Expression::Index { name, idx_exp } => {
                quiet_expression(cx, f, w, *idx_exp);
            },
            _ => {},
        }
    }
}

proof fn quiet_assign_list(
    cx: Setting,
    fuel: nat,
    w: World,
    targets: Seq<ListItem>,
    values: Seq<ValueView>,
)
    ensures
        assign_list(cx, true, fuel, w, targets, values).world.out == w.out,
    decreases fuel, 2nat, 0nat,
{
    quiet_assign_targets(cx, fuel, w, targets, values, 0);
}

proof fn quiet_assign_targets(
    cx: Setting,
    fuel: nat,
    w: World,
    targets: Seq<ListItem>,
    values: Seq<ValueView>,
    from: nat,
)
    ensures
        assign_targets(cx, true, fuel, w, targets, values, from).world.out == w.out,
    decreases fuel, 1nat, targets.len() - from,
{
    if from < targets.len() {
        let value = target_value(values, targets.len(), from as int);
        quiet_assign(cx, fuel, w, targets[from as int].expression, value);
        let r = assign(cx, true, fuel, w, targets[from as int].expression, value);
        if r.result is Ok {
            quiet_assign_targets(cx, fuel, r.world, targets, values, from + 1);
        }
    }
}

/// A program that is run in import mode prints nothing.
pub proof fn law_import_mode_prints_nothing(cx: Setting, fuel: nat, w: World, program: Program)
    ensures
        eval_program(cx, true, fuel, w, program).world.out == w.out,
{
    match program {
        Program::Body { statements } => {
            quiet_statements(cx, fuel, w, statements@, 0);
        },
    }
}

/// An `import` adds nothing to what has been printed, wherever it stands.
pub proof fn law_import_prints_nothing(
    cx: Setting,
    importing: bool,
    fuel: nat,
    w: World,
    path: String,
)
    ensures
        eval_statement(cx, importing, fuel, w, Statement::Import { path }).world.out == w.out,
{
    if fuel > 0 {
        match module_index(cx.modules, path@) {
            None => {},
            Some(k) => match cx.modules[k].program {
                None => {},
                Some(Program::Body { statements }) => {
                    quiet_statements(cx, (fuel - 1) as nat, w, statements@, 0);
                },
            },
        }
    }
}

/// An `import` does to the bindings what the module does when it is run
/// on them in import mode, and fails as the module fails.
pub proof fn law_import_runs_the_module(
    cx: Setting,
    importing: bool,
    fuel: nat,
    w: World,
    path: String,
    k: int,
)
    requires
        fuel >= 1,
        module_index(cx.modules, path@) == Some(k),
        cx.modules[k].program is Some,
    ensures
        eval_statement(cx, importing, fuel, w, Statement::Import { path }) == eval_program(
            cx,
            true,
            (fuel - 1) as nat,
            w,
            cx.modules[k].program->Some_0,
        ),
{
}

/// Whether every statement is an `import`.
pub open spec fn imports_only(stmts: Seq<Statement>) -> bool {
    forall|i: int| 0 <= i < stmts.len() ==> #[trigger] stmts[i] is Import
}

/// However many `import` statements are run, one after the other, they
/// print nothing: importing a module again leaves the output as it is.
pub proof fn law_imports_print_nothing(
    cx: Setting,
    importing: bool,
    fuel: nat,
    w: World,
    stmts: Seq<Statement>,
    from: nat,
)
    requires
        imports_only(stmts),
    ensures
        eval_statements(cx, importing, fuel, w, stmts, from).world.out == w.out,
    decreases stmts.len() - from,
{
    if from < stmts.len() {
        let s = stmts[from as int];
        assert(s is Import);
        let r = eval_statement(cx, importing, fuel, w, s);
        assert(r.world.out == w.out) by {
            if fuel > 0 {
                match module_index(cx.modules, s->path@) {
                    None => {},
                    Some(k) => match cx.modules[k].program {
                        None => {},
                        Some(Program::Body { statements }) => {
                            quiet_statements(cx, (fuel - 1) as nat, w, statements@, 0);
                        },
                    },
                }
            }
        }
        if r.result is Ok {
            law_imports_print_nothing(cx, importing, fuel, r.world, stmts, from + 1);
        }
    }
}

} // verus!
