//! What evaluation means: the value of every expression and the effect of
//! every statement, as mathematical functions of the state.
//!
//! Every function here takes the nesting that is still allowed, `fuel`. An
//! expression, a statement or an assignment uses one unit of it for itself
//! and hands what is left to its parts; with none left it fails as
//! `Exhausted`. A `while` loop runs at most as many rounds as it has fuel.

use crate::ast::{ClassMethod, Expression, IfBranch, ListItem, Program, Statement, UserClass};
use crate::display::display_all;
use crate::env::with_builtins;
use crate::error::ErrorView;
use crate::lookup::{
    bind_all, bind_fields, carry_over, elements, field_index, field_put, method_index,
    module_index, range_values, read_back, read_position, readable_field, reserved_field,
};
use crate::order::operate_spec;
use crate::runtime::{done, fail, texts, Outcome, Setting, World};
use crate::unit::FloatModel;
use crate::value::{field_views, option_text, Builtin, FieldView, ValueView};
use vstd::prelude::*;

verus! {

/// `range_step(start, end, step)`: three integers, of which `step` is positive.
pub open spec fn range_step_spec(args: Seq<ValueView>) -> Result<ValueView, ErrorView> {
    if args.len() < 3 {
        Err(ErrorView::Arity { expected: 3, got: args.len() })
    } else {
        match (args[0], args[1], args[2]) {
            (ValueView::Int { v: start }, ValueView::Int { v: end }, ValueView::Int { v: step }) => {
                if step <= 0 {
                    Err(ErrorView::InvalidType)
                } else {
                    Ok(ValueView::List { e: range_values(start as int, end as int, step as int) })
                }
            },
            _ => Err(ErrorView::InvalidType),
        }
    }
}

/// `range(start, end)` is `range_step(start, end, 1)`.
pub open spec fn range_spec(args: Seq<ValueView>) -> Result<ValueView, ErrorView> {
    if args.len() < 2 {
        Err(ErrorView::Arity { expected: 2, got: args.len() })
    } else {
        range_step_spec(args.push(ValueView::Int { v: 1 }))
    }
}

/// What a built-in function does to the printed text, and what it returns.
pub open spec fn call_builtin(m: FloatModel, f: Builtin, args: Seq<ValueView>, out: Seq<char>) -> (
    Seq<char>,
    Result<ValueView, ErrorView>,
) {
    match f {
        Builtin::Print => (out + display_all(m, args), Ok(ValueView::Null)),
        Builtin::Println => (out + display_all(m, args) + seq!['\n'], Ok(ValueView::Null)),
        Builtin::Range => (out, range_spec(args)),
        Builtin::RangeStep => (out, range_step_spec(args)),
    }
}

/// The value that a name is bound to.
pub open spec fn lookup_name(w: World, name: Seq<char>) -> Outcome<ValueView> {
    if w.env.contains_key(name) {
        done(w, w.env[name])
    } else {
        fail(w, ErrorView::Undefined { name })
    }
}

/// A class definition binds the class under its name, unless its name or
/// the name of one of its fields is a reserved word.
pub open spec fn define_class(cx: Setting, w: World, class: UserClass) -> Outcome<ValueView> {
    let fields = field_views(class.fields@);
    if cx.keywords.contains(class.name@) {
        fail(w, ErrorView::Keyword { word: class.name@ })
    } else {
        match reserved_field(cx.keywords, fields) {
            Some(k) => fail(w, ErrorView::Keyword { word: fields[k].name }),
            None => done(
                World {
                    env: w.env.insert(
                        class.name@,
                        ValueView::Object {
                            name: class.name@,
                            fields,
                            init: class.init,
                            methods: class.methods,
                            parent_class: option_text(class.parent),
                        },
                    ),
                    out: w.out,
                },
                ValueView::Null,
            ),
        }
    }
}

/// Reading `name.field`: a private field can be read only through `this`.
pub open spec fn read_field(w: World, name: Seq<char>, field: Seq<char>) -> Outcome<ValueView> {
    if !w.env.contains_key(name) {
        fail(w, ErrorView::Undefined { name })
    } else {
        match w.env[name] {
            ValueView::Object { fields, .. } => match readable_field(fields, field, name == "this"@) {
                Some(k) => done(w, fields[k].value),
                None => fail(w, ErrorView::NoAccess { field }),
            },
            _ => fail(w, ErrorView::NotAnObject { name }),
        }
    }
}

/// Writing `name.field`. Through `this` the field is the binding of that
/// name, which must exist. Otherwise the object bound to `name` is bound
/// anew with the field changed; a private field cannot be written.
pub open spec fn assign_field(w: World, name: Seq<char>, field: Seq<char>, value: ValueView)
    -> Outcome<()> {
    if name == "this"@ {
        if w.env.contains_key(field) {
            done(World { env: w.env.insert(field, value), out: w.out }, ())
        } else {
            fail(w, ErrorView::NoSuchField { field })
        }
    } else if !w.env.contains_key(name) {
        fail(w, ErrorView::Undefined { name })
    } else {
        match w.env[name] {
            ValueView::Object { name: class, fields, init, methods, parent_class } => {
                match field_index(fields, field) {
                    None => fail(w, ErrorView::NoSuchField { field }),
                    Some(k) => if fields[k].is_private {
                        fail(w, ErrorView::PrivateField)
                    } else {
                        done(
                            World {
                                env: w.env.insert(
                                    name,
                                    ValueView::Object {
                                        name: class,
                                        fields: fields.update(
                                            k,
                                            FieldView { name: field, is_private: false, value },
                                        ),
                                        init,
                                        methods,
                                        parent_class,
                                    },
                                ),
                                out: w.out,
                            },
                            (),
                        )
                    },
                }
            },
            _ => fail(w, ErrorView::NotAnObject { name }),
        }
    }
}

/// The parent class of a class that names one: it must be bound to an object.
pub open spec fn parent_of(env: Map<Seq<char>, ValueView>, parent_class: Option<Seq<char>>)
    -> Result<Option<ValueView>, ErrorView> {
    match parent_class {
        None => Ok(None),
        Some(p) => if !env.contains_key(p) {
            Err(ErrorView::Undefined { name: p })
        } else if env[p] is Object {
            Ok(Some(env[p]))
        } else {
            Err(ErrorView::NotAnObject { name: p })
        },
    }
}

/// Whether target `k` of a list pattern is the one that packs: the last
/// target, where there are more values than targets.
pub open spec fn packs(k: int, targets: nat, values: nat) -> bool {
    k == targets - 1 && targets < values
}

/// What is wrong with the first of `targets[from..]` that is not in
/// order, if any is: the packing target must be marked as a pack, and no
/// other target may be a spread.
pub open spec fn check_targets(targets: Seq<ListItem>, values: nat, from: nat) -> Option<ErrorView>
    decreases targets.len() - from,
{
    if from >= targets.len() {
        None
    } else if packs(from as int, targets.len(), values) {
        if targets[from as int].is_pack {
            None
        } else {
            Some(ErrorView::Destructure { values, targets: targets.len() })
        }
    } else if targets[from as int].is_spread {
        Some(ErrorView::SpreadInAssignment)
    } else {
        check_targets(targets, values, from + 1)
    }
}

/// Whether every target of a list pattern is a name.
pub open spec fn names_only(targets: Seq<ListItem>) -> bool {
    forall|k: int| 0 <= k < targets.len() ==> (#[trigger] targets[k]).expression is Identifier
}

/// Whether a list pattern can take `values` values: it has no more
/// targets than there are values, it has a target where there is a value,
/// and its targets are in order.
pub open spec fn fits(targets: Seq<ListItem>, values: nat) -> bool {
    &&& targets.len() <= values
    &&& targets.len() > 0 || values == 0
    &&& check_targets(targets, values, 0) is None
}

/// Whether an expression is of a form that changes no binding where it is
/// evaluated: it holds no compound assignment, no class definition and no
/// call of `super`, but in an index, in a comprehension or among the
/// arguments of a constructor or method, which are evaluated on a copy of
/// the bindings.
pub open spec fn binds_nothing(e: Expression) -> bool
    decreases e,
{
    match e {
        Expression::Prefix { .. } => false,
        Expression::ClassDef { .. } => false,
        Expression::Call { function, arguments } => function@ != "super"@ && forall|i: int|
            0 <= i < arguments@.len() ==> binds_nothing(#[trigger] arguments@[i]),
        Expression::Operation { lhs, rhs, .. } => binds_nothing(*lhs) && binds_nothing(*rhs),
        Expression::List { items } => forall|i: int|
            0 <= i < items@.len() ==> binds_nothing((#[trigger] items@[i]).expression),
        _ => true,
    }
}

/// Whether each of `exprs` binds nothing.
pub open spec fn all_bind_nothing(exprs: Seq<Expression>) -> bool {
    forall|i: int| 0 <= i < exprs.len() ==> binds_nothing(#[trigger] exprs[i])
}

/// Whether the expression of each of `items` binds nothing.
pub open spec fn items_bind_nothing(items: Seq<ListItem>) -> bool {
    forall|i: int| 0 <= i < items.len() ==> binds_nothing((#[trigger] items[i]).expression)
}

/// An outcome with its value forgotten.
pub open spec fn forget<T>(r: Outcome<T>) -> Outcome<()> {
    Outcome {
        world: r.world,
        result: match r.result {
            Ok(_) => Ok(()),
            Err(e) => Err(e),
        },
    }
}

/// An outcome whose values are made into a list.
pub open spec fn as_list(r: Outcome<Seq<ValueView>>) -> Outcome<ValueView> {
    Outcome {
        world: r.world,
        result: match r.result {
            Ok(e) => Ok(ValueView::List { e }),
            Err(e) => Err(e),
        },
    }
}

/// `r` with the bindings of `w` in place of its own: what was done to a
/// copy of the environment is dropped, what was printed stays.
pub open spec fn back_in<T>(w: World, r: Outcome<T>) -> Outcome<T> {
    Outcome { world: World { env: w.env, out: r.world.out }, result: r.result }
}

/// A program is its statements in order.
pub open spec fn eval_program(cx: Setting, importing: bool, fuel: nat, w: World, program: Program)
    -> Outcome<()> {
    match program {
        Program::Body { statements } => eval_statements(cx, importing, fuel, w, statements@, 0),
    }
}

/// The statements `stmts[from..]` in order, up to the first that fails.
pub open spec fn eval_statements(
    cx: Setting,
    importing: bool,
    fuel: nat,
    w: World,
    stmts: Seq<Statement>,
    from: nat,
) -> Outcome<()>
    decreases fuel, 1nat, stmts.len() - from,
{
    if from >= stmts.len() {
        done(w, ())
    } else {
        let r = eval_statement(cx, importing, fuel, w, stmts[from as int]);
        match r.result {
            Err(e) => fail(r.world, e),
            Ok(_) => eval_statements(cx, importing, fuel, r.world, stmts, from + 1),
        }
    }
}

/// What a statement does. An `import` runs the module of that path on
/// the bindings of the importer, in import mode. An expression is
/// evaluated and its value dropped. An assignment evaluates its right-hand
/// side, then assigns. A compound assignment reads the name before it
/// evaluates the right-hand side, and binds the name to the result of the
/// operator, which must have one. A `for` loop takes a list literal, a
/// name or a call, which must evaluate to a list. A function definition
/// binds a name that is not bound yet.
pub open spec fn eval_statement(cx: Setting, importing: bool, fuel: nat, w: World, s: Statement)
    -> Outcome<()>
    decreases fuel, 0nat, 0nat,
{
    if fuel == 0 {
        fail(w, ErrorView::Exhausted)
    } else {
        let f = (fuel - 1) as nat;
        match s {
            Statement::Import { path } => match module_index(cx.modules, path@) {
                None => fail(w, ErrorView::Unloaded { path: path@ }),
                Some(k) => match cx.modules[k].program {
                    None => fail(w, ErrorView::Import { path: cx.modules[k].tried@ }),
                    Some(Program::Body { statements }) => eval_statements(
                        cx,
                        true,
                        f,
                        w,
                        statements@,
                        0,
                    ),
                },
            },
            Statement::Expression { expression } => forget(
                eval_expression(cx, importing, f, w, expression),
            ),
            Statement::Assignment { lhs, rhs } => {
                let r = eval_expression(cx, importing, f, w, rhs);
                match r.result {
                    Err(e) => fail(r.world, e),
                    Ok(v) => assign(cx, importing, f, r.world, lhs, v),
                }
            },
            Statement::OperatorAssignment { name, operator, rhs } => {
                if !w.env.contains_key(name@) {
                    fail(w, ErrorView::Undefined { name: name@ })
                } else {
                    let r = eval_expression(cx, importing, f, w, rhs);
                    match r.result {
                        Err(e) => fail(r.world, e),
                        Ok(v) => match operate_spec(cx.model, operator, w.env[name@], v) {
                            Err(e) => fail(r.world, e),
                            Ok(nv) => if nv is Null {
                                fail(r.world, ErrorView::CannotOperate { name: name@ })
                            } else {
                                done(
                                    World { env: r.world.env.insert(name@, nv), out: r.world.out },
                                    (),
                                )
                            },
                        },
                    }
                }
            },
            Statement::If { params } => if_chain(cx, importing, f, w, params, 0),
            Statement::While { condition, statements } => while_rounds(
                cx,
                importing,
                f,
                w,
                condition,
                statements@,
                fuel,
            ),
            Statement::For { params } => match params.iterate_expression {
                Expression::List { .. } | Expression::Identifier { .. } | Expression::Call { .. } => {
                    let r = eval_expression(cx, importing, f, w, params.iterate_expression);
                    match r.result {
                        Err(e) => fail(r.world, e),
                        Ok(v) => match v {
                            ValueView::List { e } => for_each(
                                cx,
                                importing,
                                f,
                                r.world,
                                params.loop_var@,
                                params.statements@,
                                e,
                                0,
                            ),
                            _ => fail(r.world, ErrorView::InvalidType),
                        },
                    }
                },
                _ => fail(w, ErrorView::NotIterable),
            },
            Statement::FunctionDefinition { name, arguments, statements, return_expression } => {
                if w.env.contains_key(name@) {
                    fail(w, ErrorView::AlreadyDefined { name: name@ })
                } else {
                    done(
                        World {
                            env: w.env.insert(
                                name@,
                                ValueView::UserDefFunction {
                                    name: name@,
                                    statements,
                                    arguments,
                                    return_expression,
                                },
                            ),
                            out: w.out,
                        },
                        (),
                    )
                }
            },
        }
    }
}

/// The condition of arm `k` of an `if`: arm 0 is the `if` itself, arm `k`
/// its `k`-th `elif`.
pub open spec fn arm_condition(params: IfBranch, k: nat) -> Expression {
    if k == 0 {
        params.condition
    } else {
        params.elif_data.0@[k - 1]
    }
}

/// The body of arm `k` of an `if`; an `elif` without a body has an empty one.
pub open spec fn arm_body(params: IfBranch, k: nat) -> Seq<Statement> {
    if k == 0 {
        params.statements@
    } else if k - 1 < params.elif_data.1@.len() {
        params.elif_data.1@[k - 1]@
    } else {
        Seq::empty()
    }
}

/// An `if` from arm `k` on: the first arm whose condition is true runs;
/// where none is, the `else` body runs, if there is one. A condition that
/// is no boolean fails.
pub open spec fn if_chain(cx: Setting, importing: bool, fuel: nat, w: World, params: IfBranch, k: nat)
    -> Outcome<()>
    decreases fuel, 2nat, params.elif_data.0@.len() + 1 - k,
{
    if k > params.elif_data.0@.len() {
        match params.else_statements {
            Some(body) => eval_statements(cx, importing, fuel, w, body@, 0),
            None => done(w, ()),
        }
    } else {
        let r = eval_expression(cx, importing, fuel, w, arm_condition(params, k));
        match r.result {
            Err(e) => fail(r.world, e),
            Ok(v) => match v {
                ValueView::Bool { b } => if b {
                    eval_statements(cx, importing, fuel, r.world, arm_body(params, k), 0)
                } else {
                    if_chain(cx, importing, fuel, r.world, params, k + 1)
                },
                _ => fail(r.world, ErrorView::ConditionNotBool),
            },
        }
    }
}

/// A `while` loop that may still run `rounds` rounds.
pub open spec fn while_rounds(
    cx: Setting,
    importing: bool,
    fuel: nat,
    w: World,
    condition: Expression,
    body: Seq<Statement>,
    rounds: nat,
) -> Outcome<()>
    decreases fuel, 2nat, rounds,
{
    if rounds == 0 {
        fail(w, ErrorView::Exhausted)
    } else {
        let r = eval_expression(cx, importing, fuel, w, condition);
        match r.result {
            Err(e) => fail(r.world, e),
            Ok(v) => match v {
                ValueView::Bool { b } => if !b {
                    done(r.world, ())
                } else {
                    let s = eval_statements(cx, importing, fuel, r.world, body, 0);
                    match s.result {
                        Err(e) => fail(s.world, e),
                        Ok(_) => while_rounds(
                            cx,
                            importing,
                            fuel,
                            s.world,
                            condition,
                            body,
                            (rounds - 1) as nat,
                        ),
                    }
                },
                _ => fail(r.world, ErrorView::ConditionNotBool),
            },
        }
    }
}

/// A `for` loop over `items[from..]`: each is bound to `var`, then the body runs.
pub open spec fn for_each(
    cx: Setting,
    importing: bool,
    fuel: nat,
    w: World,
    var: Seq<char>,
    body: Seq<Statement>,
    items: Seq<ValueView>,
    from: nat,
) -> Outcome<()>
    decreases fuel, 2nat, items.len() - from,
{
    if from >= items.len() {
        done(w, ())
    } else {
        let s = eval_statements(
            cx,
            importing,
            fuel,
            World { env: w.env.insert(var, items[from as int]), out: w.out },
            body,
            0,
        );
        match s.result {
            Err(e) => fail(s.world, e),
            Ok(_) => for_each(cx, importing, fuel, s.world, var, body, items, from + 1),
        }
    }
}

/// The expressions `exprs[from..]` in order; their values follow `acc`.
pub open spec fn eval_expressions(
    cx: Setting,
    importing: bool,
    fuel: nat,
    w: World,
    exprs: Seq<Expression>,
    from: nat,
    acc: Seq<ValueView>,
) -> Outcome<Seq<ValueView>>
    decreases fuel, 1nat, exprs.len() - from,
{
    if from >= exprs.len() {
        done(w, acc)
    } else {
        let r = eval_expression(cx, importing, fuel, w, exprs[from as int]);
        match r.result {
            Err(e) => fail(r.world, e),
            Ok(v) => eval_expressions(cx, importing, fuel, r.world, exprs, from + 1, acc.push(v)),
        }
    }
}

/// The items `items[from..]` of a list literal in order: the value of a
/// plain item follows `acc`; of a spread item, which must be a list, its
/// elements do.
pub open spec fn list_items(
    cx: Setting,
    importing: bool,
    fuel: nat,
    w: World,
    items: Seq<ListItem>,
    from: nat,
    acc: Seq<ValueView>,
) -> Outcome<Seq<ValueView>>
    decreases fuel, 1nat, items.len() - from,
{
    if from >= items.len() {
        done(w, acc)
    } else {
        let r = eval_expression(cx, importing, fuel, w, items[from as int].expression);
        match r.result {
            Err(e) => fail(r.world, e),
            Ok(v) => if !items[from as int].is_spread {
                list_items(cx, importing, fuel, r.world, items, from + 1, acc.push(v))
            } else {
                match v {
                    ValueView::List { e } => list_items(
                        cx,
                        importing,
                        fuel,
                        r.world,
                        items,
                        from + 1,
                        acc + e,
                    ),
                    _ => fail(r.world, ErrorView::SpreadNonList),
                }
            },
        }
    }
}

/// A comprehension over `items[from..]`: each is bound to `var`, then
/// `body` is evaluated; the values follow `acc`.
pub open spec fn comprehend(
    cx: Setting,
    importing: bool,
    fuel: nat,
    w: World,
    body: Expression,
    var: Seq<char>,
    items: Seq<ValueView>,
    from: nat,
    acc: Seq<ValueView>,
) -> Outcome<Seq<ValueView>>
    decreases fuel, 1nat, items.len() - from,
{
    if from >= items.len() {
        done(w, acc)
    } else {
        let r = eval_expression(
            cx,
            importing,
            fuel,
            World { env: w.env.insert(var, items[from as int]), out: w.out },
            body,
        );
        match r.result {
            Err(e) => fail(r.world, e),
            Ok(v) => comprehend(cx, importing, fuel, r.world, body, var, items, from + 1, acc.push(v)),
        }
    }
}

/// The arguments `arguments[from..]` of a constructor or method, each
/// bound in `local` under its parameter's name. The arguments are
/// evaluated on a copy of the caller's bindings: one copy for all of them
/// where `shared` holds, a fresh one for each where it does not.
pub open spec fn bind_arguments(
    cx: Setting,
    importing: bool,
    fuel: nat,
    w: World,
    local: Map<Seq<char>, ValueView>,
    params: Seq<Seq<char>>,
    arguments: Seq<Expression>,
    from: nat,
    shared: bool,
) -> Outcome<Map<Seq<char>, ValueView>>
    decreases fuel, 1nat, arguments.len() - from,
{
    if from >= arguments.len() || from >= params.len() {
        done(w, local)
    } else {
        let r = eval_expression(cx, importing, fuel, w, arguments[from as int]);
        let next = if shared {
            r.world
        } else {
            World { env: w.env, out: r.world.out }
        };
        match r.result {
            Err(e) => fail(next, e),
            Ok(v) => bind_arguments(
                cx,
                importing,
                fuel,
                next,
                local.insert(params[from as int], v),
                params,
                arguments,
                from + 1,
                shared,
            ),
        }
    }
}

/// The body of a method in its own bindings `local`, then its return
/// expression there. The caller's bindings, those of `w`, stay as they are.
pub open spec fn run_method(
    cx: Setting,
    importing: bool,
    fuel: nat,
    w: World,
    local: Map<Seq<char>, ValueView>,
    method: ClassMethod,
) -> Outcome<ValueView>
    decreases fuel, 2nat, 0nat,
{
    let run = eval_statements(
        cx,
        importing,
        fuel,
        World { env: local, out: w.out },
        method.statements@,
        0,
    );
    match run.result {
        Err(e) => fail(World { env: w.env, out: run.world.out }, e),
        Ok(_) => match method.return_exp {
            None => done(World { env: w.env, out: run.world.out }, ValueView::Null),
            Some(e) => back_in(w, eval_expression(cx, importing, fuel, run.world, e)),
        },
    }
}

/// `name.method(arguments)`. Through `super` the method is looked up on
/// the parent instance that `super` is bound to, and runs on the caller's
/// bindings of the parent's fields. Otherwise it is looked up on the
/// object bound to `name`, a private method only through `this`, and runs
/// on the fields of that object, with the object bound to `this`.
pub open spec fn call_method(
    cx: Setting,
    importing: bool,
    fuel: nat,
    w: World,
    name: Seq<char>,
    method: Seq<char>,
    arguments: Seq<Expression>,
) -> Outcome<ValueView>
    decreases fuel, 2nat, 1nat,
{
    if name == "super"@ {
        if !w.env.contains_key(name) {
            fail(w, ErrorView::NoParent)
        } else {
            match w.env[name] {
                ValueView::Object { methods, fields, .. } => match method_index(
                    methods@,
                    method,
                    true,
                ) {
                    None => fail(w, ErrorView::NoSuchMethod { method }),
                    Some(k) => {
                        let md = methods@[k].1;
                        if arguments.len() != md.arguments@.len() {
                            fail(
                                w,
                                ErrorView::Arity {
                                    expected: md.arguments@.len(),
                                    got: arguments.len(),
                                },
                            )
                        } else {
                            let a = back_in(
                                w,
                                bind_arguments(
                                    cx,
                                    importing,
                                    fuel,
                                    w,
                                    Map::empty(),
                                    texts(md.arguments@),
                                    arguments,
                                    0,
                                    false,
                                ),
                            );
                            match a.result {
                                Err(e) => fail(a.world, e),
                                Ok(local) => match carry_over(w.env, local, fields, 0) {
                                    Err(e) => fail(a.world, e),
                                    Ok(all) => run_method(
                                        cx,
                                        importing,
                                        fuel,
                                        a.world,
                                        with_builtins(all),
                                        md,
                                    ),
                                },
                            }
                        }
                    },
                },
                _ => fail(w, ErrorView::NotAnObject { name }),
            }
        }
    } else if !w.env.contains_key(name) {
        fail(w, ErrorView::Undefined { name })
    } else {
        match w.env[name] {
            ValueView::Object { methods, fields, .. } => match method_index(
                methods@,
                method,
                name == "this"@,
            ) {
                None => fail(w, ErrorView::NoSuchMethod { method }),
                Some(k) => {
                    let md = methods@[k].1;
                    if arguments.len() != md.arguments@.len() {
                        fail(
                            w,
                            ErrorView::Arity { expected: md.arguments@.len(), got: arguments.len() },
                        )
                    } else {
                        let a = back_in(
                            w,
                            bind_arguments(
                                cx,
                                importing,
                                fuel,
                                w,
                                with_builtins(Map::empty()).insert("this"@, w.env[name]),
                                texts(md.arguments@),
                                arguments,
                                0,
                                true,
                            ),
                        );
                        match a.result {
                            Err(e) => fail(a.world, e),
                            Ok(local) => run_method(
                                cx,
                                importing,
                                fuel,
                                a.world,
                                bind_fields(local, fields, 0),
                                md,
                            ),
                        }
                    }
                },
            },
            _ => fail(w, ErrorView::NotAnObject { name }),
        }
    }
}

/// A new instance of the class bound to `class_name`. A class without a
/// constructor gives a copy of itself, whatever the arguments. Otherwise
/// the constructor runs on bindings of its own: the parent class under
/// `super` where the class names one, the arguments under the parameters'
/// names, the fields with their default values. The instance has each
/// field with the value it is bound to afterwards; where there is a
/// parent, so for the parent's fields, and the parent itself as the
/// private field `super`.
pub open spec fn create_object(
    cx: Setting,
    importing: bool,
    fuel: nat,
    w: World,
    class_name: Seq<char>,
    arguments: Seq<Expression>,
) -> Outcome<ValueView>
    decreases fuel, 2nat, 0nat,
{
    if !w.env.contains_key(class_name) {
        fail(w, ErrorView::Undefined { name: class_name })
    } else {
        match w.env[class_name] {
            ValueView::Object { name, fields, init, methods, parent_class } => {
                if init.name is None {
                    done(w, w.env[class_name])
                } else {
                    let params = match init.arguments {
                        Some(a) => texts(a@),
                        None => Seq::empty(),
                    };
                    let body = match init.statements {
                        Some(s) => s@,
                        None => Seq::empty(),
                    };
                    match parent_of(w.env, parent_class) {
                        Err(e) => fail(w, e),
                        Ok(parent) => {
                            if params.len() != arguments.len() {
                                fail(
                                    w,
                                    ErrorView::Arity {
                                        expected: params.len(),
                                        got: arguments.len(),
                                    },
                                )
                            } else {
                                let base = match parent {
                                    Some(p) => Map::empty().insert("super"@, p),
                                    None => Map::empty(),
                                };
                                let a = back_in(
                                    w,
                                    bind_arguments(
                                        cx,
                                        importing,
                                        fuel,
                                        w,
                                        base,
                                        params,
                                        arguments,
                                        0,
                                        false,
                                    ),
                                );
                                match a.result {
                                    Err(e) => fail(a.world, e),
                                    Ok(local) => {
                                        let run = eval_statements(
                                            cx,
                                            importing,
                                            fuel,
                                            World {
                                                env: bind_fields(local, fields, 0),
                                                out: a.world.out,
                                            },
                                            body,
                                            0,
                                        );
                                        let after = World { env: w.env, out: run.world.out };
                                        match run.result {
                                            Err(e) => fail(after, e),
                                            Ok(_) => match instance_fields(
                                                run.world.env,
                                                fields,
                                                parent,
                                            ) {
                                                Err(e) => fail(after, e),
                                                Ok(all) => done(
                                                    after,
                                                    ValueView::Object {
                                                        name,
                                                        fields: all,
                                                        init,
                                                        methods,
                                                        parent_class,
                                                    },
                                                ),
                                            },
                                        }
                                    },
                                }
                            }
                        },
                    }
                }
            },
            _ => fail(w, ErrorView::NotAnObject { name: class_name }),
        }
    }
}

/// The fields of a new instance, read from the bindings `local` that its
/// constructor left: the class's own, then the parent's, then the parent
/// itself as the private field `super`.
pub open spec fn instance_fields(
    local: Map<Seq<char>, ValueView>,
    fields: Seq<FieldView>,
    parent: Option<ValueView>,
) -> Result<Seq<FieldView>, ErrorView> {
    match read_back(local, fields, Seq::empty(), 0) {
        Err(e) => Err(e),
        Ok(own) => match parent {
            None => Ok(own),
            Some(p) => match p {
                ValueView::Object { fields: inherited, .. } => match read_back(
                    local,
                    inherited,
                    own,
                    0,
                ) {
                    Err(e) => Err(e),
                    Ok(all) => Ok(
                        field_put(all, FieldView { name: "super"@, is_private: true, value: p }),
                    ),
                },
                _ => Err(ErrorView::NotAnObject { name: "super"@ }),
            },
        },
    }
}

/// `function(arguments)`. The arguments are evaluated first. A built-in
/// function is applied to them, except that the two that print do nothing
/// while a module is imported. A user function runs its body on a copy of
/// the caller's bindings with the parameters bound, and its return
/// expression on another copy of the caller's bindings: the caller's own
/// bindings stay as the arguments left them. A call of `super`, where that
/// is bound to an object, makes an instance of the parent and binds each of
/// its fields in the caller's bindings.
pub open spec fn eval_call(
    cx: Setting,
    importing: bool,
    fuel: nat,
    w: World,
    function: Seq<char>,
    arguments: Seq<Expression>,
) -> Outcome<ValueView>
    decreases fuel, 3nat, 0nat,
{
    let a = eval_expressions(cx, importing, fuel, w, arguments, 0, Seq::empty());
    match a.result {
        Err(e) => fail(a.world, e),
        Ok(vals) => if !a.world.env.contains_key(function) {
            fail(a.world, ErrorView::Undefined { name: function })
        } else {
            match a.world.env[function] {
                ValueView::Function { f, .. } => if importing && (f == Builtin::Print || f
                    == Builtin::Println) {
                    done(a.world, ValueView::Null)
                } else {
                    let (out, result) = call_builtin(cx.model, f, vals, a.world.out);
                    Outcome { world: World { env: a.world.env, out }, result }
                },
                ValueView::UserDefFunction { statements, arguments: params, return_expression, .. } => {
                    if vals.len() != params@.len() {
                        fail(
                            a.world,
                            ErrorView::Arity { expected: params@.len(), got: vals.len() },
                        )
                    } else {
                        let run = back_in(
                            a.world,
                            eval_statements(
                                cx,
                                importing,
                                fuel,
                                World {
                                    env: bind_all(a.world.env, texts(params@), vals, 0),
                                    out: a.world.out,
                                },
                                statements@,
                                0,
                            ),
                        );
                        match run.result {
                            Err(e) => fail(run.world, e),
                            Ok(_) => match *return_expression {
                                None => done(run.world, ValueView::Null),
                                Some(e) => back_in(
                                    a.world,
                                    eval_expression(cx, importing, fuel, run.world, e),
                                ),
                            },
                        }
                    }
                },
                ValueView::Object { .. } => if function != "super"@ {
                    fail(a.world, ErrorView::NotAFunction { name: function })
                } else {
                    let c = create_object(cx, importing, fuel, a.world, function, arguments);
                    match c.result {
                        Err(e) => fail(c.world, e),
                        Ok(instance) => match instance {
                            ValueView::Object { fields, .. } => done(
                                World { env: bind_fields(c.world.env, fields, 0), out: c.world.out },
                                ValueView::Null,
                            ),
                            _ => fail(c.world, ErrorView::NotAnObject { name: function }),
                        },
                    }
                },
                _ => fail(a.world, ErrorView::NotAFunction { name: function }),
            }
        },
    }
}

/// The value of an expression. A literal is its own value, a name the
/// value it is bound to. An operation evaluates its left operand, then
/// its right one, and applies the operator, which must have a result
/// other than `Null`. A compound assignment in the place of an expression
/// reads the name first, binds it to the result and gives the result.
/// An index is evaluated on a copy of the bindings, and must be an
/// integer; it reads a list or a text. A comprehension runs on a copy of
/// the bindings.
pub open spec fn eval_expression(cx: Setting, importing: bool, fuel: nat, w: World, e: Expression)
    -> Outcome<ValueView>
    decreases fuel, 0nat, 0nat,
{
    if fuel == 0 {
        fail(w, ErrorView::Exhausted)
    } else {
        let f = (fuel - 1) as nat;
        match e {
            Expression::Int { v } => done(w, ValueView::Int { v }),
            Expression::String { s } => done(w, ValueView::Str { s: s@ }),
            Expression::Boolean { b } => done(w, ValueView::Bool { b }),
            Expression::Float { bits } => done(w, ValueView::Float { bits }),
            Expression::Character { c } => done(w, ValueView::Char { c }),
            Expression::Identifier { name } => lookup_name(w, name@),
            Expression::Call { function, arguments } => eval_call(
                cx,
                importing,
                f,
                w,
                function@,
                arguments@,
            ),
            Expression::Operation { lhs, rhs, operator } => {
                let l = eval_expression(cx, importing, f, w, *lhs);
                match l.result {
                    Err(e) => fail(l.world, e),
                    Ok(lv) => {
                        let r = eval_expression(cx, importing, f, l.world, *rhs);
                        match r.result {
                            Err(e) => fail(r.world, e),
                            Ok(rv) => match operate_spec(cx.model, operator, lv, rv) {
                                Err(e) => fail(r.world, e),
                                Ok(v) => if v is Null {
                                    fail(r.world, ErrorView::InvalidOperation)
                                } else {
                                    done(r.world, v)
                                },
                            },
                        }
                    },
                }
            },
            Expression::List { items } => as_list(
                list_items(cx, importing, f, w, items@, 0, Seq::empty()),
            ),
            Expression::Prefix { name, operator, rhs } => {
                if !w.env.contains_key(name@) {
                    fail(w, ErrorView::Undefined { name: name@ })
                } else {
                    let r = eval_expression(cx, importing, f, w, *rhs);
                    match r.result {
                        Err(e) => fail(r.world, e),
                        Ok(v) => match operate_spec(cx.model, operator, w.env[name@], v) {
                            Err(e) => fail(r.world, e),
                            Ok(nv) => if nv is Null {
                                fail(r.world, ErrorView::CannotOperate { name: name@ })
                            } else {
                                done(
                                    World { env: r.world.env.insert(name@, nv), out: r.world.out },
                                    nv,
                                )
                            },
                        },
                    }
                }
            },
            Expression::Index { name, idx_exp } => {
                if !w.env.contains_key(name@) {
                    fail(w, ErrorView::Undefined { name: name@ })
                } else {
                    let r = back_in(w, eval_expression(cx, importing, f, w, *idx_exp));
                    match r.result {
                        Err(e) => fail(r.world, e),
                        Ok(iv) => match iv {
                            ValueView::Int { v: idx } => match elements(w.env[name@]) {
                                None => fail(r.world, ErrorView::NotIterable),
                                Some(items) => match read_position(idx as int, items.len()) {
                                    None => fail(
                                        r.world,
                                        ErrorView::OutOfBounds { index: idx as int },
                                    ),
                                    Some(p) => done(r.world, items[p]),
                                },
                            },
                            _ => fail(r.world, ErrorView::IndexNotInt),
                        },
                    }
                }
            },
            Expression::Comprehension { iterate_exp, var, control_exp } => {
                let c = eval_expression(cx, importing, f, w, *control_exp);
                match c.result {
                    Err(e) => fail(World { env: w.env, out: c.world.out }, e),
                    Ok(cv) => match elements(cv) {
                        None => fail(World { env: w.env, out: c.world.out }, ErrorView::NotIterable),
                        Some(items) => back_in(
                            w,
                            as_list(
                                comprehend(
                                    cx,
                                    importing,
                                    f,
                                    c.world,
                                    *iterate_exp,
                                    var@,
                                    items,
                                    0,
                                    Seq::empty(),
                                ),
                            ),
                        ),
                    },
                }
            },
            Expression::ClassDef { params } => define_class(cx, w, *params),
            Expression::FieldAccess { name, field } => read_field(w, name@, field@),
            Expression::ObjectCreation { class_name, arguments } => create_object(
                cx,
                importing,
                f,
                w,
                class_name@,
                arguments@,
            ),
            Expression::MethodCall { name, method, arguments } => call_method(
                cx,
                importing,
                f,
                w,
                name@,
                method@,
                arguments@,
            ),
        }
    }
}

/// Assigning `value` to the place that `lhs` denotes: a name (`_` takes
/// the value and binds nothing), a list pattern, an element of a list, a
/// field of an object. No other expression denotes a place.
pub open spec fn assign(
    cx: Setting,
    importing: bool,
    fuel: nat,
    w: World,
    lhs: Expression,
    value: ValueView,
) -> Outcome<()>
    decreases fuel, 0nat, 0nat,
{
    if fuel == 0 {
        fail(w, ErrorView::Exhausted)
    } else {
        let f = (fuel - 1) as nat;
        match lhs {
            Expression::Identifier { name } => if name@ == "_"@ {
                done(w, ())
            } else {
                done(World { env: w.env.insert(name@, value), out: w.out }, ())
            },
            Expression::List { items } => match value {
                ValueView::List { e } => assign_list(cx, importing, f, w, items@, e),
                _ => fail(w, ErrorView::NotAList),
            },
            Expression::Index { name, idx_exp } => {
                if !w.env.contains_key(name@) {
                    fail(w, ErrorView::Undefined { name: name@ })
                } else {
                    let r = back_in(w, eval_expression(cx, importing, f, w, *idx_exp));
                    match r.result {
                        Err(e) => fail(r.world, e),
                        Ok(iv) => match w.env[name@] {
                            ValueView::List { e } => match iv {
                                ValueView::Int { v: idx } => match read_position(
                                    idx as int,
                                    e.len(),
                                ) {
                                    None => fail(
                                        r.world,
                                        ErrorView::OutOfBounds { index: idx as int },
                                    ),
                                    Some(p) => done(
                                        World {
                                            env: w.env.insert(
                                                name@,
                                                ValueView::List { e: e.update(p, value) },
                                            ),
                                            out: r.world.out,
                                        },
                                        (),
                                    ),
                                },
                                _ => fail(r.world, ErrorView::IndexNotInt),
                            },
                            ValueView::Str { .. } => fail(r.world, ErrorView::CannotAssign),
                            _ => fail(r.world, ErrorView::NotIndexable),
                        },
                    }
                }
            },
            Expression::FieldAccess { name, field } => assign_field(w, name@, field@, value),
            _ => fail(w, ErrorView::CannotAssign),
        }
    }
}

/// The value that target `k` of a list pattern takes: the packing target a
/// list of all values from its place on, any other the value at its place.
pub open spec fn target_value(values: Seq<ValueView>, targets: nat, k: int) -> ValueView {
    if packs(k, targets, values.len()) {
        ValueView::List { e: values.subrange(k, values.len() as int) }
    } else {
        values[k]
    }
}

/// Assigning the list `values` to the list pattern `targets`. There may
/// not be more targets than values; where there are fewer, the last target
/// must be a pack. The targets are checked before anything is assigned.
pub open spec fn assign_list(
    cx: Setting,
    importing: bool,
    fuel: nat,
    w: World,
    targets: Seq<ListItem>,
    values: Seq<ValueView>,
) -> Outcome<()>
    decreases fuel, 2nat, 0nat,
{
    if targets.len() > values.len() || (targets.len() == 0 && values.len() > 0) {
        fail(w, ErrorView::Destructure { values: values.len(), targets: targets.len() })
    } else {
        match check_targets(targets, values.len(), 0) {
            Some(e) => fail(w, e),
            None => assign_targets(cx, importing, fuel, w, targets, values, 0),
        }
    }
}

/// The targets `targets[from..]` of a list pattern, each assigned its value, in order.
pub open spec fn assign_targets(
    cx: Setting,
    importing: bool,
    fuel: nat,
    w: World,
    targets: Seq<ListItem>,
    values: Seq<ValueView>,
    from: nat,
) -> Outcome<()>
    decreases fuel, 1nat, targets.len() - from,
{
    if from >= targets.len() {
        done(w, ())
    } else {
        let r = assign(
            cx,
            importing,
            fuel,
            w,
            targets[from as int].expression,
            target_value(values, targets.len(), from as int),
        );
        match r.result {
            Err(e) => fail(r.world, e),
            Ok(_) => assign_targets(cx, importing, fuel, r.world, targets, values, from + 1),
        }
    }
}

} // verus!
