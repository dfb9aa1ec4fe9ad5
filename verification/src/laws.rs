//! Laws of evaluation: what holds of every program.

use crate::ast::{Expression, ListItem, Statement};
use crate::display::display_all;
use crate::env::with_builtins;
use crate::lookup::{
    bind_fields, law_field_put_keeps_names_once, law_read_back_keeps_names_once, method_index,
    names_once, read_back,
};
use crate::semantics::instance_fields;
use crate::value::FieldView;
use crate::semantics::{call_builtin, eval_statement, eval_statements, run_method};
use crate::value::Builtin;
use crate::lookup::{elements, range_values, read_position};
use crate::runtime::{done, Setting, World};
use crate::error::ErrorView;
use crate::semantics::{
    all_bind_nothing, assign, assign_list, assign_targets, binds_nothing, call_method,
    check_targets, create_object, eval_call, eval_expression, eval_expressions,
    items_bind_nothing, list_items, names_only, packs, target_value,
};
use crate::value::ValueView;
use vstd::prelude::*;

verus! {

proof fn lemma_check_targets(targets: Seq<ListItem>, values: nat, from: nat)
    ensures
        match check_targets(targets, values, from) {
            None => forall|k: int|
                from <= k < targets.len() ==> if packs(k, targets.len(), values) {
                    targets[k].is_pack
                } else {
                    !targets[k].is_spread
                },
            Some(_) => exists|k: int|
                from <= k < targets.len() && if packs(k, targets.len(), values) {
                    !targets[k].is_pack
                } else {
                    targets[k].is_spread
                },
        },
    decreases targets.len() - from,
{
    if from < targets.len() {
        if packs(from as int, targets.len(), values) {
            if !targets[from as int].is_pack {
                assert(from <= from < targets.len() && !targets[from as int].is_pack);
            } else {
                assert(from == targets.len() - 1);
            }
        } else if targets[from as int].is_spread {
            assert(from <= from < targets.len() && targets[from as int].is_spread);
        } else {
            lemma_check_targets(targets, values, from + 1);
            match check_targets(targets, values, from + 1) {
                None => {},
                Some(_) => {
                    let k = choose|k: int|
                        from + 1 <= k < targets.len() && if packs(k, targets.len(), values) {
                            !targets[k].is_pack
                        } else {
                            targets[k].is_spread
                        };
                    assert(from <= k < targets.len());
                },
            }
        }
    }
}

/// A list pattern with as many targets as there are values, none of them
/// a spread, is assigned target by target: each target takes the value at
/// its own place.
pub proof fn law_destructure_elementwise(
    cx: Setting,
    importing: bool,
    fuel: nat,
    w: World,
    targets: Seq<ListItem>,
    values: Seq<ValueView>,
)
    requires
        targets.len() == values.len(),
        forall|k: int| 0 <= k < targets.len() ==> !targets[k].is_spread,
    ensures
        assign_list(cx, importing, fuel, w, targets, values) == assign_targets(
            cx,
            importing,
            fuel,
            w,
            targets,
            values,
            0,
        ),
        forall|k: int|
            0 <= k < targets.len() ==> target_value(values, targets.len(), k) == values[k],
{
    lemma_check_targets(targets, values.len(), 0);
}

/// The bindings after the names `targets[from..]` have taken the values at
/// their places; `_` takes its value and binds nothing.
pub open spec fn bind_named(
    env: Map<Seq<char>, ValueView>,
    targets: Seq<ListItem>,
    values: Seq<ValueView>,
    from: nat,
) -> Map<Seq<char>, ValueView>
    decreases targets.len() - from,
{
    if from >= targets.len() {
        env
    } else {
        match targets[from as int].expression {
            Expression::Identifier { name } => bind_named(
                if name@ == "_"@ {
                    env
                } else {
                    env.insert(name@, values[from as int])
                },
                targets,
                values,
                from + 1,
            ),
            _ => env,
        }
    }
}

proof fn lemma_assign_names(
    cx: Setting,
    importing: bool,
    fuel: nat,
    w: World,
    targets: Seq<ListItem>,
    values: Seq<ValueView>,
    from: nat,
)
    requires
        fuel >= 1,
        targets.len() == values.len(),
        forall|k: int| 0 <= k < targets.len() ==> targets[k].expression is Identifier,
    ensures
        assign_targets(cx, importing, fuel, w, targets, values, from) == done(
            World { env: bind_named(w.env, targets, values, from), out: w.out },
            (),
        ),
    decreases targets.len() - from,
{
    if from < targets.len() {
        let r = assign(
            cx,
            importing,
            fuel,
            w,
            targets[from as int].expression,
            target_value(values, targets.len(), from as int),
        );
        assert(r.result is Ok);
        lemma_assign_names(cx, importing, fuel, r.world, targets, values, from + 1);
    }
}

/// A pattern of names with as many names as there are values binds each
/// name to the value at its place, in order, and changes nothing else.
pub proof fn law_destructure_binds_names(
    cx: Setting,
    importing: bool,
    fuel: nat,
    w: World,
    targets: Seq<ListItem>,
    values: Seq<ValueView>,
)
    requires
        fuel >= 1,
        targets.len() == values.len(),
        forall|k: int|
            0 <= k < targets.len() ==> targets[k].expression is Identifier
                && !targets[k].is_spread,
    ensures
        assign_list(cx, importing, fuel, w, targets, values) == done(
            World { env: bind_named(w.env, targets, values, 0), out: w.out },
            (),
        ),
{
    law_destructure_elementwise(cx, importing, fuel, w, targets, values);
    lemma_assign_names(cx, importing, fuel, w, targets, values, 0);
}

/// A list pattern with fewer targets than there are values is assigned
/// only if its last target is a pack; that target then takes the list of
/// all values from its place on.
pub proof fn law_destructure_needs_pack(
    cx: Setting,
    importing: bool,
    fuel: nat,
    w: World,
    targets: Seq<ListItem>,
    values: Seq<ValueView>,
)
    requires
        targets.len() < values.len(),
    ensures
        assign_list(cx, importing, fuel, w, targets, values).result is Ok ==> targets.len() > 0
            && targets.last().is_pack,
        targets.len() > 0 ==> target_value(values, targets.len(), targets.len() - 1) == (
        ValueView::List { e: values.subrange(targets.len() - 1, values.len() as int) }),
{
    lemma_check_targets(targets, values.len(), 0);
    if targets.len() > 0 {
        assert(packs(targets.len() - 1, targets.len(), values.len()));
    }
}

/// The name that a target of a list pattern is, where it is one.
pub open spec fn target_name(target: ListItem) -> Seq<char> {
    match target.expression {
        Expression::Identifier { name } => name@,
        _ => Seq::empty(),
    }
}

/// Whether `key` is the name of one of `targets[from..]`.
pub open spec fn named(targets: Seq<ListItem>, from: nat, key: Seq<char>) -> bool {
    exists|k: int| from <= k < targets.len() && target_name(#[trigger] targets[k]) == key
}

/// Whether no two targets are the same name.
pub open spec fn distinct_names(targets: Seq<ListItem>) -> bool {
    forall|i: int, j: int|
        0 <= i < j < targets.len() ==> target_name(#[trigger] targets[i]) != target_name(
            #[trigger] targets[j],
        )
}

proof fn lemma_bind_named(
    env: Map<Seq<char>, ValueView>,
    targets: Seq<ListItem>,
    values: Seq<ValueView>,
    from: nat,
)
    requires
        targets.len() == values.len(),
        names_only(targets),
        distinct_names(targets),
        forall|k: int| 0 <= k < targets.len() ==> target_name(#[trigger] targets[k]) != "_"@,
    ensures
        ({
            let r = bind_named(env, targets, values, from);
            &&& forall|k: int|
                from <= k < targets.len() ==> r.contains_key(target_name(#[trigger] targets[k]))
                    && r[target_name(targets[k])] == values[k]
            &&& forall|key: Seq<char>|
                #[trigger] r.contains_key(key) <==> env.contains_key(key) || named(
                    targets,
                    from,
                    key,
                )
            &&& forall|key: Seq<char>|
                env.contains_key(key) && !named(targets, from, key) ==> #[trigger] r[key]
                    == env[key]
        }),
    decreases targets.len() - from,
{
    if from < targets.len() {
        let n = target_name(targets[from as int]);
        let first = env.insert(n, values[from as int]);
        let r = bind_named(env, targets, values, from);
        assert(targets[from as int].expression is Identifier);
        assert(r == bind_named(first, targets, values, from + 1));
        lemma_bind_named(first, targets, values, from + 1);
        assert(!named(targets, from + 1, n)) by {
            if named(targets, from + 1, n) {
                let k = choose|k: int|
                    from + 1 <= k < targets.len() && target_name(#[trigger] targets[k]) == n;
                assert(target_name(targets[from as int]) != target_name(targets[k]));
            }
        }
        assert(named(targets, from, n));
        assert forall|key: Seq<char>|
            #[trigger] r.contains_key(key) <==> env.contains_key(key) || named(
                targets,
                from,
                key,
            ) by {
            if named(targets, from + 1, key) {
                let k = choose|k: int|
                    from + 1 <= k < targets.len() && target_name(#[trigger] targets[k]) == key;
                assert(from <= k < targets.len() && target_name(targets[k]) == key);
            }
            if named(targets, from, key) && key != n {
                let k = choose|k: int|
                    from <= k < targets.len() && target_name(#[trigger] targets[k]) == key;
                assert(from + 1 <= k < targets.len() && target_name(targets[k]) == key);
            }
        }
        assert forall|key: Seq<char>|
            env.contains_key(key) && !named(targets, from, key) implies #[trigger] r[key]
            == env[key] by {
            assert(key != n);
            if named(targets, from + 1, key) {
                let k = choose|k: int|
                    from + 1 <= k < targets.len() && target_name(#[trigger] targets[k]) == key;
                assert(from <= k < targets.len() && target_name(targets[k]) == key);
            }
        }
        assert forall|k: int| from <= k < targets.len() implies r.contains_key(
            target_name(#[trigger] targets[k]),
        ) && r[target_name(targets[k])] == values[k] by {
            if k == from {
                assert(first.contains_key(n) && first[n] == values[from as int]);
            }
        }
    }
}

/// A pattern of names, all different and none of them `_`, with as many
/// names as there are values: the assignment succeeds and prints nothing;
/// afterwards each name is bound to the value at its place, every other
/// name is bound as it was, and no other name is bound.
pub proof fn law_destructure_distinct_names(
    cx: Setting,
    importing: bool,
    fuel: nat,
    w: World,
    targets: Seq<ListItem>,
    values: Seq<ValueView>,
)
    requires
        fuel >= 1,
        targets.len() == values.len(),
        names_only(targets),
        distinct_names(targets),
        forall|k: int| 0 <= k < targets.len() ==> !(#[trigger] targets[k]).is_spread,
        forall|k: int| 0 <= k < targets.len() ==> target_name(#[trigger] targets[k]) != "_"@,
    ensures
        ({
            let r = assign_list(cx, importing, fuel, w, targets, values);
            &&& r.result is Ok
            &&& r.world.out == w.out
            &&& forall|k: int|
                0 <= k < targets.len() ==> r.world.env.contains_key(
                    target_name(#[trigger] targets[k]),
                ) && r.world.env[target_name(targets[k])] == values[k]
            &&& forall|key: Seq<char>|
                #[trigger] r.world.env.contains_key(key) <==> w.env.contains_key(key) || named(
                    targets,
                    0,
                    key,
                )
            &&& forall|key: Seq<char>|
                w.env.contains_key(key) && !named(targets, 0, key) ==> #[trigger] r.world.env[key]
                    == w.env[key]
        }),
{
    law_destructure_binds_names(cx, importing, fuel, w, targets, values);
    lemma_bind_named(w.env, targets, values, 0);
}

proof fn lemma_check_targets_fails(targets: Seq<ListItem>, values: nat, from: nat)
    requires
        1 <= targets.len() < values,
        !targets.last().is_pack,
        from < targets.len(),
    ensures
        check_targets(targets, values, from) is Some,
        (forall|k: int| from <= k < targets.len() - 1 ==> !(#[trigger] targets[k]).is_spread)
            ==> check_targets(targets, values, from) == Some(
            ErrorView::Destructure { values, targets: targets.len() },
        ),
    decreases targets.len() - from,
{
    if !packs(from as int, targets.len(), values) && !targets[from as int].is_spread {
        lemma_check_targets_fails(targets, values, from + 1);
    }
}

/// A list pattern with fewer targets than there are values, whose last
/// target is no pack, is not assigned: the assignment fails and binds
/// nothing, not even the first names. Where no target before the last is a
/// spread, the failure is that of a pattern that cannot take its values.
pub proof fn law_destructure_without_pack_binds_nothing(
    cx: Setting,
    importing: bool,
    fuel: nat,
    w: World,
    targets: Seq<ListItem>,
    values: Seq<ValueView>,
)
    requires
        1 <= targets.len() < values.len(),
        !targets.last().is_pack,
    ensures
        assign_list(cx, importing, fuel, w, targets, values).result is Err,
        assign_list(cx, importing, fuel, w, targets, values).world == w,
        (forall|k: int| 0 <= k < targets.len() - 1 ==> !(#[trigger] targets[k]).is_spread)
            ==> assign_list(cx, importing, fuel, w, targets, values).result == Err::<
            (),
            ErrorView,
        >(ErrorView::Destructure { values: values.len(), targets: targets.len() }),
{
    lemma_check_targets_fails(targets, values.len(), 0);
}

/// A call of a user function leaves the caller's bindings as the
/// evaluation of the arguments left them, whatever the body assigns.
pub proof fn law_call_keeps_bindings(
    cx: Setting,
    importing: bool,
    fuel: nat,
    w: World,
    function: Seq<char>,
    arguments: Seq<Expression>,
)
    requires
        ({
            let a = eval_expressions(cx, importing, fuel, w, arguments, 0, Seq::empty());
            a.result is Ok && a.world.env.contains_key(function)
                && a.world.env[function] is UserDefFunction
        }),
    ensures
        eval_call(cx, importing, fuel, w, function, arguments).world.env == eval_expressions(
            cx,
            importing,
            fuel,
            w,
            arguments,
            0,
            Seq::empty(),
        ).world.env,
{
}

proof fn lemma_expressions_bind_nothing(
    cx: Setting,
    importing: bool,
    fuel: nat,
    w: World,
    exprs: Seq<Expression>,
    from: nat,
    acc: Seq<ValueView>,
)
    requires
        all_bind_nothing(exprs),
    ensures
        eval_expressions(cx, importing, fuel, w, exprs, from, acc).world.env == w.env,
    decreases fuel, 1nat, exprs.len() - from,
{
    if from < exprs.len() {
        lemma_expression_binds_nothing(cx, importing, fuel, w, exprs[from as int]);
        let r = eval_expression(cx, importing, fuel, w, exprs[from as int]);
        match r.result {
            Err(_) => {},
            Ok(v) => {
                lemma_expressions_bind_nothing(
                    cx,
                    importing,
                    fuel,
                    r.world,
                    exprs,
                    from + 1,
                    acc.push(v),
                );
            },
        }
    }
}

proof fn lemma_items_bind_nothing(
    cx: Setting,
    importing: bool,
    fuel: nat,
    w: World,
    items: Seq<ListItem>,
    from: nat,
    acc: Seq<ValueView>,
)
    requires
        items_bind_nothing(items),
    ensures
        list_items(cx, importing, fuel, w, items, from, acc).world.env == w.env,
    decreases fuel, 1nat, items.len() - from,
{
    if from < items.len() {
        lemma_expression_binds_nothing(cx, importing, fuel, w, items[from as int].expression);
        let r = eval_expression(cx, importing, fuel, w, items[from as int].expression);
        match r.result {
            Err(_) => {},
            Ok(v) => {
                if !items[from as int].is_spread {
                    lemma_items_bind_nothing(
                        cx,
                        importing,
                        fuel,
                        r.world,
                        items,
                        from + 1,
                        acc.push(v),
                    );
                } else {
                    match v {
                        ValueView::List { e } => {
                            lemma_items_bind_nothing(
                                cx,
                                importing,
                                fuel,
                                r.world,
                                items,
                                from + 1,
                                acc + e,
                            );
                        },
                        _ => {},
                    }
                }
            },
        }
    }
}

proof fn lemma_expression_binds_nothing(
    cx: Setting,
    importing: bool,
    fuel: nat,
    w: World,
    e: Expression,
)
    requires
        binds_nothing(e),
    ensures
        eval_expression(cx, importing, fuel, w, e).world.env == w.env,
    decreases fuel, 0nat, 0nat,
{
    reveal_with_fuel(binds_nothing, 2);
    if fuel > 0 {
        let f = (fuel - 1) as nat;
        match e {
            Expression::Call { function, arguments } => {
                lemma_expressions_bind_nothing(cx, importing, f, w, arguments@, 0, Seq::empty());
                let a = eval_expressions(cx, importing, f, w, arguments@, 0, Seq::empty());
                assert(a.world.env == w.env);
                assert(eval_call(cx, importing, f, w, function@, arguments@).world.env == w.env);
            },
            Expression::ObjectCreation { class_name, arguments } => {
                law_objects_leave_bindings(
                    cx,
                    importing,
                    f,
                    w,
                    class_name@,
                    class_name@,
                    arguments@,
                );
            },
            Expression::MethodCall { name, method, arguments } => {
                law_objects_leave_bindings(cx, importing, f, w, name@, method@, arguments@);
            },
            Expression::Operation { lhs, rhs, operator } => {
                lemma_expression_binds_nothing(cx, importing, f, w, *lhs);
                let l = eval_expression(cx, importing, f, w, *lhs);
                if l.result is Ok {
                    lemma_expression_binds_nothing(cx, importing, f, l.world, *rhs);
                }
            },
            Expression::List { items } => {
                lemma_items_bind_nothing(cx, importing, f, w, items@, 0, Seq::empty());
            },
            _ => {},
        }
    }
}

/// An expression that binds nothing leaves the bindings as they were,
/// whether it has a value or fails. So a call of a user function whose
/// arguments bind nothing changes no binding of the caller: no name that
/// the body assigns, and no parameter, is bound or bound anew.
pub proof fn law_call_leaves_bindings(
    cx: Setting,
    importing: bool,
    fuel: nat,
    w: World,
    e: Expression,
)
    requires
        binds_nothing(e),
    ensures
        eval_expression(cx, importing, fuel, w, e).world.env == w.env,
{
    lemma_expression_binds_nothing(cx, importing, fuel, w, e);
}

/// In an instance that a constructor has made, each field name occurs once,
/// whatever the class and its parent declare.
pub proof fn law_instance_fields_names_once(
    local: Map<Seq<char>, ValueView>,
    fields: Seq<FieldView>,
    parent: Option<ValueView>,
)
    ensures
        instance_fields(local, fields, parent) matches Ok(all) ==> names_once(all),
{
    law_read_back_keeps_names_once(local, fields, Seq::empty(), 0);
    match read_back(local, fields, Seq::empty(), 0) {
        Err(_) => {},
        Ok(own) => match parent {
            None => {},
            Some(p) => match p {
                ValueView::Object { fields: inherited, .. } => {
                    law_read_back_keeps_names_once(local, inherited, own, 0);
                    match read_back(local, inherited, own, 0) {
                        Err(_) => {},
                        Ok(all) => {
                            law_field_put_keeps_names_once(
                                all,
                                FieldView { name: "super"@, is_private: true, value: p },
                            );
                        },
                    }
                },
                _ => {},
            },
        },
    }
}

/// Making an instance and calling a method leave the bindings as they were.
pub proof fn law_objects_leave_bindings(
    cx: Setting,
    importing: bool,
    fuel: nat,
    w: World,
    name: Seq<char>,
    method: Seq<char>,
    arguments: Seq<Expression>,
)
    ensures
        create_object(cx, importing, fuel, w, name, arguments).world.env == w.env,
        call_method(cx, importing, fuel, w, name, method, arguments).world.env == w.env,
{
}

/// A position that is not the first can be read from either end: index
/// `k` and index `k - n` read the same item of a sequence of `n` items.
pub proof fn law_read_from_either_end(k: int, n: nat)
    requires
        0 < k < n,
    ensures
        read_position(k, n) == Some(k),
        read_position(k - n, n) == Some(k),
{
}

/// Indexing a list or a text bound to `name` at a position `k` that is
/// not the first gives the same value, and leaves the same state, whether
/// the position is counted from the front, as `k`, or from the end, as
/// `k - n`.
pub proof fn law_index_from_either_end(
    cx: Setting,
    importing: bool,
    fuel: nat,
    w: World,
    name: String,
    k: i32,
)
    requires
        fuel >= 2,
        w.env.contains_key(name@),
        elements(w.env[name@]) is Some,
        0 < k < elements(w.env[name@])->Some_0.len() <= i32::MAX,
    ensures
        ({
            let items = elements(w.env[name@])->Some_0;
            let front = Expression::Index { name, idx_exp: Box::new(Expression::Int { v: k }) };
            let back = Expression::Index {
                name,
                idx_exp: Box::new(Expression::Int { v: (k - items.len()) as i32 }),
            };
            &&& eval_expression(cx, importing, fuel, w, front) == done(w, items[k as int])
            &&& eval_expression(cx, importing, fuel, w, back) == done(w, items[k as int])
        }),
{
    reveal_with_fuel(eval_expression, 2);
}

/// A range holds, at place `i`, the integer `start + i * step`; every one
/// of them is less than `end`, and the next one would not be.
pub proof fn law_range_steps(start: int, end: int, step: int)
    requires
        i32::MIN <= start,
        end <= i32::MAX,
        step > 0,
    ensures
        ({
            let r = range_values(start, end, step);
            &&& forall|i: int|
                0 <= i < r.len() ==> start + i * step < end && #[trigger] r[i] == (ValueView::Int {
                    v: (start + i * step) as i32,
                })
            &&& start + r.len() * step >= end
            &&& start >= end ==> r.len() == 0
        }),
    decreases
        (if start < end {
            end - start
        } else {
            0
        }),
{
    if start < end {
        let rest = range_values(start + step, end, step);
        let r = range_values(start, end, step);
        law_range_steps(start + step, end, step);
        assert(r =~= seq![ValueView::Int { v: start as i32 }] + rest);
        assert forall|i: int| 0 <= i < r.len() implies start + i * step < end && #[trigger] r[i]
            == (ValueView::Int { v: (start + i * step) as i32 }) by {
            if i > 0 {
                assert(r[i] == rest[i - 1]);
                assert(start + step + (i - 1) * step == start + i * step) by (nonlinear_arith);
            }
        }
        assert(start + step + rest.len() * step == start + (rest.len() + 1) * step)
            by (nonlinear_arith);
    }
}

/// `range(start, end)` counts from `start` up to, and without, `end`.
pub proof fn law_range_counts_up(start: int, end: int)
    requires
        i32::MIN <= start <= end <= i32::MAX,
    ensures
        range_values(start, end, 1) == Seq::new(
            (end - start) as nat,
            |i: int| ValueView::Int { v: (start + i) as i32 },
        ),
{
    law_range_steps(start, end, 1);
    let r = range_values(start, end, 1);
    if r.len() > 0 {
        let last = r[r.len() - 1];
        assert(start + (r.len() - 1) * 1 < end);
    }
    assert(r =~= Seq::new((end - start) as nat, |i: int| ValueView::Int { v: (start + i) as i32 }));
}

/// The bindings that a method of the object bound to `name` runs on: the
/// built-in functions, the object as `this`, and its fields.
pub open spec fn method_bindings(w: World, name: Seq<char>) -> Map<Seq<char>, ValueView> {
    match w.env[name] {
        ValueView::Object { fields, .. } => bind_fields(
            with_builtins(Map::empty()).insert("this"@, w.env[name]),
            fields,
            0,
        ),
        _ => Map::empty(),
    }
}

/// Whether a statement is a call of a method through `super`, without arguments.
pub open spec fn calls_super(s: Statement) -> bool {
    s matches Statement::Expression {
        expression: Expression::MethodCall { name, arguments, .. },
    } && name@ == "super"@ && arguments@.len() == 0
}

/// The method that a call through `super` names.
pub open spec fn super_method(s: Statement) -> Seq<char> {
    match s {
        Statement::Expression { expression: Expression::MethodCall { method, .. } } => method@,
        _ => Seq::empty(),
    }
}

/// Whether a statement is `println` of one text literal.
pub open spec fn prints_text(s: Statement) -> bool {
    s matches Statement::Expression { expression: Expression::Call { function, arguments } }
        && function@ == "println"@ && arguments@.len() == 1 && arguments@[0] is String
}

/// The text that `println` of one text literal prints, without the line feed.
pub open spec fn printed_text(s: Statement) -> Seq<char> {
    match s {
        Statement::Expression { expression: Expression::Call { arguments, .. } } => {
            match arguments@[0] {
                Expression::String { s } => s@,
                _ => Seq::empty(),
            }
        },
        _ => Seq::empty(),
    }
}

/// A method that overrides one of the parent, calls the parent's through
/// `super` and then prints a text of its own: what the parent's method
/// prints comes first, then the text and a line feed, each once; the
/// caller's bindings stay as they are.
pub proof fn law_super_method_prints_first(
    cx: Setting,
    fuel: nat,
    w: World,
    name: Seq<char>,
    method: Seq<char>,
    k: int,
    parent_text: Seq<char>,
)
    requires
        fuel >= 3,
        name != "super"@,
        w.env.contains_key(name),
        w.env[name] is Object,
        method_index(w.env[name]->methods@, method, name == "this"@) == Some(k),
        ({
            let md = w.env[name]->methods@[k].1;
            let local = method_bindings(w, name);
            let p = call_method(
                cx,
                false,
                (fuel - 2) as nat,
                World { env: local, out: w.out },
                "super"@,
                super_method(md.statements@[0]),
                Seq::empty(),
            );
            &&& md.arguments@.len() == 0
            &&& md.return_exp is None
            &&& md.statements@.len() == 2
            &&& calls_super(md.statements@[0])
            &&& p.result is Ok
            &&& p.world.out == w.out + parent_text
            &&& prints_text(md.statements@[1])
            &&& local.contains_key("println"@)
            &&& local["println"@] matches ValueView::Function { f, .. } && f == Builtin::Println
        }),
    ensures
        call_method(cx, false, fuel, w, name, method, Seq::empty()) == done(
            World {
                env: w.env,
                out: w.out + parent_text + printed_text(w.env[name]->methods@[k].1.statements@[1])
                    + seq!['\n'],
            },
            ValueView::Null,
        ),
{
    let md = w.env[name]->methods@[k].1;
    let local = method_bindings(w, name);
    let stmts = md.statements@;
    let first = World { env: local, out: w.out };
    let f1 = (fuel - 1) as nat;
    let f2 = (fuel - 2) as nat;
    let none = Seq::<Expression>::empty();
    // The call through `super`.
    let p = call_method(cx, false, f2, first, "super"@, super_method(stmts[0]), none);
    law_objects_leave_bindings(cx, false, f2, first, "super"@, super_method(stmts[0]), none);
    let s0 = eval_statement(cx, false, fuel, first, stmts[0]);
    assert(s0.result is Ok && s0.world == World { env: local, out: w.out + parent_text }) by {
        let e0 = stmts[0]->expression;
        assert(e0 is MethodCall);
        assert(e0->MethodCall_arguments@ =~= none);
        assert(eval_expression(cx, false, f1, first, e0) == p);
    }
    // The text of its own.
    let second = s0.world;
    let b = printed_text(stmts[1]);
    let s1 = eval_statement(cx, false, fuel, second, stmts[1]);
    assert(s1.result is Ok && s1.world == World {
        env: local,
        out: w.out + parent_text + b + seq!['\n'],
    }) by {
        let e1 = stmts[1]->expression;
        assert(e1 is Call);
        let args = e1->Call_arguments@;
        let text = ValueView::Str { s: b };
        assert(eval_expression(cx, false, f2, second, args[0]) == done(second, text));
        reveal_with_fuel(eval_expressions, 3);
        assert(eval_expressions(cx, false, f2, second, args, 0, Seq::empty()) == done(
            second,
            Seq::<ValueView>::empty().push(text),
        ));
        let vals = Seq::<ValueView>::empty().push(text);
        reveal_with_fuel(display_all, 3);
        assert(vals.drop_last() =~= Seq::<ValueView>::empty());
        assert(display_all(cx.model, vals) =~= b);
        assert(call_builtin(cx.model, Builtin::Println, vals, second.out).0 =~= w.out + parent_text
            + b + seq!['\n']);
        assert(eval_call(cx, false, f2, second, "println"@, args).world.out =~= w.out
            + parent_text + b + seq!['\n']);
        assert(eval_expression(cx, false, f1, second, e1) == eval_call(
            cx,
            false,
            f2,
            second,
            "println"@,
            args,
        ));
    }
    reveal_with_fuel(eval_statements, 4);
    let run = eval_statements(cx, false, fuel, first, stmts, 0);
    assert(run.result is Ok && run.world == s1.world);
    assert(run_method(cx, false, fuel, w, local, md) == done(
        World { env: w.env, out: w.out + parent_text + b + seq!['\n'] },
        ValueView::Null,
    ));
    assert(md.arguments@ =~= Seq::<String>::empty());
}

} // verus!
