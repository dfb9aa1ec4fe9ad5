use brainstorm::ast::{Expression, ForLoop, IfBranch, ListItem, Operator, Program, Statement};
use brainstorm::env::Environment;
use brainstorm::error::{ErrorKind, EvalError};
use brainstorm::eval::{
    assign, assign_list, eval_expression, eval_expressions, eval_program, eval_statement,
    eval_statements,
};
use brainstorm::runtime::{Module, Runtime};
use brainstorm::unit::FloatUnit;
use brainstorm::value::Value;
use std::rc::Rc;

struct Ieee;

impl FloatUnit for Ieee {
    fn arith(&self, op: Operator, lhs: u64, rhs: u64) -> u64 {
        let (a, b) = (f64::from_bits(lhs), f64::from_bits(rhs));
        match op {
            Operator::Plus => (a + b).to_bits(),
            Operator::Minus => (a - b).to_bits(),
            Operator::Times => (a * b).to_bits(),
            _ => (a / b).to_bits(),
        }
    }

    fn compare(&self, op: Operator, lhs: u64, rhs: u64) -> bool {
        let (a, b) = (f64::from_bits(lhs), f64::from_bits(rhs));
        match op {
            Operator::LessThan => a < b,
            Operator::GreaterThan => a > b,
            Operator::Equal => (a - b).abs() <= 1e-9,
            _ => (a - b).abs() > 1e-9,
        }
    }

    fn widen(&self, v: i32) -> u64 {
        f64::from(v).to_bits()
    }

    fn text(&self, bits: u64) -> String {
        format!("{}", f64::from_bits(bits))
    }
}

const FUEL: u64 = 1000;

fn runtime() -> Runtime<Ieee> {
    Runtime { unit: Ieee, modules: vec![], keywords: vec![] }
}

fn fresh() -> Environment {
    let mut env = Environment::new();
    env.insert_builtins();
    env
}

fn s(text: &str) -> String {
    text.to_string()
}

fn num(v: i32) -> Expression {
    Expression::Int { v }
}

fn flt(f: f64) -> Expression {
    Expression::Float { bits: f.to_bits() }
}

fn txt(text: &str) -> Expression {
    Expression::String { s: s(text) }
}

fn truth(b: bool) -> Expression {
    Expression::Boolean { b }
}

fn var(name: &str) -> Expression {
    Expression::Identifier { name: s(name) }
}

fn call(function: &str, arguments: Vec<Expression>) -> Expression {
    Expression::Call { function: s(function), arguments }
}

fn op(lhs: Expression, operator: Operator, rhs: Expression) -> Expression {
    Expression::Operation { lhs: Box::new(lhs), rhs: Box::new(rhs), operator }
}

fn index(name: &str, idx: Expression) -> Expression {
    Expression::Index { name: s(name), idx_exp: Box::new(idx) }
}

fn plain(expression: Expression) -> ListItem {
    ListItem { expression, is_spread: false, is_pack: false }
}

fn spread(expression: Expression) -> ListItem {
    ListItem { expression, is_spread: true, is_pack: false }
}

fn pack(expression: Expression) -> ListItem {
    ListItem { expression, is_spread: false, is_pack: true }
}

fn lst(items: Vec<Expression>) -> Expression {
    Expression::List { items: items.into_iter().map(plain).collect() }
}

fn set(lhs: Expression, rhs: Expression) -> Statement {
    Statement::Assignment { lhs, rhs }
}

fn say(expression: Expression) -> Statement {
    Statement::Expression { expression: call("println", vec![expression]) }
}

fn define(name: &str, params: &[&str], body: Vec<Statement>, ret: Option<Expression>) -> Statement {
    Statement::FunctionDefinition {
        name: s(name),
        arguments: Rc::new(params.iter().map(|p| s(p)).collect()),
        statements: Rc::new(body),
        return_expression: Rc::new(ret),
    }
}

fn branch(condition: Expression, then: Vec<Statement>, otherwise: Option<Vec<Statement>>) -> Statement {
    Statement::If {
        params: IfBranch {
            condition,
            statements: then,
            else_statements: otherwise,
            elif_data: (vec![], vec![]),
        },
    }
}

fn run_with(rt: &Runtime<Ieee>, statements: Vec<Statement>, fuel: u64) -> (String, Result<(), EvalError>) {
    let mut env = fresh();
    let mut out = String::new();
    let r = eval_program(rt, &mut env, &Program::Body { statements }, false, fuel, &mut out);
    (out, r)
}

fn run(statements: Vec<Statement>) -> (String, Result<(), EvalError>) {
    run_with(&runtime(), statements, FUEL)
}

fn output(statements: Vec<Statement>) -> String {
    let (out, r) = run(statements);
    assert!(r.is_ok(), "{:?}", r);
    out
}

fn failure(statements: Vec<Statement>) -> EvalError {
    match run(statements).1 {
        Err(e) => e,
        Ok(()) => panic!("the program did not fail"),
    }
}

fn value_of(expression: Expression) -> Result<Value, EvalError> {
    let mut env = fresh();
    let mut out = String::new();
    eval_expression(&runtime(), &mut env, &expression, false, FUEL, &mut out)
}

fn shown(expression: Expression) -> String {
    value_of(expression).unwrap().to_string(&Ieee)
}

#[test]
fn sum_of_two_variables_is_printed() {
    let program = vec![
        set(var("x"), num(2)),
        set(var("y"), num(3)),
        say(op(var("x"), Operator::Plus, var("y"))),
    ];
    assert_eq!(output(program), "5\n");
}

#[test]
fn for_loop_over_a_range() {
    let program = vec![Statement::For {
        params: ForLoop {
            loop_var: s("i"),
            iterate_expression: call("range", vec![num(0), num(3)]),
            statements: vec![say(var("i"))],
        },
    }];
    assert_eq!(output(program), "0\n1\n2\n");
}

#[test]
fn destructuring_with_a_pack() {
    let pattern = Expression::List {
        items: vec![plain(var("a")), plain(var("b")), pack(var("c"))],
    };
    let program = vec![
        set(pattern, lst(vec![num(1), num(2), num(3), num(4)])),
        say(var("a")),
        say(var("b")),
        say(var("c")),
    ];
    assert_eq!(output(program), "1\n2\n[3, 4]\n");
}

#[test]
fn if_takes_the_true_branch() {
    let program = vec![branch(
        op(num(2), Operator::GreaterThan, num(1)),
        vec![say(txt("y"))],
        Some(vec![say(txt("n"))]),
    )];
    assert_eq!(output(program), "y\n");
}

#[test]
fn if_takes_the_else_branch() {
    let program = vec![branch(
        op(num(1), Operator::GreaterThan, num(2)),
        vec![say(txt("y"))],
        Some(vec![say(txt("n"))]),
    )];
    assert_eq!(output(program), "n\n");
    let program = vec![branch(truth(false), vec![say(txt("y"))], None)];
    assert_eq!(output(program), "");
}

#[test]
fn unbound_name_is_a_name_error() {
    let e = failure(vec![say(var("x"))]);
    assert!(matches!(&e, EvalError::Undefined { name } if name == "x"), "{:?}", e);
    assert_eq!(e.kind(), ErrorKind::NameError);
}

#[test]
fn int_plus_text_is_a_type_error() {
    let e = value_of(op(num(1), Operator::Plus, txt("a"))).err().unwrap();
    assert!(matches!(e, EvalError::InvalidOperation));
    assert_eq!(e.kind(), ErrorKind::TypeError);
}

#[test]
fn two_targets_for_one_value_is_an_arity_error() {
    let pattern = Expression::List { items: vec![plain(var("a")), plain(var("b"))] };
    let e = failure(vec![set(pattern, lst(vec![num(1)]))]);
    assert!(matches!(e, EvalError::Destructure { values: 1, targets: 2 }), "{:?}", e);
    assert_eq!(e.kind(), ErrorKind::ArityError);
}

#[test]
fn index_past_the_end_is_a_bounds_error() {
    let program = vec![set(var("L"), lst(vec![num(1), num(2), num(3)])), say(index("L", num(99)))];
    let e = failure(program);
    assert!(matches!(e, EvalError::OutOfBounds { index: 99 }), "{:?}", e);
    assert_eq!(e.kind(), ErrorKind::BoundsError);
}

#[test]
fn literals_evaluate_to_themselves() {
    assert_eq!(shown(num(7)), "7");
    assert_eq!(shown(flt(1.25)), "1.25");
    assert_eq!(shown(txt("abc")), "abc");
    assert_eq!(shown(truth(true)), "true");
    assert_eq!(shown(Expression::Character { c: 'z' }), "z");
}

#[test]
fn operations_on_numbers() {
    assert_eq!(shown(op(num(7), Operator::Divide, num(2))), "3");
    assert_eq!(shown(op(num(7), Operator::Divide, flt(2.0))), "3.5");
    assert_eq!(shown(op(flt(0.5), Operator::Times, num(3))), "1.5");
    assert_eq!(shown(op(num(1), Operator::LessThan, flt(1.5))), "true");
    assert_eq!(shown(op(num(2), Operator::Equal, flt(2.0))), "true");
    assert_eq!(shown(op(num(2), Operator::NotEqual, num(2))), "false");
    assert_eq!(shown(op(txt("a"), Operator::LessThan, txt("b"))), "true");
    let nested = op(op(num(1), Operator::Plus, num(2)), Operator::Times, num(3));
    assert_eq!(shown(nested), "9");
}

#[test]
fn division_by_zero_is_an_invalid_operation() {
    let e = value_of(op(num(1), Operator::Divide, num(0))).err().unwrap();
    assert!(matches!(e, EvalError::InvalidOperation));
}

#[test]
fn comparing_what_is_not_ordered_fails() {
    let e = value_of(op(num(1), Operator::LessThan, txt("a"))).err().unwrap();
    assert!(matches!(e, EvalError::NotComparable));
    let e = value_of(op(lst(vec![]), Operator::GreaterThan, lst(vec![]))).err().unwrap();
    assert!(matches!(e, EvalError::NotComparable));
}

#[test]
fn list_literal_with_a_spread() {
    let inner = lst(vec![num(2), num(3)]);
    let program = vec![
        set(var("m"), inner),
        say(Expression::List { items: vec![plain(num(1)), spread(var("m")), plain(num(4))] }),
    ];
    assert_eq!(output(program), "[1, 2, 3, 4]\n");
}

#[test]
fn spreading_what_is_no_list_fails() {
    let e = value_of(Expression::List { items: vec![spread(num(1))] }).err().unwrap();
    assert!(matches!(e, EvalError::SpreadNonList));
}

#[test]
fn indexing_from_either_end() {
    let list = || set(var("L"), lst(vec![num(10), num(20), num(30)]));
    assert_eq!(output(vec![list(), say(index("L", num(0)))]), "10\n");
    assert_eq!(output(vec![list(), say(index("L", num(2)))]), "30\n");
    assert_eq!(output(vec![list(), say(index("L", num(-1)))]), "30\n");
    assert_eq!(output(vec![list(), say(index("L", num(-2)))]), "20\n");
    assert_eq!(output(vec![list(), say(index("L", num(1)))]), "20\n");
}

#[test]
fn index_of_magnitude_equal_to_the_length_is_out_of_bounds() {
    let list = || set(var("L"), lst(vec![num(10), num(20), num(30)]));
    let e = failure(vec![list(), say(index("L", num(3)))]);
    assert!(matches!(e, EvalError::OutOfBounds { index: 3 }));
    let e = failure(vec![list(), say(index("L", num(-3)))]);
    assert!(matches!(e, EvalError::OutOfBounds { index: -3 }));
    let e = failure(vec![set(var("L"), lst(vec![])), say(index("L", num(0)))]);
    assert!(matches!(e, EvalError::OutOfBounds { index: 0 }));
}

#[test]
fn indexing_a_text_gives_a_character() {
    let program = vec![set(var("t"), txt("h\u{e9}llo")), say(index("t", num(1))), say(index("t", num(-1)))];
    assert_eq!(output(program), "\u{e9}\no\n");
}

#[test]
fn indexing_failures() {
    let e = failure(vec![say(index("L", num(0)))]);
    assert!(matches!(e, EvalError::Undefined { .. }));
    let e = failure(vec![set(var("L"), lst(vec![num(1)])), say(index("L", txt("0")))]);
    assert!(matches!(e, EvalError::IndexNotInt));
    let e = failure(vec![set(var("n"), num(5)), say(index("n", num(0)))]);
    assert!(matches!(e, EvalError::NotIterable));
}

#[test]
fn index_expression_is_evaluated_on_a_copy() {
    let bump = Expression::Prefix { name: s("i"), operator: Operator::Plus, rhs: Box::new(num(1)) };
    let program = vec![
        set(var("L"), lst(vec![num(10), num(20)])),
        set(var("i"), num(0)),
        say(index("L", bump)),
        say(var("i")),
    ];
    assert_eq!(output(program), "20\n0\n");
}

#[test]
fn prefix_writes_back_and_returns_the_new_value() {
    let bump = Expression::Prefix { name: s("i"), operator: Operator::Plus, rhs: Box::new(num(5)) };
    let program = vec![set(var("i"), num(1)), say(bump), say(var("i"))];
    assert_eq!(output(program), "6\n6\n");
}

#[test]
fn prefix_failures() {
    let bump = |rhs| Expression::Prefix { name: s("i"), operator: Operator::Plus, rhs: Box::new(rhs) };
    let e = failure(vec![say(bump(num(1)))]);
    assert!(matches!(e, EvalError::Undefined { .. }));
    let e = failure(vec![set(var("i"), num(1)), say(bump(txt("a")))]);
    assert!(matches!(&e, EvalError::CannotOperate { name } if name == "i"), "{:?}", e);
}

#[test]
fn operator_assignment_statement() {
    let program = vec![
        set(var("x"), num(10)),
        Statement::OperatorAssignment { name: s("x"), operator: Operator::Minus, rhs: num(3) },
        say(var("x")),
        Statement::OperatorAssignment { name: s("x"), operator: Operator::Times, rhs: num(2) },
        say(var("x")),
    ];
    assert_eq!(output(program), "7\n14\n");
    let e = failure(vec![Statement::OperatorAssignment {
        name: s("x"),
        operator: Operator::Plus,
        rhs: num(1),
    }]);
    assert!(matches!(e, EvalError::Undefined { .. }));
    let e = failure(vec![
        set(var("x"), txt("a")),
        Statement::OperatorAssignment { name: s("x"), operator: Operator::Plus, rhs: num(1) },
    ]);
    assert!(matches!(e, EvalError::CannotOperate { .. }));
}

#[test]
fn comprehension_over_a_list() {
    let comp = Expression::Comprehension {
        iterate_exp: Box::new(op(var("x"), Operator::Times, num(2))),
        var: s("x"),
        control_exp: Box::new(lst(vec![num(1), num(2), num(3)])),
    };
    assert_eq!(shown(comp), "[2, 4, 6]");
}

#[test]
fn comprehension_over_a_text() {
    let comp = Expression::Comprehension {
        iterate_exp: Box::new(var("c")),
        var: s("c"),
        control_exp: Box::new(txt("ab")),
    };
    assert_eq!(shown(comp), "[a, b]");
}

#[test]
fn comprehension_does_not_bind_its_variable_outside() {
    let comp = Expression::Comprehension {
        iterate_exp: Box::new(var("x")),
        var: s("x"),
        control_exp: Box::new(lst(vec![num(1)])),
    };
    let e = failure(vec![say(comp), say(var("x"))]);
    assert!(matches!(e, EvalError::Undefined { .. }));
}

#[test]
fn comprehension_over_what_cannot_be_iterated_fails() {
    let comp = Expression::Comprehension {
        iterate_exp: Box::new(var("x")),
        var: s("x"),
        control_exp: Box::new(num(3)),
    };
    assert!(matches!(value_of(comp), Err(EvalError::NotIterable)));
}

#[test]
fn elif_arms_are_tried_in_order() {
    let chain = |x: i32| Statement::If {
        params: IfBranch {
            condition: op(num(x), Operator::Equal, num(0)),
            statements: vec![say(txt("zero"))],
            else_statements: Some(vec![say(txt("many"))]),
            elif_data: (
                vec![op(num(x), Operator::Equal, num(1)), op(num(x), Operator::Equal, num(2))],
                vec![vec![say(txt("one"))], vec![say(txt("two"))]],
            ),
        },
    };
    assert_eq!(output(vec![chain(0)]), "zero\n");
    assert_eq!(output(vec![chain(1)]), "one\n");
    assert_eq!(output(vec![chain(2)]), "two\n");
    assert_eq!(output(vec![chain(3)]), "many\n");
}

#[test]
fn condition_must_be_a_boolean() {
    let e = failure(vec![branch(num(1), vec![], None)]);
    assert!(matches!(e, EvalError::ConditionNotBool));
    let e = failure(vec![Statement::While { condition: txt("x"), statements: vec![] }]);
    assert!(matches!(e, EvalError::ConditionNotBool));
}

#[test]
fn while_loop_runs_until_the_condition_is_false() {
    let program = vec![
        set(var("i"), num(0)),
        Statement::While {
            condition: op(var("i"), Operator::LessThan, num(3)),
            statements: vec![
                say(var("i")),
                Statement::OperatorAssignment { name: s("i"), operator: Operator::Plus, rhs: num(1) },
            ],
        },
    ];
    assert_eq!(output(program), "0\n1\n2\n");
}

#[test]
fn endless_loop_runs_out_of_fuel() {
    let program = vec![Statement::While { condition: truth(true), statements: vec![] }];
    let (out, r) = run_with(&runtime(), program, 50);
    assert_eq!(out, "");
    let e = r.err().unwrap();
    assert!(matches!(e, EvalError::Exhausted));
    assert_eq!(e.kind(), ErrorKind::DepthError);
}

#[test]
fn nothing_runs_without_fuel() {
    let (_, r) = run_with(&runtime(), vec![set(var("x"), num(1))], 0);
    assert!(matches!(r, Err(EvalError::Exhausted)));
    let (_, r) = run_with(&runtime(), vec![], 0);
    assert!(r.is_ok());
}

#[test]
fn endless_recursion_runs_out_of_fuel() {
    let program = vec![
        define("f", &[], vec![Statement::Expression { expression: call("f", vec![]) }], None),
        Statement::Expression { expression: call("f", vec![]) },
    ];
    let (_, r) = run_with(&runtime(), program, 200);
    assert!(matches!(r, Err(EvalError::Exhausted)));
}

#[test]
fn for_loop_over_a_list_and_a_name() {
    let over = |e| Statement::For {
        params: ForLoop { loop_var: s("v"), iterate_expression: e, statements: vec![say(var("v"))] },
    };
    assert_eq!(output(vec![over(lst(vec![txt("a"), txt("b")]))]), "a\nb\n");
    assert_eq!(output(vec![set(var("L"), lst(vec![num(1)])), over(var("L"))]), "1\n");
}

#[test]
fn for_loop_leaves_its_variable_bound() {
    let program = vec![
        Statement::For {
            params: ForLoop {
                loop_var: s("v"),
                iterate_expression: lst(vec![num(1), num(2)]),
                statements: vec![],
            },
        },
        say(var("v")),
    ];
    assert_eq!(output(program), "2\n");
}

#[test]
fn for_loop_failures() {
    let over = |e| Statement::For {
        params: ForLoop { loop_var: s("v"), iterate_expression: e, statements: vec![] },
    };
    assert!(matches!(failure(vec![over(num(3))]), EvalError::NotIterable));
    assert!(matches!(failure(vec![over(txt("ab"))]), EvalError::NotIterable));
    assert!(matches!(
        failure(vec![over(op(num(1), Operator::Plus, num(2)))]),
        EvalError::NotIterable
    ));
    assert!(matches!(
        failure(vec![set(var("n"), num(3)), over(var("n"))]),
        EvalError::InvalidType
    ));
}

#[test]
fn user_function_returns_its_return_expression() {
    let program = vec![
        set(var("base"), num(10)),
        define("f", &["x"], vec![], Some(op(var("base"), Operator::Plus, num(1)))),
        say(call("f", vec![num(5)])),
    ];
    assert_eq!(output(program), "11\n");
}

#[test]
fn user_function_without_a_return_gives_null() {
    let program = vec![define("f", &[], vec![], None), say(call("f", vec![]))];
    assert_eq!(output(program), "Null\n");
}

#[test]
fn user_function_body_sees_its_parameters() {
    let program = vec![
        define("f", &["x", "y"], vec![say(op(var("x"), Operator::Minus, var("y")))], None),
        Statement::Expression { expression: call("f", vec![num(5), num(2)]) },
    ];
    assert_eq!(output(program), "3\n");
}

#[test]
fn user_function_call_leaves_the_callers_bindings() {
    let program = vec![
        set(var("x"), num(1)),
        define("f", &["p"], vec![set(var("x"), num(99)), set(var("fresh"), num(5))], None),
        Statement::Expression { expression: call("f", vec![num(0)]) },
        say(var("x")),
    ];
    assert_eq!(output(program), "1\n");
    let program = vec![
        define("f", &["p"], vec![set(var("fresh"), num(5))], None),
        Statement::Expression { expression: call("f", vec![num(0)]) },
        say(var("fresh")),
    ];
    assert!(matches!(failure(program), EvalError::Undefined { .. }));
    let program = vec![
        define("f", &["p"], vec![], None),
        Statement::Expression { expression: call("f", vec![num(0)]) },
        say(var("p")),
    ];
    assert!(matches!(failure(program), EvalError::Undefined { .. }));
}

#[test]
fn return_expression_is_evaluated_on_the_callers_bindings() {
    let program = vec![
        define("f", &["p"], vec![set(var("local"), num(5))], Some(var("local"))),
        say(call("f", vec![num(0)])),
    ];
    assert!(matches!(failure(program), EvalError::Undefined { .. }));
}

#[test]
fn call_failures() {
    let e = failure(vec![say(call("nope", vec![]))]);
    assert!(matches!(e, EvalError::Undefined { .. }));
    let e = failure(vec![set(var("n"), num(1)), say(call("n", vec![]))]);
    assert!(matches!(&e, EvalError::NotAFunction { name } if name == "n"), "{:?}", e);
    let e = failure(vec![define("f", &["a"], vec![], None), say(call("f", vec![]))]);
    assert!(matches!(e, EvalError::Arity { expected: 1, got: 0 }), "{:?}", e);
    assert_eq!(e.kind(), ErrorKind::ArityError);
}

#[test]
fn defining_a_bound_name_is_a_redefinition() {
    let e = failure(vec![define("f", &[], vec![], None), define("f", &[], vec![], None)]);
    assert!(matches!(&e, EvalError::AlreadyDefined { name } if name == "f"), "{:?}", e);
    assert_eq!(e.kind(), ErrorKind::RedefinitionError);
    let e = failure(vec![define("println", &[], vec![], None)]);
    assert!(matches!(e, EvalError::AlreadyDefined { .. }));
}

#[test]
fn print_writes_without_a_line_feed() {
    let program = vec![
        Statement::Expression { expression: call("print", vec![num(1), txt("-"), num(2)]) },
        Statement::Expression { expression: call("println", vec![]) },
        say(call("println", vec![txt("x")])),
    ];
    assert_eq!(output(program), "1-2\nx\nNull\n");
}

#[test]
fn a_builtin_called_under_another_name() {
    let program = vec![
        set(var("r"), var("range")),
        say(call("r", vec![num(1), num(3)])),
        say(call("range_step", vec![num(0), num(7), num(3)])),
    ];
    assert_eq!(output(program), "[1, 2]\n[0, 3, 6]\n");
}

#[test]
fn underscore_takes_the_value_and_binds_nothing() {
    let e = failure(vec![set(var("_"), num(1)), say(var("_"))]);
    assert!(matches!(e, EvalError::Undefined { .. }));
}

#[test]
fn destructuring_one_to_one() {
    let pattern = Expression::List { items: vec![plain(var("a")), plain(var("b"))] };
    let program = vec![set(pattern, lst(vec![num(1), num(2)])), say(var("a")), say(var("b"))];
    assert_eq!(output(program), "1\n2\n");
}

#[test]
fn a_pack_with_as_many_values_as_targets_takes_one_value() {
    let pattern = Expression::List { items: vec![plain(var("a")), pack(var("b"))] };
    let program = vec![set(pattern, lst(vec![num(1), num(2)])), say(var("b"))];
    assert_eq!(output(program), "2\n");
}

#[test]
fn a_single_pack_takes_all() {
    let pattern = Expression::List { items: vec![pack(var("all"))] };
    let program = vec![set(pattern, lst(vec![num(1), num(2), num(3)])), say(var("all"))];
    assert_eq!(output(program), "[1, 2, 3]\n");
}

#[test]
fn nested_destructuring() {
    let inner = Expression::List { items: vec![plain(var("b")), plain(var("c"))] };
    let pattern = Expression::List { items: vec![plain(var("a")), plain(inner)] };
    let program = vec![
        set(pattern, lst(vec![num(1), lst(vec![num(2), num(3)])])),
        say(var("a")),
        say(var("b")),
        say(var("c")),
    ];
    assert_eq!(output(program), "1\n2\n3\n");
}

#[test]
fn destructuring_failures() {
    let two = || Expression::List { items: vec![plain(var("a")), plain(var("b"))] };
    let e = failure(vec![set(two(), lst(vec![num(1), num(2), num(3)]))]);
    assert!(matches!(e, EvalError::Destructure { values: 3, targets: 2 }), "{:?}", e);
    let e = failure(vec![set(two(), num(5))]);
    assert!(matches!(e, EvalError::NotAList));
    let spreading = Expression::List { items: vec![spread(var("a")), plain(var("b"))] };
    let e = failure(vec![set(spreading, lst(vec![num(1), num(2)]))]);
    assert!(matches!(e, EvalError::SpreadInAssignment));
    let none = Expression::List { items: vec![] };
    let e = failure(vec![set(none, lst(vec![num(1)]))]);
    assert!(matches!(e, EvalError::Destructure { values: 1, targets: 0 }), "{:?}", e);
    let none = Expression::List { items: vec![] };
    assert_eq!(output(vec![set(none, lst(vec![]))]), "");
}

#[test]
fn destructuring_checks_every_target_before_it_binds_any() {
    let pattern = Expression::List { items: vec![plain(var("a")), spread(var("b"))] };
    let program = vec![set(var("a"), num(0)), set(pattern, lst(vec![num(1), num(2)]))];
    let mut env = fresh();
    let mut out = String::new();
    let r = eval_program(&runtime(), &mut env, &Program::Body { statements: program }, false, FUEL, &mut out);
    assert!(matches!(r, Err(EvalError::SpreadInAssignment)));
    assert!(matches!(env.get(&s("a")), Some(Value::Int { v: 0 })));
}

#[test]
fn assigning_to_an_element() {
    let list = || set(var("L"), lst(vec![num(1), num(2), num(3)]));
    assert_eq!(output(vec![list(), set(index("L", num(0)), num(9)), say(var("L"))]), "[9, 2, 3]\n");
    assert_eq!(output(vec![list(), set(index("L", num(2)), num(9)), say(var("L"))]), "[1, 2, 9]\n");
    assert_eq!(output(vec![list(), set(index("L", num(-1)), num(9)), say(var("L"))]), "[1, 2, 9]\n");
    assert_eq!(output(vec![list(), set(index("L", num(-2)), num(9)), say(var("L"))]), "[1, 9, 3]\n");
}

#[test]
fn assigning_to_an_element_failures() {
    let list = || set(var("L"), lst(vec![num(1), num(2), num(3)]));
    let e = failure(vec![list(), set(index("L", num(3)), num(9))]);
    assert!(matches!(e, EvalError::OutOfBounds { index: 3 }), "{:?}", e);
    let e = failure(vec![list(), set(index("L", num(-3)), num(9))]);
    assert!(matches!(e, EvalError::OutOfBounds { index: -3 }), "{:?}", e);
    let e = failure(vec![list(), set(index("L", num(-4)), num(9))]);
    assert!(matches!(e, EvalError::OutOfBounds { index: -4 }), "{:?}", e);
    let e = failure(vec![list(), set(index("L", txt("0")), num(9))]);
    assert!(matches!(e, EvalError::IndexNotInt));
    let e = failure(vec![set(index("L", num(0)), num(9))]);
    assert!(matches!(e, EvalError::Undefined { .. }));
    let e = failure(vec![set(var("t"), txt("abc")), set(index("t", num(0)), num(9))]);
    assert!(matches!(e, EvalError::CannotAssign));
    assert_eq!(e.kind(), ErrorKind::AssignmentError);
    let e = failure(vec![set(var("n"), num(5)), set(index("n", num(0)), num(9))]);
    assert!(matches!(e, EvalError::NotIndexable));
}

#[test]
fn assigning_to_what_is_no_place_fails() {
    for lhs in [
        num(1),
        txt("a"),
        truth(true),
        flt(1.0),
        Expression::Character { c: 'c' },
        call("f", vec![]),
        op(num(1), Operator::Plus, num(2)),
    ] {
        let e = failure(vec![set(lhs, num(1))]);
        assert!(matches!(e, EvalError::CannotAssign), "{:?}", e);
    }
}

#[test]
fn an_import_runs_the_module_in_the_importers_bindings() {
    let module = Program::Body {
        statements: vec![set(var("shared"), num(42)), define("helper", &[], vec![], Some(num(7)))],
    };
    let rt = Runtime {
        unit: Ieee,
        modules: vec![Module { path: s("util"), program: Some(module), tried: s("/lib/util") }],
        keywords: vec![],
    };
    let program = vec![
        Statement::Import { path: s("util") },
        say(var("shared")),
        say(call("helper", vec![])),
    ];
    let (out, r) = run_with(&rt, program, FUEL);
    assert!(r.is_ok(), "{:?}", r);
    assert_eq!(out, "42\n7\n");
}

#[test]
fn nothing_is_printed_while_a_module_is_imported() {
    let module = Program::Body {
        statements: vec![
            say(txt("loading")),
            Statement::Expression { expression: call("print", vec![txt("still loading")]) },
            set(var("p"), var("println")),
            Statement::Expression { expression: call("p", vec![txt("under another name")]) },
            define("noisy", &[], vec![say(txt("called"))], None),
            Statement::Expression { expression: call("noisy", vec![]) },
            set(var("loaded"), call("println", vec![txt("x")])),
        ],
    };
    let rt = Runtime {
        unit: Ieee,
        modules: vec![Module { path: s("m"), program: Some(module), tried: s("m") }],
        keywords: vec![],
    };
    let program = vec![
        say(txt("before")),
        Statement::Import { path: s("m") },
        say(var("loaded")),
        Statement::Expression { expression: call("noisy", vec![]) },
    ];
    let (out, r) = run_with(&rt, program, FUEL);
    assert!(r.is_ok(), "{:?}", r);
    assert_eq!(out, "before\nNull\ncalled\n");
}

#[test]
fn importing_twice_prints_what_importing_once_prints() {
    let module = || Program::Body { statements: vec![say(txt("loading")), set(var("v"), num(1))] };
    let rt = Runtime {
        unit: Ieee,
        modules: vec![Module { path: s("m"), program: Some(module()), tried: s("m") }],
        keywords: vec![],
    };
    let once = vec![Statement::Import { path: s("m") }, say(var("v"))];
    let twice = vec![Statement::Import { path: s("m") }, Statement::Import { path: s("m") }, say(var("v"))];
    let (a, ra) = run_with(&rt, once, FUEL);
    let (b, rb) = run_with(&rt, twice, FUEL);
    assert!(ra.is_ok() && rb.is_ok());
    assert_eq!(a, "1\n");
    assert_eq!(a, b);
}

#[test]
fn import_failures() {
    let rt = Runtime {
        unit: Ieee,
        modules: vec![Module { path: s("gone"), program: None, tried: s("/lib/gone") }],
        keywords: vec![],
    };
    let (_, r) = run_with(&rt, vec![Statement::Import { path: s("gone") }], FUEL);
    let e = r.err().unwrap();
    assert!(matches!(&e, EvalError::Import { path } if path == "/lib/gone"), "{:?}", e);
    assert_eq!(e.kind(), ErrorKind::ImportError);
    let (_, r) = run_with(&rt, vec![Statement::Import { path: s("other") }], FUEL);
    let e = r.err().unwrap();
    assert!(matches!(&e, EvalError::Unloaded { path } if path == "other"), "{:?}", e);
    assert_eq!(e.kind(), ErrorKind::ImportError);
}

#[test]
fn the_first_module_of_a_path_is_the_one_imported() {
    let first = Program::Body { statements: vec![set(var("v"), num(1))] };
    let second = Program::Body { statements: vec![set(var("v"), num(2))] };
    let rt = Runtime {
        unit: Ieee,
        modules: vec![
            Module { path: s("m"), program: Some(first), tried: s("m") },
            Module { path: s("m"), program: Some(second), tried: s("m") },
        ],
        keywords: vec![],
    };
    let (out, r) = run_with(&rt, vec![Statement::Import { path: s("m") }, say(var("v"))], FUEL);
    assert!(r.is_ok());
    assert_eq!(out, "1\n");
}

#[test]
fn output_before_a_failure_is_kept() {
    let (out, r) = run(vec![say(txt("one")), say(var("missing")), say(txt("two"))]);
    assert_eq!(out, "one\n");
    assert!(matches!(r, Err(EvalError::Undefined { .. })));
}

#[test]
fn statements_and_expressions_can_be_run_one_by_one() {
    let rt = runtime();
    let mut env = fresh();
    let mut out = String::new();
    eval_statement(&rt, &mut env, &set(var("x"), num(4)), false, FUEL, &mut out).unwrap();
    eval_statements(&rt, &mut env, &vec![say(var("x")), say(var("x"))], false, FUEL, &mut out).unwrap();
    assert_eq!(out, "4\n4\n");
    let vals = eval_expressions(&rt, &mut env, &vec![var("x"), num(1)], false, FUEL, &mut out).unwrap();
    assert_eq!(vals.len(), 2);
    assert!(matches!(vals[0], Value::Int { v: 4 }));
    assign(&rt, &mut env, &var("y"), Value::Int { v: 8 }, false, FUEL, &mut out).unwrap();
    assert!(matches!(env.get(&s("y")), Some(Value::Int { v: 8 })));
    let targets = vec![plain(var("a")), pack(var("rest"))];
    let values = vec![Value::Int { v: 1 }, Value::Int { v: 2 }, Value::Int { v: 3 }];
    assign_list(&rt, &mut env, &targets, values, false, FUEL, &mut out).unwrap();
    assert!(matches!(env.get(&s("a")), Some(Value::Int { v: 1 })));
    assert_eq!(env.get(&s("rest")).unwrap().to_string(&Ieee), "[2, 3]");
}

#[test]
fn printing_is_off_in_import_mode() {
    let rt = runtime();
    let mut env = fresh();
    let mut out = String::new();
    let program = Program::Body { statements: vec![say(txt("quiet")), set(var("x"), num(1))] };
    eval_program(&rt, &mut env, &program, true, FUEL, &mut out).unwrap();
    assert_eq!(out, "");
    assert!(matches!(env.get(&s("x")), Some(Value::Int { v: 1 })));
}

#[test]
fn a_failing_condition_fails_as_itself() {
    let e = failure(vec![branch(op(var("x"), Operator::GreaterThan, num(1)), vec![], None)]);
    assert!(matches!(&e, EvalError::Undefined { name } if name == "x"), "{:?}", e);
    let e = failure(vec![Statement::While {
        condition: op(var("x"), Operator::GreaterThan, num(1)),
        statements: vec![],
    }]);
    assert!(matches!(&e, EvalError::Undefined { name } if name == "x"), "{:?}", e);
}

#[test]
fn an_elif_without_a_body_does_nothing() {
    let chain = Statement::If {
        params: IfBranch {
            condition: truth(false),
            statements: vec![say(txt("if"))],
            else_statements: Some(vec![say(txt("else"))]),
            elif_data: (vec![truth(true)], vec![]),
        },
    };
    assert_eq!(output(vec![chain]), "");
}

#[test]
fn a_loop_may_run_as_many_rounds_as_it_has_fuel() {
    let counting = |rounds: i32| {
        vec![
            set(var("i"), num(0)),
            Statement::While {
                condition: op(var("i"), Operator::LessThan, num(rounds)),
                statements: vec![Statement::OperatorAssignment {
                    name: s("i"),
                    operator: Operator::Plus,
                    rhs: num(1),
                }],
            },
            say(var("i")),
        ]
    };
    let (out, r) = run_with(&runtime(), counting(8), 10);
    assert!(r.is_ok(), "{:?}", r);
    assert_eq!(out, "8\n");
    let (_, r) = run_with(&runtime(), counting(10), 10);
    assert!(matches!(r, Err(EvalError::Exhausted)));
    let (out, r) = run_with(&runtime(), counting(10), 11);
    assert!(r.is_ok(), "{:?}", r);
    assert_eq!(out, "10\n");
    let (more, r) = run_with(&runtime(), counting(10), 5000);
    assert!(r.is_ok(), "{:?}", r);
    assert_eq!(more, out);
}

#[test]
fn nesting_uses_fuel() {
    let deep = |depth: usize| {
        let mut e = num(1);
        for _ in 0..depth {
            e = op(e, Operator::Plus, num(1));
        }
        vec![say(e)]
    };
    let (out, r) = run_with(&runtime(), deep(3), 20);
    assert!(r.is_ok(), "{:?}", r);
    assert_eq!(out, "4\n");
    let (_, r) = run_with(&runtime(), deep(30), 20);
    assert!(matches!(r, Err(EvalError::Exhausted)));
}

#[test]
fn lists_of_different_length_are_not_equal() {
    assert_eq!(shown(op(lst(vec![num(1)]), Operator::Equal, lst(vec![num(1), num(2)]))), "false");
    assert_eq!(shown(op(lst(vec![]), Operator::Equal, lst(vec![num(1)]))), "false");
    assert_eq!(shown(op(lst(vec![num(1)]), Operator::NotEqual, lst(vec![num(1), num(2)]))), "true");
    assert_eq!(shown(op(lst(vec![num(1), num(2)]), Operator::Equal, lst(vec![num(1), num(2)]))), "true");
    assert_eq!(shown(op(lst(vec![]), Operator::Equal, lst(vec![]))), "true");
    let nested = |inner: Vec<Expression>| lst(vec![num(0), lst(inner)]);
    assert_eq!(shown(op(nested(vec![num(1)]), Operator::Equal, nested(vec![num(1), num(2)]))), "false");
}

#[test]
fn a_pattern_without_a_pack_that_is_too_short_binds_nothing() {
    let pattern = Expression::List { items: vec![plain(var("a")), plain(var("b"))] };
    let program = vec![set(var("b"), num(0)), set(pattern, lst(vec![num(1), num(2), num(3)]))];
    let mut env = fresh();
    let mut out = String::new();
    let r = eval_program(&runtime(), &mut env, &Program::Body { statements: program }, false, FUEL, &mut out);
    let e = r.err().unwrap();
    assert!(matches!(e, EvalError::Destructure { values: 3, targets: 2 }), "{:?}", e);
    assert_eq!(e.kind(), ErrorKind::ArityError);
    assert!(env.get(&s("a")).is_none());
    assert!(matches!(env.get(&s("b")), Some(Value::Int { v: 0 })));
}

#[test]
fn a_pattern_of_names_binds_each_and_leaves_the_rest() {
    let pattern = Expression::List {
        items: vec![plain(var("a")), plain(var("b")), plain(var("c"))],
    };
    let program = vec![
        set(var("keep"), num(7)),
        set(var("b"), num(0)),
        set(pattern, lst(vec![num(1), num(2), num(3)])),
    ];
    let mut env = fresh();
    let mut out = String::new();
    eval_program(&runtime(), &mut env, &Program::Body { statements: program }, false, FUEL, &mut out).unwrap();
    assert!(matches!(env.get(&s("a")), Some(Value::Int { v: 1 })));
    assert!(matches!(env.get(&s("b")), Some(Value::Int { v: 2 })));
    assert!(matches!(env.get(&s("c")), Some(Value::Int { v: 3 })));
    assert!(matches!(env.get(&s("keep")), Some(Value::Int { v: 7 })));
    assert!(env.get(&s("d")).is_none());
    assert_eq!(out, "");
}

#[test]
fn a_call_whose_arguments_bind_nothing_leaves_the_bindings_even_when_it_fails() {
    let body = vec![set(var("x"), num(99)), set(var("p"), num(5)), say(var("missing"))];
    let program = vec![
        set(var("x"), num(1)),
        define("f", &["p"], body, None),
        Statement::Expression { expression: call("f", vec![op(var("x"), Operator::Plus, num(1))]) },
    ];
    let mut env = fresh();
    let mut out = String::new();
    let r = eval_program(&runtime(), &mut env, &Program::Body { statements: program }, false, FUEL, &mut out);
    assert!(matches!(r, Err(EvalError::Undefined { .. })));
    assert!(matches!(env.get(&s("x")), Some(Value::Int { v: 1 })));
    assert!(env.get(&s("p")).is_none());
}
