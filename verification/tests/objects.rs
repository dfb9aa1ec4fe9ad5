use brainstorm::ast::{
    ClassField, ClassInitDef, ClassMethod, Expression, Operator, Program, Statement, UserClass,
};
use brainstorm::env::Environment;
use brainstorm::error::{ErrorKind, EvalError};
use brainstorm::eval::eval_program;
use brainstorm::runtime::Runtime;
use brainstorm::unit::FloatUnit;
use brainstorm::value::Value;
use std::rc::Rc;

struct Ieee;

impl FloatUnit for Ieee {
    fn arith(&self, op: Operator, lhs: u64, rhs: u64) -> u64 {
        let (a, b) = (f64::from_bits(lhs), f64::from_bits(rhs));
        match op {
            Operator::Plus => (a + b).to_bits(),
            Operator::Minus => (a - b).to_bits(),
            Operator::Times => (a * b).to_bits(),
            _ => (a / b).to_bits(),
        }
    }

    fn compare(&self, op: Operator, lhs: u64, rhs: u64) -> bool {
        let (a, b) = (f64::from_bits(lhs), f64::from_bits(rhs));
        match op {
            Operator::LessThan => a < b,
            Operator::GreaterThan => a > b,
            Operator::Equal => (a - b).abs() <= 1e-9,
            _ => (a - b).abs() > 1e-9,
        }
    }

    fn widen(&self, v: i32) -> u64 {
        f64::from(v).to_bits()
    }

    fn text(&self, bits: u64) -> String {
        format!("{}", f64::from_bits(bits))
    }
}

const FUEL: u64 = 1000;


fn fresh() -> Environment {
    let mut env = Environment::new();
    env.insert_builtins();
    env
}

fn s(text: &str) -> String {
    text.to_string()
}

fn num(v: i32) -> Expression {
    Expression::Int { v }
}


fn txt(text: &str) -> Expression {
    Expression::String { s: s(text) }
}


fn var(name: &str) -> Expression {
    Expression::Identifier { name: s(name) }
}

fn call(function: &str, arguments: Vec<Expression>) -> Expression {
    Expression::Call { function: s(function), arguments }
}

fn op(lhs: Expression, operator: Operator, rhs: Expression) -> Expression {
    Expression::Operation { lhs: Box::new(lhs), rhs: Box::new(rhs), operator }
}






fn set(lhs: Expression, rhs: Expression) -> Statement {
    Statement::Assignment { lhs, rhs }
}

fn say(expression: Expression) -> Statement {
    Statement::Expression { expression: call("println", vec![expression]) }
}




fn run_reserving(keywords: &[&str], statements: Vec<Statement>) -> (String, Result<(), EvalError>) {
    let rt = Runtime {
        unit: Ieee,
        modules: vec![],
        keywords: keywords.iter().map(|k| s(k)).collect(),
    };
    let mut env = fresh();
    let mut out = String::new();
    let r = eval_program(&rt, &mut env, &Program::Body { statements }, false, FUEL, &mut out);
    (out, r)
}

fn run(statements: Vec<Statement>) -> (String, Result<(), EvalError>) {
    run_reserving(&["if", "while", "class", "this", "super"], statements)
}

fn output(statements: Vec<Statement>) -> String {
    let (out, r) = run(statements);
    assert!(r.is_ok(), "{:?}", r);
    out
}

fn failure(statements: Vec<Statement>) -> EvalError {
    match run(statements).1 {
        Err(e) => e,
        Ok(()) => panic!("the program did not fail"),
    }
}



fn field(name: &str, value: Value, is_private: bool) -> (String, ClassField) {
    (s(name), ClassField { is_private, value })
}

fn method(name: &str, params: &[&str], body: Vec<Statement>, ret: Option<Expression>) -> (String, ClassMethod) {
    (
        s(name),
        ClassMethod {
            arguments: params.iter().map(|p| s(p)).collect(),
            statements: body,
            return_exp: ret,
            is_private: false,
        },
    )
}

fn private(m: (String, ClassMethod)) -> (String, ClassMethod) {
    (m.0, ClassMethod { is_private: true, ..m.1 })
}

fn init(params: &[&str], body: Vec<Statement>) -> ClassInitDef {
    ClassInitDef {
        name: Some(s("init")),
        arguments: Some(params.iter().map(|p| s(p)).collect()),
        statements: Some(body),
    }
}

fn no_init() -> ClassInitDef {
    ClassInitDef { name: None, arguments: None, statements: None }
}

fn class(
    name: &str,
    parent: Option<&str>,
    fields: Vec<(String, ClassField)>,
    init: ClassInitDef,
    methods: Vec<(String, ClassMethod)>,
) -> Statement {
    Statement::Expression {
        expression: Expression::ClassDef {
            params: Box::new(UserClass {
                name: s(name),
                fields,
                init: Rc::new(init),
                methods: Rc::new(methods),
                parent: parent.map(s),
            }),
        },
    }
}

fn new(class_name: &str, arguments: Vec<Expression>) -> Expression {
    Expression::ObjectCreation { class_name: s(class_name), arguments }
}

fn send(name: &str, method: &str, arguments: Vec<Expression>) -> Expression {
    Expression::MethodCall { name: s(name), method: s(method), arguments }
}

fn get(name: &str, field: &str) -> Expression {
    Expression::FieldAccess { name: s(name), field: s(field) }
}

fn exec(expression: Expression) -> Statement {
    Statement::Expression { expression }
}

fn whole(v: i32) -> Value {
    Value::Int { v }
}

fn point() -> Statement {
    class(
        "Point",
        None,
        vec![field("x", whole(0), false)],
        init(&["v"], vec![set(var("x"), var("v"))]),
        vec![method("get", &[], vec![], Some(var("x")))],
    )
}

#[test]
fn class_with_field_init_and_method() {
    let program = vec![point(), set(var("p"), new("Point", vec![num(7)])), say(send("p", "get", vec![]))];
    assert_eq!(output(program), "7\n");
}

#[test]
fn subclass_calls_the_parents_method_then_its_own() {
    let a = class(
        "A",
        None,
        vec![],
        no_init(),
        vec![method("m", &[], vec![say(txt("A"))], None)],
    );
    let b = class(
        "B",
        Some("A"),
        vec![],
        init(&[], vec![exec(call("super", vec![]))]),
        vec![method("m", &[], vec![exec(send("super", "m", vec![])), say(txt("B"))], None)],
    );
    let program = vec![a, b, set(var("b"), new("B", vec![])), exec(send("b", "m", vec![]))];
    assert_eq!(output(program), "A\nB\n");
}

#[test]
fn class_definition_evaluates_to_null_and_binds_the_class() {
    let program = vec![point(), say(var("Point"))];
    assert_eq!(output(program), "Class \"Point\"\n");
}

#[test]
fn instances_are_shown_as_their_class() {
    let program = vec![point(), set(var("p"), new("Point", vec![num(1)])), say(var("p"))];
    assert_eq!(output(program), "Class \"Point\"\n");
}

#[test]
fn a_class_without_a_constructor_is_copied_whatever_the_arguments() {
    let c = class("C", None, vec![field("n", whole(3), false)], no_init(), vec![]);
    let program = vec![c, set(var("c"), new("C", vec![num(1), var("unbound")])), say(get("c", "n"))];
    assert_eq!(output(program), "3\n");
}

#[test]
fn instances_do_not_share_their_fields() {
    let program = vec![
        point(),
        set(var("p"), new("Point", vec![num(1)])),
        set(var("q"), new("Point", vec![num(2)])),
        set(get("p", "x"), num(10)),
        say(get("p", "x")),
        say(get("q", "x")),
        say(get("Point", "x")),
    ];
    assert_eq!(output(program), "10\n2\n0\n");
}

#[test]
fn constructor_arity_is_checked() {
    let e = failure(vec![point(), set(var("p"), new("Point", vec![]))]);
    assert!(matches!(e, EvalError::Arity { expected: 1, got: 0 }), "{:?}", e);
    let e = failure(vec![point(), set(var("p"), new("Point", vec![num(1), num(2)]))]);
    assert!(matches!(e, EvalError::Arity { expected: 1, got: 2 }), "{:?}", e);
}

#[test]
fn creating_from_what_is_no_class_fails() {
    let e = failure(vec![set(var("p"), new("Nothing", vec![]))]);
    assert!(matches!(&e, EvalError::Undefined { name } if name == "Nothing"), "{:?}", e);
    let e = failure(vec![set(var("n"), num(1)), set(var("p"), new("n", vec![]))]);
    assert!(matches!(&e, EvalError::NotAnObject { name } if name == "n"), "{:?}", e);
}

#[test]
fn a_class_bound_to_a_name_is_no_function() {
    let e = failure(vec![point(), exec(call("Point", vec![num(1)]))]);
    assert!(matches!(&e, EvalError::NotAFunction { name } if name == "Point"), "{:?}", e);
}

#[test]
fn constructor_arguments_are_evaluated_on_the_callers_bindings() {
    let program = vec![
        point(),
        set(var("base"), num(40)),
        set(var("p"), new("Point", vec![op(var("base"), Operator::Plus, num(2))])),
        say(send("p", "get", vec![])),
    ];
    assert_eq!(output(program), "42\n");
}

#[test]
fn constructor_does_not_see_the_callers_bindings() {
    let c = class(
        "C",
        None,
        vec![field("n", whole(0), false)],
        init(&[], vec![set(var("n"), var("outer"))]),
        vec![],
    );
    let e = failure(vec![set(var("outer"), num(1)), c, set(var("c"), new("C", vec![]))]);
    assert!(matches!(&e, EvalError::Undefined { name } if name == "outer"), "{:?}", e);
}

#[test]
fn a_field_default_hides_a_parameter_of_the_same_name() {
    let c = class("C", None, vec![field("n", whole(5), false)], init(&["n"], vec![]), vec![]);
    let program = vec![c, set(var("c"), new("C", vec![num(9)])), say(get("c", "n"))];
    assert_eq!(output(program), "5\n");
}

#[test]
fn reading_fields_obeys_privacy() {
    let c = class(
        "C",
        None,
        vec![field("open", whole(1), false), field("secret", whole(2), true)],
        no_init(),
        vec![
            method("peek", &[], vec![], Some(get("this", "secret"))),
            method("direct", &[], vec![], Some(var("secret"))),
        ],
    );
    let program = vec![
        c,
        set(var("c"), new("C", vec![])),
        say(get("c", "open")),
        say(send("c", "peek", vec![])),
        say(send("c", "direct", vec![])),
    ];
    assert_eq!(output(program), "1\n2\n2\n");
    let c = class("C", None, vec![field("secret", whole(2), true)], no_init(), vec![]);
    let e = failure(vec![c, set(var("c"), new("C", vec![])), say(get("c", "secret"))]);
    assert!(matches!(&e, EvalError::NoAccess { field } if field == "secret"), "{:?}", e);
    assert_eq!(e.kind(), ErrorKind::NameError);
}

#[test]
fn reading_a_field_failures() {
    let e = failure(vec![say(get("nobody", "x"))]);
    assert!(matches!(e, EvalError::Undefined { .. }));
    let e = failure(vec![set(var("n"), num(1)), say(get("n", "x"))]);
    assert!(matches!(e, EvalError::NotAnObject { .. }));
    let e = failure(vec![point(), say(get("Point", "y"))]);
    assert!(matches!(&e, EvalError::NoAccess { field } if field == "y"), "{:?}", e);
}

#[test]
fn writing_fields_obeys_privacy() {
    let c = || {
        class(
            "C",
            None,
            vec![field("open", whole(1), false), field("secret", whole(2), true)],
            no_init(),
            vec![method("peek", &[], vec![], Some(var("secret")))],
        )
    };
    let program = vec![c(), set(var("c"), new("C", vec![])), set(get("c", "open"), num(5)), say(get("c", "open"))];
    assert_eq!(output(program), "5\n");
    let e = failure(vec![c(), set(var("c"), new("C", vec![])), set(get("c", "secret"), num(5))]);
    assert!(matches!(e, EvalError::PrivateField), "{:?}", e);
    assert_eq!(e.kind(), ErrorKind::AssignmentError);
    let e = failure(vec![c(), set(var("c"), new("C", vec![])), set(get("c", "other"), num(5))]);
    assert!(matches!(&e, EvalError::NoSuchField { field } if field == "other"), "{:?}", e);
    let e = failure(vec![set(get("nobody", "x"), num(5))]);
    assert!(matches!(e, EvalError::Undefined { .. }));
    let e = failure(vec![set(var("n"), num(1)), set(get("n", "x"), num(5))]);
    assert!(matches!(e, EvalError::NotAnObject { .. }));
}

#[test]
fn writing_through_this_changes_the_binding_of_the_field() {
    let c = class(
        "C",
        None,
        vec![field("n", whole(0), true)],
        init(&["v"], vec![set(get("this", "n"), var("v"))]),
        vec![method("read", &[], vec![], Some(var("n")))],
    );
    let program = vec![c, set(var("c"), new("C", vec![num(8)])), say(send("c", "read", vec![]))];
    assert_eq!(output(program), "8\n");
    let c = class(
        "C",
        None,
        vec![],
        init(&[], vec![set(get("this", "missing"), num(1))]),
        vec![],
    );
    let e = failure(vec![c, set(var("c"), new("C", vec![]))]);
    assert!(matches!(&e, EvalError::NoSuchField { field } if field == "missing"), "{:?}", e);
}

#[test]
fn method_bodies_do_not_change_the_instance() {
    let c = class(
        "C",
        None,
        vec![field("n", whole(1), false)],
        no_init(),
        vec![method("bump", &[], vec![set(var("n"), num(2))], Some(var("n")))],
    );
    let program = vec![
        c,
        set(var("c"), new("C", vec![])),
        say(send("c", "bump", vec![])),
        say(get("c", "n")),
    ];
    assert_eq!(output(program), "2\n1\n");
}

#[test]
fn methods_take_arguments_and_see_the_builtins() {
    let c = class(
        "C",
        None,
        vec![field("n", whole(10), false)],
        no_init(),
        vec![method(
            "plus",
            &["a", "b"],
            vec![say(var("a"))],
            Some(op(op(var("n"), Operator::Plus, var("a")), Operator::Plus, var("b"))),
        )],
    );
    let program = vec![
        c,
        set(var("c"), new("C", vec![])),
        set(var("k"), num(3)),
        say(send("c", "plus", vec![num(1), var("k")])),
    ];
    assert_eq!(output(program), "1\n14\n");
}

#[test]
fn methods_do_not_see_the_callers_bindings() {
    let c = class("C", None, vec![], no_init(), vec![method("m", &[], vec![], Some(var("outer")))]);
    let e = failure(vec![set(var("outer"), num(1)), c, set(var("c"), new("C", vec![])), say(send("c", "m", vec![]))]);
    assert!(matches!(&e, EvalError::Undefined { name } if name == "outer"), "{:?}", e);
}

#[test]
fn private_methods_are_called_only_through_this() {
    let c = || {
        class(
            "C",
            None,
            vec![],
            no_init(),
            vec![
                private(method("hidden", &[], vec![], Some(num(5)))),
                method("shown", &[], vec![], Some(send("this", "hidden", vec![]))),
            ],
        )
    };
    let program = vec![c(), set(var("c"), new("C", vec![])), say(send("c", "shown", vec![]))];
    assert_eq!(output(program), "5\n");
    let e = failure(vec![c(), set(var("c"), new("C", vec![])), say(send("c", "hidden", vec![]))]);
    assert!(matches!(&e, EvalError::NoSuchMethod { method } if method == "hidden"), "{:?}", e);
    assert_eq!(e.kind(), ErrorKind::NameError);
}

#[test]
fn method_call_failures() {
    let e = failure(vec![say(send("nobody", "m", vec![]))]);
    assert!(matches!(e, EvalError::Undefined { .. }));
    let e = failure(vec![set(var("n"), num(1)), say(send("n", "m", vec![]))]);
    assert!(matches!(e, EvalError::NotAnObject { .. }));
    let e = failure(vec![point(), set(var("p"), new("Point", vec![num(1)])), say(send("p", "nope", vec![]))]);
    assert!(matches!(e, EvalError::NoSuchMethod { .. }));
    let e = failure(vec![point(), set(var("p"), new("Point", vec![num(1)])), say(send("p", "get", vec![num(1)]))]);
    assert!(matches!(e, EvalError::Arity { expected: 0, got: 1 }), "{:?}", e);
    let e = failure(vec![say(send("super", "m", vec![]))]);
    assert!(matches!(e, EvalError::NoParent), "{:?}", e);
}

#[test]
fn a_subclass_instance_has_the_parents_fields_and_a_private_super() {
    let a = class("A", None, vec![field("base", whole(1), false)], no_init(), vec![]);
    let b = class(
        "B",
        Some("A"),
        vec![field("own", whole(2), false)],
        init(&[], vec![exec(call("super", vec![])), set(var("base"), num(11))]),
        vec![],
    );
    let program = vec![a, b, set(var("b"), new("B", vec![])), say(get("b", "own")), say(get("b", "base"))];
    assert_eq!(output(program), "2\n11\n");
    let a = class("A", None, vec![], no_init(), vec![]);
    let b = class("B", Some("A"), vec![], init(&[], vec![]), vec![]);
    let e = failure(vec![a, b, set(var("b"), new("B", vec![])), say(get("b", "super"))]);
    assert!(matches!(&e, EvalError::NoAccess { field } if field == "super"), "{:?}", e);
}

#[test]
fn a_parent_constructor_runs_through_super() {
    let a = class(
        "A",
        None,
        vec![field("base", whole(0), false)],
        init(&["v"], vec![set(var("base"), op(var("v"), Operator::Times, num(2)))]),
        vec![method("show", &[], vec![say(var("base"))], None)],
    );
    let b = class(
        "B",
        Some("A"),
        vec![],
        init(&["v"], vec![exec(call("super", vec![var("v")]))]),
        vec![method("show", &[], vec![exec(send("super", "show", vec![])), say(txt("done"))], None)],
    );
    let program = vec![a, b, set(var("b"), new("B", vec![num(21)])), exec(send("b", "show", vec![]))];
    assert_eq!(output(program), "42\ndone\n");
}

#[test]
fn a_parent_field_that_the_constructor_leaves_unbound_fails() {
    let a = class("A", None, vec![field("base", whole(1), false)], no_init(), vec![]);
    let b = class("B", Some("A"), vec![], init(&[], vec![]), vec![]);
    let e = failure(vec![a, b, set(var("b"), new("B", vec![]))]);
    assert!(matches!(&e, EvalError::Uninitialized { field } if field == "base"), "{:?}", e);
}

#[test]
fn a_parent_that_is_not_bound_to_a_class_fails() {
    let b = || class("B", Some("A"), vec![], init(&[], vec![]), vec![]);
    let e = failure(vec![b(), set(var("b"), new("B", vec![]))]);
    assert!(matches!(&e, EvalError::Undefined { name } if name == "A"), "{:?}", e);
    let e = failure(vec![set(var("A"), num(1)), b(), set(var("b"), new("B", vec![]))]);
    assert!(matches!(&e, EvalError::NotAnObject { name } if name == "A"), "{:?}", e);
}

#[test]
fn reserved_words_name_neither_class_nor_field() {
    let c = class("while", None, vec![], no_init(), vec![]);
    let e = failure(vec![c]);
    assert!(matches!(&e, EvalError::Keyword { word } if word == "while"), "{:?}", e);
    assert_eq!(e.kind(), ErrorKind::KeywordError);
    let c = class("C", None, vec![field("ok", whole(1), false), field("if", whole(1), false)], no_init(), vec![]);
    let e = failure(vec![c]);
    assert!(matches!(&e, EvalError::Keyword { word } if word == "if"), "{:?}", e);
    let c = class("C", None, vec![field("if", whole(1), false)], no_init(), vec![]);
    let (_, r) = run_reserving(&[], vec![c]);
    assert!(r.is_ok());
}

#[test]
fn a_class_cannot_be_assigned_to() {
    let target = Expression::ClassDef {
        params: Box::new(UserClass {
            name: s("C"),
            fields: vec![],
            init: Rc::new(no_init()),
            methods: Rc::new(vec![]),
            parent: None,
        }),
    };
    assert!(matches!(failure(vec![set(target, num(1))]), EvalError::CannotAssign));
    assert!(matches!(failure(vec![set(new("C", vec![]), num(1))]), EvalError::CannotAssign));
    assert!(matches!(failure(vec![set(send("c", "m", vec![]), num(1))]), EvalError::CannotAssign));
}

#[test]
fn the_parent_is_looked_up_before_the_arguments_are_counted() {
    let b = class("B", Some("A"), vec![], init(&["v"], vec![]), vec![]);
    let e = failure(vec![b, set(var("b"), new("B", vec![]))]);
    assert!(matches!(&e, EvalError::Undefined { name } if name == "A"), "{:?}", e);
}

#[test]
fn constructor_arguments_do_not_change_the_callers_bindings() {
    let bump = || Expression::Prefix {
        name: s("i"),
        operator: Operator::Plus,
        rhs: Box::new(num(1)),
    };
    let c = class(
        "C",
        None,
        vec![field("a", whole(0), false), field("b", whole(0), false)],
        init(&["x", "y"], vec![set(var("a"), var("x")), set(var("b"), var("y"))]),
        vec![],
    );
    let program = vec![
        c,
        set(var("i"), num(0)),
        set(var("c"), new("C", vec![bump(), bump()])),
        say(get("c", "a")),
        say(get("c", "b")),
        say(var("i")),
    ];
    assert_eq!(output(program), "1\n1\n0\n");
}

#[test]
fn method_arguments_share_one_copy_of_the_callers_bindings() {
    let bump = || Expression::Prefix {
        name: s("i"),
        operator: Operator::Plus,
        rhs: Box::new(num(1)),
    };
    let c = class(
        "C",
        None,
        vec![],
        no_init(),
        vec![method("pair", &["x", "y"], vec![say(var("x")), say(var("y"))], None)],
    );
    let program = vec![
        c,
        set(var("c"), new("C", vec![])),
        set(var("i"), num(0)),
        exec(send("c", "pair", vec![bump(), bump()])),
        say(var("i")),
    ];
    assert_eq!(output(program), "1\n2\n0\n");
}

#[test]
fn call_arguments_change_the_callers_bindings() {
    let bump = || Expression::Prefix {
        name: s("i"),
        operator: Operator::Plus,
        rhs: Box::new(num(1)),
    };
    let program = vec![
        set(var("i"), num(0)),
        exec(call("println", vec![bump(), bump()])),
        say(var("i")),
    ];
    assert_eq!(output(program), "12\n2\n");
}

#[test]
fn a_method_called_through_super_runs_on_the_callers_bindings_of_the_fields() {
    let a = || {
        class(
            "A",
            None,
            vec![field("base", whole(1), false)],
            no_init(),
            vec![private(method("m", &[], vec![say(var("base"))], Some(var("base"))))],
        )
    };
    let program = vec![
        a(),
        set(var("super"), var("A")),
        set(var("base"), num(5)),
        say(send("super", "m", vec![])),
    ];
    assert_eq!(output(program), "5\n5\n");
    let e = failure(vec![a(), set(var("super"), var("A")), say(send("super", "m", vec![]))]);
    assert!(matches!(&e, EvalError::Uninitialized { field } if field == "base"), "{:?}", e);
    let e = failure(vec![set(var("super"), num(1)), say(send("super", "m", vec![]))]);
    assert!(matches!(&e, EvalError::NotAnObject { name } if name == "super"), "{:?}", e);
    let e = failure(vec![a(), set(var("super"), var("A")), say(send("super", "other", vec![]))]);
    assert!(matches!(e, EvalError::NoSuchMethod { .. }), "{:?}", e);
}

#[test]
fn calling_super_where_it_is_no_class_fails() {
    let e = failure(vec![exec(call("super", vec![]))]);
    assert!(matches!(&e, EvalError::Undefined { name } if name == "super"), "{:?}", e);
    let e = failure(vec![set(var("super"), num(1)), exec(call("super", vec![]))]);
    assert!(matches!(&e, EvalError::NotAFunction { name } if name == "super"), "{:?}", e);
}

#[test]
fn calling_super_binds_the_fields_of_the_parent() {
    let a = class("A", None, vec![field("base", whole(7), false)], no_init(), vec![]);
    let program = vec![a, set(var("super"), var("A")), exec(call("super", vec![])), say(var("base"))];
    assert_eq!(output(program), "7\n");
}

#[test]
fn an_instance_holds_each_field_name_once() {
    let c = class(
        "C",
        None,
        vec![field("x", whole(1), false), field("y", whole(2), false), field("x", whole(3), true)],
        init(&[], vec![]),
        vec![],
    );
    let rt = Runtime { unit: Ieee, modules: vec![], keywords: vec![] };
    let mut env = fresh();
    let mut out = String::new();
    let program = Program::Body { statements: vec![c, set(var("c"), new("C", vec![]))] };
    eval_program(&rt, &mut env, &program, false, FUEL, &mut out).unwrap();
    match env.get(&s("c")) {
        Some(Value::Object { fields, .. }) => {
            let names: Vec<&str> = fields.iter().map(|f| f.0.as_str()).collect();
            assert_eq!(names, vec!["x", "y"]);
            assert!(matches!(fields[0].1.value, Value::Int { v: 3 }));
            assert!(fields[0].1.is_private);
        }
        other => panic!("{:?}", other),
    }
}
