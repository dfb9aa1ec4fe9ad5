//! Runtime values and their mathematical model.

use crate::ast::{ClassField, ClassInitDef, ClassMethod, Expression, Statement};
use std::rc::Rc;
use vstd::prelude::*;

verus! {

/// The functions that the interpreter itself provides.
#[derive(Clone, Copy, Debug, PartialEq, Eq, Structural)]
pub enum Builtin {
    Print,
    Println,
    Range,
    RangeStep,
}

/// A runtime value. A class and its instances are both objects: an
/// instance is a copy of its class with its own values for the fields.
#[derive(Debug)]
pub enum Value {
    Null,
    Int { v: i32 },
    Str { s: String },
    Bool { b: bool },
    /// A 64-bit IEEE-754 number, held as its bit pattern.
    Float { bits: u64 },
    Char { c: char },
    List { e: Vec<Value> },
    Function { name: String, f: Builtin },
    UserDefFunction {
        name: String,
        statements: Rc<Vec<Statement>>,
        arguments: Rc<Vec<String>>,
        return_expression: Rc<Option<Expression>>,
    },
    Object {
        name: String,
        fields: Vec<(String, ClassField)>,
        init: Rc<ClassInitDef>,
        methods: Rc<Vec<(String, ClassMethod)>>,
        parent_class: Option<String>,
    },
}

/// What a field of an object is, as a mathematical value.
pub struct FieldView {
    pub name: Seq<char>,
    pub is_private: bool,
    pub value: ValueView,
}

/// What a `Value` is, as a mathematical value: text is a sequence of
/// characters, a list a sequence of values. Code is not copied into the
/// model; a function or class refers to the syntax it was made from.
pub enum ValueView {
    Null,
    Int { v: i32 },
    Str { s: Seq<char> },
    Bool { b: bool },
    Float { bits: u64 },
    Char { c: char },
    List { e: Seq<ValueView> },
    Function { name: Seq<char>, f: Builtin },
    UserDefFunction {
        name: Seq<char>,
        statements: Rc<Vec<Statement>>,
        arguments: Rc<Vec<String>>,
        return_expression: Rc<Option<Expression>>,
    },
    Object {
        name: Seq<char>,
        fields: Seq<FieldView>,
        init: Rc<ClassInitDef>,
        methods: Rc<Vec<(String, ClassMethod)>>,
        parent_class: Option<Seq<char>>,
    },
}

impl View for Value {
    type V = ValueView;

    open spec fn view(&self) -> ValueView
        decreases self,
    {
        match self {
            Value::Null => ValueView::Null,
            Value::Int { v } => ValueView::Int { v: *v },
            Value::Str { s } => ValueView::Str { s: s@ },
            Value::Bool { b } => ValueView::Bool { b: *b },
            Value::Float { bits } => ValueView::Float { bits: *bits },
            Value::Char { c } => ValueView::Char { c: *c },
            Value::List { e } => ValueView::List {
                e: Seq::new(
                    e@.len(),
                    |i: int| if 0 <= i < e@.len() { e@[i].view() } else { ValueView::Null },
                ),
            },
            Value::Function { name, f } => ValueView::Function { name: name@, f: *f },
            Value::UserDefFunction { name, statements, arguments, return_expression } => {
                ValueView::UserDefFunction {
                    name: name@,
                    statements: *statements,
                    arguments: *arguments,
                    return_expression: *return_expression,
                }
            },
            Value::Object { name, fields, init, methods, parent_class } => ValueView::Object {
                name: name@,
                fields: Seq::new(
                    fields@.len(),
                    |i: int| if 0 <= i < fields@.len() {
                        FieldView {
                            name: fields@[i].0@,
                            is_private: fields@[i].1.is_private,
                            value: fields@[i].1.value.view(),
                        }
                    } else {
                        FieldView { name: Seq::empty(), is_private: false, value: ValueView::Null }
                    },
                ),
                init: *init,
                methods: *methods,
                parent_class: match parent_class {
                    Some(p) => Some(p@),
                    None => None,
                },
            },
        }
    }
}

/// The models of a sequence of values, position by position.
pub open spec fn views(s: Seq<Value>) -> Seq<ValueView> {
    Seq::new(s.len(), |i: int| s[i]@)
}

/// The models of a sequence of named fields, position by position.
pub open spec fn field_views(s: Seq<(String, ClassField)>) -> Seq<FieldView> {
    Seq::new(s.len(), |i: int| field_view(s[i]))
}

/// The model of a named field.
pub open spec fn field_view(entry: (String, ClassField)) -> FieldView {
    FieldView { name: entry.0@, is_private: entry.1.is_private, value: entry.1.value@ }
}

/// The characters of an optional text.
pub open spec fn option_text(s: Option<String>) -> Option<Seq<char>> {
    match s {
        Some(p) => Some(p@),
        None => None,
    }
}

/// The model of a list is the list of its elements' models.
pub proof fn lemma_list_view(e: Vec<Value>)
    ensures
        (Value::List { e })@ == (ValueView::List { e: views(e@) }),
{
    reveal_with_fuel(<Value as View>::view, 2);
    assert((Value::List { e })@->e =~= views(e@));
}

/// The model of an object holds the models of its fields.
pub proof fn lemma_object_view(
    name: String,
    fields: Vec<(String, ClassField)>,
    init: Rc<ClassInitDef>,
    methods: Rc<Vec<(String, ClassMethod)>>,
    parent_class: Option<String>,
)
    ensures
        (Value::Object { name, fields, init, methods, parent_class })@ == (ValueView::Object {
            name: name@,
            fields: field_views(fields@),
            init,
            methods,
            parent_class: option_text(parent_class),
        }),
{
    reveal_with_fuel(<Value as View>::view, 2);
    assert((Value::Object { name, fields, init, methods, parent_class })@->fields =~= field_views(
        fields@,
    ));
}

/// `Rc::clone`: the new pointer refers to the allocation that `rc` refers
/// to, so what it holds is what `rc` holds.
#[verifier::external_body]
pub(crate) fn share<T>(rc: &Rc<T>) -> (out: Rc<T>)
    ensures
        out == *rc,
{
    Rc::clone(rc)
}

/// A copy of an optional text.
pub fn clone_text(s: &Option<String>) -> (out: Option<String>)
    ensures
        option_text(out) == option_text(*s),
{
    match s {
        Some(p) => Some(p.clone()),
        None => None,
    }
}

/// A value is copied element by element; the code of a function or class is shared.
impl Clone for Value {
    /// A copy with the same model. Lists and fields are copied; code is shared.
    fn clone(&self) -> (out: Value)
        ensures
            out@ == self@,
        decreases self,
    {
        match self {
            Value::Null => Value::Null,
            Value::Int { v } => Value::Int { v: *v },
            Value::Str { s } => Value::Str { s: s.clone() },
            Value::Bool { b } => Value::Bool { b: *b },
            Value::Float { bits } => Value::Float { bits: *bits },
            Value::Char { c } => Value::Char { c: *c },
            Value::List { e } => {
                let mut items: Vec<Value> = Vec::new();
                let mut i: usize = 0;
                while i < e.len()
                    invariant
                        i <= e.len(),
                        items.len() == i,
                        forall|k: int| 0 <= k < i ==> items[k]@ == e[k]@,
                        self == (Value::List { e: *e }),
                    decreases e.len() - i,
                {
                    assert(*e == self->e);
                    assert(decreases_to!(self => self->e[i as int]));
                    let item = e[i].clone();
                    items.push(item);
                    i += 1;
                }
                proof {
                    lemma_list_view(items);
                    lemma_list_view(*e);
                    assert(views(items@) =~= views(e@));
                }
                Value::List { e: items }
            },
            Value::Function { name, f } => Value::Function { name: name.clone(), f: *f },
            Value::UserDefFunction { name, statements, arguments, return_expression } => {
                Value::UserDefFunction {
                    name: name.clone(),
                    statements: share(statements),
                    arguments: share(arguments),
                    return_expression: share(return_expression),
                }
            },
            Value::Object { name, fields, init, methods, parent_class } => {
                let mut copied: Vec<(String, ClassField)> = Vec::new();
                let mut i: usize = 0;
                while i < fields.len()
                    invariant
                        i <= fields.len(),
                        copied.len() == i,
                        forall|k: int|
                            0 <= k < i ==> field_views(copied@)[k] == field_views(fields@)[k],
                        self == (Value::Object {
                            name: *name,
                            fields: *fields,
                            init: *init,
                            methods: *methods,
                            parent_class: *parent_class,
                        }),
                    decreases fields.len() - i,
                {
                    assert(*fields == self->Object_fields);
                    assert(decreases_to!(self => self->Object_fields[i as int].1.value));
                    let value = fields[i].1.value.clone();
                    let entry = (
                        fields[i].0.clone(),
                        ClassField { is_private: fields[i].1.is_private, value },
                    );
                    copied.push(entry);
                    i += 1;
                }
                let out = Value::Object {
                    name: name.clone(),
                    fields: copied,
                    init: share(init),
                    methods: share(methods),
                    parent_class: clone_text(parent_class),
                };
                proof {
                    lemma_object_view(*name, *fields, *init, *methods, *parent_class);
                    lemma_object_view(
                        out->Object_name,
                        out->Object_fields,
                        out->init,
                        out->methods,
                        out->parent_class,
                    );
                    assert(field_views(out->Object_fields@) =~= field_views(fields@));
                }
                out
            },
        }
    }
}

/// A copy of each value, in order.
pub fn clone_values(values: &Vec<Value>) -> (out: Vec<Value>)
    ensures
        views(out@) == views(values@),
        out.len() == values.len(),
{
    let mut out: Vec<Value> = Vec::new();
    let mut i: usize = 0;
    while i < values.len()
        invariant
            i <= values.len(),
            out.len() == i,
            forall|k: int| 0 <= k < i ==> out[k]@ == values[k]@,
        decreases values.len() - i,
    {
        out.push(values[i].clone());
        i += 1;
    }
    assert(views(out@) =~= views(values@));
    out
}

} // verus!
