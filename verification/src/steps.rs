//! The steps of evaluation that evaluate nothing themselves: binding and
//! reading back fields, defining a class, reading and writing a field or
//! an element.

use crate::ast::{ClassField, ListItem, UserClass};
use crate::env::Environment;
use crate::error::{ErrorView, EvalError};
use crate::lookup::{
    bind_all, bind_fields, carry_over, elements, find_field, find_readable,
    find_reserved_field, is_keyword, put_field, read_back, read_position,
};
use crate::runtime::{reached, texts, unit_result, value_result, Runtime, World};
use crate::semantics;
use crate::unit::FloatUnit;
use crate::value::{
    clone_text, field_views, lemma_object_view, option_text, share, views,
    FieldView, Value, ValueView,
};
use vstd::prelude::*;
use vstd::string::*;

verus! {

/// Whether `s` is the text `word`.
pub fn is_word(s: &String, word: &str) -> (out: bool)
    ensures
        out == (s@ == word@),
{
    *s == String::from_str(word)
}

/// A copy of each field, in order.
pub fn clone_fields(fields: &Vec<(String, ClassField)>) -> (out: Vec<(String, ClassField)>)
    ensures
        field_views(out@) == field_views(fields@),
{
    let mut out: Vec<(String, ClassField)> = Vec::new();
    let mut i: usize = 0;
    while i < fields.len()
        invariant
            i <= fields.len(),
            out.len() == i,
            forall|k: int| 0 <= k < i ==> field_views(out@)[k] == field_views(fields@)[k],
        decreases fields.len() - i,
    {
        let entry = (
            fields[i].0.clone(),
            ClassField { is_private: fields[i].1.is_private, value: fields[i].1.value.clone() },
        );
        out.push(entry);
        i += 1;
    }
    assert(field_views(out@) =~= field_views(fields@));
    out
}

/// Binds each name to the value at its place, as far as both reach.
pub fn bind_values(local: &mut Environment, names: &Vec<String>, values: &Vec<Value>)
    ensures
        final(local)@ == bind_all(old(local)@, texts(names@), views(values@), 0),
{
    let mut i: usize = 0;
    while i < names.len() && i < values.len()
        invariant
            bind_all(old(local)@, texts(names@), views(values@), 0) == bind_all(
                local@,
                texts(names@),
                views(values@),
                i as nat,
            ),
        decreases names.len() - i,
    {
        local.insert(names[i].clone(), values[i].clone());
        i += 1;
    }
}

/// Binds each field's name to the field's value.
pub fn bind_field_values(local: &mut Environment, fields: &Vec<(String, ClassField)>)
    ensures
        final(local)@ == bind_fields(old(local)@, field_views(fields@), 0),
{
    let mut i: usize = 0;
    while i < fields.len()
        invariant
            i <= fields.len(),
            bind_fields(old(local)@, field_views(fields@), 0) == bind_fields(
                local@,
                field_views(fields@),
                i as nat,
            ),
        decreases fields.len() - i,
    {
        local.insert(fields[i].0.clone(), fields[i].1.value.clone());
        i += 1;
    }
}

/// Puts into `acc` each field with the value that its name is bound to in `local`.
pub fn read_back_fields(
    local: &Environment,
    fields: &Vec<(String, ClassField)>,
    acc: &mut Vec<(String, ClassField)>,
) -> (r: Result<(), EvalError>)
    ensures
        match read_back(local@, field_views(fields@), field_views(old(acc)@), 0) {
            Ok(all) => r is Ok && field_views(final(acc)@) == all,
            Err(e) => r matches Err(x) && x@ == e,
        },
{
    let mut i: usize = 0;
    while i < fields.len()
        invariant
            i <= fields.len(),
            read_back(local@, field_views(fields@), field_views(old(acc)@), 0) == read_back(
                local@,
                field_views(fields@),
                field_views(acc@),
                i as nat,
            ),
        decreases fields.len() - i,
    {
        match local.get(&fields[i].0) {
            None => {
                return Err(EvalError::Uninitialized { field: fields[i].0.clone() });
            },
            Some(value) => {
                let field = ClassField { is_private: fields[i].1.is_private, value: value.clone() };
                put_field(acc, fields[i].0.clone(), field);
            },
        }
        i += 1;
    }
    Ok(())
}

/// Binds in `local` the name of each field to what it is bound to in `env`.
pub fn carry_over_fields(
    env: &Environment,
    local: &mut Environment,
    fields: &Vec<(String, ClassField)>,
) -> (r: Result<(), EvalError>)
    ensures
        match carry_over(env@, old(local)@, field_views(fields@), 0) {
            Ok(all) => r is Ok && final(local)@ == all,
            Err(e) => r matches Err(x) && x@ == e,
        },
{
    let mut i: usize = 0;
    while i < fields.len()
        invariant
            i <= fields.len(),
            carry_over(env@, old(local)@, field_views(fields@), 0) == carry_over(
                env@,
                local@,
                field_views(fields@),
                i as nat,
            ),
        decreases fields.len() - i,
    {
        match env.get(&fields[i].0) {
            None => {
                return Err(EvalError::Uninitialized { field: fields[i].0.clone() });
            },
            Some(value) => {
                local.insert(fields[i].0.clone(), value.clone());
            },
        }
        i += 1;
    }
    Ok(())
}

/// The model of an optional value.
pub open spec fn option_view(v: Option<Value>) -> Option<ValueView> {
    match v {
        Some(v) => Some(v@),
        None => None,
    }
}

/// The parent class that `parent_class` names, if it names one.
pub fn parent_of(env: &Environment, parent_class: &Option<String>) -> (r: Result<
    Option<Value>,
    EvalError,
>)
    ensures
        match semantics::parent_of(env@, option_text(*parent_class)) {
            Ok(p) => r matches Ok(x) && option_view(x) == p,
            Err(e) => r matches Err(x) && x@ == e,
        },
{
    match parent_class {
        None => Ok(None),
        Some(p) => match env.get(p) {
            None => Err(EvalError::Undefined { name: p.clone() }),
            Some(v) => match v {
                Value::Object { .. } => Ok(Some(v.clone())),
                _ => Err(EvalError::NotAnObject { name: p.clone() }),
            },
        },
    }
}

/// The fields of a new instance, read from the bindings that its constructor left.
pub fn instance_fields(
    local: &Environment,
    fields: &Vec<(String, ClassField)>,
    parent: &Option<Value>,
) -> (r: Result<Vec<(String, ClassField)>, EvalError>)
    ensures
        match semantics::instance_fields(local@, field_views(fields@), option_view(*parent)) {
            Ok(all) => r matches Ok(x) && field_views(x@) == all,
            Err(e) => r matches Err(x) && x@ == e,
        },
{
    let mut all: Vec<(String, ClassField)> = Vec::new();
    assert(field_views(all@) =~= Seq::<FieldView>::empty());
    match read_back_fields(local, fields, &mut all) {
        Err(e) => {
            return Err(e);
        },
        Ok(()) => {},
    }
    match parent {
        None => Ok(all),
        Some(p) => match p {
            Value::Object { name, fields: inherited, init, methods, parent_class } => {
                proof {
                    lemma_object_view(*name, *inherited, *init, *methods, *parent_class);
                }
                match read_back_fields(local, inherited, &mut all) {
                    Err(e) => {
                        return Err(e);
                    },
                    Ok(()) => {},
                }
                put_field(
                    &mut all,
                    String::from_str("super"),
                    ClassField { is_private: true, value: p.clone() },
                );
                Ok(all)
            },
            _ => Err(EvalError::NotAnObject { name: String::from_str("super") }),
        },
    }
}

/// The magnitude of an index.
pub fn magnitude(idx: i32) -> (out: u64)
    ensures
        out == (if idx < 0 {
            -(idx as int)
        } else {
            idx as int
        }),
{
    if idx < 0 {
        (-(idx as i64)) as u64
    } else {
        idx as u64
    }
}

/// The item of `var` at index `idx`.
pub fn element_at(var: Value, idx: i32) -> (r: Result<Value, EvalError>)
    ensures
        value_result(r) == (match elements(var@) {
            None => Err(ErrorView::NotIterable),
            Some(items) => match read_position(idx as int, items.len()) {
                None => Err(ErrorView::OutOfBounds { index: idx as int }),
                Some(p) => Ok(items[p]),
            },
        }),
{
    let mut iterator = var.into_iter();
    if iterator.holds_null() {
        return Err(EvalError::NotIterable);
    }
    let length = iterator.len();
    let size = magnitude(idx);
    if size >= length as u64 {
        return Err(EvalError::OutOfBounds { index: idx });
    }
    let place = if idx < 0 {
        length - size as usize
    } else {
        size as usize
    };
    match iterator.nth(place) {
        Some(v) => Ok(v),
        None => Err(EvalError::OutOfBounds { index: idx }),
    }
}

/// `list` with `value` at index `idx`.
pub fn set_element(list: &Vec<Value>, idx: i32, value: Value) -> (r: Result<Vec<Value>, EvalError>)
    ensures
        match read_position(idx as int, list.len() as nat) {
            None => r matches Err(e) && e@ == (ErrorView::OutOfBounds { index: idx as int }),
            Some(p) => r matches Ok(v) && views(v@) == views(list@).update(p, value@),
        },
{
    let size = magnitude(idx);
    let length = list.len();
    if size >= length as u64 {
        return Err(EvalError::OutOfBounds { index: idx });
    }
    let place = if idx < 0 {
        length - size as usize
    } else {
        size as usize
    };
    let mut items = crate::value::clone_values(list);
    items[place] = value;
    assert(views(items@) =~= views(list@).update(place as int, value@));
    Ok(items)
}

/// Defines a class.
pub fn define_class<U: FloatUnit>(rt: &Runtime<U>, env: &mut Environment, class: &UserClass) -> (r:
    Result<Value, EvalError>)
    ensures
        forall|out: Seq<char>|
            reached(
                semantics::define_class(rt.setting(), World { env: old(env)@, out }, *class),
                final(env)@,
                out,
                value_result(r),
            ),
{
    if is_keyword(&rt.keywords, &class.name) {
        return Err(EvalError::Keyword { word: class.name.clone() });
    }
    match find_reserved_field(&rt.keywords, &class.fields) {
        Some(k) => Err(EvalError::Keyword { word: class.fields[k].0.clone() }),
        None => {
            let object = Value::Object {
                name: class.name.clone(),
                fields: clone_fields(&class.fields),
                init: share(&class.init),
                methods: share(&class.methods),
                parent_class: clone_text(&class.parent),
            };
            proof {
                lemma_object_view(
                    object->Object_name,
                    object->Object_fields,
                    object->init,
                    object->methods,
                    object->parent_class,
                );
            }
            env.insert(class.name.clone(), object);
            Ok(Value::Null)
        },
    }
}

/// Reads `name.field`.
pub fn read_field(env: &Environment, name: &String, field: &String) -> (r: Result<Value, EvalError>)
    ensures
        forall|out: Seq<char>|
            reached(
                semantics::read_field(World { env: env@, out }, name@, field@),
                env@,
                out,
                value_result(r),
            ),
{
    match env.get(name) {
        None => Err(EvalError::Undefined { name: name.clone() }),
        Some(v) => match v {
            Value::Object { name: class, fields, init, methods, parent_class } => {
                proof {
                    lemma_object_view(*class, *fields, *init, *methods, *parent_class);
                }
                match find_readable(fields, field, is_word(name, "this")) {
                    Some(k) => Ok(fields[k].1.value.clone()),
                    None => Err(EvalError::NoAccess { field: field.clone() }),
                }
            },
            _ => Err(EvalError::NotAnObject { name: name.clone() }),
        },
    }
}

/// Writes `name.field`.
pub fn assign_field(env: &mut Environment, name: &String, field: &String, value: Value) -> (r:
    Result<(), EvalError>)
    ensures
        forall|out: Seq<char>|
            reached(
                semantics::assign_field(World { env: old(env)@, out }, name@, field@, value@),
                final(env)@,
                out,
                unit_result(r),
            ),
{
    if is_word(name, "this") {
        if env.contains(field) {
            env.insert(field.clone(), value);
            return Ok(());
        }
        return Err(EvalError::NoSuchField { field: field.clone() });
    }
    let object = match env.get(name) {
        None => {
            return Err(EvalError::Undefined { name: name.clone() });
        },
        Some(v) => v.clone(),
    };
    match object {
        Value::Object { name: class, fields, init, methods, parent_class } => {
            proof {
                lemma_object_view(class, fields, init, methods, parent_class);
            }
            match find_field(&fields, field) {
                None => Err(EvalError::NoSuchField { field: field.clone() }),
                Some(k) => {
                    if fields[k].1.is_private {
                        return Err(EvalError::PrivateField);
                    }
                    let mut fields = fields;
                    let ghost before = field_views(fields@);
                    fields[k] = (field.clone(), ClassField { is_private: false, value });
                    assert(field_views(fields@) =~= before.update(
                        k as int,
                        FieldView { name: field@, is_private: false, value: value@ },
                    ));
                    let updated = Value::Object { name: class, fields, init, methods, parent_class };
                    proof {
                        lemma_object_view(class, fields, init, methods, parent_class);
                    }
                    env.insert(name.clone(), updated);
                    Ok(())
                },
            }
        },
        _ => Err(EvalError::NotAnObject { name: name.clone() }),
    }
}

/// What is wrong with the first target of a list pattern that is not in order.
pub fn check_targets(targets: &Vec<ListItem>, values: usize) -> (r: Option<EvalError>)
    ensures
        match semantics::check_targets(targets@, values as nat, 0) {
            Some(e) => r matches Some(x) && x@ == e,
            None => r is None,
        },
{
    let mut i: usize = 0;
    while i < targets.len()
        invariant
            i <= targets.len(),
            semantics::check_targets(targets@, values as nat, 0) == semantics::check_targets(
                targets@,
                values as nat,
                i as nat,
            ),
        decreases targets.len() - i,
    {
        if i == targets.len() - 1 && targets.len() < values {
            if targets[i].is_pack {
                return None;
            }
            return Some(EvalError::Destructure { values, targets: targets.len() });
        }
        if targets[i].is_spread {
            return Some(EvalError::SpreadInAssignment);
        }
        i += 1;
    }
    None
}

} // verus!
