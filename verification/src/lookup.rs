//! Looking things up in sequences: fields and methods of a class, modules,
//! reserved words, positions in a list.

use crate::ast::{ClassField, ClassMethod};
use crate::error::ErrorView;
use crate::runtime::{texts, Module};
use crate::value::{field_views, FieldView, ValueView};
use vstd::prelude::*;

verus! {

/// The first position at or after `from` whose item satisfies `pred`.
pub open spec fn first_index<T>(s: Seq<T>, pred: spec_fn(T) -> bool, from: nat) -> Option<int>
    decreases s.len() - from,
{
    if from >= s.len() {
        None
    } else if pred(s[from as int]) {
        Some(from as int)
    } else {
        first_index(s, pred, from + 1)
    }
}

/// A character as a value.
pub open spec fn char_value(c: char) -> ValueView {
    ValueView::Char { c }
}

/// What a value yields when it is iterated: the elements of a list, the
/// characters of a text. Nothing else can be iterated.
pub open spec fn elements(v: ValueView) -> Option<Seq<ValueView>> {
    match v {
        ValueView::List { e } => Some(e),
        ValueView::Str { s } => Some(Seq::new(s.len(), |i: int| char_value(s[i]))),
        _ => None,
    }
}

/// The position that index `idx` denotes in a sequence of `len` items. A
/// negative index counts from the end. An index whose magnitude is `len`
/// or more denotes nothing.
pub open spec fn read_position(idx: int, len: nat) -> Option<int> {
    if idx >= 0 {
        if idx < len {
            Some(idx)
        } else {
            None
        }
    } else if -idx < len {
        Some(len - (-idx))
    } else {
        None
    }
}

/// The first field called `name`.
pub open spec fn field_index(fields: Seq<FieldView>, name: Seq<char>) -> Option<int> {
    first_index(fields, |f: FieldView| f.name == name, 0)
}

/// The first field called `name` that may be read: any field from inside
/// the object, a public one from outside.
pub open spec fn readable_field(fields: Seq<FieldView>, name: Seq<char>, inside: bool) -> Option<
    int,
> {
    first_index(fields, |f: FieldView| f.name == name && (!f.is_private || inside), 0)
}

/// `fields` with `entry` in place of the first field of its name, or at the
/// end where there is none.
pub open spec fn field_put(fields: Seq<FieldView>, entry: FieldView) -> Seq<FieldView> {
    match field_index(fields, entry.name) {
        Some(i) => fields.update(i, entry),
        None => fields.push(entry),
    }
}

/// Whether each field name occurs once.
pub open spec fn names_once(fields: Seq<FieldView>) -> bool {
    forall|i: int, j: int|
        0 <= i < j < fields.len() ==> (#[trigger] fields[i]).name != (#[trigger] fields[j]).name
}

/// Putting a field keeps each name occurring once.
pub proof fn law_field_put_keeps_names_once(fields: Seq<FieldView>, entry: FieldView)
    requires
        names_once(fields),
    ensures
        names_once(field_put(fields, entry)),
{
    let pred = |f: FieldView| f.name == entry.name;
    lemma_first_index(fields, pred, 0);
    let r = field_put(fields, entry);
    match field_index(fields, entry.name) {
        Some(k) => {
            assert forall|i: int, j: int| 0 <= i < j < r.len() implies (#[trigger] r[i]).name != (
            #[trigger] r[j]).name by {
                assert(fields[i].name != fields[j].name);
            }
        },
        None => {
            assert forall|i: int, j: int| 0 <= i < j < r.len() implies (#[trigger] r[i]).name != (
            #[trigger] r[j]).name by {
                if j < fields.len() {
                    assert(fields[i].name != fields[j].name);
                } else {
                    assert(!pred(fields[i]));
                }
            }
        },
    }
}

/// What `first_index` finds is a position whose item satisfies `pred`, and
/// no position before it from `from` on does; it finds nothing only where
/// no item from `from` on does.
pub proof fn lemma_first_index<T>(s: Seq<T>, pred: spec_fn(T) -> bool, from: nat)
    ensures
        match first_index(s, pred, from) {
            Some(i) => from <= i < s.len() && pred(s[i]) && forall|k: int|
                from <= k < i ==> !pred(s[k]),
            None => forall|k: int| from <= k < s.len() ==> !pred(s[k]),
        },
    decreases s.len() - from,
{
    if from < s.len() && !pred(s[from as int]) {
        lemma_first_index(s, pred, from + 1);
    }
}

/// Reading fields back keeps each name occurring once: in an instance that
/// a constructor has made, no field name occurs twice.
pub proof fn law_read_back_keeps_names_once(
    local: Map<Seq<char>, ValueView>,
    fields: Seq<FieldView>,
    acc: Seq<FieldView>,
    from: nat,
)
    requires
        names_once(acc),
    ensures
        read_back(local, fields, acc, from) matches Ok(all) ==> names_once(all),
    decreases fields.len() - from,
{
    if from < fields.len() {
        let f = fields[from as int];
        if local.contains_key(f.name) {
            let entry = FieldView { name: f.name, is_private: f.is_private, value: local[f.name] };
            law_field_put_keeps_names_once(acc, entry);
            law_read_back_keeps_names_once(local, fields, field_put(acc, entry), from + 1);
        }
    }
}

/// The first method called `name` that may be called: any method where
/// `any` holds, else a public one.
pub open spec fn method_index(methods: Seq<(String, ClassMethod)>, name: Seq<char>, any: bool)
    -> Option<int> {
    first_index(
        methods,
        |m: (String, ClassMethod)| m.0@ == name && (!m.1.is_private || any),
        0,
    )
}

/// The first field whose name is a reserved word.
pub open spec fn reserved_field(keywords: Seq<Seq<char>>, fields: Seq<FieldView>) -> Option<int> {
    first_index(fields, |f: FieldView| keywords.contains(f.name), 0)
}

/// The first module under the path `path`.
pub open spec fn module_index(modules: Seq<Module>, path: Seq<char>) -> Option<int> {
    first_index(modules, |m: Module| m.path@ == path, 0)
}

/// `env` after binding `names[from..]` to `values[from..]`, in order, as
/// far as both reach.
pub open spec fn bind_all(
    env: Map<Seq<char>, ValueView>,
    names: Seq<Seq<char>>,
    values: Seq<ValueView>,
    from: nat,
) -> Map<Seq<char>, ValueView>
    decreases names.len() - from,
{
    if from >= names.len() || from >= values.len() {
        env
    } else {
        bind_all(env.insert(names[from as int], values[from as int]), names, values, from + 1)
    }
}

/// `env` after binding each of `fields[from..]` to its value, in order.
pub open spec fn bind_fields(env: Map<Seq<char>, ValueView>, fields: Seq<FieldView>, from: nat)
    -> Map<Seq<char>, ValueView>
    decreases fields.len() - from,
{
    if from >= fields.len() {
        env
    } else {
        bind_fields(
            env.insert(fields[from as int].name, fields[from as int].value),
            fields,
            from + 1,
        )
    }
}

/// `acc` after putting into it each of `fields[from..]` with the value
/// that its name is bound to in `local`. A field whose name is not bound
/// there is `Uninitialized`.
pub open spec fn read_back(
    local: Map<Seq<char>, ValueView>,
    fields: Seq<FieldView>,
    acc: Seq<FieldView>,
    from: nat,
) -> Result<Seq<FieldView>, ErrorView>
    decreases fields.len() - from,
{
    if from >= fields.len() {
        Ok(acc)
    } else {
        let f = fields[from as int];
        if local.contains_key(f.name) {
            read_back(
                local,
                fields,
                field_put(
                    acc,
                    FieldView { name: f.name, is_private: f.is_private, value: local[f.name] },
                ),
                from + 1,
            )
        } else {
            Err(ErrorView::Uninitialized { field: f.name })
        }
    }
}

/// `local` after binding the name of each of `fields[from..]` to what it
/// is bound to in `env`. A name that is not bound there is `Uninitialized`.
pub open spec fn carry_over(
    env: Map<Seq<char>, ValueView>,
    local: Map<Seq<char>, ValueView>,
    fields: Seq<FieldView>,
    from: nat,
) -> Result<Map<Seq<char>, ValueView>, ErrorView>
    decreases fields.len() - from,
{
    if from >= fields.len() {
        Ok(local)
    } else {
        let f = fields[from as int];
        if env.contains_key(f.name) {
            carry_over(env, local.insert(f.name, env[f.name]), fields, from + 1)
        } else {
            Err(ErrorView::Uninitialized { field: f.name })
        }
    }
}

/// The integers from `start` on, each `step` more than the one before, as
/// long as they are less than `end`. `step` is positive.
pub open spec fn range_values(start: int, end: int, step: int) -> Seq<ValueView>
    decreases
        (if start < end {
            end - start
        } else {
            0
        }),
{
    if step <= 0 || start >= end || start < i32::MIN || start > i32::MAX {
        Seq::empty()
    } else {
        seq![ValueView::Int { v: start as i32 }] + range_values(start + step, end, step)
    }
}

/// The place of the first field called `name`.
pub fn find_field(fields: &Vec<(String, ClassField)>, name: &String) -> (out: Option<usize>)
    ensures
        match out {
            Some(i) => i < fields.len() && field_index(field_views(fields@), name@) == Some(
                i as int,
            ),
            None => field_index(field_views(fields@), name@) is None,
        },
{
    let ghost pred = |f: FieldView| f.name == name@;
    let mut i: usize = 0;
    while i < fields.len()
        invariant
            i <= fields.len(),
            pred == |f: FieldView| f.name == name@,
            first_index(field_views(fields@), pred, 0) == first_index(
                field_views(fields@),
                pred,
                i as nat,
            ),
        decreases fields.len() - i,
    {
        if fields[i].0 == *name {
            return Some(i);
        }
        i += 1;
    }
    None
}

/// The place of the first field called `name` that may be read.
pub fn find_readable(fields: &Vec<(String, ClassField)>, name: &String, inside: bool) -> (out:
    Option<usize>)
    ensures
        match out {
            Some(i) => i < fields.len() && readable_field(field_views(fields@), name@, inside)
                == Some(i as int),
            None => readable_field(field_views(fields@), name@, inside) is None,
        },
{
    let ghost pred = |f: FieldView| f.name == name@ && (!f.is_private || inside);
    let mut i: usize = 0;
    while i < fields.len()
        invariant
            i <= fields.len(),
            pred == |f: FieldView| f.name == name@ && (!f.is_private || inside),
            first_index(field_views(fields@), pred, 0) == first_index(
                field_views(fields@),
                pred,
                i as nat,
            ),
        decreases fields.len() - i,
    {
        if fields[i].0 == *name && (!fields[i].1.is_private || inside) {
            return Some(i);
        }
        i += 1;
    }
    None
}

/// The place of the first method called `name` that may be called.
pub fn find_method(methods: &Vec<(String, ClassMethod)>, name: &String, any: bool) -> (out: Option<
    usize,
>)
    ensures
        match out {
            Some(i) => i < methods.len() && method_index(methods@, name@, any) == Some(i as int),
            None => method_index(methods@, name@, any) is None,
        },
{
    let ghost pred = |m: (String, ClassMethod)| m.0@ == name@ && (!m.1.is_private || any);
    let mut i: usize = 0;
    while i < methods.len()
        invariant
            i <= methods.len(),
            pred == |m: (String, ClassMethod)| m.0@ == name@ && (!m.1.is_private || any),
            first_index(methods@, pred, 0) == first_index(methods@, pred, i as nat),
        decreases methods.len() - i,
    {
        if methods[i].0 == *name && (!methods[i].1.is_private || any) {
            return Some(i);
        }
        i += 1;
    }
    None
}

/// The place of the first module under the path `path`.
pub fn find_module(modules: &Vec<Module>, path: &String) -> (out: Option<usize>)
    ensures
        match out {
            Some(i) => i < modules.len() && module_index(modules@, path@) == Some(i as int),
            None => module_index(modules@, path@) is None,
        },
{
    let ghost pred = |m: Module| m.path@ == path@;
    let mut i: usize = 0;
    while i < modules.len()
        invariant
            i <= modules.len(),
            pred == |m: Module| m.path@ == path@,
            first_index(modules@, pred, 0) == first_index(modules@, pred, i as nat),
        decreases modules.len() - i,
    {
        if modules[i].path == *path {
            return Some(i);
        }
        i += 1;
    }
    None
}

/// Whether `word` is one of `keywords`.
pub fn is_keyword(keywords: &Vec<String>, word: &String) -> (out: bool)
    ensures
        out == texts(keywords@).contains(word@),
{
    let mut i: usize = 0;
    while i < keywords.len()
        invariant
            i <= keywords.len(),
            forall|k: int| 0 <= k < i ==> texts(keywords@)[k] != word@,
        decreases keywords.len() - i,
    {
        if keywords[i] == *word {
            assert(texts(keywords@)[i as int] == word@);
            return true;
        }
        i += 1;
    }
    false
}

/// The place of the first field whose name is one of `keywords`.
pub fn find_reserved_field(keywords: &Vec<String>, fields: &Vec<(String, ClassField)>) -> (out:
    Option<usize>)
    ensures
        match out {
            Some(i) => i < fields.len() && reserved_field(texts(keywords@), field_views(fields@))
                == Some(i as int),
            None => reserved_field(texts(keywords@), field_views(fields@)) is None,
        },
{
    let ghost pred = |f: FieldView| texts(keywords@).contains(f.name);
    let mut i: usize = 0;
    while i < fields.len()
        invariant
            i <= fields.len(),
            pred == |f: FieldView| texts(keywords@).contains(f.name),
            first_index(field_views(fields@), pred, 0) == first_index(
                field_views(fields@),
                pred,
                i as nat,
            ),
        decreases fields.len() - i,
    {
        if is_keyword(keywords, &fields[i].0) {
            return Some(i);
        }
        i += 1;
    }
    None
}

/// Puts the field in place of the first field of its name, or at the end
/// where there is none.
pub fn put_field(fields: &mut Vec<(String, ClassField)>, name: String, field: ClassField)
    ensures
        field_views(final(fields)@) == field_put(
            field_views(old(fields)@),
            FieldView { name: name@, is_private: field.is_private, value: field.value@ },
        ),
{
    match find_field(fields, &name) {
        Some(i) => {
            fields[i] = (name, field);
            assert(field_views(fields@) =~= field_views(old(fields)@).update(
                i as int,
                FieldView { name: name@, is_private: field.is_private, value: field.value@ },
            ));
        },
        None => {
            fields.push((name, field));
            assert(field_views(fields@) =~= field_views(old(fields)@).push(
                FieldView { name: name@, is_private: field.is_private, value: field.value@ },
            ));
        },
    }
}

} // verus!
