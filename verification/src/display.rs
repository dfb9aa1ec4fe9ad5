//! How values are printed.

use crate::text::{decimal, decimal_text};
use crate::unit::{float_text, functional, model_of, FloatModel, FloatUnit};
use crate::value::{lemma_list_view, views, Value, ValueView};
use vstd::prelude::*;
use vstd::string::*;

verus! {

/// The printed form of a value: `Null`; a number, a boolean, a character or
/// a text as it stands (a text without quotes); a list as its elements'
/// forms between square brackets, separated by a comma and a space; a
/// function as `Function "name"`; a class or object as `Class "name"`.
pub open spec fn display(m: FloatModel, v: ValueView) -> Seq<char>
    decreases v, 0nat,
{
    match v {
        ValueView::Null => "Null"@,
        ValueView::Int { v } => decimal(v as int),
        ValueView::Str { s } => s,
        ValueView::Bool { b } => if b {
            "true"@
        } else {
            "false"@
        },
        ValueView::Float { bits } => (m.text)(bits),
        ValueView::Char { c } => seq![c],
        ValueView::List { e } => "["@ + display_joined(m, e, e.len()) + "]"@,
        ValueView::Function { name, .. } => "Function \""@ + name + "\""@,
        ValueView::UserDefFunction { name, .. } => "Function \""@ + name + "\""@,
        ValueView::Object { name, .. } => "Class \""@ + name + "\""@,
    }
}

/// The printed forms of the first `n` values of `e`, separated by a comma
/// and a space.
pub open spec fn display_joined(m: FloatModel, e: Seq<ValueView>, n: nat) -> Seq<char>
    decreases e, n,
{
    if n == 0 || n > e.len() {
        Seq::empty()
    } else if n == 1 {
        display(m, e[0])
    } else {
        display_joined(m, e, (n - 1) as nat) + ", "@ + display(m, e[n - 1])
    }
}

/// The printed forms of all of `values`, one after the other.
pub open spec fn display_all(m: FloatModel, values: Seq<ValueView>) -> Seq<char>
    decreases values.len(),
{
    if values.len() == 0 {
        Seq::empty()
    } else {
        display_all(m, values.drop_last()) + display(m, values.last())
    }
}

/// `String::push`: the character is appended to the end of the text.
#[verifier::external_body]
pub(crate) fn push_char(s: &mut String, c: char)
    ensures
        final(s)@ == old(s)@.push(c),
{
    s.push(c)
}

fn quoted(before: &str, name: &String) -> (out: String)
    ensures
        out@ == before@ + name@ + "\""@,
{
    let mut out = String::from_str(before);
    out.append(name.as_str());
    out.append("\"");
    out
}

impl Value {
    /// The printed form of the value.
    pub fn to_string<U: FloatUnit>(&self, unit: &U) -> (out: String)
        ensures
            functional(unit) ==> out@ == display(model_of(unit), self@),
        decreases self,
    {
        match self {
            Value::Null => String::from_str("Null"),
            Value::Int { v } => decimal_text(*v as i64),
            Value::Str { s } => s.clone(),
            Value::Bool { b } => if *b {
                String::from_str("true")
            } else {
                String::from_str("false")
            },
            Value::Float { bits } => float_text(unit, *bits),
            Value::Char { c } => {
                let mut out = String::new();
                push_char(&mut out, *c);
                assert(out@ =~= seq![*c]);
                out
            },
            Value::List { e } => {
                proof {
                    lemma_list_view(*e);
                }
                let mut out = String::from_str("[");
                let mut i: usize = 0;
                while i < e.len()
                    invariant
                        i <= e.len(),
                        *e == self->e,
                        self@ == (ValueView::List { e: views(e@) }),
                        functional(unit) ==> out@ == "["@ + display_joined(
                            model_of(unit),
                            views(e@),
                            i as nat,
                        ),
                    decreases e.len() - i,
                {
                    assert(decreases_to!(self => self->e[i as int]));
                    let item = e[i].to_string(unit);
                    if i != 0 {
                        out.append(", ");
                    }
                    out.append(item.as_str());
                    proof {
                        if functional(unit) {
                            let m = model_of(unit);
                            assert(views(e@)[i as int] == e[i as int]@);
                            assert(out@ =~= "["@ + display_joined(m, views(e@), (i + 1) as nat));
                        }
                    }
                    i += 1;
                }
                out.append("]");
                out
            },
            Value::Function { name, .. } => quoted("Function \"", name),
            Value::UserDefFunction { name, .. } => quoted("Function \"", name),
            Value::Object { name, .. } => quoted("Class \"", name),
        }
    }
}

/// The printed forms of all of `values`, one after the other.
pub fn display_values<U: FloatUnit>(unit: &U, values: &Vec<Value>) -> (out: String)
    ensures
        functional(unit) ==> out@ == display_all(model_of(unit), views(values@)),
{
    let mut out = String::new();
    let mut i: usize = 0;
    while i < values.len()
        invariant
            i <= values.len(),
            functional(unit) ==> out@ == display_all(model_of(unit), views(values@).take(i as int)),
        decreases values.len() - i,
    {
        let item = values[i].to_string(unit);
        out.append(item.as_str());
        proof {
            if functional(unit) {
                let all = views(values@);
                assert(all.take(i + 1).drop_last() =~= all.take(i as int));
                assert(all.take(i + 1).last() == values[i as int]@);
            }
        }
        i += 1;
    }
    assert(views(values@).take(values.len() as int) =~= views(values@));
    out
}

} // verus!
