//! Iterating over a value.

use crate::lookup::elements;
use crate::value::{lemma_list_view, views, Value, ValueView};
use vstd::prelude::*;
use vstd::string::*;

verus! {

/// Walks the elements of a list or the characters of a text. Over any other
/// value it holds `Null` and yields nothing.
pub struct ValueIterator {
    pub value: Value,
    index: usize,
}

impl Value {
    /// An iterator over the value, at its start.
    pub fn into_iter(self) -> (out: ValueIterator)
        ensures
            out.source() == (if elements(self@) is Some {
                self@
            } else {
                ValueView::Null
            }),
            out.position() == 0,
    {
        match &self {
            Value::List { .. } => ValueIterator { value: self, index: 0 },
            Value::Str { .. } => ValueIterator { value: self, index: 0 },
            _ => ValueIterator { value: Value::Null, index: 0 },
        }
    }
}

impl ValueIterator {
    /// The value that the iterator walks over.
    pub closed spec fn source(&self) -> ValueView {
        self.value@
    }

    /// How many items the iterator has yielded.
    pub closed spec fn position(&self) -> nat {
        self.index as nat
    }

    /// All that the iterator walks over, from the start.
    pub open spec fn items(&self) -> Seq<ValueView> {
        match elements(self.source()) {
            Some(items) => items,
            None => Seq::empty(),
        }
    }

    /// Whether the iterator holds `Null`, as it does over a value that
    /// cannot be iterated.
    pub fn holds_null(&self) -> (out: bool)
        ensures
            out == (self.source() is Null),
    {
        matches!(self.value, Value::Null)
    }

    /// How many items the iterator walks over, from the start.
    pub fn len(&self) -> (out: usize)
        ensures
            out == self.items().len(),
    {
        match &self.value {
            Value::List { e } => {
                proof {
                    lemma_list_view(*e);
                }
                e.len()
            },
            Value::Str { s } => {
                s.as_str().unicode_len()
            },
            _ => 0,
        }
    }

    /// The next item, if one is left.
    pub fn next(&mut self) -> (out: Option<Value>)
        ensures
            final(self).source() == old(self).source(),
            match out {
                Some(v) => {
                    &&& old(self).position() < old(self).items().len()
                    &&& v@ == old(self).items()[old(self).position() as int]
                    &&& final(self).position() == old(self).position() + 1
                },
                None => {
                    &&& old(self).position() >= old(self).items().len()
                    &&& final(self).position() == old(self).position()
                },
            },
    {
        let length = self.len();
        if self.index >= length {
            return None;
        }
        let item = match &self.value {
            Value::List { e } => {
                proof {
                    lemma_list_view(*e);
                }
                e[self.index].clone()
            },
            Value::Str { s } => Value::Char { c: s.as_str().get_char(self.index) },
            _ => Value::Null,
        };
        self.index += 1;
        Some(item)
    }

    /// Skips `n` items and yields the one after them, if there is one.
    pub fn nth(&mut self, n: usize) -> (out: Option<Value>)
        ensures
            final(self).source() == old(self).source(),
            match out {
                Some(v) => {
                    &&& old(self).position() + n < old(self).items().len()
                    &&& v@ == old(self).items()[old(self).position() + n]
                    &&& final(self).position() == old(self).position() + n + 1
                },
                None => old(self).position() + n >= old(self).items().len(),
            },
    {
        let length = self.len();
        if n >= length || self.index >= length - n {
            self.index = length;
            return None;
        }
        self.index += n;
        self.next()
    }
}

/// A copy of an iterator is at the same place over the same value.
impl Clone for ValueIterator {
    fn clone(&self) -> (out: ValueIterator)
        ensures
            out.source() == self.source(),
            out.position() == self.position(),
    {
        ValueIterator { value: self.value.clone(), index: self.index }
    }
}

/// The items that a value yields when it is iterated, if it can be.
pub fn items_of(value: &Value) -> (out: Option<Vec<Value>>)
    ensures
        match out {
            Some(items) => elements(value@) == Some(views(items@)),
            None => elements(value@) is None,
        },
{
    match value {
        Value::List { e } => {
            proof {
                lemma_list_view(*e);
            }
            Some(crate::value::clone_values(e))
        },
        Value::Str { s } => {
            let length = s.as_str().unicode_len();
            let mut items: Vec<Value> = Vec::new();
            let mut i: usize = 0;
            while i < length
                invariant
                    i <= length,
                    length == s@.len(),
                    items.len() == i,
                    forall|k: int| 0 <= k < i ==> items[k]@ == (ValueView::Char { c: s@[k] }),
                decreases length - i,
            {
                items.push(Value::Char { c: s.as_str().get_char(i) });
                i += 1;
            }
            assert(elements(value@)->Some_0 =~= views(items@));
            Some(items)
        },
        _ => None,
    }
}

} // verus!
