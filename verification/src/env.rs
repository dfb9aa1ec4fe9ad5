//! The environment: the values that names are bound to.

use crate::value::{Builtin, Value, ValueView};
use vstd::prelude::*;
use vstd::string::*;

verus! {

/// A mapping from names to values. The order in which names were bound
/// plays no part. The bindings are kept in a list; a name is looked for
/// from the end, and bound anew in the place where it is bound.
pub struct Environment {
    entries: Vec<(String, Value)>,
}

/// The mapping that a sequence of bindings stands for: a later binding of
/// a name replaces an earlier one.
pub open spec fn bindings(s: Seq<(String, Value)>) -> Map<Seq<char>, ValueView>
    decreases s.len(),
{
    if s.len() == 0 {
        Map::empty()
    } else {
        bindings(s.drop_last()).insert(s.last().0@, s.last().1@)
    }
}

proof fn lemma_bindings_absent(s: Seq<(String, Value)>, name: Seq<char>)
    requires
        forall|k: int| 0 <= k < s.len() ==> s[k].0@ != name,
    ensures
        !bindings(s).contains_key(name),
    decreases s.len(),
{
    if s.len() > 0 {
        lemma_bindings_absent(s.drop_last(), name);
    }
}

proof fn lemma_bindings_found(s: Seq<(String, Value)>, i: int)
    requires
        0 <= i < s.len(),
        forall|k: int| i < k < s.len() ==> s[k].0@ != s[i].0@,
    ensures
        bindings(s).contains_key(s[i].0@),
        bindings(s)[s[i].0@] == s[i].1@,
    decreases s.len(),
{
    if i < s.len() - 1 {
        lemma_bindings_found(s.drop_last(), i);
    }
}

proof fn lemma_bindings_replaced(s: Seq<(String, Value)>, i: int, entry: (String, Value))
    requires
        0 <= i < s.len(),
        entry.0@ == s[i].0@,
        forall|k: int| i < k < s.len() ==> s[k].0@ != s[i].0@,
    ensures
        bindings(s.update(i, entry)) == bindings(s).insert(entry.0@, entry.1@),
    decreases s.len(),
{
    let t = s.update(i, entry);
    if i < s.len() - 1 {
        lemma_bindings_replaced(s.drop_last(), i, entry);
        assert(t.drop_last() =~= s.drop_last().update(i, entry));
        assert(bindings(t) =~= bindings(s).insert(entry.0@, entry.1@));
    } else {
        assert(t.drop_last() =~= s.drop_last());
        assert(bindings(t) =~= bindings(s).insert(entry.0@, entry.1@));
    }
}

proof fn lemma_bindings_same(s: Seq<(String, Value)>, t: Seq<(String, Value)>)
    requires
        s.len() == t.len(),
        forall|k: int| 0 <= k < s.len() ==> s[k].0@ == t[k].0@ && s[k].1@ == t[k].1@,
    ensures
        bindings(s) == bindings(t),
    decreases s.len(),
{
    if s.len() > 0 {
        lemma_bindings_same(s.drop_last(), t.drop_last());
    }
}

impl View for Environment {
    type V = Map<Seq<char>, ValueView>;

    closed spec fn view(&self) -> Map<Seq<char>, ValueView> {
        bindings(self.entries@)
    }
}

impl Environment {
    /// The environment that binds no name.
    pub fn new() -> (out: Environment)
        ensures
            out@ == Map::<Seq<char>, ValueView>::empty(),
    {
        Environment { entries: Vec::new() }
    }

    /// The place of the binding of `name` that counts, if it is bound.
    fn find(&self, name: &String) -> (out: Option<usize>)
        ensures
            match out {
                Some(i) => {
                    &&& i < self.entries.len()
                    &&& self.entries[i as int].0@ == name@
                    &&& forall|k: int| i < k < self.entries.len() ==> self.entries[k].0@ != name@
                    &&& self@.contains_key(name@)
                    &&& self@[name@] == self.entries[i as int].1@
                },
                None => !self@.contains_key(name@),
            },
    {
        let mut i: usize = self.entries.len();
        while i > 0
            invariant
                i <= self.entries.len(),
                forall|k: int| i <= k < self.entries.len() ==> self.entries[k].0@ != name@,
            decreases i,
        {
            i -= 1;
            if self.entries[i].0 == *name {
                proof {
                    lemma_bindings_found(self.entries@, i as int);
                }
                return Some(i);
            }
        }
        proof {
            lemma_bindings_absent(self.entries@, name@);
        }
        None
    }

    /// The value that `name` is bound to, if it is bound.
    pub fn get(&self, name: &String) -> (out: Option<&Value>)
        ensures
            match out {
                Some(v) => self@.contains_key(name@) && v@ == self@[name@],
                None => !self@.contains_key(name@),
            },
    {
        match self.find(name) {
            Some(i) => Some(&self.entries[i].1),
            None => None,
        }
    }

    /// Whether `name` is bound.
    pub fn contains(&self, name: &String) -> (out: bool)
        ensures
            out == self@.contains_key(name@),
    {
        self.find(name).is_some()
    }

    /// Binds `name` to `value`, in place of what it was bound to.
    pub fn insert(&mut self, name: String, value: Value)
        ensures
            final(self)@ == old(self)@.insert(name@, value@),
    {
        match self.find(&name) {
            Some(i) => {
                proof {
                    lemma_bindings_replaced(self.entries@, i as int, (name, value));
                }
                self.entries[i] = (name, value);
            },
            None => {
                self.entries.push((name, value));
                assert(self.entries@.drop_last() =~= old(self).entries@);
            },
        }
    }

    /// Binds the built-in functions under their names.
    pub fn insert_builtins(&mut self)
        ensures
            final(self)@ == with_builtins(old(self)@),
    {
        self.insert(
            String::from_str("println"),
            Value::Function { name: String::from_str("println"), f: Builtin::Println },
        );
        self.insert(
            String::from_str("print"),
            Value::Function { name: String::from_str("print"), f: Builtin::Print },
        );
        self.insert(
            String::from_str("range"),
            Value::Function { name: String::from_str("range"), f: Builtin::Range },
        );
        self.insert(
            String::from_str("range_step"),
            Value::Function { name: String::from_str("range_step"), f: Builtin::RangeStep },
        );
    }
}

/// `env` with the built-in functions bound under their names.
pub open spec fn with_builtins(env: Map<Seq<char>, ValueView>) -> Map<Seq<char>, ValueView> {
    env.insert("println"@, ValueView::Function { name: "println"@, f: Builtin::Println }).insert(
        "print"@,
        ValueView::Function { name: "print"@, f: Builtin::Print },
    ).insert("range"@, ValueView::Function { name: "range"@, f: Builtin::Range }).insert(
        "range_step"@,
        ValueView::Function { name: "range_step"@, f: Builtin::RangeStep },
    )
}

/// An environment is copied binding by binding.
impl Clone for Environment {
    /// A copy that binds the same names to the same values.
    fn clone(&self) -> (out: Environment)
        ensures
            out@ == self@,
    {
        let mut entries: Vec<(String, Value)> = Vec::new();
        let mut i: usize = 0;
        while i < self.entries.len()
            invariant
                i <= self.entries.len(),
                entries.len() == i,
                forall|k: int|
                    0 <= k < i ==> entries[k].0@ == self.entries[k].0@ && entries[k].1@
                        == self.entries[k].1@,
            decreases self.entries.len() - i,
        {
            let entry = (self.entries[i].0.clone(), self.entries[i].1.clone());
            entries.push(entry);
            i += 1;
        }
        proof {
            lemma_bindings_same(entries@, self.entries@);
        }
        Environment { entries }
    }
}

} // verus!
