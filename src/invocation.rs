//! The bound call site of a block helper: its positional values, its hash
//! options and the handles of its two sub-templates.
use vstd::prelude::*;
use vstd::string::StringExecFns;
use crate::value::Value;

verus! {

/// The value of the first entry whose key is `key`, if any.
pub open spec fn lookup(entries: Seq<(String, Value)>, key: Seq<char>) -> Option<Value>
    decreases entries.len(),
{
    if entries.len() == 0 {
        None
    } else if entries[0].0@ == key {
        Some(entries[0].1)
    } else {
        lookup(entries.drop_first(), key)
    }
}

/// The value behind a borrowed option.
pub open spec fn unref<A>(o: Option<&A>) -> Option<A> {
    match o {
        Some(x) => Some(*x),
        None => None,
    }
}

/// One invocation of a block helper. `template` is the primary block and
/// `inverse` the `else` block; either may be absent.
#[derive(Debug)]
pub struct Helper<T> {
    pub params: Vec<Value>,
    pub hash: Vec<(String, Value)>,
    pub template: Option<T>,
    pub inverse: Option<T>,
}

impl<T> Helper<T> {
    pub fn new(
        params: Vec<Value>,
        hash: Vec<(String, Value)>,
        template: Option<T>,
        inverse: Option<T>,
    ) -> (r: Helper<T>)
        ensures
            r == (Helper { params, hash, template, inverse }),
    {
        Helper { params, hash, template, inverse }
    }

    /// The same invocation with the primary and inverse blocks exchanged.
    pub open spec fn swapped(self) -> Helper<T> {
        Helper { template: self.inverse, inverse: self.template, ..self }
    }

    /// The positional value at `idx`, if there is one.
    pub fn param(&self, idx: usize) -> (r: Option<&Value>)
        ensures
            idx < self.params@.len() ==> unref(r) == Some(self.params@[idx as int]),
            idx >= self.params@.len() ==> r is None,
    {
        if idx < self.params.len() {
            Some(&self.params[idx])
        } else {
            None
        }
    }

    pub open spec fn spec_hash_get(&self, name: Seq<char>) -> Option<Value> {
        lookup(self.hash@, name)
    }

    /// The hash option named `name`; where the name occurs twice, the first
    /// entry counts.
    pub fn hash_get(&self, name: &str) -> (r: Option<&Value>)
        ensures
            unref(r) == self.spec_hash_get(name@),
    {
        let key = String::from_str(name);
        let mut i: usize = 0;
        assert(self.hash@.subrange(0, self.hash@.len() as int) =~= self.hash@);
        while i < self.hash.len()
            invariant
                i <= self.hash@.len(),
                key@ == name@,
                lookup(self.hash@, name@) == lookup(self.hash@.subrange(i as int, self.hash@.len() as int), name@),
            decreases self.hash@.len() - i,
        {
            let ghost rest = self.hash@.subrange(i as int, self.hash@.len() as int);
            assert(rest.drop_first() =~= self.hash@.subrange(i + 1, self.hash@.len() as int));
            if self.hash[i].0.eq(&key) {
                return Some(&self.hash[i].1);
            }
            i = i + 1;
        }
        None
    }

    pub fn template(&self) -> (r: Option<&T>)
        ensures
            unref(r) == self.template,
    {
        self.template.as_ref()
    }

    pub fn inverse(&self) -> (r: Option<&T>)
        ensures
            unref(r) == self.inverse,
    {
        self.inverse.as_ref()
    }
}

} // verus!
