//! The parameter bags of a request's path, query string and form body: each
//! field name maps to the texts given for it, in the order they came.

use vstd::prelude::*;
use crate::fields::{find_field, first_match, lemma_first_match_push, lemma_first_match_update};

verus! {

pub open spec fn texts(v: Seq<String>) -> Seq<Seq<char>> {
    v.map_values(|t: String| t@)
}

/// The first text given for field `f`, if any.
pub open spec fn first_value(bag: Map<Seq<char>, Seq<Seq<char>>>, f: Seq<char>) -> Option<
    Seq<char>,
> {
    if bag.contains_key(f) && bag[f].len() > 0 {
        Some(bag[f][0])
    } else {
        None
    }
}

/// `bag` with one more text `value` for field `key`, after those it has.
pub open spec fn with_added(bag: Map<Seq<char>, Seq<Seq<char>>>, key: Seq<char>, value: Seq<char>) -> Map<
    Seq<char>,
    Seq<Seq<char>>,
> {
    bag.insert(
        key,
        if bag.contains_key(key) {
            bag[key].push(value)
        } else {
            seq![value]
        },
    )
}

/// A parameter bag whose fields may each carry several texts (`a=1&a=2`).
pub struct ParamBag {
    entries: Vec<(String, Vec<String>)>,
}

impl View for ParamBag {
    type V = Map<Seq<char>, Seq<Seq<char>>>;

    closed spec fn view(&self) -> Map<Seq<char>, Seq<Seq<char>>> {
        Map::new(
            |k: Seq<char>| first_match(self.entries@, k) is Some,
            |k: Seq<char>| texts(first_match(self.entries@, k)->Some_0@),
        )
    }
}

impl ParamBag {
    /// A bag without fields.
    pub fn new() -> (r: ParamBag)
        ensures
            r@ == Map::<Seq<char>, Seq<Seq<char>>>::empty(),
    {
        let r = ParamBag { entries: Vec::new() };
        assert(r@ =~= Map::<Seq<char>, Seq<Seq<char>>>::empty());
        r
    }

    /// Adds one more text for field `key`, after those it already has.
    pub fn add(&mut self, key: String, value: String)
        ensures
            final(self)@ == with_added(old(self)@, key@, value@),
    {
        let ghost before = self.entries@;
        let ghost k = key@;
        let ghost v = value@;
        match find_field(&self.entries, key.as_str()) {
            Some(j) => {
                self.entries[j].1.push(value);
                proof {
                    let e = self.entries@[j as int];
                    assert(self.entries@ == before.update(j as int, e));
                    lemma_first_match_update(before, k, j as int, e);
                    assert(texts(e.1@) =~= texts(before[j as int].1@).push(v));
                }
            },
            None => {
                let e = (key, vec![value]);
                proof {
                    lemma_first_match_push(before, e);
                    assert(texts(e.1@) =~= seq![v]);
                }
                self.entries.push(e);
            },
        }
        assert(self@ =~= old(self)@.insert(
            k,
            if old(self)@.contains_key(k) {
                old(self)@[k].push(v)
            } else {
                seq![v]
            },
        ));
    }

    /// The first text given for field `key`, as `&params[key][0]` reads it.
    pub fn first<'a>(&'a self, key: &str) -> (r: Option<&'a String>)
        ensures
            match r {
                Some(t) => first_value(self@, key@) == Some(t@),
                None => first_value(self@, key@) is None,
            },
    {
        match find_field(&self.entries, key) {
            Some(j) => {
                if self.entries[j].1.len() > 0 {
                    assert(texts(self.entries@[j as int].1@)[0] == self.entries@[j as int].1@[0]@);
                    Some(&self.entries[j].1[0])
                } else {
                    None
                }
            },
            None => None,
        }
    }
}

} // verus!
