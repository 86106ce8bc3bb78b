//! Named fields kept in insertion order: the first entry with a name is the
//! one that counts.

use vstd::prelude::*;

verus! {

/// The value of the first entry named `k`, if any.
pub open spec fn first_match<V>(s: Seq<(String, V)>, k: Seq<char>) -> Option<V>
    decreases s.len(),
{
    if s.len() == 0 {
        None
    } else if s[0].0@ == k {
        Some(s[0].1)
    } else {
        first_match(s.drop_first(), k)
    }
}

pub open spec fn names_differ<V>(s: Seq<(String, V)>, k: Seq<char>, end: int) -> bool {
    forall|i: int| 0 <= i < end ==> (#[trigger] s[i]).0@ != k
}

pub proof fn lemma_first_match_at<V>(s: Seq<(String, V)>, k: Seq<char>, j: int)
    requires
        0 <= j < s.len(),
        s[j].0@ == k,
        names_differ(s, k, j),
    ensures
        first_match(s, k) == Some(s[j].1),
    decreases j,
{
    if j > 0 {
        assert(s[0].0@ != k);
        lemma_first_match_at(s.drop_first(), k, j - 1);
    }
}

pub proof fn lemma_first_match_none<V>(s: Seq<(String, V)>, k: Seq<char>)
    requires
        names_differ(s, k, s.len() as int),
    ensures
        first_match(s, k) is None,
    decreases s.len(),
{
    if s.len() > 0 {
        assert(s[0].0@ != k);
        lemma_first_match_none(s.drop_first(), k);
    }
}

/// Replacing the value of the first entry named `k` changes what `k` finds
/// and nothing else.
pub proof fn lemma_first_match_update<V>(s: Seq<(String, V)>, k: Seq<char>, j: int, e: (String, V))
    requires
        0 <= j < s.len(),
        s[j].0@ == k,
        e.0@ == k,
        names_differ(s, k, j),
    ensures
        forall|q: Seq<char>|
            #[trigger] first_match(s.update(j, e), q) == (if q == k {
                Some(e.1)
            } else {
                first_match(s, q)
            }),
    decreases j,
{
    assert forall|q: Seq<char>|
        #[trigger] first_match(s.update(j, e), q) == (if q == k {
            Some(e.1)
        } else {
            first_match(s, q)
        }) by {
        let t = s.update(j, e);
        assert(t.len() > 0);
        if j == 0 {
            assert(t[0] == e);
            assert(t.drop_first() =~= s.drop_first());
            if q != k {
                assert(first_match(t, q) == first_match(t.drop_first(), q));
                assert(first_match(s, q) == first_match(s.drop_first(), q));
            }
        } else {
            assert(t[0] == s[0]);
            assert(s[0].0@ != k);
            lemma_first_match_update(s.drop_first(), k, j - 1, e);
            assert(t.drop_first() =~= s.drop_first().update(j - 1, e));
            if q != s[0].0@ {
                assert(first_match(t, q) == first_match(t.drop_first(), q));
                assert(first_match(s, q) == first_match(s.drop_first(), q));
            }
        }
    }
}

/// Appending an entry under a new name adds that name and changes nothing else.
pub proof fn lemma_first_match_push<V>(s: Seq<(String, V)>, e: (String, V))
    requires
        names_differ(s, e.0@, s.len() as int),
    ensures
        forall|q: Seq<char>|
            #[trigger] first_match(s.push(e), q) == (if q == e.0@ {
                Some(e.1)
            } else {
                first_match(s, q)
            }),
    decreases s.len(),
{
    assert forall|q: Seq<char>|
        #[trigger] first_match(s.push(e), q) == (if q == e.0@ {
            Some(e.1)
        } else {
            first_match(s, q)
        }) by {
        if s.len() == 0 {
            assert(s.push(e).drop_first() =~= s);
        } else {
            assert(s[0].0@ != e.0@);
            lemma_first_match_push(s.drop_first(), e);
            assert(s.push(e).drop_first() =~= s.drop_first().push(e));
        }
    }
}

/// The position of the first entry named `key`.
pub fn find_field<V>(entries: &Vec<(String, V)>, key: &str) -> (r: Option<usize>)
    ensures
        match r {
            Some(j) => j < entries@.len() && entries@[j as int].0@ == key@ && names_differ(
                entries@,
                key@,
                j as int,
            ),
            None => names_differ(entries@, key@, entries@.len() as int),
        },
        match r {
            Some(j) => first_match(entries@, key@) == Some(entries@[j as int].1),
            None => first_match(entries@, key@) is None,
        },
{
    let wanted = key.to_owned();
    let mut i: usize = 0;
    while i < entries.len()
        invariant
            i <= entries@.len(),
            wanted@ == key@,
            names_differ(entries@, key@, i as int),
        decreases entries@.len() - i,
    {
        if entries[i].0 == wanted {
            proof {
                lemma_first_match_at(entries@, key@, i as int);
            }
            return Some(i);
        }
        i = i + 1;
    }
    proof {
        lemma_first_match_none(entries@, key@);
    }
    None
}

} // verus!
