//! A string-to-string map kept as an ordered list of pairs, used for header
//! and query parameter sets. When a key occurs more than once, the last pair
//! holds its value.

use vstd::prelude::*;
use crate::text::str_eq;

verus! {

/// The value of `key` among `pairs` (the last occurrence wins).
pub open spec fn pairs_lookup(pairs: Seq<(String, String)>, key: Seq<char>) -> Option<Seq<char>>
    decreases pairs.len(),
{
    if pairs.len() == 0 {
        None
    } else if pairs.last().0@ == key {
        Some(pairs.last().1@)
    } else {
        pairs_lookup(pairs.drop_last(), key)
    }
}

/// The map that a list of pairs stands for.
pub open spec fn pairs_map(pairs: Seq<(String, String)>) -> Map<Seq<char>, Seq<char>> {
    Map::new(|k: Seq<char>| pairs_lookup(pairs, k) is Some, |k: Seq<char>| pairs_lookup(pairs, k)->0)
}

proof fn lemma_pairs_map_push(pairs: Seq<(String, String)>, k: String, v: String)
    ensures
        pairs_map(pairs.push((k, v))) == pairs_map(pairs).insert(k@, v@),
{
    assert(pairs.push((k, v)).drop_last() =~= pairs);
    assert(pairs_map(pairs.push((k, v))) =~= pairs_map(pairs).insert(k@, v@));
}

/// An ordered list of string pairs read as a map.
#[derive(Debug, Clone)]
pub struct StringMap {
    pub pairs: Vec<(String, String)>,
}

impl View for StringMap {
    type V = Map<Seq<char>, Seq<char>>;

    open spec fn view(&self) -> Map<Seq<char>, Seq<char>> {
        pairs_map(self.pairs@)
    }
}

/// `pairs` without those whose key is `key`.
pub open spec fn pairs_without(pairs: Seq<(String, String)>, key: Seq<char>) -> Seq<(String, String)>
    decreases pairs.len(),
{
    if pairs.len() == 0 {
        pairs
    } else if pairs.last().0@ == key {
        pairs_without(pairs.drop_last(), key)
    } else {
        pairs_without(pairs.drop_last(), key).push(pairs.last())
    }
}

proof fn lemma_lookup_without(pairs: Seq<(String, String)>, key: Seq<char>, k: Seq<char>)
    ensures
        pairs_lookup(pairs_without(pairs, key), k) == if k == key {
            None
        } else {
            pairs_lookup(pairs, k)
        },
    decreases pairs.len(),
{
    if pairs.len() > 0 {
        lemma_lookup_without(pairs.drop_last(), key, k);
        if pairs.last().0@ != key {
            let w = pairs_without(pairs.drop_last(), key);
            assert(w.push(pairs.last()).drop_last() =~= w);
        }
    }
}

impl StringMap {
    /// An empty map.
    pub fn new() -> (m: StringMap)
        ensures
            m@ == Map::<Seq<char>, Seq<char>>::empty(),
            m.pairs@.len() == 0,
    {
        let m = StringMap { pairs: Vec::new() };
        assert(m@ =~= Map::<Seq<char>, Seq<char>>::empty());
        m
    }

    /// The value of `key`.
    pub fn get(&self, key: &str) -> (r: Option<&String>)
        ensures
            match r {
                Some(v) => self@.contains_key(key@) && self@[key@] == v@,
                None => !self@.contains_key(key@),
            },
    {
        let mut i = self.pairs.len();
        assert(self.pairs@.take(i as int) =~= self.pairs@);
        while i > 0
            invariant
                i <= self.pairs@.len(),
                pairs_lookup(self.pairs@, key@) == pairs_lookup(self.pairs@.take(i as int), key@),
            decreases i,
        {
            assert(self.pairs@.take(i as int).drop_last() =~= self.pairs@.take(i - 1));
            assert(self.pairs@.take(i as int).last() == self.pairs@[i - 1]);
            if str_eq(self.pairs[i - 1].0.as_str(), key) {
                return Some(&self.pairs[i - 1].1);
            }
            i = i - 1;
        }
        None
    }

    /// Removes `key`, returning its value.
    pub fn remove(&mut self, key: &str) -> (r: Option<String>)
        ensures
            final(self)@ == old(self)@.remove(key@),
            match r {
                Some(v) => old(self)@.contains_key(key@) && old(self)@[key@] == v@,
                None => !old(self)@.contains_key(key@),
            },
    {
        let found = match self.get(key) {
            Some(v) => Some(v.clone()),
            None => None,
        };
        let ghost orig = self.pairs@;
        let mut rest: Vec<(String, String)> = Vec::new();
        std::mem::swap(&mut rest, &mut self.pairs);
        let mut out: Vec<(String, String)> = Vec::new();
        while rest.len() > 0
            invariant
                orig == orig.take(orig.len() - rest@.len()) + rest@,
                rest@.len() <= orig.len(),
                out@ == pairs_without(orig.take(orig.len() - rest@.len()), key@),
            decreases rest@.len(),
        {
            let ghost done = orig.len() - rest@.len();
            let item = rest.remove(0);
            proof {
                assert(orig.take(done + 1).drop_last() =~= orig.take(done));
                assert(orig[done] == item);
            }
            if !str_eq(item.0.as_str(), key) {
                out.push(item);
            }
            proof {
                assert(orig =~= orig.take(orig.len() - rest@.len()) + rest@);
            }
        }
        assert(orig.take(orig.len() as int) =~= orig);
        self.pairs = out;
        proof {
            assert forall|k: Seq<char>| true implies pairs_lookup(self.pairs@, k) == if k == key@ {
                None
            } else {
                pairs_lookup(orig, k)
            } by {
                lemma_lookup_without(orig, key@, k);
            }
            assert(self@ =~= old(self)@.remove(key@));
        }
        found
    }

    /// Sets `key` to `value`, replacing any earlier value.
    pub fn insert(&mut self, key: String, value: String)
        ensures
            final(self)@ == old(self)@.insert(key@, value@),
    {
        let _ = self.remove(key.as_str());
        let ghost before = self.pairs@;
        let ghost mid = self@;
        let ghost k = key;
        let ghost v = value;
        self.pairs.push((key, value));
        proof {
            assert(self.pairs@ =~= before.push((k, v)));
            lemma_pairs_map_push(before, k, v);
            assert(mid =~= old(self)@.remove(k@));
            assert(self@ =~= old(self)@.insert(k@, v@));
        }
    }

    /// A copy of the map.
    pub fn duplicate(&self) -> (r: StringMap)
        ensures
            r@ == self@,
    {
        let mut acc = StringMap::new();
        let mut i: usize = 0;
        assert(pairs_map(self.pairs@.take(0)) =~= Map::<Seq<char>, Seq<char>>::empty());
        while i < self.pairs.len()
            invariant
                i <= self.pairs@.len(),
                acc@ == pairs_map(self.pairs@.take(i as int)),
            decreases self.pairs@.len() - i,
        {
            let k = self.pairs[i].0.clone();
            let v = self.pairs[i].1.clone();
            proof {
                assert(self.pairs@.take(i + 1) =~= self.pairs@.take(i as int).push(self.pairs@[i as int]));
                lemma_pairs_map_push(self.pairs@.take(i as int), self.pairs@[i as int].0, self.pairs@[i as int].1);
            }
            acc.insert(k, v);
            i = i + 1;
        }
        assert(self.pairs@.take(self.pairs@.len() as int) =~= self.pairs@);
        acc
    }

    /// Sets `key` to `value` unless `key` already has a value.
    pub fn insert_if_absent(&mut self, key: String, value: String)
        ensures
            final(self)@ == if old(self)@.contains_key(key@) {
                old(self)@
            } else {
                old(self)@.insert(key@, value@)
            },
    {
        if self.get(key.as_str()).is_none() {
            self.insert(key, value);
        }
    }
}

proof fn os_empty_union_holds(b: Map<Seq<char>, Seq<char>>)
    ensures
        os_empty_union(b),
{
    assert(pairs_map(Seq::<(String, String)>::empty()) =~= Map::<Seq<char>, Seq<char>>::empty());
    assert(b.union_prefer_right(Map::<Seq<char>, Seq<char>>::empty()) =~= b);
}

spec fn os_empty_union(b: Map<Seq<char>, Seq<char>>) -> bool {
    b.union_prefer_right(pairs_map(Seq::<(String, String)>::empty())) == b
}

/// `base` with every pair of `overrides` set in turn: the keys of
/// `overrides` take its values, the other keys keep theirs.
pub fn merge_maps(base: StringMap, overrides: Option<StringMap>) -> (merged: StringMap)
    ensures
        merged@ == match overrides {
            Some(o) => base@.union_prefer_right(o@),
            None => base@,
        },
{
    match overrides {
        None => base,
        Some(o) => {
            let ghost b = base@;
            let mut acc = base;
            let ghost os = o.pairs@;
            proof {
                os_empty_union_holds(b);
                assert(os.take(0) =~= Seq::<(String, String)>::empty());
            }
            let mut rest = o.pairs;
            while rest.len() > 0
                invariant
                    os == os.take(os.len() - rest@.len()) + rest@,
                    rest@.len() <= os.len(),
                    acc@ == b.union_prefer_right(pairs_map(os.take(os.len() - rest@.len()))),
                decreases rest@.len(),
            {
                let ghost done = os.len() - rest@.len();
                let (k, v) = rest.remove(0);
                proof {
                    assert(os[done] == (k, v));
                    assert(os.take(done + 1) =~= os.take(done).push((k, v)));
                    lemma_pairs_map_push(os.take(done), k, v);
                    assert(b.union_prefer_right(pairs_map(os.take(done)).insert(k@, v@)) =~= b.union_prefer_right(pairs_map(os.take(done))).insert(k@, v@));
                }
                acc.insert(k, v);
                proof {
                    assert(os =~= os.take(os.len() - rest@.len()) + rest@);
                }
            }
            assert(os.take(os.len() as int) =~= os);
            acc
        },
    }
}

} // verus!
