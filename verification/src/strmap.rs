//! A verified association list from strings to values, viewed as a
//! mathematical `Map` keyed by character sequences. Keys are unique.

use vstd::prelude::*;

verus! {

use crate::strings::str_eq;

/// No two entries share a key.
pub open spec fn keys_unique<V>(s: Seq<(String, V)>) -> bool {
    forall|i: int, j: int| 0 <= i < j < s.len() ==> (#[trigger] s[i]).0@ != (#[trigger] s[j]).0@
}

/// The map an entry sequence denotes; later entries win.
pub open spec fn entries_map<V>(s: Seq<(String, V)>) -> Map<Seq<char>, V>
    decreases s.len(),
{
    if s.len() == 0 {
        Map::empty()
    } else {
        entries_map(s.drop_last()).insert(s.last().0@, s.last().1)
    }
}

pub proof fn lemma_entries_map_membership<V>(s: Seq<(String, V)>)
    ensures
        forall|k: Seq<char>|
            #[trigger] entries_map(s).contains_key(k) <==> (exists|i: int|
                0 <= i < s.len() && (#[trigger] s[i]).0@ == k),
        entries_map(s).dom().finite(),
    decreases s.len(),
{
    if s.len() > 0 {
        lemma_entries_map_membership(s.drop_last());
        assert forall|k: Seq<char>| #[trigger]
            entries_map(s).contains_key(k) implies (exists|i: int|
            0 <= i < s.len() && (#[trigger] s[i]).0@ == k) by {
            if k == s.last().0@ {
                assert(s[s.len() - 1].0@ == k);
            } else {
                let i = choose|i: int| 0 <= i < s.drop_last().len() && (#[trigger] s.drop_last()[i]).0@ == k;
                assert(s[i].0@ == k);
            }
        }
        assert forall|k: Seq<char>| (exists|i: int|
            0 <= i < s.len() && (#[trigger] s[i]).0@ == k) implies #[trigger]
            entries_map(s).contains_key(k) by {
            let i = choose|i: int| 0 <= i < s.len() && (#[trigger] s[i]).0@ == k;
            if i < s.len() - 1 {
                assert(s.drop_last()[i].0@ == k);
            }
        }
    }
}

pub proof fn lemma_entries_map_value<V>(s: Seq<(String, V)>, i: int)
    requires
        keys_unique(s),
        0 <= i < s.len(),
    ensures
        entries_map(s).contains_key(s[i].0@),
        entries_map(s)[s[i].0@] == s[i].1,
    decreases s.len(),
{
    if i == s.len() - 1 {
    } else {
        assert(keys_unique(s.drop_last())) by {
            assert forall|x: int, y: int|
                0 <= x < y < s.drop_last().len() implies (#[trigger] s.drop_last()[x]).0@ != (
            #[trigger] s.drop_last()[y]).0@ by {
                assert(s[x] == s.drop_last()[x]);
                assert(s[y] == s.drop_last()[y]);
            }
        }
        lemma_entries_map_value(s.drop_last(), i);
        assert(s[i].0@ != s.last().0@);
    }
}

pub proof fn lemma_entries_map_remove<V>(s: Seq<(String, V)>, i: int)
    requires
        keys_unique(s),
        0 <= i < s.len(),
    ensures
        entries_map(s.remove(i)) == entries_map(s).remove(s[i].0@),
    decreases s.len(),
{
    lemma_entries_map_membership(s.drop_last());
    assert(keys_unique(s.drop_last())) by {
        assert forall|x: int, y: int|
            0 <= x < y < s.drop_last().len() implies (#[trigger] s.drop_last()[x]).0@ != (
        #[trigger] s.drop_last()[y]).0@ by {
            assert(s[x] == s.drop_last()[x]);
            assert(s[y] == s.drop_last()[y]);
        }
    }
    if i == s.len() - 1 {
        assert(s.remove(i) =~= s.drop_last());
        // the removed key is not among the earlier entries
        assert(!entries_map(s.drop_last()).contains_key(s[i].0@));
        assert(entries_map(s.drop_last()) =~= entries_map(s).remove(s[i].0@));
    } else {
        lemma_entries_map_remove(s.drop_last(), i);
        assert(s.remove(i).drop_last() =~= s.drop_last().remove(i));
        assert(s.remove(i).last() == s.last());
        assert(s[i] == s.drop_last()[i]);
        assert(s[i].0@ != s.last().0@);
        assert(entries_map(s.remove(i)) == entries_map(s.drop_last().remove(i)).insert(
            s.last().0@,
            s.last().1,
        ));
        assert(entries_map(s.drop_last()).remove(s[i].0@).insert(s.last().0@, s.last().1)
            =~= entries_map(s.drop_last()).insert(s.last().0@, s.last().1).remove(s[i].0@));
    }
}

pub proof fn lemma_entries_map_push<V>(s: Seq<(String, V)>, k: String, v: V)
    ensures
        entries_map(s.push((k, v))) == entries_map(s).insert(k@, v),
{
    assert(s.push((k, v)).drop_last() =~= s);
}

/// An association map from `String` keys to values of `V`.
pub struct StringMap<V> {
    entries: Vec<(String, V)>,
}

impl<V> View for StringMap<V> {
    type V = Map<Seq<char>, V>;

    closed spec fn view(&self) -> Map<Seq<char>, V> {
        entries_map(self.entries@)
    }
}

impl<V> StringMap<V> {
    /// Keys are unique; established by `new` and preserved by every method.
    pub closed spec fn wf(&self) -> bool {
        keys_unique(self.entries@)
    }

    /// The number of entries.
    pub closed spec fn spec_len(&self) -> nat {
        self.entries@.len()
    }

    pub fn new() -> (r: StringMap<V>)
        ensures
            r.wf(),
            r@ == Map::<Seq<char>, V>::empty(),
            r.spec_len() == 0,
    {
        StringMap { entries: Vec::new() }
    }

    fn find_index(&self, key: &str) -> (r: Option<usize>)
        ensures
            match r {
                Option::Some(i) => i < self.entries@.len() && self.entries@[i as int].0@ == key@,
                Option::None => forall|i: int|
                    0 <= i < self.entries@.len() ==> (#[trigger] self.entries@[i]).0@ != key@,
            },
    {
        let mut i: usize = 0;
        while i < self.entries.len()
            invariant
                i <= self.entries@.len(),
                forall|j: int| 0 <= j < i ==> (#[trigger] self.entries@[j]).0@ != key@,
            decreases self.entries@.len() - i,
        {
            if str_eq(self.entries[i].0.as_str(), key) {
                return Option::Some(i);
            }
            i += 1;
        }
        Option::None
    }

    pub fn contains(&self, key: &str) -> (r: bool)
        ensures
            r == self@.contains_key(key@),
    {
        proof {
            lemma_entries_map_membership(self.entries@);
        }
        match self.find_index(key) {
            Option::Some(_) => true,
            Option::None => false,
        }
    }

    /// A borrow of the value under `key`, when present.
    pub fn get(&self, key: &str) -> (r: Option<&V>)
        requires
            self.wf(),
        ensures
            r is Some <==> self@.contains_key(key@),
            r matches Some(v) ==> *v == self@[key@],
    {
        proof {
            lemma_entries_map_membership(self.entries@);
        }
        match self.find_index(key) {
            Option::Some(i) => {
                proof {
                    lemma_entries_map_value(self.entries@, i as int);
                }
                Option::Some(&self.entries[i].1)
            },
            Option::None => Option::None,
        }
    }

    /// Insert, silently replacing any entry already under `key`.
    pub fn insert(&mut self, key: String, value: V)
        requires
            old(self).wf(),
        ensures
            final(self).wf(),
            final(self)@ == old(self)@.insert(key@, value),
            final(self).spec_len() <= old(self).spec_len() + 1,
    {
        match self.find_index(key.as_str()) {
            Option::Some(i) => {
                proof {
                    lemma_entries_map_remove(self.entries@, i as int);
                }
                let ghost pre = self.entries@;
                self.entries.remove(i);
                proof {
                    assert forall|x: int, y: int|
                        0 <= x < y < self.entries@.len() implies (#[trigger] self.entries@[x]).0@
                        != (#[trigger] self.entries@[y]).0@ by {
                        assert(self.entries@[x] == if x < i { pre[x] } else { pre[x + 1] });
                        assert(self.entries@[y] == if y < i { pre[y] } else { pre[y + 1] });
                    }
                    lemma_entries_map_membership(self.entries@);
                    assert forall|j: int|
                        0 <= j < self.entries@.len() implies (#[trigger] self.entries@[j]).0@
                        != key@ by {
                        assert(self.entries@[j] == if j < i { pre[j] } else { pre[j + 1] });
                    }
                    lemma_entries_map_push(self.entries@, key, value);
                }
                self.entries.push((key, value));
                proof {
                    assert(final(self)@ =~= old(self)@.insert(key@, value));
                }
            },
            Option::None => {
                proof {
                    lemma_entries_map_push(self.entries@, key, value);
                }
                self.entries.push((key, value));
            },
        }
    }

    /// Remove the entry under `key`; the removed value comes back.
    pub fn remove(&mut self, key: &str) -> (r: Option<V>)
        requires
            old(self).wf(),
        ensures
            final(self).wf(),
            final(self)@ == old(self)@.remove(key@),
            r is Some <==> old(self)@.contains_key(key@),
            r matches Some(v) ==> v == old(self)@[key@],
            !old(self)@.contains_key(key@) ==> *final(self) == *old(self),
    {
        proof {
            lemma_entries_map_membership(self.entries@);
        }
        match self.find_index(key) {
            Option::Some(i) => {
                proof {
                    lemma_entries_map_value(self.entries@, i as int);
                    lemma_entries_map_remove(self.entries@, i as int);
                }
                let ghost pre = self.entries@;
                let entry = self.entries.remove(i);
                proof {
                    assert forall|x: int, y: int|
                        0 <= x < y < self.entries@.len() implies (#[trigger] self.entries@[x]).0@
                        != (#[trigger] self.entries@[y]).0@ by {
                        assert(self.entries@[x] == if x < i { pre[x] } else { pre[x + 1] });
                        assert(self.entries@[y] == if y < i { pre[y] } else { pre[y + 1] });
                    }
                }
                Option::Some(entry.1)
            },
            Option::None => {
                proof {
                    assert(old(self)@.remove(key@) =~= old(self)@);
                }
                Option::None
            },
        }
    }

    /// The entries as a list: unique keys, denoting exactly this map.
    pub fn as_entries(&self) -> (r: &Vec<(String, V)>)
        requires
            self.wf(),
        ensures
            keys_unique(r@),
            entries_map(r@) == self@,
            r@.len() == self.spec_len(),
    {
        &self.entries
    }

    /// The number of entries held.
    pub fn len(&self) -> (r: usize)
        ensures
            r == self.spec_len(),
    {
        self.entries.len()
    }

    pub fn is_empty(&self) -> (r: bool)
        ensures
            r == (self.spec_len() == 0),
    {
        self.entries.len() == 0
    }
}

} // verus!
