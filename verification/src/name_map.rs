use vstd::prelude::*;
use crate::url_config::UrlConfig;
use crate::text::{
    chars_of, precedes, precedes_chars, precedes_irreflexive, precedes_total, precedes_transitive,
};

verus! {

/// Whether some entry of `m` has the key `key`.
pub open spec fn has_key<T>(m: Seq<(Seq<char>, T)>, key: Seq<char>) -> bool {
    exists|i: int| 0 <= i < m.len() && #[trigger] m[i].0 == key
}

/// The index of an entry of `m` with the key `key`.
pub open spec fn index_of<T>(m: Seq<(Seq<char>, T)>, key: Seq<char>) -> int {
    choose|i: int| 0 <= i < m.len() && #[trigger] m[i].0 == key
}

/// The value that `m` holds under `key`, if it holds one.
pub open spec fn lookup<T>(m: Seq<(Seq<char>, T)>, key: Seq<char>) -> Option<T> {
    if has_key(m, key) {
        Some(m[index_of(m, key)].1)
    } else {
        None
    }
}

/// Whether the keys of `m` rise strictly in the order of strings.
pub open spec fn sorted<T>(m: Seq<(Seq<char>, T)>) -> bool {
    forall|i: int, j: int| 0 <= i < j < m.len() ==> precedes(#[trigger] m[i].0, #[trigger] m[j].0)
}

/// In a sorted sequence no key stands twice.
pub proof fn sorted_keys_differ<T>(m: Seq<(Seq<char>, T)>, i: int, j: int)
    requires
        sorted(m),
        0 <= i < m.len(),
        0 <= j < m.len(),
        m[i].0 == m[j].0,
    ensures
        i == j,
{
    precedes_irreflexive(m[i].0);
}

/// In a sorted sequence the entry at `i` is the one found under its key.
pub proof fn lookup_at<T>(m: Seq<(Seq<char>, T)>, i: int)
    requires
        sorted(m),
        0 <= i < m.len(),
    ensures
        lookup(m, m[i].0) == Some(m[i].1),
{
    sorted_keys_differ(m, i, index_of(m, m[i].0));
}

/// Whether `after` is `before` with `value` put under `key`: in the place of
/// the entry that had the key, or as a new entry. Where both are sorted, the
/// place of a new entry is the only one that the order leaves.
pub open spec fn is_insertion<T>(
    before: Seq<(Seq<char>, T)>,
    after: Seq<(Seq<char>, T)>,
    key: Seq<char>,
    value: T,
) -> bool {
    if has_key(before, key) {
        after == before.update(index_of(before, key), (key, value))
    } else {
        exists|p: int| 0 <= p <= before.len() && after == #[trigger] before.insert(p, (key, value))
    }
}

/// A map from names to values that keeps its entries in the order of their
/// names and holds no name twice.
#[derive(Debug)]
pub struct NameMap<V: View> {
    entries: Vec<(String, V)>,
}

impl<V: View> View for NameMap<V> {
    type V = Seq<(Seq<char>, V::V)>;

    closed spec fn view(&self) -> Seq<(Seq<char>, V::V)> {
        self.entries@.map_values(|e: (String, V)| (e.0@, e.1@))
    }
}

/// A copy holds the same entries in the same order.
impl Clone for NameMap<String> {
    fn clone(&self) -> (out: Self)
        ensures
            out@ == self@,
    {
        proof {
            use_type_invariant(self);
        }
        let mut entries: Vec<(String, String)> = Vec::new();
        let mut i: usize = 0;
        while i < self.entries.len()
            invariant
                i <= self.entries.len(),
                entries@.len() == i,
                forall|j: int| 0 <= j < i ==> (#[trigger] entries@[j]).0@ == self.entries@[j].0@,
                forall|j: int| 0 <= j < i ==> (#[trigger] entries@[j]).1@ == self.entries@[j].1@,
            decreases self.entries.len() - i,
        {
            entries.push((self.entries[i].0.clone(), self.entries[i].1.clone()));
            i += 1;
        }
        proof {
            assert(entries@.map_values(|e: (String, String)| (e.0@, e.1@)) =~= self@);
        }
        NameMap { entries }
    }
}

/// A copy holds the same entries in the same order.
impl Clone for NameMap<UrlConfig> {
    fn clone(&self) -> (out: Self)
        ensures
            out@ == self@,
    {
        proof {
            use_type_invariant(self);
        }
        let mut entries: Vec<(String, UrlConfig)> = Vec::new();
        let mut i: usize = 0;
        while i < self.entries.len()
            invariant
                i <= self.entries.len(),
                entries@.len() == i,
                forall|j: int| 0 <= j < i ==> (#[trigger] entries@[j]).0@ == self.entries@[j].0@,
                forall|j: int| 0 <= j < i ==> (#[trigger] entries@[j]).1@ == self.entries@[j].1@,
            decreases self.entries.len() - i,
        {
            entries.push((self.entries[i].0.clone(), self.entries[i].1.clone()));
            i += 1;
        }
        proof {
            assert(entries@.map_values(|e: (String, UrlConfig)| (e.0@, e.1@)) =~= self@);
        }
        NameMap { entries }
    }
}

impl<V: View> NameMap<V> {
    /// The entries stand in the strict order of their names.
    #[verifier::type_invariant]
    pub open spec fn wf(&self) -> bool {
        sorted(self@)
    }

    /// A map without entries.
    pub fn new() -> (out: Self)
        ensures
            out@ == Seq::<(Seq<char>, V::V)>::empty(),
            out.wf(),
    {
        let entries: Vec<(String, V)> = Vec::new();
        let out = NameMap { entries };
        out
    }

    /// The number of entries.
    pub fn len(&self) -> (n: usize)
        ensures
            n == self@.len(),
    {
        self.entries.len()
    }

    /// The name of the entry at `i`.
    pub fn key(&self, i: usize) -> (name: &str)
        requires
            i < self@.len(),
        ensures
            name@ == self@[i as int].0,
    {
        self.entries[i].0.as_str()
    }

    /// The value of the entry at `i`.
    pub fn value(&self, i: usize) -> (value: &V)
        requires
            i < self@.len(),
        ensures
            value@ == self@[i as int].1,
    {
        &self.entries[i].1
    }

    /// The index of the entry named `key`.
    pub fn position(&self, key: &str) -> (at: Option<usize>)
        ensures
            match at {
                Some(i) => i < self@.len() && self@[i as int].0 == key@,
                None => !has_key(self@, key@),
            },
    {
        let wanted = key.to_owned();
        let mut i: usize = 0;
        while i < self.entries.len()
            invariant
                i <= self.entries.len(),
                wanted@ == key@,
                forall|j: int| 0 <= j < i ==> self@[j].0 != key@,
            decreases self.entries.len() - i,
        {
            if self.entries[i].0 == wanted {
                return Some(i);
            }
            i += 1;
        }
        None
    }

    /// Where `key` stands or would stand: the index of the first entry whose
    /// name does not come before `key`, and whether that entry has the name.
    fn slot(&self, key: &str) -> (at: (usize, bool))
        ensures
            at.0 <= self@.len(),
            forall|j: int| 0 <= j < at.0 ==> precedes(self@[j].0, key@),
            at.1 ==> at.0 < self@.len() && self@[at.0 as int].0 == key@,
            !at.1 ==> at.0 == self@.len() || precedes(key@, self@[at.0 as int].0),
    {
        let wanted = chars_of(key);
        let mut i: usize = 0;
        while i < self.entries.len()
            invariant
                i <= self.entries.len(),
                wanted@ == key@,
                forall|j: int| 0 <= j < i ==> precedes(self@[j].0, key@),
            decreases self.entries.len() - i,
        {
            let here = chars_of(self.entries[i].0.as_str());
            if precedes_chars(&wanted, &here) {
                return (i, false);
            }
            if !precedes_chars(&here, &wanted) {
                proof {
                    precedes_total(here@, wanted@);
                }
                return (i, true);
            }
            i += 1;
        }
        (i, false)
    }

    /// Puts `value` under `key`: in the place of the value that the map held
    /// under it, or as a new entry where the order of names has it.
    pub fn insert(&mut self, key: String, value: V)
        ensures
            final(self).wf(),
            is_insertion(old(self)@, final(self)@, key@, value@),
    {
        proof {
            use_type_invariant(&*self);
        }
        let ghost before = self@;
        let ghost entry = (key@, value@);
        let (p, found) = self.slot(key.as_str());
        let mut entries: Vec<(String, V)> = Vec::new();
        core::mem::swap(&mut self.entries, &mut entries);
        if found {
            proof {
                sorted_keys_differ(before, p as int, index_of(before, key@));
                let after = before.update(p as int, entry);
                assert(sorted(after)) by {
                    assert forall|i: int, j: int| 0 <= i < j < after.len() implies precedes(
                        #[trigger] after[i].0,
                        #[trigger] after[j].0,
                    ) by {
                    }
                }
                assert(entries@.update(p as int, (key, value)).map_values(
                    |e: (String, V)| (e.0@, e.1@),
                ) =~= after);
            }
            entries.set(p, (key, value));
        } else {
            proof {
                let after = before.insert(p as int, entry);
                assert forall|j: int| 0 <= j < before.len() implies before[j].0 != key@ by {
                    if j < p {
                        precedes_irreflexive(key@);
                    } else {
                        if j > p {
                            precedes_transitive(key@, before[p as int].0, before[j].0);
                        }
                        precedes_irreflexive(key@);
                    }
                }
                assert(sorted(after)) by {
                    assert forall|i: int, j: int| 0 <= i < j < after.len() implies precedes(
                        #[trigger] after[i].0,
                        #[trigger] after[j].0,
                    ) by {
                        if j < p {
                        } else if j == p {
                        } else if i < p {
                        } else if i == p {
                            if j - 1 > p {
                                precedes_transitive(key@, before[p as int].0, before[j - 1].0);
                            }
                        } else {
                        }
                    }
                }
                assert(entries@.insert(p as int, (key, value)).map_values(
                    |e: (String, V)| (e.0@, e.1@),
                ) =~= after);
            }
            entries.insert(p, (key, value));
        }
        self.entries = entries;
    }

    /// The value under `key`, if the map holds one.
    pub fn get(&self, key: &str) -> (found: Option<&V>)
        ensures
            match found {
                Some(v) => lookup(self@, key@) == Some(v@),
                None => lookup(self@, key@) is None,
            },
    {
        match self.position(key) {
            Some(i) => {
                proof {
                    use_type_invariant(self);
                    lookup_at(self@, i as int);
                }
                Some(&self.entries[i].1)
            },
            None => None,
        }
    }
}

} // verus!
