use vstd::prelude::*;

use crate::text::str_eq;

verus! {

/// The value that the last entry with key `k` gives, if any entry has it.
pub open spec fn entry_lookup(s: Seq<(String, String)>, k: Seq<char>) -> Option<Seq<char>>
    decreases s.len(),
{
    if s.len() == 0 {
        None
    } else if s.last().0@ == k {
        Some(s.last().1@)
    } else {
        entry_lookup(s.drop_last(), k)
    }
}

/// A string-to-string property map. A later setting of a key replaces an
/// earlier one.
#[derive(Debug, Clone)]
pub struct Properties {
    entries: Vec<(String, String)>,
}

impl View for Properties {
    type V = Map<Seq<char>, Seq<char>>;

    closed spec fn view(&self) -> Map<Seq<char>, Seq<char>> {
        Map::new(
            |k: Seq<char>| entry_lookup(self.entries@, k) is Some,
            |k: Seq<char>| entry_lookup(self.entries@, k)->Some_0,
        )
    }
}

impl Properties {
    /// An empty map.
    pub fn new() -> (r: Properties)
        ensures
            r@ == Map::<Seq<char>, Seq<char>>::empty(),
    {
        let r = Properties { entries: Vec::new() };
        assert(r@ =~= Map::<Seq<char>, Seq<char>>::empty());
        r
    }

    /// Sets `key` to `value`.
    pub fn insert(&mut self, key: String, value: String)
        ensures
            final(self)@ == old(self)@.insert(key@, value@),
    {
        let ghost before = self.entries@;
        let ghost (k, v) = (key@, value@);
        self.entries.push((key, value));
        assert forall|q: Seq<char>| entry_lookup(self.entries@, q) == (if q == k {
            Some(v)
        } else {
            entry_lookup(before, q)
        }) by {
            assert(self.entries@.drop_last() =~= before);
        }
        assert(self@ =~= old(self)@.insert(k, v));
    }

    /// The value of `key`, if it is set.
    pub fn get(&self, key: &str) -> (r: Option<String>)
        ensures
            match r {
                Some(v) => self@.contains_key(key@) && self@[key@] == v@,
                None => !self@.contains_key(key@),
            },
    {
        let mut i: usize = self.entries.len();
        assert(self.entries@.subrange(0, i as int) =~= self.entries@);
        while i > 0
            invariant
                i <= self.entries@.len(),
                entry_lookup(self.entries@, key@) == entry_lookup(
                    self.entries@.subrange(0, i as int),
                    key@,
                ),
            decreases i,
        {
            let ghost pre = self.entries@.subrange(0, i as int);
            assert(pre.drop_last() =~= self.entries@.subrange(0, i - 1));
            assert(pre.last() == self.entries@[i - 1]);
            let e = &self.entries[i - 1];
            if str_eq(e.0.as_str(), key) {
                return Some(e.1.clone());
            }
            i = i - 1;
        }
        None
    }

    /// The entries as key-value pairs; where a key occurs more than once the
    /// last pair holds its value.
    pub fn to_pairs(&self) -> (r: Vec<(String, String)>)
        ensures
            forall|k: Seq<char>| #[trigger]
                entry_lookup(r@, k) == (if self@.contains_key(k) {
                    Some(self@[k])
                } else {
                    None
                }),
    {
        let mut out: Vec<(String, String)> = Vec::new();
        let mut i: usize = 0;
        while i < self.entries.len()
            invariant
                i <= self.entries@.len(),
                out@ == self.entries@.subrange(0, i as int),
            decreases self.entries@.len() - i,
        {
            let e = &self.entries[i];
            out.push((e.0.clone(), e.1.clone()));
            assert(out@ =~= self.entries@.subrange(0, i + 1));
            i = i + 1;
        }
        assert(out@ =~= self.entries@);
        out
    }

    /// A second map with the same contents.
    pub fn duplicate(&self) -> (r: Properties)
        ensures
            r@ == self@,
    {
        let mut entries: Vec<(String, String)> = Vec::new();
        let mut i: usize = 0;
        while i < self.entries.len()
            invariant
                i <= self.entries@.len(),
                entries@ == self.entries@.subrange(0, i as int),
            decreases self.entries@.len() - i,
        {
            let e = &self.entries[i];
            entries.push((e.0.clone(), e.1.clone()));
            assert(entries@ =~= self.entries@.subrange(0, i + 1));
            i = i + 1;
        }
        assert(entries@ =~= self.entries@);
        Properties { entries }
    }
}

} // verus!
