//! An ordered list of header entries whose names compare without regard to ASCII case.
use crate::text::{eq_ignore_ascii_case, names_match};
use vstd::prelude::*;

verus! {

/// The value of the first entry named `name`, if any.
pub open spec fn lookup(entries: Seq<(String, String)>, name: Seq<char>) -> Option<Seq<char>>
    decreases entries.len(),
{
    if entries.len() == 0 {
        None
    } else if names_match(entries[0].0@, name) {
        Some(entries[0].1@)
    } else {
        lookup(entries.drop_first(), name)
    }
}

/// The entries that keep their place when every entry named `name` is taken out.
pub open spec fn without(entries: Seq<(String, String)>, name: Seq<char>) -> Seq<(String, String)> {
    entries.filter(|e: (String, String)| !names_match(e.0@, name))
}

/// Headers of a request or a response. Several entries may share a name; a lookup sees the
/// first of them.
pub struct HeaderMap {
    pub entries: Vec<(String, String)>,
}

impl HeaderMap {
    pub open spec fn spec_get(&self, name: Seq<char>) -> Option<Seq<char>> {
        lookup(self.entries@, name)
    }

    /// An empty set of headers.
    pub fn new() -> (r: HeaderMap)
        ensures
            r.entries@.len() == 0,
    {
        HeaderMap { entries: Vec::new() }
    }

    /// The value of the first entry whose name matches `name` without regard to case.
    pub fn get(&self, name: &str) -> (r: Option<&String>)
        ensures
            match r {
                Some(v) => self.spec_get(name@) == Some(v@),
                None => self.spec_get(name@) is None,
            },
    {
        let mut i: usize = 0;
        assert(self.entries@.subrange(0, self.entries@.len() as int) =~= self.entries@);
        while i < self.entries.len()
            invariant
                0 <= i <= self.entries@.len(),
                lookup(self.entries@, name@) == lookup(self.entries@.subrange(
                    i as int,
                    self.entries@.len() as int,
                ), name@),
            decreases self.entries@.len() - i,
        {
            let ghost rest = self.entries@.subrange(i as int, self.entries@.len() as int);
            if eq_ignore_ascii_case(self.entries[i].0.as_str(), name) {
                return Some(&self.entries[i].1);
            }
            assert(rest.drop_first() =~= self.entries@.subrange(
                i + 1,
                self.entries@.len() as int,
            ));
            i = i + 1;
        }
        None
    }

    /// Whether some entry is named `name`, without regard to case.
    pub fn contains_key(&self, name: &str) -> (r: bool)
        ensures
            r == self.spec_get(name@) is Some,
    {
        self.get(name).is_some()
    }

    /// Takes out every entry named `name`, keeping the order of the others.
    pub fn remove(&mut self, name: &str)
        ensures
            final(self).entries@ == without(old(self).entries@, name@),
    {
        let mut kept: Vec<(String, String)> = Vec::new();
        let mut i: usize = 0;
        while i < self.entries.len()
            invariant
                0 <= i <= self.entries@.len(),
                kept@ == without(self.entries@.subrange(0, i as int), name@),
            decreases self.entries@.len() - i,
        {
            let ghost pre = self.entries@.subrange(0, i as int);
            let ghost e = self.entries@[i as int];
            let ghost next = self.entries@.subrange(0, i + 1);
            assert(next =~= pre.push(e));
            assert(next.drop_last() =~= pre);
            proof {
                reveal(Seq::filter);
            }
            if !eq_ignore_ascii_case(self.entries[i].0.as_str(), name) {
                let k = self.entries[i].0.clone();
                let v = self.entries[i].1.clone();
                assert((k, v) == e);
                kept.push((k, v));
                assert(kept@ =~= without(pre, name@).push(e));
            } else {
                assert(kept@ =~= without(pre, name@));
            }
            i = i + 1;
        }
        assert(self.entries@.subrange(0, self.entries@.len() as int) =~= self.entries@);
        self.entries = kept;
    }

    /// Adds an entry after the existing ones, leaving entries of the same name in place.
    pub fn append(&mut self, name: &str, value: &str)
        ensures
            final(self).entries@.len() == old(self).entries@.len() + 1,
            final(self).entries@.drop_last() == old(self).entries@,
            final(self).entries@.last().0@ == name@,
            final(self).entries@.last().1@ == value@,
    {
        self.entries.push((String::from_str(name), String::from_str(value)));
        assert(self.entries@.drop_last() =~= old(self).entries@);
    }

    /// Sets `name` to the single value `value`: every earlier entry of that name is taken out
    /// and the new entry goes last.
    pub fn insert(&mut self, name: &str, value: &str)
        ensures
            final(self).entries@.len() == without(old(self).entries@, name@).len() + 1,
            final(self).entries@.drop_last() == without(old(self).entries@, name@),
            final(self).entries@.last().0@ == name@,
            final(self).entries@.last().1@ == value@,
    {
        self.remove(name);
        self.append(name, value);
    }
}

} // verus!
