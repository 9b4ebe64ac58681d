//! The fragment registry: script sources kept under the labels they were
//! exported with, for later scripts to import.

use vstd::hash_map::StringHashMap;
use vstd::prelude::*;

verus! {

/// Script sources by label.
pub struct Registry {
    entries: StringHashMap<String>,
}

impl View for Registry {
    type V = Map<Seq<char>, Seq<char>>;

    closed spec fn view(&self) -> Map<Seq<char>, Seq<char>> {
        self.entries@.map_values(|code: String| code@)
    }
}

impl Registry {
    /// A registry without entries.
    pub fn new() -> (r: Registry)
        ensures
            r@ == Map::<Seq<char>, Seq<char>>::empty(),
    {
        let r = Registry { entries: StringHashMap::with_capacity(10) };
        assert(r@ =~= Map::<Seq<char>, Seq<char>>::empty());
        r
    }

    /// The source exported under `label`, if there is one.
    pub fn get(&self, label: &str) -> (r: Option<&String>)
        ensures
            match r {
                Some(code) => self@.contains_key(label@) && code@ == self@[label@],
                None => !self@.contains_key(label@),
            },
    {
        self.entries.get(label)
    }

    /// Keeps `code` under `label`, in place of what was there.
    pub fn insert(&mut self, label: String, code: String)
        ensures
            final(self)@ == old(self)@.insert(label@, code@),
    {
        self.entries.insert(label, code);
        assert(self@ =~= old(self)@.insert(label@, code@));
    }

    /// Forgets every entry.
    pub fn clear(&mut self)
        ensures
            final(self)@ == Map::<Seq<char>, Seq<char>>::empty(),
    {
        self.entries.clear();
        assert(self@ =~= Map::<Seq<char>, Seq<char>>::empty());
    }
}

} // verus!
