//! Symbol tables: the offsets of the labels of one namespace.

use vstd::prelude::*;
use vstd::hash_map::StringHashMap;
use vstd::string::*;

verus! {

/// A table from label names to offsets. A name has at most one entry.
pub struct SymbolTable {
    entries: StringHashMap<u64>,
}

impl View for SymbolTable {
    type V = Map<Seq<char>, u64>;

    closed spec fn view(&self) -> Map<Seq<char>, u64> {
        self.entries@
    }
}

impl SymbolTable {
    /// The table without entries.
    pub fn new() -> (table: SymbolTable)
        ensures
            table@ == Map::<Seq<char>, u64>::empty(),
    {
        SymbolTable { entries: StringHashMap::new() }
    }

    /// Records that `name` stands at `offset`, in place of what the table
    /// said of `name` before. Returns the offset that was replaced.
    pub fn insert(&mut self, name: &str, offset: u64) -> (replaced: Option<u64>)
        ensures
            final(self)@ == old(self)@.insert(name@, offset),
            replaced == (if old(self)@.contains_key(name@) {
                Some(old(self)@[name@])
            } else {
                None
            }),
    {
        let replaced = self.get(name);
        self.entries.insert(String::from_str(name), offset);
        replaced
    }

    /// The offset of `name`, if the table has an entry for it.
    pub fn get(&self, name: &str) -> (offset: Option<u64>)
        ensures
            offset == (if self@.contains_key(name@) {
                Some(self@[name@])
            } else {
                None
            }),
    {
        match self.entries.get(name) {
            Some(offset) => Some(*offset),
            None => None,
        }
    }

    /// Whether the table has an entry for `name`.
    pub fn contains(&self, name: &str) -> (found: bool)
        ensures
            found == self@.contains_key(name@),
    {
        self.entries.contains_key(name)
    }
}

} // verus!
