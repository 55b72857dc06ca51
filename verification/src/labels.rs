//! The label table of a block: a map from names to offsets that can be
//! walked, so that every entry can be relocated.

use crate::address::Address;
use crate::resolve::{relocate, relocated, Labels};
use vstd::hash_map::StringHashMap;
use vstd::prelude::*;

verus! {

/// Whether `key` is the view of one of `names`.
pub(crate) open spec fn listed(names: Seq<String>, key: Seq<char>) -> bool {
    exists|i: int| 0 <= i < names.len() && #[trigger] names[i]@ == key
}

/// One more name is listed, and nothing else changes.
proof fn lemma_listed_push(names: Seq<String>, added: String, key: Seq<char>)
    ensures
        listed(names.push(added), key) <==> listed(names, key) || key == added@,
{
    let longer = names.push(added);
    if key == added@ {
        assert(longer[names.len() as int]@ == key);
    } else if listed(names, key) {
        let i = choose|i: int| 0 <= i < names.len() && #[trigger] names[i]@ == key;
        assert(longer[i]@ == key);
    } else if listed(longer, key) {
        let i = choose|i: int| 0 <= i < longer.len() && #[trigger] longer[i]@ == key;
        assert(names[i]@ == key);
    }
}

/// A map from label names to offsets, with the names kept in the order in
/// which they were declared.
pub(crate) struct LabelTable {
    names: Vec<String>,
    offsets: StringHashMap<Address>,
}

impl LabelTable {
    /// The names are those of the map's entries: nothing the map holds is
    /// missed when the names are walked.
    #[verifier::type_invariant]
    spec fn names_are_the_keys(self) -> bool {
        forall|key: Seq<char>| #[trigger] self.offsets@.contains_key(key) <==> listed(self.names@, key)
    }

    pub(crate) closed spec fn view(&self) -> Labels {
        self.offsets@
    }

    pub(crate) fn new() -> (table: LabelTable)
        ensures
            table@ == Labels::empty(),
    {
        LabelTable { names: Vec::new(), offsets: StringHashMap::new() }
    }

    /// The offset that `name` was declared with.
    pub(crate) fn get(&self, name: &str) -> (found: Option<Address>)
        ensures
            found == (if self@.contains_key(name@) {
                Some(self@[name@])
            } else {
                None
            }),
    {
        match self.offsets.get(name) {
            Some(offset) => Some(*offset),
            None => None,
        }
    }

    /// Declares `name` at `offset` unless it is declared already. Returns
    /// whether the name was new; a name that is not leaves the table as it was.
    pub(crate) fn declare(&mut self, name: &str, offset: Address) -> (fresh: bool)
        ensures
            fresh == !old(self)@.contains_key(name@),
            fresh ==> final(self)@ == old(self)@.insert(name@, offset),
            !fresh ==> final(self)@ == old(self)@,
    {
        if self.offsets.contains_key(name) {
            return false;
        }
        proof {
            use_type_invariant(&*self);
        }
        // The two fields change together, so the table is taken apart and
        // put back whole.
        let mut taken = LabelTable::new();
        core::mem::swap(self, &mut taken);
        let LabelTable { mut names, mut offsets } = taken;
        let owned = name.to_owned();
        proof {
            assert forall|key: Seq<char>| #[trigger]
                offsets@.insert(name@, offset).contains_key(key) <==> listed(
                    names@.push(owned),
                    key,
                ) by {
                lemma_listed_push(names@, owned, key);
            }
        }
        names.push(owned);
        offsets.insert(name.to_owned(), offset);
        *self = LabelTable { names, offsets };
        true
    }

    /// A map with the same names, each offset moved by `base`.
    pub(crate) fn relocated(&self, base: Address) -> (moved: StringHashMap<Address>)
        ensures
            moved@ == relocated(self@, base),
    {
        proof {
            use_type_invariant(self);
        }
        let mut moved: StringHashMap<Address> = StringHashMap::new();
        let mut index: usize = 0;
        while index < self.names.len()
            invariant
                index <= self.names@.len(),
                forall|key: Seq<char>| #[trigger]
                    self.offsets@.contains_key(key) <==> listed(self.names@, key),
                forall|key: Seq<char>| #[trigger]
                    moved@.contains_key(key) <==> listed(self.names@.take(index as int), key),
                forall|key: Seq<char>| #[trigger]
                    moved@.contains_key(key) ==> moved@[key] == relocate(self.offsets@[key], base),
            decreases self.names@.len() - index,
        {
            let name = &self.names[index];
            proof {
                assert(self.names@.take(index + 1) == self.names@.take(index as int).push(*name));
                assert(listed(self.names@, name@));
            }
            // Every name is a key of the map.
            if let Some(offset) = self.offsets.get(name.as_str()) {
                moved.insert(name.clone(), offset.wrapping_add(base));
            }
            proof {
                assert forall|key: Seq<char>| #[trigger]
                    moved@.contains_key(key) <==> listed(self.names@.take(index + 1), key) by {
                    lemma_listed_push(self.names@.take(index as int), *name, key);
                }
            }
            index += 1;
        }
        proof {
            assert(self.names@.take(index as int) == self.names@);
            assert(moved@ =~= relocated(self@, base));
        }
        moved
    }
}

} // verus!
