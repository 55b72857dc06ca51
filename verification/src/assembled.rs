//! What is kept of a block once it has been assembled.

use crate::address::Address;
use crate::resolve::Labels;
use vstd::hash_map::StringHashMap;
use vstd::prelude::*;

verus! {

/// The labels of an assembled block, each at its final address.
pub struct AssembledBlock {
    labels: StringHashMap<Address>,
}

impl View for AssembledBlock {
    type V = Labels;

    closed spec fn view(&self) -> Labels {
        self.labels@
    }
}

impl AssembledBlock {
    pub(crate) fn new(labels: StringHashMap<Address>) -> (block: AssembledBlock)
        ensures
            block@ == labels@,
    {
        AssembledBlock { labels }
    }

    /// The final address of `label`, or `None` if the block never declared it.
    pub fn address_of_label(&self, label: &str) -> (address: Option<Address>)
        ensures
            address == (if self@.contains_key(label@) {
                Some(self@[label@])
            } else {
                None
            }),
    {
        match self.labels.get(label) {
            Some(address) => Some(*address),
            None => None,
        }
    }
}

} // verus!
