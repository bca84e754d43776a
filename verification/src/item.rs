use vstd::prelude::*;

verus! {

/// The key/value datum exchanged with callers and persisted by the store.
/// The key is the unique identifier; storing an existing key overwrites
/// its value (upsert semantics).
#[derive(Clone, Debug)]
pub struct Item {
    pub key: String,
    pub value: String,
}

/// The mathematical content of an `Item`: its key and value as character
/// sequences.
pub struct ItemModel {
    pub key: Seq<char>,
    pub value: Seq<char>,
}

impl View for Item {
    type V = ItemModel;

    open spec fn view(&self) -> ItemModel {
        ItemModel { key: self.key@, value: self.value@ }
    }
}

impl PartialEq for Item {
    fn eq(&self, other: &Item) -> (r: bool) {
        self.key == other.key && self.value == other.value
    }
}

impl vstd::std_specs::cmp::PartialEqSpecImpl for Item {
    open spec fn obeys_eq_spec() -> bool {
        true
    }

    open spec fn eq_spec(&self, other: &Item) -> bool {
        self@ == other@
    }
}

} // verus!
