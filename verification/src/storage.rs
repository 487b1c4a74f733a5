//! The flat key-value space of one account.

use vstd::prelude::*;
use std::collections::HashMap;

verus! {

/// The persistent cells of one account, addressed by numeric keys. The proxy
/// and whatever implementation code runs on its behalf read and write the
/// same cells: nothing here keeps one from the other's keys.
pub struct Storage {
    cells: HashMap<u32, Vec<u8>>,
}

impl View for Storage {
    type V = Map<u32, Seq<u8>>;

    closed spec fn view(&self) -> Map<u32, Seq<u8>> {
        Map::new(|key: u32| self.cells@.contains_key(key), |key: u32| self.cells@[key]@)
    }
}

impl Storage {
    /// An account's storage before anything was written to it.
    pub fn new() -> (storage: Storage)
        ensures
            storage@ == Map::<u32, Seq<u8>>::empty(),
    {
        let storage = Storage { cells: HashMap::new() };
        assert(storage@ =~= Map::<u32, Seq<u8>>::empty());
        storage
    }

    /// The bytes of the cell at `key`, if that cell was ever written.
    pub fn get(&self, key: u32) -> (cell: Option<&Vec<u8>>)
        ensures
            match cell {
                Some(bytes) => self@.contains_key(key) && bytes@ == self@[key],
                None => !self@.contains_key(key),
            },
    {
        self.cells.get(&key)
    }

    /// Whether the cell at `key` was ever written.
    pub fn contains(&self, key: u32) -> (present: bool)
        ensures
            present == self@.contains_key(key),
    {
        self.cells.contains_key(&key)
    }

    /// Writes `bytes` to the cell at `key`, over whatever it held, and
    /// leaves every other cell as it was.
    pub fn set(&mut self, key: u32, bytes: Vec<u8>)
        ensures
            final(self)@ == old(self)@.insert(key, bytes@),
    {
        self.cells.insert(key, bytes);
        assert(self@ =~= old(self)@.insert(key, bytes@));
    }
}

} // verus!
