//! The implementation: replaceable business logic whose fields live in
//! cells of their own, under keys chosen by hand.

use vstd::prelude::*;
use crate::account::AccountId;
use crate::codec::{account_image, account_read, decode_word, encode_word, read_account,
    word_image, word_read};
use crate::layout::{LOGIC_ADMIN_KEY, LOGIC_VALUE_KEY};
use crate::storage::Storage;

verus! {

/// What the implementation's two cells hold, as plain values. A cell that
/// was never written, or that is too short for its field, holds nothing.
pub struct LogicState {
    /// The implementation's own administrator field.
    pub admin: Option<Seq<u8>>,
    /// The counter.
    pub value: Option<u32>,
}

/// The implementation's fields. It knows nothing of the proxy: when its
/// code runs on the proxy's behalf, its fields are whatever the proxy's
/// storage holds under its keys.
#[derive(Clone, Copy, Debug, PartialEq, Eq)]
pub struct Logic {
    admin: Option<AccountId>,
    value: Option<u32>,
}

impl View for Logic {
    type V = LogicState;

    closed spec fn view(&self) -> LogicState {
        LogicState {
            admin: match self.admin {
                Some(id) => Some(id@),
                None => None,
            },
            value: self.value,
        }
    }
}

impl LogicState {
    /// The administrator field, where there is one, has its full width.
    pub open spec fn well_formed(self) -> bool {
        self.admin matches Some(id) ==> id.len() == 32
    }
}

/// The implementation's fields as `storage` holds them.
pub open spec fn logic_read(storage: Map<u32, Seq<u8>>) -> LogicState {
    LogicState {
        admin: if storage.contains_key(LOGIC_ADMIN_KEY) {
            account_read(storage[LOGIC_ADMIN_KEY])
        } else {
            None
        },
        value: if storage.contains_key(LOGIC_VALUE_KEY) {
            word_read(storage[LOGIC_VALUE_KEY])
        } else {
            None
        },
    }
}

/// `storage` after the implementation wrote the fields that it has: each
/// to its own cell, and no other cell is touched.
pub open spec fn logic_written(state: LogicState, storage: Map<u32, Seq<u8>>) -> Map<u32, Seq<u8>> {
    let with_admin = match state.admin {
        Some(id) => storage.insert(LOGIC_ADMIN_KEY, id),
        None => storage,
    };
    match state.value {
        Some(value) => with_admin.insert(LOGIC_VALUE_KEY, word_image(value)),
        None => with_admin,
    }
}

impl Logic {
    /// The administrator field, where there is one, has its full width.
    pub proof fn lemma_well_formed(self)
        ensures
            self@.well_formed(),
    {
    }

    /// The implementation as it is deployed: nothing is written yet.
    pub fn new() -> (logic: Logic)
        ensures
            logic@ == (LogicState { admin: None, value: None }),
    {
        Logic { admin: None, value: None }
    }

    /// Whether the counter was ever written.
    pub fn has_value(&self) -> (present: bool)
        ensures
            present == (self@.value is Some),
    {
        self.value.is_some()
    }

    /// Whether the administrator field was ever written.
    pub fn has_admin(&self) -> (present: bool)
        ensures
            present == (self@.admin is Some),
    {
        self.admin.is_some()
    }

    /// The counter. It must have been written: there is nothing to read in
    /// a cell that holds nothing.
    pub fn get(&self) -> (value: u32)
        requires
            self@.value is Some,
        ensures
            self@.value == Some(value),
    {
        self.value.unwrap()
    }

    /// Writes the counter.
    pub fn set(&mut self, value: u32)
        ensures
            final(self)@ == (LogicState { value: Some(value), ..old(self)@ }),
    {
        self.value = Some(value);
    }

    /// Adds one to the counter. The counter must have been written, and
    /// must be below the largest value that it can hold.
    pub fn inc(&mut self)
        requires
            old(self)@.value matches Some(value) && value < u32::MAX,
        ensures
            final(self)@ == (LogicState {
                value: Some((old(self)@.value->0 + 1) as u32),
                ..old(self)@
            }),
    {
        let value = self.get();
        self.set(value + 1);
    }

    /// The implementation's administrator field. It must have been
    /// written.
    pub fn get_admin(&self) -> (admin: AccountId)
        requires
            self@.admin is Some,
        ensures
            self@.admin == Some(admin@),
    {
        self.admin.unwrap()
    }

    /// Writes the implementation's administrator field.
    pub fn set_admin(&mut self, new_admin: AccountId)
        ensures
            final(self)@ == (LogicState { admin: Some(new_admin@), ..old(self)@ }),
    {
        self.admin = Some(new_admin);
    }

    /// The implementation's fields as `storage` holds them.
    pub fn load(storage: &Storage) -> (logic: Logic)
        ensures
            logic@ == logic_read(storage@),
    {
        let admin = match storage.get(LOGIC_ADMIN_KEY) {
            Some(cell) => read_account(cell.as_slice()),
            None => None,
        };
        let value = match storage.get(LOGIC_VALUE_KEY) {
            Some(cell) => decode_word(cell.as_slice()),
            None => None,
        };
        Logic { admin, value }
    }

    /// Writes the fields that the implementation has, each to its own cell.
    pub fn store(&self, storage: &mut Storage)
        ensures
            final(storage)@ == logic_written(self@, old(storage)@),
    {
        match &self.admin {
            Some(admin) => {
                storage.set(LOGIC_ADMIN_KEY, account_image(admin));
            },
            None => {},
        }
        match self.value {
            Some(value) => {
                storage.set(LOGIC_VALUE_KEY, encode_word(value));
            },
            None => {},
        }
    }
}

} // verus!
