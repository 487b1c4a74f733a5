//! The proxy: the owner of the administrator and of the implementation
//! reference, and the entry point of every call.

use vstd::prelude::*;
use vstd::slice::slice_subrange;
use crate::account::AccountId;
use crate::codec::{account_image, account_read, decode_word, encode_word, read_account,
    word_image, word_read};
use crate::dispatch::{classification, classify, Classification, Error, Operation};
use crate::layout::PROXY_ROOT_KEY;
use crate::storage::Storage;

verus! {

/// What a proxy holds, as plain values.
pub struct ProxyState {
    /// The one identity that may upgrade.
    pub admin: Seq<u8>,
    /// The account whose code the delegated calls run.
    pub implementation: Seq<u8>,
    /// A value that the proxy keeps itself, beside those of the
    /// implementation.
    pub value: u32,
}

/// The proxy's own state. Only `Proxy::upgrade_to` changes the
/// implementation, and nothing changes the administrator.
#[derive(Clone, Copy, Debug, PartialEq, Eq)]
pub struct Proxy {
    admin: AccountId,
    implementation: AccountId,
    value: u32,
}

/// An answer that says who gave it. What the implementation returned is
/// unknown to the proxy, so that side carries nothing.
#[derive(Debug, PartialEq, Eq)]
pub enum ProxyOrLogic<T> {
    /// The proxy answered, with this value.
    Proxy(T),
    /// The request is the implementation's to answer.
    Logic,
}

/// A delegated execution that the host is asked for: run the code of
/// `implementation` against the storage of the proxy.
#[derive(Clone, Copy, Debug, PartialEq, Eq)]
pub struct Delegation {
    /// The account whose code is to run.
    pub implementation: AccountId,
    /// Whether the input of the enclosing call is passed on as it came.
    pub forward_input: bool,
    /// Whether the proxy's own execution ends with the delegated call. If
    /// not, control comes back to the proxy, which then writes last.
    pub tail_return: bool,
}

impl View for Proxy {
    type V = ProxyState;

    closed spec fn view(&self) -> ProxyState {
        ProxyState {
            admin: self.admin@,
            implementation: self.implementation@,
            value: self.value,
        }
    }
}

impl ProxyState {
    /// Both identities have their full width.
    pub open spec fn well_formed(self) -> bool {
        self.admin.len() == 32 && self.implementation.len() == 32
    }
}

/// The bytes of the proxy's root cell: administrator, implementation and
/// value, one after the other.
pub open spec fn proxy_image(state: ProxyState) -> Seq<u8> {
    state.admin + state.implementation + word_image(state.value)
}

/// What a root cell that holds `bytes` reads as: the three fields in turn,
/// or nothing when the cell ends before the last of them.
pub open spec fn proxy_read(bytes: Seq<u8>) -> Option<ProxyState> {
    match (account_read(bytes), account_read(bytes.skip(32)), word_read(bytes.skip(64))) {
        (Some(admin), Some(implementation), Some(value)) => Some(
            ProxyState { admin, implementation, value },
        ),
        _ => None,
    }
}

/// The proxy's state as `storage` holds it.
pub open spec fn loaded(storage: Map<u32, Seq<u8>>) -> Option<ProxyState> {
    if storage.contains_key(PROXY_ROOT_KEY) {
        proxy_read(storage[PROXY_ROOT_KEY])
    } else {
        None
    }
}

/// `storage` after the proxy wrote its state: the root cell is the proxy's,
/// every other cell is untouched.
pub open spec fn committed(state: ProxyState, storage: Map<u32, Seq<u8>>) -> Map<u32, Seq<u8>> {
    storage.insert(PROXY_ROOT_KEY, proxy_image(state))
}

/// The storage at the end of a forwarded call, where `left` is the storage
/// as the delegated code left it. With a tail return the proxy never runs
/// again, and `left` stands. Otherwise the proxy writes its state last.
pub open spec fn concluded(state: ProxyState, tail_return: bool, left: Map<u32, Seq<u8>>) -> Map<
    u32,
    Seq<u8>,
> {
    if tail_return {
        left
    } else {
        committed(state, left)
    }
}

impl Proxy {
    /// The views of the two identities have their full width.
    pub proof fn lemma_well_formed(self)
        ensures
            self@.well_formed(),
    {
    }

    /// A proxy under `admin` that delegates to `implementation`. No
    /// identity is refused, not even a placeholder.
    pub fn new(admin: AccountId, implementation: AccountId) -> (proxy: Proxy)
        ensures
            proxy@ == (ProxyState { admin: admin@, implementation: implementation@, value: 0 }),
    {
        Proxy { admin, implementation, value: 0 }
    }

    /// The current administrator. Anyone may ask.
    pub fn admin(&self) -> (admin: AccountId)
        ensures
            admin@ == self@.admin,
    {
        self.admin
    }

    /// The current implementation reference. Anyone may ask.
    pub fn implementation(&self) -> (implementation: AccountId)
        ensures
            implementation@ == self@.implementation,
    {
        self.implementation
    }

    /// Replaces the implementation reference, for the administrator only.
    /// Anyone else is refused, and the proxy stays as it was. Whether
    /// `new_code` names code that can run is not looked at.
    pub fn upgrade_to(&mut self, caller: AccountId, new_code: AccountId) -> (outcome: Result<
        (),
        Error,
    >)
        ensures
            caller@ == old(self)@.admin ==> outcome == Ok::<(), Error>(()) && final(self)@ == (
            ProxyState { implementation: new_code@, ..old(self)@ }),
            caller@ != old(self)@.admin ==> outcome == Err::<(), Error>(Error::UnauthorizedCaller)
                && final(self)@ == old(self)@,
    {
        if caller != self.admin {
            Err(Error::UnauthorizedCaller)
        } else {
            self.implementation = new_code;
            Ok(())
        }
    }

    /// The value that the proxy keeps itself, for the administrator. For
    /// anyone else the request is the implementation's.
    pub fn get(&self, caller: AccountId) -> (answer: ProxyOrLogic<u32>)
        ensures
            caller@ == self@.admin ==> answer == ProxyOrLogic::Proxy(self@.value),
            caller@ != self@.admin ==> answer == ProxyOrLogic::<u32>::Logic,
            answer is Logic <==> classification(self@.admin, caller@, Operation::ReadValue)
                == Classification::Forwarded,
    {
        match classify(&self.admin, &caller, Operation::ReadValue) {
            Classification::ServedLocally => ProxyOrLogic::Proxy(self.value),
            _ => ProxyOrLogic::Logic,
        }
    }

    /// Writes the value that the proxy keeps itself, for the administrator.
    /// For anyone else the proxy stays as it was and the request is the
    /// implementation's.
    pub fn set(&mut self, caller: AccountId, value: u32) -> (answer: ProxyOrLogic<()>)
        ensures
            caller@ == old(self)@.admin ==> answer == ProxyOrLogic::Proxy(()) && final(self)@ == (
            ProxyState { value, ..old(self)@ }),
            caller@ != old(self)@.admin ==> answer == ProxyOrLogic::<()>::Logic && final(self)@
                == old(self)@,
            answer is Logic <==> classification(old(self)@.admin, caller@, Operation::WriteValue)
                == Classification::Forwarded,
    {
        match classify(&self.admin, &caller, Operation::WriteValue) {
            Classification::ServedLocally => {
                self.value = value;
                ProxyOrLogic::Proxy(())
            },
            _ => ProxyOrLogic::Logic,
        }
    }

    /// The catch-all entry, for every request that the proxy has no entry
    /// for. The administrator is refused. For anyone else the answer is the
    /// delegation to perform: the current implementation's code, on the
    /// caller's input as it came, with control coming back to the proxy.
    pub fn fallback(&self, caller: AccountId) -> (outcome: Result<Delegation, Error>)
        ensures
            match outcome {
                Ok(delegation) => {
                    &&& caller@ != self@.admin
                    &&& delegation.implementation@ == self@.implementation
                    &&& delegation.forward_input
                    &&& !delegation.tail_return
                },
                Err(error) => caller@ == self@.admin && error == Error::AdminAttemptedToProxy,
            },
            outcome is Ok <==> classification(self@.admin, caller@, Operation::Other)
                == Classification::Forwarded,
    {
        match classify(&self.admin, &caller, Operation::Other) {
            Classification::Rejected(error) => Err(error),
            _ => Ok(
                Delegation {
                    implementation: self.implementation,
                    forward_input: true,
                    tail_return: false,
                },
            ),
        }
    }

    /// The bytes that the proxy keeps in its root cell.
    pub fn image(&self) -> (bytes: Vec<u8>)
        ensures
            bytes@ == proxy_image(self@),
    {
        let mut bytes = account_image(&self.admin);
        let mut implementation = account_image(&self.implementation);
        let mut value = encode_word(self.value);
        bytes.append(&mut implementation);
        bytes.append(&mut value);
        bytes
    }

    /// The proxy as `storage` holds it, if its root cell is there and long
    /// enough.
    pub fn load(storage: &Storage) -> (found: Option<Proxy>)
        ensures
            match found {
                Some(proxy) => loaded(storage@) == Some(proxy@),
                None => loaded(storage@) is None,
            },
    {
        let cell = match storage.get(PROXY_ROOT_KEY) {
            Some(cell) => cell,
            None => {
                return None;
            },
        };
        let bytes = cell.as_slice();
        if bytes.len() < 68 {
            return None;
        }
        let admin = read_account(bytes);
        let implementation = read_account(slice_subrange(bytes, 32, bytes.len()));
        let value = decode_word(slice_subrange(bytes, 64, bytes.len()));
        match (admin, implementation, value) {
            (Some(admin), Some(implementation), Some(value)) => Some(
                Proxy { admin, implementation, value },
            ),
            _ => None,
        }
    }

    /// Writes the proxy's state to its root cell.
    pub fn commit(&self, storage: &mut Storage)
        ensures
            final(storage)@ == committed(self@, old(storage)@),
    {
        storage.set(PROXY_ROOT_KEY, self.image());
    }

    /// Ends a forwarded call, once the delegated code is done with
    /// `storage`. Where control came back to the proxy, the proxy writes its
    /// state, last of all. With a tail return it writes nothing.
    pub fn conclude(&self, delegation: &Delegation, storage: &mut Storage)
        ensures
            final(storage)@ == concluded(self@, delegation.tail_return, old(storage)@),
    {
        if !delegation.tail_return {
            self.commit(storage);
        }
    }
}

} // verus!
