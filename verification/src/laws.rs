//! What holds of the proxy, of the implementation and of the storage that
//! they share, whatever the callers do.

use vstd::prelude::*;
use crate::codec::{lemma_account_read_back, lemma_word_read_back, word_image};
use crate::dispatch::{classification, Classification, Error, Operation};
use crate::layout::{distinct, logic_claims, partitioned, proxy_claims, PROXY_ROOT_KEY};
use crate::logic::{logic_read, logic_written, LogicState};
use crate::proxy::{committed, concluded, loaded, proxy_image, proxy_read, ProxyState};

verus! {

/// Whoever is not the administrator is handed on to the implementation with
/// whatever the proxy has no entry for, and also with what the proxy would
/// answer itself only for the administrator.
pub proof fn lemma_others_are_forwarded(admin: Seq<u8>, caller: Seq<u8>, operation: Operation)
    requires
        caller != admin,
        !operation.is_management(),
    ensures
        classification(admin, caller, operation) == Classification::Forwarded,
{
}

/// The administrator is refused whatever would otherwise be forwarded, and
/// is served everything else by the proxy itself: no request of the
/// administrator ever reaches the implementation.
pub proof fn lemma_admin_never_proxies(admin: Seq<u8>, operation: Operation)
    ensures
        classification(admin, admin, operation) != Classification::Forwarded,
        classification(admin, admin, Operation::Other) == Classification::Rejected(
            Error::AdminAttemptedToProxy,
        ),
{
}

/// Management is the proxy's own business, whoever asks.
pub proof fn lemma_management_is_local(admin: Seq<u8>, caller: Seq<u8>, operation: Operation)
    requires
        operation.is_management(),
    ensures
        classification(admin, caller, operation) == Classification::ServedLocally,
{
}

/// The proxy's state is read back from its root cell as it was written.
pub proof fn lemma_proxy_read_back(state: ProxyState, storage: Map<u32, Seq<u8>>)
    requires
        state.well_formed(),
    ensures
        proxy_read(proxy_image(state)) == Some(state),
        loaded(committed(state, storage)) == Some(state),
{
    let bytes = proxy_image(state);
    let value = word_image(state.value);
    assert(bytes =~= state.admin + (state.implementation + value));
    assert(bytes.skip(32) =~= state.implementation + value);
    assert(bytes.skip(64) =~= value + Seq::<u8>::empty());
    lemma_account_read_back(state.admin, state.implementation + value);
    lemma_account_read_back(state.implementation, value);
    lemma_word_read_back(state.value, Seq::empty());
}

/// A field that the implementation has written is read back as it was
/// written, and a field that it has not written reads as it did before.
pub proof fn lemma_logic_read_back(state: LogicState, storage: Map<u32, Seq<u8>>)
    requires
        state.well_formed(),
    ensures
        state.admin is Some ==> logic_read(logic_written(state, storage)).admin == state.admin,
        state.value is Some ==> logic_read(logic_written(state, storage)).value == state.value,
        state.admin is None ==> logic_read(logic_written(state, storage)).admin == logic_read(
            storage,
        ).admin,
        state.value is None ==> logic_read(logic_written(state, storage)).value == logic_read(
            storage,
        ).value,
{
    if let Some(id) = state.admin {
        lemma_account_read_back(id, Seq::empty());
        assert(id + Seq::<u8>::empty() =~= id);
    }
    if let Some(value) = state.value {
        lemma_word_read_back(value, Seq::empty());
        assert(word_image(value) + Seq::<u8>::empty() =~= word_image(value));
    }
}

/// The end of a forwarded call leaves every cell but the proxy's own as the
/// delegated code left it, whether or not control came back to the proxy.
pub proof fn lemma_conclusion_spares_other_keys(
    state: ProxyState,
    tail_return: bool,
    left: Map<u32, Seq<u8>>,
    key: u32,
)
    requires
        key != PROXY_ROOT_KEY,
    ensures
        concluded(state, tail_return, left).contains_key(key) == left.contains_key(key),
        concluded(state, tail_return, left)[key] == left[key],
{
}

/// What the implementation wrote to its fields during one forwarded call is
/// what it finds there in the next: the proxy's own write at the end of the
/// call does not reach the implementation's cells.
pub proof fn lemma_implementation_state_survives(
    proxy: ProxyState,
    tail_return: bool,
    logic: LogicState,
    before: Map<u32, Seq<u8>>,
)
    requires
        logic.well_formed(),
    ensures
        logic_read(concluded(proxy, tail_return, logic_written(logic, before))) == logic_read(
            logic_written(logic, before),
        ),
        logic.admin is Some ==> logic_read(
            concluded(proxy, tail_return, logic_written(logic, before)),
        ).admin == logic.admin,
        logic.value is Some ==> logic_read(
            concluded(proxy, tail_return, logic_written(logic, before)),
        ).value == logic.value,
{
    lemma_logic_read_back(logic, before);
}

/// The implementation, writing to its own cells, does not reach the proxy:
/// the administrator and the implementation reference are the proxy's
/// alone to change.
pub proof fn lemma_implementation_spares_the_proxy(logic: LogicState, storage: Map<u32, Seq<u8>>)
    ensures
        loaded(logic_written(logic, storage)) == loaded(storage),
{
}

/// An upgrade and the upgrade back leave the proxy as it was, and no cell
/// but the proxy's own is touched on the way: what the implementation kept
/// under its keys is there for whichever code runs next.
pub proof fn lemma_upgrade_round_trip(
    state: ProxyState,
    other: Seq<u8>,
    storage: Map<u32, Seq<u8>>,
    key: u32,
)
    requires
        key != PROXY_ROOT_KEY,
    ensures
        ({
            let there = ProxyState { implementation: other, ..state };
            let back = ProxyState { implementation: state.implementation, ..there };
            let stored = committed(back, committed(there, storage));
            &&& back == state
            &&& stored == committed(state, storage)
            &&& stored.contains_key(key) == storage.contains_key(key)
            &&& stored[key] == storage[key]
            &&& logic_read(stored) == logic_read(storage)
            &&& logic_read(committed(there, storage)) == logic_read(storage)
        }),
{
    let there = ProxyState { implementation: other, ..state };
    assert(committed(state, committed(there, storage)) =~= committed(state, storage));
}

/// No key that the proxy claims is a key that the implementation claims,
/// and the implementation claims no key twice.
pub proof fn lemma_declared_keys_are_partitioned()
    ensures
        partitioned(proxy_claims(), logic_claims()),
        distinct(logic_claims()),
        distinct(proxy_claims()),
{
}

/// A key of the proxy and a key of the implementation are never the same.
pub proof fn lemma_claimed_keys_differ(proxy_key: u32, implementation_key: u32)
    requires
        proxy_claims().contains(proxy_key),
        logic_claims().contains(implementation_key),
    ensures
        proxy_key != implementation_key,
{
}

/// Under any two sets of claims that are partitioned, a key of the one is
/// never a key of the other.
pub proof fn lemma_partitioned_keys_differ(
    proxy: Seq<u32>,
    implementation: Seq<u32>,
    proxy_key: u32,
    implementation_key: u32,
)
    requires
        partitioned(proxy, implementation),
        proxy.contains(proxy_key),
        implementation.contains(implementation_key),
    ensures
        proxy_key != implementation_key,
{
}

/// Where control comes back to the proxy, the proxy writes last: if the
/// delegated code wrote to the proxy's own cell, what is found there after
/// the call is the proxy's state and not what the delegated code wrote.
/// With a tail return it is the other way round.
pub proof fn lemma_proxy_writes_last(
    state: ProxyState,
    before: Map<u32, Seq<u8>>,
    written: Seq<u8>,
)
    requires
        state.well_formed(),
    ensures
        concluded(state, false, before.insert(PROXY_ROOT_KEY, written))[PROXY_ROOT_KEY]
            == proxy_image(state),
        loaded(concluded(state, false, before.insert(PROXY_ROOT_KEY, written))) == Some(state),
        concluded(state, true, before.insert(PROXY_ROOT_KEY, written))[PROXY_ROOT_KEY] == written,
{
    lemma_proxy_read_back(state, before.insert(PROXY_ROOT_KEY, written));
}

} // verus!
