//! The allocation of storage keys.
//!
//! Implementation code runs against the proxy's own storage, so the two
//! share one flat key space. Every persisted field has a key that its author
//! chose by hand, and the keys of the proxy and those of the implementation
//! must never meet: a key claimed twice is silently overwritten by whoever
//! writes last.

use vstd::prelude::*;

verus! {

/// The cell that holds the proxy's own fields.
pub const PROXY_ROOT_KEY: u32 = 0;

/// The cell that holds the implementation's administrator field.
pub const LOGIC_ADMIN_KEY: u32 = 0x4c4f_4701;

/// The cell that holds the implementation's counter field.
pub const LOGIC_VALUE_KEY: u32 = 0x4c4f_4702;

/// The keys that the proxy claims.
pub open spec fn proxy_claims() -> Seq<u32> {
    seq![PROXY_ROOT_KEY]
}

/// The keys that the implementation claims.
pub open spec fn logic_claims() -> Seq<u32> {
    seq![LOGIC_ADMIN_KEY, LOGIC_VALUE_KEY]
}

/// No key of `proxy` is a key of `implementation`.
pub open spec fn partitioned(proxy: Seq<u32>, implementation: Seq<u32>) -> bool {
    forall|i: int, j: int|
        0 <= i < proxy.len() && 0 <= j < implementation.len() ==> proxy[i] != implementation[j]
}

/// No key occurs twice in `keys`.
pub open spec fn distinct(keys: Seq<u32>) -> bool {
    forall|i: int, j: int| 0 <= i < j < keys.len() ==> keys[i] != keys[j]
}

/// The keys that the proxy claims.
pub fn proxy_keys() -> (keys: Vec<u32>)
    ensures
        keys@ == proxy_claims(),
{
    let mut keys: Vec<u32> = Vec::new();
    keys.push(PROXY_ROOT_KEY);
    assert(keys@ =~= proxy_claims());
    keys
}

/// The keys that the implementation claims.
pub fn logic_keys() -> (keys: Vec<u32>)
    ensures
        keys@ == logic_claims(),
{
    let mut keys: Vec<u32> = Vec::new();
    keys.push(LOGIC_ADMIN_KEY);
    keys.push(LOGIC_VALUE_KEY);
    assert(keys@ =~= logic_claims());
    keys
}

/// Whether `key` is among `keys`.
pub fn claims(keys: &[u32], key: u32) -> (found: bool)
    ensures
        found == keys@.contains(key),
{
    let mut i: usize = 0;
    while i < keys.len()
        invariant
            i <= keys.len(),
            forall|j: int| 0 <= j < i ==> keys@[j] != key,
        decreases keys.len() - i,
    {
        if keys[i] == key {
            return true;
        }
        i += 1;
    }
    false
}

/// Whether the two sets of claims share no key.
pub fn is_partitioned(proxy: &[u32], implementation: &[u32]) -> (ok: bool)
    ensures
        ok == partitioned(proxy@, implementation@),
{
    let mut i: usize = 0;
    while i < proxy.len()
        invariant
            i <= proxy.len(),
            forall|a: int, b: int|
                0 <= a < i && 0 <= b < implementation.len() ==> proxy@[a] != implementation@[b],
        decreases proxy.len() - i,
    {
        if claims(implementation, proxy[i]) {
            let ghost b = implementation@.index_of(proxy@[i as int]);
            assert(proxy@[i as int] == implementation@[b]);
            return false;
        }
        i += 1;
    }
    true
}

/// Whether every key of one set of claims stands for one field only.
pub fn is_distinct(keys: &[u32]) -> (ok: bool)
    ensures
        ok == distinct(keys@),
{
    let mut j: usize = 0;
    while j < keys.len()
        invariant
            j <= keys.len(),
            forall|a: int, b: int| 0 <= a < b < j ==> keys@[a] != keys@[b],
        decreases keys.len() - j,
    {
        let mut i: usize = 0;
        while i < j
            invariant
                i <= j < keys.len(),
                forall|a: int| 0 <= a < i ==> keys@[a] != keys@[j as int],
            decreases j - i,
        {
            if keys[i] == keys[j] {
                return false;
            }
            i += 1;
        }
        j += 1;
    }
    true
}

} // verus!
