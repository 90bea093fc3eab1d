//! The host map that holds the offers, and what is taken on trust about it.
//!
//! The book of offers lives in a `soroban_sdk::Map`, a handle to a map kept by
//! the host. Nothing in this file is proved: each item states what the
//! `soroban_sdk` source shows of the call it makes.
//!
//! The host meters every call. A call that takes the invocation over its
//! budget ends the invocation, as running out of memory ends a process;
//! nothing stated here rules that out.

use vstd::prelude::*;

verus! {

/// The host, `soroban_sdk::Env`. Opaque here: it is only handed on.
#[verifier::external_type_specification]
#[verifier::external_body]
pub struct ExEnv(soroban_sdk::Env);

/// The host map, `soroban_sdk::Map`. Opaque here: what it holds is spoken of
/// through [`ledger_entries`].
#[verifier::external_type_specification]
#[verifier::external_body]
#[verifier::reject_recursive_types(K)]
#[verifier::reject_recursive_types(V)]
pub struct ExMap<K, V>(soroban_sdk::Map<K, V>);

/// The key of one number in the ledger: three numbers that name a party, and
/// the number of a field of its offer.
pub type SlotKey = (u32, u128, u128, u32);

/// The host map as this library uses it: numbers under [`SlotKey`]s.
pub type Ledger = soroban_sdk::Map<SlotKey, i128>;

/// The entries of a host map whose key is four numbers of the types
/// `(u32, u128, u128, u32)` and whose value is an `i128`. Entries of any other
/// shape, which only a foreign writer could have left, are not among them.
pub uninterp spec fn ledger_entries(m: Ledger) -> Map<SlotKey, i128>;

/// `soroban_sdk::Map::new`: a map of the host `env` with no entry.
#[verifier::external_body]
pub(crate) fn ledger_new(env: &soroban_sdk::Env) -> (m: Ledger)
    ensures
        forall|key: SlotKey| !ledger_entries(m).contains_key(key),
{
    soroban_sdk::Map::new(env)
}

/// `soroban_sdk::Map::try_get`: the value under `key`, if the map has an entry
/// with that key and its value is an `i128`. Where the value is of another
/// type `try_get` gives a conversion error, which is `None` here.
#[verifier::external_body]
pub(crate) fn ledger_get(m: &Ledger, key: SlotKey) -> (r: Option<i128>)
    ensures
        r == (if ledger_entries(*m).contains_key(key) {
            Some(ledger_entries(*m)[key])
        } else {
            None
        }),
{
    m.try_get(key).unwrap_or(None)
}

/// `soroban_sdk::Map::set`: the map then holds `value` under `key`, in place
/// of whatever it held there, and every other entry as before.
#[verifier::external_body]
pub(crate) fn ledger_set(m: &mut Ledger, key: SlotKey, value: i128)
    ensures
        ledger_entries(*final(m)) == ledger_entries(*old(m)).insert(key, value),
{
    m.set(key, value)
}

} // verus!
