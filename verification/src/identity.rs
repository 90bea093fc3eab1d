//! Who a party is: an account or a contract, named by a 256-bit key.

use vstd::prelude::*;

verus! {

/// The two sorts of party that can hold an address on the ledger.
#[derive(Clone, Copy, Debug, PartialEq, Eq, Hash, Structural)]
pub enum IdentityKind {
    /// An account, named by its public key.
    Account,
    /// A contract, named by its hash.
    Contract,
}

/// A party to the contract. The 32 bytes of its key are held as two words,
/// `high` the first sixteen bytes and `low` the last, both big-endian.
///
/// Two identities are the same party exactly when all three fields agree.
#[derive(Clone, Copy, Debug, PartialEq, Eq, Hash, Structural)]
pub struct Identity {
    pub kind: IdentityKind,
    pub high: u128,
    pub low: u128,
}

impl IdentityKind {
    /// The number under which a kind is written into a ledger key.
    pub open spec fn code(self) -> u32 {
        match self {
            IdentityKind::Account => 0,
            IdentityKind::Contract => 1,
        }
    }

    /// Computes [`IdentityKind::code`].
    pub fn to_code(self) -> (c: u32)
        ensures
            c == self.code(),
    {
        match self {
            IdentityKind::Account => 0,
            IdentityKind::Contract => 1,
        }
    }
}

impl Identity {
    /// The account with the given key.
    pub fn account(high: u128, low: u128) -> (id: Identity)
        ensures
            id == (Identity { kind: IdentityKind::Account, high, low }),
    {
        Identity { kind: IdentityKind::Account, high, low }
    }

    /// The contract with the given key.
    pub fn contract(high: u128, low: u128) -> (id: Identity)
        ensures
            id == (Identity { kind: IdentityKind::Contract, high, low }),
    {
        Identity { kind: IdentityKind::Contract, high, low }
    }
}

} // verus!
