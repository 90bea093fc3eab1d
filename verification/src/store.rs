//! The offer store: at most one offer per party, kept in a host map.
//!
//! An offer is laid out as three numbers, each under a key made of the
//! party's identity and the number of the field. Every value in the map is
//! then a plain `i128`, which the host hands back whatever else may have been
//! written there, and a slot that does not hold three well-formed numbers is
//! simply no offer.

use vstd::prelude::*;
use crate::identity::Identity;
use crate::ledger::{ledger_entries, ledger_get, ledger_new, ledger_set, Ledger, SlotKey};
use crate::offer::{Offer, OfferStatus};

verus! {

/// The field of an offer that holds its amount.
pub const FIELD_AMOUNT: u32 = 0;

/// The field of an offer that holds its price.
pub const FIELD_PRICE: u32 = 1;

/// The field of an offer that holds the code of its status.
pub const FIELD_STATUS: u32 = 2;

/// The ledger key of one field of the offer of `who`.
pub open spec fn slot_key(who: Identity, field: u32) -> SlotKey {
    (who.kind.code(), who.high, who.low, field)
}

/// The offer of `who` that a set of ledger entries holds: all three fields
/// must be there, and the status field must hold the code of a status.
pub open spec fn offer_in(entries: Map<SlotKey, i128>, who: Identity) -> Option<Offer> {
    if entries.contains_key(slot_key(who, FIELD_AMOUNT)) && entries.contains_key(
        slot_key(who, FIELD_PRICE),
    ) && entries.contains_key(slot_key(who, FIELD_STATUS)) {
        match OfferStatus::of_code(entries[slot_key(who, FIELD_STATUS)]) {
            Some(status) => Some(
                Offer {
                    offeror: who,
                    amount: entries[slot_key(who, FIELD_AMOUNT)],
                    price: entries[slot_key(who, FIELD_PRICE)],
                    status,
                },
            ),
            None => None,
        }
    } else {
        None
    }
}

/// All the offers that a set of ledger entries holds, by party.
pub open spec fn offers_in(entries: Map<SlotKey, i128>) -> Map<Identity, Offer> {
    Map::new(
        |who: Identity| offer_in(entries, who) is Some,
        |who: Identity| offer_in(entries, who).unwrap(),
    )
}

/// Whether every offer of a book stands under the party that made it.
pub open spec fn keyed_by_offeror(offers: Map<Identity, Offer>) -> bool {
    forall|who: Identity| #[trigger] offers.contains_key(who) ==> offers[who].offeror == who
}

/// The mapping from a party to its one current offer.
pub struct OfferStore {
    ledger: Ledger,
}

impl View for OfferStore {
    type V = Map<Identity, Offer>;

    /// The offers in the store, by party.
    closed spec fn view(&self) -> Map<Identity, Offer> {
        offers_in(ledger_entries(self.ledger))
    }
}

impl OfferStore {
    /// Opens the store on what was found in persistent storage: the stored
    /// map, or an empty store if nothing was stored yet.
    pub fn load(env: &soroban_sdk::Env, stored: Option<Ledger>) -> (store: OfferStore)
        ensures
            store@ == (match stored {
                Some(ledger) => offers_in(ledger_entries(ledger)),
                None => Map::empty(),
            }),
    {
        let ledger = match stored {
            Some(ledger) => ledger,
            None => ledger_new(env),
        };
        OfferStore { ledger }
    }

    /// The host map to write back to persistent storage. Loading it again
    /// gives a store with the same offers.
    pub fn ledger(&self) -> (ledger: &Ledger)
        ensures
            offers_in(ledger_entries(*ledger)) == self@,
    {
        &self.ledger
    }

    /// The current offer of `who`, if it has one.
    pub fn get(&self, who: Identity) -> (found: Option<Offer>)
        ensures
            found == (if self@.contains_key(who) {
                Some(self@[who])
            } else {
                None
            }),
    {
        let kind = who.kind.to_code();
        let amount = ledger_get(&self.ledger, (kind, who.high, who.low, FIELD_AMOUNT));
        let price = ledger_get(&self.ledger, (kind, who.high, who.low, FIELD_PRICE));
        let code = ledger_get(&self.ledger, (kind, who.high, who.low, FIELD_STATUS));
        match (amount, price, code) {
            (Some(amount), Some(price), Some(code)) => match OfferStatus::from_code(code) {
                Some(status) => Some(Offer { offeror: who, amount, price, status }),
                None => None,
            },
            _ => None,
        }
    }

    /// Puts `offer` in the slot of its offeror, in place of whatever that
    /// slot held. No other party's offer changes.
    pub fn put(&mut self, offer: Offer)
        ensures
            final(self)@ == old(self)@.insert(offer.offeror, offer),
    {
        let who = offer.offeror;
        let kind = who.kind.to_code();
        let ghost before = ledger_entries(self.ledger);
        ledger_set(&mut self.ledger, (kind, who.high, who.low, FIELD_AMOUNT), offer.amount);
        ledger_set(&mut self.ledger, (kind, who.high, who.low, FIELD_PRICE), offer.price);
        ledger_set(
            &mut self.ledger,
            (kind, who.high, who.low, FIELD_STATUS),
            offer.status.to_code(),
        );
        proof {
            let after = ledger_entries(self.ledger);
            assert forall|other: Identity| other != who implies offer_in(after, other)
                == offer_in(before, other) by {
                assert(slot_key(other, FIELD_AMOUNT) != slot_key(who, FIELD_AMOUNT));
            }
            assert(offer_in(after, who) == Some(offer));
            assert(offers_in(after) =~= offers_in(before).insert(who, offer));
        }
    }

    /// Every offer in the store stands under the party that made it.
    pub proof fn lemma_keyed_by_offeror(&self)
        ensures
            keyed_by_offeror(self@),
    {
    }
}

} // verus!
