//! The contract itself: the owner and the offer store, and the calls that
//! change them.

use vstd::prelude::*;
use crate::identity::Identity;
use crate::ledger::{ledger_entries, Ledger};
use crate::model::ContractState;
use crate::offer::{Offer, OfferError, OfferStatus};
use crate::store::{offers_in, OfferStore};

verus! {

/// The state of the contract during one call: read from persistent storage
/// before the call and, if the call succeeds, written back after it.
///
/// The caller of every operation is named explicitly. Whoever drives the
/// contract must have authenticated that party.
pub struct SingleOfferContract {
    owner: Option<Identity>,
    offers: OfferStore,
}

impl View for SingleOfferContract {
    type V = ContractState;

    /// The owner and the offers, as the state machine sees them.
    closed spec fn view(&self) -> ContractState {
        ContractState { owner: self.owner, offers: self.offers@ }
    }
}

impl SingleOfferContract {
    /// Takes up the contract from what persistent storage holds: the owner,
    /// if one was stored, and the map of offers, if one was stored. A
    /// contract with nothing stored is in its initial state.
    pub fn load(
        env: &soroban_sdk::Env,
        owner: Option<Identity>,
        stored: Option<Ledger>,
    ) -> (contract: SingleOfferContract)
        ensures
            contract@.owner == owner,
            contract@.offers == (match stored {
                Some(ledger) => offers_in(ledger_entries(ledger)),
                None => Map::empty(),
            }),
            contract@.well_formed(),
            owner is None && stored is None ==> contract@ == ContractState::initial(),
    {
        let contract = SingleOfferContract { owner, offers: OfferStore::load(env, stored) };
        proof {
            contract.offers.lemma_keyed_by_offeror();
            assert(owner is None && stored is None ==> contract@ =~= ContractState::initial());
        }
        contract
    }

    /// Every offer the contract holds stands under the party that made it.
    pub proof fn lemma_well_formed(&self)
        ensures
            self@.well_formed(),
    {
        self.offers.lemma_keyed_by_offeror();
    }

    /// The owner, to write back to persistent storage.
    pub fn owner(&self) -> (owner: Option<Identity>)
        ensures
            owner == self@.owner,
    {
        self.owner
    }

    /// The offer store, to write back to persistent storage.
    pub fn offers(&self) -> (offers: &OfferStore)
        ensures
            offers@ == self@.offers,
    {
        &self.offers
    }

    /// Submits an offer of `caller`. Fails with `DuplicatePendingOffer` if
    /// the caller's current offer is still pending; otherwise the new,
    /// pending offer takes the caller's slot.
    pub fn submit_offer(
        &mut self,
        caller: Identity,
        amount: i128,
        price: i128,
    ) -> (result: Result<(), OfferError>)
        ensures
            result == old(self)@.submit_offer(caller, amount, price).result,
            final(self)@ == old(self)@.submit_offer(caller, amount, price).state,
    {
        if let Some(existing) = self.offers.get(caller) {
            if existing.status.is_pending() {
                return Err(OfferError::DuplicatePendingOffer);
            }
        }
        self.offers.put(Offer { offeror: caller, amount, price, status: OfferStatus::Pending });
        Ok(())
    }

    /// Accepts the offer of `offeror` on behalf of `caller`. Fails with
    /// `OwnerNotConfigured` if no owner is set, with `Unauthorized` if the
    /// caller is not the owner, with `OfferNotFound` if `offeror` has no
    /// offer and with `InvalidState` if that offer is not pending, in this
    /// order; otherwise the offer becomes `Accepted`.
    pub fn accept_offer(
        &mut self,
        caller: Identity,
        offeror: Identity,
    ) -> (result: Result<(), OfferError>)
        ensures
            result == old(self)@.accept_offer(caller, offeror).result,
            final(self)@ == old(self)@.accept_offer(caller, offeror).state,
    {
        let owner = match self.owner {
            Some(owner) => owner,
            None => {
                return Err(OfferError::OwnerNotConfigured);
            },
        };
        if caller != owner {
            return Err(OfferError::Unauthorized);
        }
        self.settle(offeror, OfferStatus::Accepted)
    }

    /// Withdraws the offer of `caller`. Fails with `OfferNotFound` if the
    /// caller has no offer and with `InvalidState` if it is not pending;
    /// otherwise the offer becomes `Cancelled`.
    pub fn cancel_offer(&mut self, caller: Identity) -> (result: Result<(), OfferError>)
        ensures
            result == old(self)@.cancel_offer(caller).result,
            final(self)@ == old(self)@.cancel_offer(caller).state,
    {
        self.settle(caller, OfferStatus::Cancelled)
    }

    /// The current offer of `offeror`, if it has one. Changes nothing.
    pub fn view_offer(&self, offeror: Identity) -> (found: Option<Offer>)
        ensures
            found == self@.view_offer(offeror),
    {
        self.offers.get(offeror)
    }

    /// Makes `owner` the owner. Fails with `OwnerAlreadySet` if an owner was
    /// set before.
    pub fn set_owner(&mut self, owner: Identity) -> (result: Result<(), OfferError>)
        ensures
            result == old(self)@.set_owner(owner).result,
            final(self)@ == old(self)@.set_owner(owner).state,
    {
        if self.owner.is_some() {
            return Err(OfferError::OwnerAlreadySet);
        }
        self.owner = Some(owner);
        Ok(())
    }

    /// Moves the pending offer of `who` to the final state `status`.
    fn settle(&mut self, who: Identity, status: OfferStatus) -> (result: Result<(), OfferError>)
        ensures
            result == old(self)@.settle(who, status).result,
            final(self)@ == old(self)@.settle(who, status).state,
    {
        let offer = match self.offers.get(who) {
            Some(offer) => offer,
            None => {
                return Err(OfferError::OfferNotFound);
            },
        };
        if !offer.status.is_pending() {
            return Err(OfferError::InvalidState);
        }
        proof {
            self.offers.lemma_keyed_by_offeror();
        }
        self.offers.put(Offer { offeror: who, amount: offer.amount, price: offer.price, status });
        Ok(())
    }
}

} // verus!
