//! The contract as a state machine: what it holds, and what each call does
//! to it. The executable contract is proved against these functions.

use vstd::prelude::*;
use crate::identity::Identity;
use crate::offer::{Offer, OfferError, OfferStatus};
use crate::store::keyed_by_offeror;

verus! {

/// Everything the contract holds between calls.
#[verifier::ext_equal]
pub struct ContractState {
    /// The party that may accept offers, once it has been set.
    pub owner: Option<Identity>,
    /// The current offer of each party that has one.
    pub offers: Map<Identity, Offer>,
}

/// A call's outcome: what the caller is told, and the state it leaves.
#[verifier::ext_equal]
pub struct Step {
    pub result: Result<(), OfferError>,
    pub state: ContractState,
}

impl ContractState {
    /// The state at deployment: no owner, no offers.
    pub open spec fn initial() -> ContractState {
        ContractState { owner: None, offers: Map::empty() }
    }

    /// Every offer stands under the party that made it.
    pub open spec fn well_formed(self) -> bool {
        keyed_by_offeror(self.offers)
    }

    /// Whether `who` has an offer that is still pending.
    pub open spec fn has_pending(self, who: Identity) -> bool {
        self.offers.contains_key(who) && self.offers[who].status == OfferStatus::Pending
    }

    /// The step of a call that succeeds and leaves `next`.
    pub open spec fn done(next: ContractState) -> Step {
        Step { result: Ok(()), state: next }
    }

    /// The step of a call that fails: the state stays as it is.
    pub open spec fn refused(self, error: OfferError) -> Step {
        Step { result: Err(error), state: self }
    }

    /// This state with the offer of `who` moved to `status`.
    pub open spec fn with_status(self, who: Identity, status: OfferStatus) -> ContractState {
        ContractState {
            offers: self.offers.insert(who, self.offers[who].with_status(status)),
            ..self
        }
    }

    /// The current offer of `offeror`, if it has one. Anyone may ask.
    pub open spec fn view_offer(self, offeror: Identity) -> Option<Offer> {
        if self.offers.contains_key(offeror) {
            Some(self.offers[offeror])
        } else {
            None
        }
    }

    /// `caller` submits an offer. It takes the caller's slot, unless the
    /// offer there is still pending.
    pub open spec fn submit_offer(self, caller: Identity, amount: i128, price: i128) -> Step {
        if self.has_pending(caller) {
            self.refused(OfferError::DuplicatePendingOffer)
        } else {
            Self::done(
                ContractState {
                    offers: self.offers.insert(caller, Offer::pending(caller, amount, price)),
                    ..self
                },
            )
        }
    }

    /// The offer of `who` leaves the pending state for `status`. There must
    /// be such an offer, and it must still be pending.
    pub open spec fn settle(self, who: Identity, status: OfferStatus) -> Step {
        if !self.offers.contains_key(who) {
            self.refused(OfferError::OfferNotFound)
        } else if self.offers[who].status != OfferStatus::Pending {
            self.refused(OfferError::InvalidState)
        } else {
            Self::done(self.with_status(who, status))
        }
    }

    /// `caller` accepts the offer of `offeror`. Only the owner may, and only
    /// a pending offer.
    pub open spec fn accept_offer(self, caller: Identity, offeror: Identity) -> Step {
        if self.owner is None {
            self.refused(OfferError::OwnerNotConfigured)
        } else if self.owner != Some(caller) {
            self.refused(OfferError::Unauthorized)
        } else {
            self.settle(offeror, OfferStatus::Accepted)
        }
    }

    /// `caller` withdraws its own offer, which must still be pending.
    pub open spec fn cancel_offer(self, caller: Identity) -> Step {
        self.settle(caller, OfferStatus::Cancelled)
    }

    /// Makes `owner` the owner, if there is none yet.
    pub open spec fn set_owner(self, owner: Identity) -> Step {
        if self.owner is Some {
            self.refused(OfferError::OwnerAlreadySet)
        } else {
            Self::done(ContractState { owner: Some(owner), ..self })
        }
    }
}

} // verus!
