//! What holds of the contract across calls, proved of the state machine that
//! the executable contract follows step by step.

use vstd::prelude::*;
use crate::identity::Identity;
use crate::model::ContractState;
use crate::offer::{Offer, OfferError, OfferStatus};

verus! {

/// After a party has submitted an offer with success, viewing that party
/// shows a pending offer with the submitted amount and price.
pub proof fn lemma_submitted_offer_is_viewed(
    s: ContractState,
    u: Identity,
    amount: i128,
    price: i128,
)
    requires
        s.submit_offer(u, amount, price).result is Ok,
    ensures
        s.submit_offer(u, amount, price).state.view_offer(u) == Some(
            Offer { offeror: u, amount, price, status: OfferStatus::Pending },
        ),
{
}

/// A submission succeeds exactly when the party has no pending offer. While
/// its offer is pending, a further submission fails with
/// `DuplicatePendingOffer` and leaves the whole state, and so the stored
/// offer, as it was.
pub proof fn lemma_duplicate_submission_refused(
    s: ContractState,
    u: Identity,
    amount: i128,
    price: i128,
)
    ensures
        s.submit_offer(u, amount, price).result is Ok <==> !s.has_pending(u),
        s.has_pending(u) ==> s.submit_offer(u, amount, price) == s.refused(
            OfferError::DuplicatePendingOffer,
        ),
{
}

/// Of two submissions by one party in a row, the second fails with
/// `DuplicatePendingOffer` if the first succeeded, and the offer stored by
/// the first is unchanged.
pub proof fn lemma_second_submission_refused(
    s: ContractState,
    u: Identity,
    amount: i128,
    price: i128,
    amount2: i128,
    price2: i128,
)
    requires
        s.submit_offer(u, amount, price).result is Ok,
    ensures
        ({
            let first = s.submit_offer(u, amount, price).state;
            let second = first.submit_offer(u, amount2, price2);
            &&& second.result == OfferError::DuplicatePendingOffer.refusal()
            &&& second.state == first
            &&& second.state.view_offer(u) == Some(Offer::pending(u, amount, price))
        }),
{
}

/// Accepting succeeds exactly when the caller is the configured owner and
/// the offeror's offer is pending. Afterwards the offer is the same but
/// `Accepted`, and accepting it once more fails with `InvalidState`.
pub proof fn lemma_accept_once(s: ContractState, caller: Identity, u: Identity)
    ensures
        s.accept_offer(caller, u).result is Ok <==> s.owner == Some(caller) && s.has_pending(u),
        s.accept_offer(caller, u).result is Ok ==> ({
            let after = s.accept_offer(caller, u).state;
            &&& after.view_offer(u) == Some(s.offers[u].with_status(OfferStatus::Accepted))
            &&& after.accept_offer(caller, u) == after.refused(OfferError::InvalidState)
        }),
{
}

/// Each way in which accepting fails, with the states in which it comes.
pub proof fn lemma_accept_failures(s: ContractState, caller: Identity, u: Identity)
    ensures
        ({
            let result = s.accept_offer(caller, u).result;
            let by_owner = s.owner == Some(caller);
            &&& result == OfferError::OwnerNotConfigured.refusal() <==> s.owner is None
            &&& result == OfferError::Unauthorized.refusal() <==> s.owner is Some
                && !by_owner
            &&& result == OfferError::OfferNotFound.refusal() <==> by_owner
                && !s.offers.contains_key(u)
            &&& result == OfferError::InvalidState.refusal() <==> by_owner
                && s.offers.contains_key(u) && !s.has_pending(u)
        }),
{
}

/// Cancelling succeeds exactly when the caller has a pending offer, and it
/// touches the caller's own offer only. Afterwards that offer is the same
/// but `Cancelled`, and cancelling once more fails with `InvalidState`.
pub proof fn lemma_cancel_once(s: ContractState, caller: Identity)
    requires
        s.well_formed(),
    ensures
        s.cancel_offer(caller).result is Ok <==> s.has_pending(caller),
        s.cancel_offer(caller).result is Ok ==> ({
            let after = s.cancel_offer(caller).state;
            &&& after.view_offer(caller) == Some(
                s.offers[caller].with_status(OfferStatus::Cancelled),
            )
            &&& after.offers[caller].offeror == caller
            &&& after.cancel_offer(caller) == after.refused(OfferError::InvalidState)
            &&& forall|other: Identity|
                other != caller ==> #[trigger] after.view_offer(other) == s.view_offer(other)
        }),
        !s.offers.contains_key(caller) ==> s.cancel_offer(caller) == s.refused(
            OfferError::OfferNotFound,
        ),
        s.offers.contains_key(caller) && !s.has_pending(caller) ==> s.cancel_offer(caller)
            == s.refused(OfferError::InvalidState),
{
}

/// Once its offer has been accepted, a party may submit again: the new
/// offer is pending and carries the new amount and price.
pub proof fn lemma_resubmit_after_accept(
    s: ContractState,
    owner: Identity,
    u: Identity,
    amount: i128,
    price: i128,
)
    requires
        s.accept_offer(owner, u).result is Ok,
    ensures
        ({
            let again = s.accept_offer(owner, u).state.submit_offer(u, amount, price);
            &&& again.result is Ok
            &&& again.state.view_offer(u) == Some(Offer::pending(u, amount, price))
        }),
{
}

/// Once it has cancelled its offer, a party may submit again: the new offer
/// is pending and carries the new amount and price.
pub proof fn lemma_resubmit_after_cancel(s: ContractState, u: Identity, amount: i128, price: i128)
    requires
        s.cancel_offer(u).result is Ok,
    ensures
        ({
            let again = s.cancel_offer(u).state.submit_offer(u, amount, price);
            &&& again.result is Ok
            &&& again.state.view_offer(u) == Some(Offer::pending(u, amount, price))
        }),
{
}

/// Setting the owner succeeds exactly when there is none yet, and then
/// `owner` is the owner. Every later attempt, by anyone and for anyone,
/// fails with `OwnerAlreadySet` and leaves the state as it was.
pub proof fn lemma_owner_set_once(s: ContractState, owner: Identity, later: Identity)
    ensures
        s.set_owner(owner).result is Ok <==> s.owner is None,
        s.owner is Some ==> s.set_owner(owner) == s.refused(OfferError::OwnerAlreadySet),
        s.set_owner(owner).result is Ok ==> ({
            let after = s.set_owner(owner).state;
            &&& after.owner == Some(owner)
            &&& after.offers == s.offers
            &&& after.set_owner(later) == after.refused(OfferError::OwnerAlreadySet)
        }),
{
}

/// An owner, once set, stays: no call changes it.
pub proof fn lemma_owner_is_kept(
    s: ContractState,
    caller: Identity,
    other: Identity,
    amount: i128,
    price: i128,
)
    requires
        s.owner is Some,
    ensures
        s.submit_offer(caller, amount, price).state.owner == s.owner,
        s.accept_offer(caller, other).state.owner == s.owner,
        s.cancel_offer(caller).state.owner == s.owner,
        s.set_owner(other).state.owner == s.owner,
{
}

/// A call that fails changes nothing.
pub proof fn lemma_failure_changes_nothing(
    s: ContractState,
    caller: Identity,
    other: Identity,
    amount: i128,
    price: i128,
)
    ensures
        s.submit_offer(caller, amount, price).result is Err ==> s.submit_offer(
            caller,
            amount,
            price,
        ).state == s,
        s.accept_offer(caller, other).result is Err ==> s.accept_offer(caller, other).state == s,
        s.cancel_offer(caller).result is Err ==> s.cancel_offer(caller).state == s,
        s.set_owner(other).result is Err ==> s.set_owner(other).state == s,
{
}

/// Every call keeps each offer under the party that made it, and changes
/// the offer of one party at most: the submitter's, the offeror's, the
/// canceller's.
pub proof fn lemma_calls_keep_the_book(
    s: ContractState,
    caller: Identity,
    other: Identity,
    bystander: Identity,
    amount: i128,
    price: i128,
)
    requires
        s.well_formed(),
    ensures
        s.submit_offer(caller, amount, price).state.well_formed(),
        s.accept_offer(caller, other).state.well_formed(),
        s.cancel_offer(caller).state.well_formed(),
        s.set_owner(other).state.well_formed(),
        bystander != caller ==> s.submit_offer(caller, amount, price).state.view_offer(bystander)
            == s.view_offer(bystander),
        bystander != other ==> s.accept_offer(caller, other).state.view_offer(bystander)
            == s.view_offer(bystander),
        bystander != caller ==> s.cancel_offer(caller).state.view_offer(bystander) == s.view_offer(
            bystander,
        ),
        s.set_owner(other).state.view_offer(bystander) == s.view_offer(bystander),
{
}

/// An offer never leaves a final state but by a new submission of its
/// party: accepting and cancelling fail on it, and neither changes it.
pub proof fn lemma_final_states_are_final(s: ContractState, caller: Identity, u: Identity)
    requires
        s.offers.contains_key(u),
        s.offers[u].status != OfferStatus::Pending,
    ensures
        s.accept_offer(caller, u).result is Err,
        s.cancel_offer(u) == s.refused(OfferError::InvalidState),
        s.accept_offer(caller, u).state.view_offer(u) == s.view_offer(u),
{
}

} // verus!
