//! An offer, the states it passes through, and the ways a call can fail.

use vstd::prelude::*;
use crate::identity::Identity;

verus! {

/// Where an offer stands. An offer starts out `Pending`; `Accepted` and
/// `Cancelled` are final.
#[derive(Clone, Copy, Debug, PartialEq, Eq, Structural)]
pub enum OfferStatus {
    Pending,
    Accepted,
    Cancelled,
}

/// One party's standing bid.
#[derive(Clone, Copy, Debug, PartialEq, Eq, Structural)]
pub struct Offer {
    /// The party that made the offer.
    pub offeror: Identity,
    /// The quantity offered.
    pub amount: i128,
    /// The price term.
    pub price: i128,
    pub status: OfferStatus,
}

/// Why a call was turned down. A call that fails changes nothing.
#[derive(Clone, Copy, Debug, PartialEq, Eq, Structural)]
pub enum OfferError {
    /// The caller already has a pending offer.
    DuplicatePendingOffer,
    /// The caller is not the owner.
    Unauthorized,
    /// The party has no offer.
    OfferNotFound,
    /// The offer is no longer pending.
    InvalidState,
    /// An owner has been set before.
    OwnerAlreadySet,
    /// No owner has been set yet.
    OwnerNotConfigured,
}

impl OfferStatus {
    /// The number under which a status is kept in the ledger.
    pub open spec fn code(self) -> i128 {
        match self {
            OfferStatus::Pending => 0,
            OfferStatus::Accepted => 1,
            OfferStatus::Cancelled => 2,
        }
    }

    /// The status that a number found in the ledger stands for, if any.
    pub open spec fn of_code(code: i128) -> Option<OfferStatus> {
        if code == 0 {
            Some(OfferStatus::Pending)
        } else if code == 1 {
            Some(OfferStatus::Accepted)
        } else if code == 2 {
            Some(OfferStatus::Cancelled)
        } else {
            None
        }
    }

    /// Computes [`OfferStatus::code`].
    pub fn to_code(self) -> (c: i128)
        ensures
            c == self.code(),
            OfferStatus::of_code(c) == Some(self),
    {
        match self {
            OfferStatus::Pending => 0,
            OfferStatus::Accepted => 1,
            OfferStatus::Cancelled => 2,
        }
    }

    /// Computes [`OfferStatus::of_code`].
    pub fn from_code(code: i128) -> (s: Option<OfferStatus>)
        ensures
            s == OfferStatus::of_code(code),
    {
        if code == 0 {
            Some(OfferStatus::Pending)
        } else if code == 1 {
            Some(OfferStatus::Accepted)
        } else if code == 2 {
            Some(OfferStatus::Cancelled)
        } else {
            None
        }
    }

    /// Whether the offer can still be accepted or cancelled.
    pub fn is_pending(self) -> (p: bool)
        ensures
            p == (self == OfferStatus::Pending),
    {
        match self {
            OfferStatus::Pending => true,
            _ => false,
        }
    }
}

impl Offer {
    /// A fresh, pending offer of `offeror`.
    pub open spec fn pending(offeror: Identity, amount: i128, price: i128) -> Offer {
        Offer { offeror, amount, price, status: OfferStatus::Pending }
    }

    /// This offer in another state.
    pub open spec fn with_status(self, status: OfferStatus) -> Offer {
        Offer { status, ..self }
    }
}

impl OfferError {
    /// The result of a call that was turned down for this reason.
    pub open spec fn refusal(self) -> Result<(), OfferError> {
        Err(self)
    }

    /// The words in which the contract reports the failure.
    pub fn message(self) -> (text: &'static str)
        ensures
            text@ == (match self {
                OfferError::DuplicatePendingOffer => "You already have a pending offer."@,
                OfferError::Unauthorized => "Only the contract owner can accept offers."@,
                OfferError::OfferNotFound => "Offer not found."@,
                OfferError::InvalidState => "Offer is not pending."@,
                OfferError::OwnerAlreadySet => "Owner already set."@,
                OfferError::OwnerNotConfigured => "Owner not configured."@,
            }),
    {
        match self {
            OfferError::DuplicatePendingOffer => "You already have a pending offer.",
            OfferError::Unauthorized => "Only the contract owner can accept offers.",
            OfferError::OfferNotFound => "Offer not found.",
            OfferError::InvalidState => "Offer is not pending.",
            OfferError::OwnerAlreadySet => "Owner already set.",
            OfferError::OwnerNotConfigured => "Owner not configured.",
        }
    }
}

} // verus!
