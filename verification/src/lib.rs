//! A single-offer negotiation contract: each party may have one standing
//! offer, which the owner may accept and the party itself may withdraw.

pub mod contract;
pub mod identity;
pub mod laws;
pub mod ledger;
pub mod model;
pub mod offer;
pub mod store;

pub use contract::SingleOfferContract;
pub use identity::{Identity, IdentityKind};
pub use model::{ContractState, Step};
pub use offer::{Offer, OfferError, OfferStatus};
pub use store::OfferStore;
