use single_offer::ledger::{Ledger, SlotKey};
use single_offer::store::{FIELD_AMOUNT, FIELD_PRICE, FIELD_STATUS};
use single_offer::{
    Identity, IdentityKind, Offer, OfferError, OfferStatus, OfferStore, SingleOfferContract,
};
use soroban_sdk::{Env, TryFromVal};

fn carol() -> Identity {
    Identity::contract(11, 12)
}

fn dave() -> Identity {
    Identity::account(11, 12)
}

fn key(who: Identity, field: u32) -> SlotKey {
    (who.kind.to_code(), who.high, who.low, field)
}

#[test]
fn an_empty_store_holds_no_offer() {
    let env = Env::default();
    let store = OfferStore::load(&env, None);
    assert_eq!(store.get(carol()), None);
    assert_eq!(store.get(dave()), None);
    assert_eq!(store.ledger().len(), 0);
}

#[test]
fn a_store_gives_back_what_was_put() {
    let env = Env::default();
    let mut store = OfferStore::load(&env, None);
    let offer = Offer { offeror: carol(), amount: -5, price: 77, status: OfferStatus::Accepted };
    store.put(offer);
    assert_eq!(store.get(carol()), Some(offer));
    assert_eq!(store.get(dave()), None);
}

#[test]
fn putting_replaces_the_offer_of_that_party_only() {
    let env = Env::default();
    let mut store = OfferStore::load(&env, None);
    let first = Offer { offeror: carol(), amount: 1, price: 2, status: OfferStatus::Pending };
    let other = Offer { offeror: dave(), amount: 3, price: 4, status: OfferStatus::Cancelled };
    let second = Offer { offeror: carol(), amount: 5, price: 6, status: OfferStatus::Accepted };
    store.put(first);
    store.put(other);
    store.put(second);
    assert_eq!(store.get(carol()), Some(second));
    assert_eq!(store.get(dave()), Some(other));
}

#[test]
fn an_offer_is_laid_out_as_three_numbers() {
    let env = Env::default();
    let mut store = OfferStore::load(&env, None);
    store.put(Offer { offeror: carol(), amount: 40, price: 50, status: OfferStatus::Cancelled });
    let ledger = store.ledger();
    assert_eq!(ledger.len(), 3);
    assert_eq!(ledger.get((1, 11, 12, 0)), Some(40));
    assert_eq!(ledger.get((1, 11, 12, 1)), Some(50));
    assert_eq!(ledger.get((1, 11, 12, 2)), Some(2));
    assert_eq!(ledger.get((0, 11, 12, 0)), None);
}

#[test]
fn a_store_reads_a_ledger_written_elsewhere() {
    let env = Env::default();
    let mut ledger: Ledger = Ledger::new(&env);
    ledger.set(key(dave(), FIELD_AMOUNT), 15);
    ledger.set(key(dave(), FIELD_PRICE), 16);
    ledger.set(key(dave(), FIELD_STATUS), 1);
    let store = OfferStore::load(&env, Some(ledger));
    assert_eq!(
        store.get(dave()),
        Some(Offer { offeror: dave(), amount: 15, price: 16, status: OfferStatus::Accepted })
    );
    assert_eq!(store.get(carol()), None);
}

#[test]
fn a_slot_with_a_field_missing_is_no_offer() {
    let env = Env::default();
    for missing in [FIELD_AMOUNT, FIELD_PRICE, FIELD_STATUS] {
        let mut ledger: Ledger = Ledger::new(&env);
        for field in [FIELD_AMOUNT, FIELD_PRICE, FIELD_STATUS] {
            if field != missing {
                ledger.set(key(carol(), field), 0);
            }
        }
        let store = OfferStore::load(&env, Some(ledger));
        assert_eq!(store.get(carol()), None);
    }
}

#[test]
fn a_slot_with_an_unknown_status_is_no_offer() {
    let env = Env::default();
    for code in [3, -1, 7, i128::MAX, i128::MIN] {
        let mut ledger: Ledger = Ledger::new(&env);
        ledger.set(key(carol(), FIELD_AMOUNT), 1);
        ledger.set(key(carol(), FIELD_PRICE), 1);
        ledger.set(key(carol(), FIELD_STATUS), code);
        let store = OfferStore::load(&env, Some(ledger));
        assert_eq!(store.get(carol()), None);
    }
}

#[test]
fn a_value_of_another_type_is_no_number() {
    let env = Env::default();
    let mut foreign = soroban_sdk::Map::<SlotKey, soroban_sdk::String>::new(&env);
    foreign.set(key(carol(), FIELD_AMOUNT), soroban_sdk::String::from_str(&env, "ten"));
    let mut ledger = Ledger::try_from_val(&env, &foreign.to_val()).unwrap();
    ledger.set(key(carol(), FIELD_PRICE), 2);
    ledger.set(key(carol(), FIELD_STATUS), 0);
    let store = OfferStore::load(&env, Some(ledger));
    assert_eq!(store.get(carol()), None);
}

#[test]
fn a_slot_that_holds_no_offer_is_free_to_submit_to() {
    let env = Env::default();
    let mut ledger: Ledger = Ledger::new(&env);
    ledger.set(key(carol(), FIELD_AMOUNT), 1);
    ledger.set(key(carol(), FIELD_PRICE), 1);
    ledger.set(key(carol(), FIELD_STATUS), 9);
    let mut contract = SingleOfferContract::load(&env, Some(dave()), Some(ledger));
    assert_eq!(contract.view_offer(carol()), None);
    assert_eq!(contract.cancel_offer(carol()), Err(OfferError::OfferNotFound));
    assert_eq!(contract.accept_offer(dave(), carol()), Err(OfferError::OfferNotFound));
    assert_eq!(contract.submit_offer(carol(), 20, 30), Ok(()));
    assert_eq!(
        contract.view_offer(carol()),
        Some(Offer { offeror: carol(), amount: 20, price: 30, status: OfferStatus::Pending })
    );
}

#[test]
fn a_key_of_an_unknown_kind_belongs_to_no_party() {
    let env = Env::default();
    let mut ledger: Ledger = Ledger::new(&env);
    for field in [FIELD_AMOUNT, FIELD_PRICE, FIELD_STATUS] {
        ledger.set((2, 11, 12, field), 0);
    }
    let store = OfferStore::load(&env, Some(ledger));
    assert_eq!(store.get(carol()), None);
    assert_eq!(store.get(dave()), None);
}

#[test]
fn statuses_have_their_codes() {
    assert_eq!(OfferStatus::Pending.to_code(), 0);
    assert_eq!(OfferStatus::Accepted.to_code(), 1);
    assert_eq!(OfferStatus::Cancelled.to_code(), 2);
    assert_eq!(OfferStatus::from_code(0), Some(OfferStatus::Pending));
    assert_eq!(OfferStatus::from_code(1), Some(OfferStatus::Accepted));
    assert_eq!(OfferStatus::from_code(2), Some(OfferStatus::Cancelled));
    assert_eq!(OfferStatus::from_code(3), None);
    assert_eq!(OfferStatus::from_code(-1), None);
    assert!(OfferStatus::Pending.is_pending());
    assert!(!OfferStatus::Accepted.is_pending());
    assert!(!OfferStatus::Cancelled.is_pending());
}

#[test]
fn kinds_have_their_codes() {
    assert_eq!(IdentityKind::Account.to_code(), 0);
    assert_eq!(IdentityKind::Contract.to_code(), 1);
    assert_eq!(
        Identity::account(1, 2),
        Identity { kind: IdentityKind::Account, high: 1, low: 2 }
    );
    assert_eq!(
        Identity::contract(3, 4),
        Identity { kind: IdentityKind::Contract, high: 3, low: 4 }
    );
    assert_ne!(Identity::account(1, 2), Identity::contract(1, 2));
}

#[test]
fn fields_have_their_numbers() {
    assert_eq!(FIELD_AMOUNT, 0);
    assert_eq!(FIELD_PRICE, 1);
    assert_eq!(FIELD_STATUS, 2);
}

#[test]
fn failures_are_reported_in_words() {
    assert_eq!(
        OfferError::DuplicatePendingOffer.message(),
        "You already have a pending offer."
    );
    assert_eq!(OfferError::Unauthorized.message(), "Only the contract owner can accept offers.");
    assert_eq!(OfferError::OfferNotFound.message(), "Offer not found.");
    assert_eq!(OfferError::InvalidState.message(), "Offer is not pending.");
    assert_eq!(OfferError::OwnerAlreadySet.message(), "Owner already set.");
    assert_eq!(OfferError::OwnerNotConfigured.message(), "Owner not configured.");
}
