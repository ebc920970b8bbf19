use ledger_core::adder::Contract as AdderContract;
use ledger_core::auth::AuthEvidence;
use ledger_core::bulk::Contract as BulkContract;
use ledger_core::constructor::Contract as ConstructorContract;
use ledger_core::errors::Error;
use ledger_core::increment::IncrementContract;
use ledger_core::sac::SACTest;
use ledger_core::store::DurabilityClass;
use ledger_core::store::TieredStore;
use ledger_core::store_contract::Contract as StoreContract;
use ledger_core::token::MemoryToken;
use ledger_core::token::TokenClient;
use ledger_core::token::TransferCall;
use ledger_core::values::Address;
use ledger_core::values::Value;

#[test]
fn test_add() {
    let x = 10u64;
    let y = 12u64;
    let z = AdderContract::add(x, y);
    assert!(z == 22);
}

#[test]
fn test() {
    let token_contract_id = Address { id: 50 };
    let contract_address = Address { id: 60 };
    let mut store = TieredStore::new();
    let mut token = MemoryToken::new(token_contract_id);

    assert_eq!(SACTest::init(&mut store, token_contract_id), Ok(()));
    assert_eq!(SACTest::get_token(&store), Ok(token_contract_id));

    token.mint(contract_address, 1000);

    assert_eq!(
        SACTest::burn_self(&store, &mut token, contract_address, 400),
        Ok(())
    );
    assert_eq!(token.balance(contract_address), 600);

    let user = Address { id: 61 };
    assert_eq!(
        SACTest::transfer(&store, &mut token, contract_address, user, 100),
        Ok(())
    );
    assert_eq!(token.balance(contract_address), 500);
    assert_eq!(token.balance(user), 100);
}

#[test]
fn set_then_get_returns_value_and_classes_are_independent() {
    let mut store = TieredStore::new();
    let value = Value::U32(41);
    store.set(DurabilityClass::Instance, 9, value);
    assert_eq!(store.get(DurabilityClass::Instance, 9), Ok(value));
    assert_eq!(store.get(DurabilityClass::Persistent, 9), Err(Error::NotFound));
    assert_eq!(store.get(DurabilityClass::Temporary, 9), Err(Error::NotFound));
    store.set(DurabilityClass::Temporary, 9, Value::U32(3));
    assert_eq!(store.get(DurabilityClass::Temporary, 9), Ok(Value::U32(3)));
    assert_eq!(store.get(DurabilityClass::Instance, 9), Ok(value));
}

#[test]
fn set_overwrites_in_place() {
    let mut store = TieredStore::new();
    store.set(DurabilityClass::Persistent, 4, Value::U32(1));
    store.set(DurabilityClass::Persistent, 4, Value::I128(-7));
    assert_eq!(store.get(DurabilityClass::Persistent, 4), Ok(Value::I128(-7)));
    assert!(store.has(DurabilityClass::Persistent, 4));
}

#[test]
fn remove_then_get_is_not_found_and_absent_remove_is_a_noop() {
    let mut store = TieredStore::new();
    store.set(DurabilityClass::Persistent, 2, Value::U32(8));
    store.remove(DurabilityClass::Persistent, 2);
    assert_eq!(store.get(DurabilityClass::Persistent, 2), Err(Error::NotFound));
    store.remove(DurabilityClass::Persistent, 2);
    assert_eq!(store.get(DurabilityClass::Persistent, 2), Err(Error::NotFound));
    assert!(!store.has(DurabilityClass::Persistent, 2));
}

#[test]
fn typed_read_of_wrong_shape_is_a_type_mismatch() {
    let mut store = TieredStore::new();
    store.set(DurabilityClass::Persistent, 3, Value::Addr(Address { id: 5 }));
    assert_eq!(
        store.get_u32(DurabilityClass::Persistent, 3),
        Err(Error::TypeMismatch)
    );
    assert_eq!(
        store.get_address(DurabilityClass::Persistent, 3),
        Ok(Address { id: 5 })
    );
    store.set(DurabilityClass::Persistent, 3, Value::U32(6));
    assert_eq!(
        store.get_address(DurabilityClass::Persistent, 3),
        Err(Error::TypeMismatch)
    );
    assert_eq!(store.get_u32(DurabilityClass::Persistent, 3), Ok(6));
}

#[test]
fn store_contract_entry_points_cover_the_persistent_class() {
    let mut store = TieredStore::new();
    StoreContract::set(&mut store, 11, Value::U32(2));
    assert_eq!(StoreContract::get(&store, 11), Ok(Value::U32(2)));
    assert_eq!(store.get(DurabilityClass::Persistent, 11), Ok(Value::U32(2)));
    StoreContract::remove(&mut store, 11);
    assert_eq!(StoreContract::get(&store, 11), Err(Error::NotFound));
}

#[test]
fn initialize_writes_markers_once_and_only_once() {
    let token_id = Address { id: 40 };
    let sender = Address { id: 41 };
    let current = Address { id: 42 };
    let mut store = TieredStore::new();
    let mut token = MemoryToken::new(token_id);
    token.mint(sender, 500);

    assert_eq!(
        ConstructorContract::initialize(&mut store, &mut token, sender, token_id, current, 100),
        Ok(())
    );
    assert_eq!(
        store.get(DurabilityClass::Persistent, ledger_core::constructor::MARKER_KEY),
        Ok(Value::U32(1))
    );
    assert_eq!(
        store.get(DurabilityClass::Instance, ledger_core::constructor::MARKER_KEY),
        Ok(Value::U32(2))
    );
    assert_eq!(
        store.get(DurabilityClass::Temporary, ledger_core::constructor::MARKER_KEY),
        Ok(Value::U32(3))
    );
    assert_eq!(token.balance(sender), 400);
    assert_eq!(token.balance(current), 100);

    assert_eq!(
        ConstructorContract::initialize(&mut store, &mut token, sender, token_id, current, 100),
        Err(Error::AlreadyInitialized)
    );
    assert_eq!(token.balance(sender), 400);
    assert_eq!(token.calls().len(), 1);
}

#[test]
fn failed_funding_pull_leaves_no_marker() {
    let token_id = Address { id: 40 };
    let sender = Address { id: 41 };
    let current = Address { id: 42 };
    let mut store = TieredStore::new();
    let mut token = MemoryToken::new(token_id);

    assert_eq!(
        ConstructorContract::initialize(&mut store, &mut token, sender, token_id, current, 100),
        Err(Error::TransferFailed { index: 0 })
    );
    assert!(!store.has(DurabilityClass::Persistent, ledger_core::constructor::STATE_KEY));
    assert!(!store.has(DurabilityClass::Persistent, ledger_core::constructor::MARKER_KEY));
    assert_eq!(token.calls().len(), 0);
}

#[test]
fn sac_init_is_one_time_and_ops_need_it() {
    let token_id = Address { id: 50 };
    let current = Address { id: 60 };
    let mut store = TieredStore::new();
    let mut token = MemoryToken::new(token_id);

    assert_eq!(SACTest::get_token(&store), Err(Error::Uninitialized));
    assert_eq!(
        SACTest::burn_self(&store, &mut token, current, 10),
        Err(Error::Uninitialized)
    );
    assert_eq!(
        SACTest::transfer(&store, &mut token, current, Address { id: 61 }, 10),
        Err(Error::Uninitialized)
    );
    assert_eq!(token.calls().len(), 0);

    assert_eq!(SACTest::init(&mut store, token_id), Ok(()));
    assert_eq!(
        SACTest::init(&mut store, token_id),
        Err(Error::AlreadyInitialized)
    );
    assert_eq!(SACTest::get_token(&store), Ok(token_id));
}

#[test]
fn rejected_burn_reports_transfer_failed_and_has_no_effect() {
    let token_id = Address { id: 50 };
    let current = Address { id: 60 };
    let mut store = TieredStore::new();
    let mut token = MemoryToken::new(token_id);
    assert_eq!(SACTest::init(&mut store, token_id), Ok(()));
    token.mint(current, 5);

    assert_eq!(
        SACTest::burn_self(&store, &mut token, current, 10),
        Err(Error::TransferFailed { index: 0 })
    );
    assert_eq!(token.balance(current), 5);
    assert_eq!(token.calls().len(), 0);
}

#[test]
fn bulk_shape_mismatch_causes_zero_transfer_calls() {
    let token_id = Address { id: 99 };
    let sender = Address { id: 1 };
    let mut token = MemoryToken::new(token_id);
    token.mint(sender, 1000);
    let mut auth = AuthEvidence::none();
    auth.grant(sender);

    let recipients = vec![Address { id: 2 }, Address { id: 3 }];
    let amounts = vec![10i128];
    let r = BulkContract::bulk_transfer(&auth, &mut token, sender, token_id, &recipients, &amounts);
    assert_eq!(r, Err(Error::ShapeMismatch));
    assert_eq!(token.calls().len(), 0);
    assert_eq!(token.balance(sender), 1000);
}

#[test]
fn bulk_transfer_issues_every_call_in_order() {
    let token_id = Address { id: 99 };
    let sender = Address { id: 1 };
    let a = Address { id: 2 };
    let b = Address { id: 3 };
    let mut token = MemoryToken::new(token_id);
    token.mint(sender, 1000);
    let mut auth = AuthEvidence::none();
    auth.grant(sender);

    let recipients = vec![a, b];
    let amounts = vec![10i128, 20i128];
    let r = BulkContract::bulk_transfer(&auth, &mut token, sender, token_id, &recipients, &amounts);
    assert_eq!(r, Ok(()));
    assert_eq!(token.calls().len(), 2);
    assert_eq!(
        token.calls()[0],
        TransferCall::Transfer { from: sender, to: a, amount: 10 }
    );
    assert_eq!(
        token.calls()[1],
        TransferCall::Transfer { from: sender, to: b, amount: 20 }
    );
    assert_eq!(token.balance(sender), 970);
    assert_eq!(token.balance(a), 10);
    assert_eq!(token.balance(b), 20);
}

#[test]
fn bulk_transfer_stops_at_the_first_failing_index() {
    let token_id = Address { id: 99 };
    let sender = Address { id: 1 };
    let mut token = MemoryToken::new(token_id);
    token.mint(sender, 15);
    let mut auth = AuthEvidence::none();
    auth.grant(sender);

    let recipients = vec![Address { id: 2 }, Address { id: 3 }, Address { id: 4 }];
    let amounts = vec![10i128, 20i128, 1i128];
    let r = BulkContract::bulk_transfer(&auth, &mut token, sender, token_id, &recipients, &amounts);
    assert_eq!(r, Err(Error::TransferFailed { index: 1 }));
    assert_eq!(token.calls().len(), 1);
    assert_eq!(
        token.calls()[0],
        TransferCall::Transfer { from: sender, to: Address { id: 2 }, amount: 10 }
    );
}

#[test]
fn bulk_transfer_without_evidence_is_unauthorized_with_zero_calls() {
    let token_id = Address { id: 99 };
    let sender = Address { id: 1 };
    let other = Address { id: 8 };
    let mut token = MemoryToken::new(token_id);
    token.mint(sender, 1000);
    let mut auth = AuthEvidence::none();
    auth.grant(other);

    let recipients = vec![Address { id: 2 }];
    let amounts = vec![10i128];
    let r = BulkContract::bulk_transfer(&auth, &mut token, sender, token_id, &recipients, &amounts);
    assert_eq!(r, Err(Error::Unauthorized));
    assert_eq!(token.calls().len(), 0);
    assert_eq!(token.balance(sender), 1000);
}

#[test]
fn increment_counts_one_two_three_and_stores_what_it_returns() {
    let mut store = TieredStore::new();
    assert_eq!(IncrementContract::increment(&mut store), Ok(1));
    assert_eq!(
        store.get(DurabilityClass::Persistent, ledger_core::increment::COUNTER_KEY),
        Ok(Value::U32(1))
    );
    assert_eq!(IncrementContract::increment(&mut store), Ok(2));
    assert_eq!(
        store.get(DurabilityClass::Persistent, ledger_core::increment::COUNTER_KEY),
        Ok(Value::U32(2))
    );
    assert_eq!(IncrementContract::increment(&mut store), Ok(3));
    assert_eq!(
        store.get(DurabilityClass::Persistent, ledger_core::increment::COUNTER_KEY),
        Ok(Value::U32(3))
    );
}

#[test]
fn increment_rejects_a_counter_slot_of_the_wrong_shape() {
    let mut store = TieredStore::new();
    store.set(
        DurabilityClass::Persistent,
        ledger_core::increment::COUNTER_KEY,
        Value::Addr(Address { id: 1 }),
    );
    assert_eq!(
        IncrementContract::increment(&mut store),
        Err(Error::TypeMismatch)
    );
    assert_eq!(
        store.get(DurabilityClass::Persistent, ledger_core::increment::COUNTER_KEY),
        Ok(Value::Addr(Address { id: 1 }))
    );
}

#[test]
fn memory_token_rejects_negative_amounts_and_overdrafts() {
    let token_id = Address { id: 99 };
    let a = Address { id: 1 };
    let b = Address { id: 2 };
    let mut token = MemoryToken::new(token_id);
    token.mint(a, 10);

    assert!(!token.apply_transfer(a, b, -1));
    assert!(!token.apply_transfer(a, b, 11));
    assert!(!token.apply_burn(a, -1));
    assert!(!token.apply_burn(a, 11));
    assert_eq!(token.calls().len(), 0);
    assert_eq!(token.balance(a), 10);
    assert_eq!(token.balance(b), 0);

    assert!(token.apply_transfer(a, b, 4));
    assert!(token.apply_burn(a, 6));
    assert_eq!(token.balance(a), 0);
    assert_eq!(token.balance(b), 4);
    assert_eq!(token.calls().len(), 2);
}

#[test]
fn authorization_evidence_is_per_principal() {
    let p = Address { id: 1 };
    let q = Address { id: 2 };
    let mut auth = AuthEvidence::none();
    assert_eq!(auth.require_auth(p), Err(Error::Unauthorized));
    auth.grant(p);
    assert_eq!(auth.require_auth(p), Ok(()));
    assert_eq!(auth.require_auth(q), Err(Error::Unauthorized));
}

#[test]
fn token_client_reports_its_token_address() {
    let token_id = Address { id: 77 };
    let token = MemoryToken::new(token_id);
    assert_eq!(token.address(), token_id);
}
