use custodial_gateway::account::activate_account;
use custodial_gateway::account::complete_activation;
use custodial_gateway::account::create_account;
use custodial_gateway::account::get_account;
use custodial_gateway::account::get_account_by_stellar_address;
use custodial_gateway::account::get_many_accounts;
use custodial_gateway::account::soft_delete_account;
use custodial_gateway::account::update_account;
use custodial_gateway::chain::SubmissionOutcome;
use custodial_gateway::chain::SubmissionResult;
use custodial_gateway::cipher::KeyCipher;
use custodial_gateway::errors::LifecycleError;
use custodial_gateway::models::Account;
use custodial_gateway::models::AccountStatus;
use custodial_gateway::models::EncryptedKey;
use custodial_gateway::models::TxStatus;
use custodial_gateway::store::RecordStore;

fn make_cipher() -> KeyCipher {
    let key: Vec<u8> = (0u8..32u8).collect();
    let iv: Vec<u8> = (100u8..116u8).collect();
    KeyCipher::new(key, iv).unwrap()
}

fn id_text(account: &Account) -> String {
    uuid::Uuid::from_u128(account.id).to_string()
}

fn confirmed(hash: &str) -> SubmissionOutcome {
    SubmissionOutcome::Confirmed(SubmissionResult {
        hash: hash.to_string(),
        successful: true,
        created_at: "2024-01-01T00:00:00Z".to_string(),
        memo: None,
    })
}

#[test]
fn test_get_account() {
    let mut store = RecordStore::new();
    let account_id = "550e8400-e29b-41d4-a716-446655440000";
    let id = uuid::Uuid::parse_str(account_id).unwrap().as_u128();
    let account = Account {
        id,
        stellar_address: "GDJLBYYKMCXNVVNKFKNV6GKZW6PQTG2VHJNX7YX77MHXPKGKBEVW7PW2".to_string(),
        account_type: "user".to_string(),
        created_at: None,
        updated_at: None,
        status: AccountStatus::Pending,
    };
    let key = EncryptedKey { id: 1, account_id: id, encrypted_key: vec![0u8; 8], created_at: None };
    assert!(store.insert_account_with_key(account, key));
    let result = get_account(&store, account_id);
    assert!(result.is_ok());
}

#[test]
fn test_get_account_by_stellar_address() {
    let cipher = make_cipher();
    let mut store = RecordStore::new();
    let stellar_address = "GDJLBYYKMCXNVVNKFKNV6GKZW6PQTG2VHJNX7YX77MHXPKGKBEVW7PW2";
    let account = Account {
        id: 42,
        stellar_address: stellar_address.to_string(),
        account_type: "user".to_string(),
        created_at: None,
        updated_at: None,
        status: AccountStatus::Pending,
    };
    let key = EncryptedKey {
        id: 43,
        account_id: 42,
        encrypted_key: cipher.encrypt(b"ignored"),
        created_at: None,
    };
    assert!(store.insert_account_with_key(account, key));
    let result = get_account_by_stellar_address(&store, stellar_address);
    assert!(result.is_ok());
    assert_eq!(result.unwrap().stellar_address, stellar_address);
}

#[test]
fn test_create_account() {
    let cipher = make_cipher();
    let mut store = RecordStore::new();
    let status = "pending";
    let account_type = "user";
    let result = create_account(&mut store, &cipher, status, account_type);
    assert!(result.is_ok());

    if let Ok(account) = result {
        assert_eq!(account.status, AccountStatus::Pending);
        assert_eq!(account.account_type, "user");
        assert!(!account.stellar_address.is_empty());
    }
}

#[test]
fn create_account_stores_exactly_one_key_row() {
    let cipher = make_cipher();
    let mut store = RecordStore::new();
    let account = create_account(&mut store, &cipher, "pending", "user").unwrap();
    assert_eq!(account.status, AccountStatus::Pending);
    assert!(!account.stellar_address.is_empty());
    assert_eq!(store.accounts.len(), 1);
    assert_eq!(store.keys.len(), 1);
    assert_eq!(store.keys[0].account_id, account.id);
    // The single stored key decrypts back to the seed of the account's
    // address.
    let (_, keypair) =
        custodial_gateway::vault::get_account_from_id(&store, &cipher, &id_text(&account)).unwrap();
    assert_eq!(keypair.public, account.stellar_address);
}

#[test]
fn test_activate_account() {
    let cipher = make_cipher();
    let mut store = RecordStore::new();
    let account = create_account(&mut store, &cipher, "pending", "user").unwrap();
    let prepared = activate_account(&store, &cipher, &id_text(&account)).unwrap();
    assert_eq!(prepared.prior_status, AccountStatus::Pending);
    let outcome = confirmed("f94674f8066c4966fe1da2e9cb0c0ac45ec3eed3f57edbac8558ed1a1f87a1d3");
    let result = complete_activation(&mut store, &prepared, &outcome, "GFUNDER", 10_000_000, 77, 5);
    assert!(result.is_ok());
    let after = get_account(&store, &id_text(&account)).unwrap();
    assert_eq!(after.status, AccountStatus::Active);
    assert_eq!(store.transactions.len(), 1);
    assert_eq!(store.transactions[0].status, TxStatus::Success);
    assert_eq!(store.transactions[0].asset_code, "XLM");
    assert_eq!(store.transactions[0].destination_account_id, Some(account.id));
    // The funding account is no local account: the external marker.
    assert_eq!(store.transactions[0].source_account_id, None);
    // The network-reported creation time, parsed to microseconds.
    assert_eq!(store.transactions[0].created_at, Some(1_704_067_200_000_000));
}

#[test]
fn activating_active_account_fails_without_funding() {
    let cipher = make_cipher();
    let mut store = RecordStore::new();
    let account = create_account(&mut store, &cipher, "active", "user").unwrap();
    // The guard fires before any keypair is resolved, so no funding
    // submission can even be prepared, and the store is untouched.
    let r = activate_account(&store, &cipher, &id_text(&account));
    assert!(matches!(r, Err(LifecycleError::AlreadyActive)));
    assert_eq!(store.transactions.len(), 0);
}

#[test]
fn failed_funding_leaves_account_pending() {
    let cipher = make_cipher();
    let mut store = RecordStore::new();
    let account = create_account(&mut store, &cipher, "pending", "user").unwrap();
    let prepared = activate_account(&store, &cipher, &id_text(&account)).unwrap();
    let outcome = SubmissionOutcome::Rejected("tx_insufficient_balance".to_string());
    let r = complete_activation(&mut store, &prepared, &outcome, "GFUNDER", 10_000_000, 78, 5);
    assert!(matches!(r, Err(LifecycleError::ChainSubmission(_))));
    let after = get_account(&store, &id_text(&account)).unwrap();
    assert_eq!(after.status, AccountStatus::Pending);
    assert_eq!(store.transactions.len(), 0);
}

#[test]
fn unapplied_funding_is_recorded_but_activates_nothing() {
    let cipher = make_cipher();
    let mut store = RecordStore::new();
    let account = create_account(&mut store, &cipher, "pending", "user").unwrap();
    let prepared = activate_account(&store, &cipher, &id_text(&account)).unwrap();
    let hash = "9ad9e9dbd9e6e2b2e3e25b12ab07b8a4aee5ee2e9271f9b2b09e08e54b8cfa11";
    let outcome = SubmissionOutcome::Confirmed(SubmissionResult {
        hash: hash.to_string(),
        successful: false,
        created_at: "2024-01-01T00:00:00Z".to_string(),
        memo: None,
    });
    let r = complete_activation(&mut store, &prepared, &outcome, "GFUNDER", 10_000_000, 79, 5);
    assert_eq!(r, Err(LifecycleError::ChainSubmission(hash.to_string())));
    let after = get_account(&store, &id_text(&account)).unwrap();
    assert_eq!(after.status, AccountStatus::Pending);
    // The failed funding attempt is on record, status derived from the flag.
    assert_eq!(store.transactions.len(), 1);
    assert_eq!(store.transactions[0].status, TxStatus::Failed);
}

#[test]
fn ambiguous_funding_outcome_is_surfaced_distinctly() {
    let cipher = make_cipher();
    let mut store = RecordStore::new();
    let account = create_account(&mut store, &cipher, "pending", "user").unwrap();
    let prepared = activate_account(&store, &cipher, &id_text(&account)).unwrap();
    let r = complete_activation(
        &mut store,
        &prepared,
        &SubmissionOutcome::Unknown,
        "GFUNDER",
        10_000_000,
        80,
        5,
    );
    assert_eq!(r, Err(LifecycleError::AmbiguousSubmission));
    assert_eq!(get_account(&store, &id_text(&account)).unwrap().status, AccountStatus::Pending);
    assert_eq!(store.transactions.len(), 0);
}

#[test]
fn activation_flip_lost_to_a_concurrent_transition_is_surfaced() {
    // Another request transitions the account between the guarded phase and
    // the settlement: the funding is recorded, but the compare-and-swap on
    // the observed prior status touches nothing, and the divergence is
    // surfaced with the on-chain result kept.
    let cipher = make_cipher();
    let mut store = RecordStore::new();
    let account = create_account(&mut store, &cipher, "pending", "user").unwrap();
    let prepared = activate_account(&store, &cipher, &id_text(&account)).unwrap();
    update_account(&mut store, &id_text(&account), "active").unwrap();
    let result = SubmissionResult {
        hash: "5b7f6a2e8896e2b41f0a3de0fa12c02e706c99d0de9ab17e6c4e3c5b4f8ce210".to_string(),
        successful: true,
        created_at: "2024-01-01T00:00:00Z".to_string(),
        memo: None,
    };
    let outcome = SubmissionOutcome::Confirmed(result.clone());
    let r = complete_activation(&mut store, &prepared, &outcome, "GFUNDER", 10_000_000, 81, 5);
    assert_eq!(r, Err(LifecycleError::RecordingLag(result)));
    assert_eq!(store.transactions.len(), 1);
}

#[test]
fn test_update_account() {
    let cipher = make_cipher();
    let mut store = RecordStore::new();
    let account = create_account(&mut store, &cipher, "active", "user").unwrap();
    let new_status = "inactive";
    let result = update_account(&mut store, &id_text(&account), new_status);
    assert!(result.is_ok());
    let after = get_account(&store, &id_text(&account)).unwrap();
    assert_eq!(after.status, AccountStatus::Inactive);
}

#[test]
fn update_account_rejects_forbidden_transitions() {
    let cipher = make_cipher();
    let mut store = RecordStore::new();
    let account = create_account(&mut store, &cipher, "pending", "user").unwrap();
    let r = update_account(&mut store, &id_text(&account), "inactive");
    assert!(matches!(r, Err(LifecycleError::InvalidTransition)));
    let closed = soft_delete_account(&mut store, &id_text(&account));
    assert!(closed.is_ok());
    let r2 = update_account(&mut store, &id_text(&account), "active");
    assert!(matches!(r2, Err(LifecycleError::InvalidTransition)));
}

#[test]
fn test_soft_delete_account() {
    let cipher = make_cipher();
    let mut store = RecordStore::new();
    let account = create_account(&mut store, &cipher, "pending", "user").unwrap();
    let result = soft_delete_account(&mut store, &id_text(&account));
    assert!(result.is_ok());
    let after = get_account(&store, &id_text(&account)).unwrap();
    assert_eq!(after.status, AccountStatus::Closed);
    // Deleting again still succeeds and changes nothing.
    assert!(soft_delete_account(&mut store, &id_text(&account)).is_ok());
    assert_eq!(get_account(&store, &id_text(&account)).unwrap().status, AccountStatus::Closed);
}

#[test]
fn test_get_many_accounts() {
    let cipher = make_cipher();
    let mut store = RecordStore::new();
    create_account(&mut store, &cipher, "pending", "user").unwrap();
    let page = 1;
    let result = get_many_accounts(&store, page);
    assert!(result.is_ok());

    if let Ok(pagination) = result {
        assert!(pagination.total_records >= 0);
        assert!(pagination.page == 1);
    }
}

#[test]
fn pagination_splits_ten_per_page() {
    let cipher = make_cipher();
    let mut store = RecordStore::new();
    for _ in 0..25 {
        create_account(&mut store, &cipher, "pending", "user").unwrap();
    }
    let first = get_many_accounts(&store, 1).unwrap();
    assert_eq!(first.data.len(), 10);
    assert_eq!(first.total_records, 25);
    assert_eq!(first.total_pages, 3);
    assert_eq!(first.per_page, 10);
    let third = get_many_accounts(&store, 3).unwrap();
    assert_eq!(third.data.len(), 5);
    let beyond = get_many_accounts(&store, 4).unwrap();
    assert_eq!(beyond.data.len(), 0);
}

#[test]
fn lookup_of_missing_accounts_fails() {
    let store = RecordStore::new();
    assert!(matches!(
        get_account(&store, "550e8400-e29b-41d4-a716-446655440000"),
        Err(LifecycleError::AccountNotFound)
    ));
    assert!(matches!(get_account(&store, "garbage"), Err(LifecycleError::AccountNotFound)));
    assert!(matches!(
        get_account_by_stellar_address(&store, "GDJLBYYKMCXNVVNKFKNV6GKZW6PQTG2VHJNX7YX77MHXPKGKBEVW7PW2"),
        Err(LifecycleError::AccountNotFound)
    ));
}
