use custodial_gateway::account::create_account;
use custodial_gateway::chain::get_chain_network;
use custodial_gateway::chain::ChainNetwork;
use custodial_gateway::chain::SubmissionOutcome;
use custodial_gateway::chain::SubmissionResult;
use custodial_gateway::cipher::KeyCipher;
use custodial_gateway::errors::ConfigError;
use custodial_gateway::errors::PaymentError;
use custodial_gateway::errors::RecorderError;
use custodial_gateway::keys::SigningKeypair;
use custodial_gateway::models::Account;
use custodial_gateway::models::TxStatus;
use custodial_gateway::payment::complete_payment;
use custodial_gateway::payment::complete_trustline;
use custodial_gateway::payment::establish_trustline_for_non_native_asset;
use custodial_gateway::payment::send_native_payment;
use custodial_gateway::payment::send_non_native_payment;
use custodial_gateway::payment::Asset;
use custodial_gateway::payment::PreparedPayment;
use custodial_gateway::chain::HrefTemplated;
use custodial_gateway::chain::HrefWrapper;
use custodial_gateway::chain::Links;
use custodial_gateway::chain::Preconditions;
use custodial_gateway::chain::TimeBounds;
use custodial_gateway::chain::TransactionResponse;
use custodial_gateway::recorder::save_chain_transaction;
use custodial_gateway::store::RecordStore;

fn make_cipher() -> KeyCipher {
    let key: Vec<u8> = (0u8..32u8).collect();
    let iv: Vec<u8> = (100u8..116u8).collect();
    KeyCipher::new(key, iv).unwrap()
}

fn id_text(account: &Account) -> String {
    uuid::Uuid::from_u128(account.id).to_string()
}

fn result_with_hash(hash: &str) -> SubmissionResult {
    SubmissionResult {
        hash: hash.to_string(),
        successful: true,
        created_at: "2024-06-15T12:30:00Z".to_string(),
        memo: Some("invoice 12".to_string()),
    }
}

#[test]
fn rejected_payment_writes_no_transaction_row() {
    let cipher = make_cipher();
    let mut store = RecordStore::new();
    let sender = create_account(&mut store, &cipher, "active", "user").unwrap();
    let receiver = create_account(&mut store, &cipher, "active", "user").unwrap();
    let prepared = send_native_payment(
        &store,
        &cipher,
        &id_text(&sender),
        &receiver.stellar_address,
        500,
    )
    .unwrap();
    let outcome = SubmissionOutcome::Rejected("op_underfunded".to_string());
    let r = complete_payment(&mut store, &prepared, &outcome, 1);
    assert_eq!(r, Err(PaymentError::ChainSubmission("op_underfunded".to_string())));
    assert_eq!(store.transactions.len(), 0);
}

#[test]
fn ambiguous_payment_outcome_is_surfaced_distinctly() {
    let cipher = make_cipher();
    let mut store = RecordStore::new();
    let sender = create_account(&mut store, &cipher, "active", "user").unwrap();
    let prepared = send_native_payment(
        &store,
        &cipher,
        &id_text(&sender),
        "GDJLBYYKMCXNVVNKFKNV6GKZW6PQTG2VHJNX7YX77MHXPKGKBEVW7PW2",
        500,
    )
    .unwrap();
    let r = complete_payment(&mut store, &prepared, &SubmissionOutcome::Unknown, 2);
    assert_eq!(r, Err(PaymentError::AmbiguousSubmission));
    assert_eq!(store.transactions.len(), 0);
}

#[test]
fn recorder_failure_surfaces_lag_with_result_kept() {
    // A confirmed submission whose local record fails: neither side of this
    // hand-built prepared payment is a known local account, so the recorder
    // refuses, and the on-chain result must come back inside the error.
    let mut store = RecordStore::new();
    let prepared = PreparedPayment {
        sender_address: "GAAAAAAAAAAAAAAAAAAAAAAAAAAAAAAAAAAAAAAAAAAAAAAAAAAAWEAA".to_string(),
        keypair: SigningKeypair { secret: vec![0u8; 4], public: "G".to_string() },
        receiver_address: "GBBBBBBBBBBBBBBBBBBBBBBBBBBBBBBBBBBBBBBBBBBBBBBBBBBBWEBB".to_string(),
        asset: Asset::Native,
        amount: 9,
    };
    let result = result_with_hash("ab52c37071358e54a167a6c22ed82cbdcd2fa9a3b6c25a4159e4803a21452b65");
    let outcome = SubmissionOutcome::Confirmed(result.clone());
    let r = complete_payment(&mut store, &prepared, &outcome, 3);
    assert_eq!(r, Err(PaymentError::RecordingLag(result)));
    assert_eq!(store.transactions.len(), 0);
}

#[test]
fn non_native_payment_records_one_success_row() {
    let cipher = make_cipher();
    let mut store = RecordStore::new();
    let sender = create_account(&mut store, &cipher, "active", "user").unwrap();
    let receiver = create_account(&mut store, &cipher, "active", "user").unwrap();
    let issuer = create_account(&mut store, &cipher, "active", "issuer").unwrap();
    let prepared = send_non_native_payment(
        &store,
        &cipher,
        &id_text(&sender),
        &receiver.stellar_address,
        "USD",
        &issuer.stellar_address,
        100,
    )
    .unwrap();
    let result = result_with_hash("6f2914921c03c5e75fa41d38a9e81e9a8043d040fcbd7c966f8c922f4ea05d45");
    let outcome = SubmissionOutcome::Confirmed(result.clone());
    let r = complete_payment(&mut store, &prepared, &outcome, 4);
    assert_eq!(r, Ok(result));
    assert_eq!(store.transactions.len(), 1);
    let row = &store.transactions[0];
    assert_eq!(row.status, TxStatus::Success);
    assert_eq!(row.amount, 100);
    assert_eq!(row.asset_code, "USD");
    assert_eq!(row.source_account_id, Some(sender.id));
    assert_eq!(row.destination_account_id, Some(receiver.id));
    assert_eq!(row.memo, Some("invoice 12".to_string()));
}

#[test]
fn unapplied_payment_is_recorded_and_surfaced_as_rejection() {
    // A structured response whose success flag is off: the failed submission
    // goes on record, but the caller gets a chain-submission error, never a
    // success.
    let cipher = make_cipher();
    let mut store = RecordStore::new();
    let sender = create_account(&mut store, &cipher, "active", "user").unwrap();
    let receiver = create_account(&mut store, &cipher, "active", "user").unwrap();
    let prepared = send_native_payment(
        &store,
        &cipher,
        &id_text(&sender),
        &receiver.stellar_address,
        250,
    )
    .unwrap();
    let hash = "3fd1a9bb2a7e66d2b41e8f0f24dd0a44c82a43bd56e3c62d9c18f45e3a4b6c70";
    let result = SubmissionResult {
        hash: hash.to_string(),
        successful: false,
        created_at: "2024-06-15T12:30:00Z".to_string(),
        memo: None,
    };
    let outcome = SubmissionOutcome::Confirmed(result);
    let r = complete_payment(&mut store, &prepared, &outcome, 5);
    assert_eq!(r, Err(PaymentError::ChainSubmission(hash.to_string())));
    assert_eq!(store.transactions.len(), 1);
    assert_eq!(store.transactions[0].status, TxStatus::Failed);
    assert_eq!(store.transactions[0].transaction_hash, hash);
}

#[test]
fn asset_code_length_is_measured_in_bytes() {
    let cipher = make_cipher();
    let mut store = RecordStore::new();
    let sender = create_account(&mut store, &cipher, "active", "user").unwrap();
    let receiver = create_account(&mut store, &cipher, "active", "user").unwrap();
    let issuer = create_account(&mut store, &cipher, "active", "issuer").unwrap();
    // Six two-byte characters: twelve bytes, accepted.
    let twelve_bytes = "\u{00e9}".repeat(6);
    let ok = send_non_native_payment(
        &store,
        &cipher,
        &id_text(&sender),
        &receiver.stellar_address,
        &twelve_bytes,
        &issuer.stellar_address,
        1,
    );
    assert!(ok.is_ok());
    // Seven two-byte characters: fourteen bytes, rejected although only
    // seven characters long.
    let fourteen_bytes = "\u{00e9}".repeat(7);
    let too_long = send_non_native_payment(
        &store,
        &cipher,
        &id_text(&sender),
        &receiver.stellar_address,
        &fourteen_bytes,
        &issuer.stellar_address,
        1,
    );
    assert_eq!(too_long.err(), Some(PaymentError::InvalidAsset));
}

#[test]
fn recording_twice_with_same_hash_stores_one_row() {
    let cipher = make_cipher();
    let mut store = RecordStore::new();
    let sender = create_account(&mut store, &cipher, "active", "user").unwrap();
    let result = result_with_hash("1b6d7b1c1c24f56ff4e90ec4f64be9e1f866f94c9b72d5e5194021caa97e5a30");
    let addr = sender.stellar_address.clone();
    save_chain_transaction(&mut store, &result, &addr, "GEXTERNAL", "XLM", 5, 10).unwrap();
    save_chain_transaction(&mut store, &result, &addr, "GEXTERNAL", "XLM", 5, 11).unwrap();
    assert_eq!(store.transactions.len(), 1);
    assert_eq!(
        store.transactions[0].transaction_hash,
        "1b6d7b1c1c24f56ff4e90ec4f64be9e1f866f94c9b72d5e5194021caa97e5a30"
    );
}

#[test]
fn recording_with_no_local_side_is_refused() {
    let mut store = RecordStore::new();
    let result = result_with_hash("47c0e3bdbd90c3b5b4ee20b0d0dd41cd24f30ddcec4f3cc2d4a7c547aafbbe35");
    let r = save_chain_transaction(&mut store, &result, "GNOBODY", "GNOONE", "XLM", 5, 12);
    assert_eq!(r, Err(RecorderError::UnknownCounterparty));
    assert_eq!(store.transactions.len(), 0);
}

#[test]
fn unparseable_network_timestamp_is_recorded_as_absent() {
    let cipher = make_cipher();
    let mut store = RecordStore::new();
    let sender = create_account(&mut store, &cipher, "active", "user").unwrap();
    let result = SubmissionResult {
        hash: "e9aa3edbca83c6b2f3ba1ba04a0b78554ab3b0e44aab922f75e00a81a8823cb0".to_string(),
        successful: false,
        created_at: "yesterday at noon".to_string(),
        memo: None,
    };
    let addr = sender.stellar_address.clone();
    save_chain_transaction(&mut store, &result, &addr, "GEXTERNAL", "XLM", 1, 13).unwrap();
    assert_eq!(store.transactions[0].created_at, None);
    assert_eq!(store.transactions[0].status, TxStatus::Failed);
}

#[test]
fn invalid_assets_are_rejected() {
    let cipher = make_cipher();
    let mut store = RecordStore::new();
    let sender = create_account(&mut store, &cipher, "active", "user").unwrap();
    // A malformed issuer address.
    let r = send_non_native_payment(&store, &cipher, &id_text(&sender), "GWHOEVER", "USD", "FOO", 1);
    assert_eq!(r.err(), Some(PaymentError::InvalidAsset));
    // An asset code that is too long.
    let issuer = create_account(&mut store, &cipher, "active", "issuer").unwrap();
    let r2 = send_non_native_payment(
        &store,
        &cipher,
        &id_text(&sender),
        "GWHOEVER",
        "THIRTEENCHARS",
        &issuer.stellar_address,
        1,
    );
    assert_eq!(r2.err(), Some(PaymentError::InvalidAsset));
    // An empty asset code.
    let r3 = send_non_native_payment(
        &store,
        &cipher,
        &id_text(&sender),
        "GWHOEVER",
        "",
        &issuer.stellar_address,
        1,
    );
    assert_eq!(r3.err(), Some(PaymentError::InvalidAsset));
}

#[test]
fn sender_with_malformed_stored_secret_fails_payment_resolution() {
    let cipher = make_cipher();
    let mut store = RecordStore::new();
    let account = custodial_gateway::models::Account {
        id: 11,
        stellar_address: "GDJLBYYKMCXNVVNKFKNV6GKZW6PQTG2VHJNX7YX77MHXPKGKBEVW7PW2".to_string(),
        account_type: "user".to_string(),
        created_at: None,
        updated_at: None,
        status: custodial_gateway::models::AccountStatus::Active,
    };
    let key = custodial_gateway::models::EncryptedKey {
        id: 12,
        account_id: 11,
        encrypted_key: cipher.encrypt(b"not a secret seed"),
        created_at: None,
    };
    assert!(store.insert_account_with_key(account, key));
    let sender_id = uuid::Uuid::from_u128(11).to_string();
    let r = send_native_payment(&store, &cipher, &sender_id, "GWHOEVER", 10);
    assert_eq!(r.err(), Some(PaymentError::KeyFormat));
}

#[test]
fn unknown_sender_fails_payment_resolution() {
    let cipher = make_cipher();
    let store = RecordStore::new();
    let r = send_native_payment(
        &store,
        &cipher,
        "550e8400-e29b-41d4-a716-446655440000",
        "GDJLBYYKMCXNVVNKFKNV6GKZW6PQTG2VHJNX7YX77MHXPKGKBEVW7PW2",
        10,
    );
    assert_eq!(r.err(), Some(PaymentError::AccountNotFound));
}

#[test]
fn trustline_establishment_stores_the_trustline_row() {
    let cipher = make_cipher();
    let mut store = RecordStore::new();
    let holder = create_account(&mut store, &cipher, "active", "user").unwrap();
    let issuer = create_account(&mut store, &cipher, "active", "issuer").unwrap();
    let prepared = establish_trustline_for_non_native_asset(
        &store,
        &cipher,
        &id_text(&holder),
        "USD",
        &issuer.stellar_address,
    )
    .unwrap();
    let result = result_with_hash("0e04bc0b305e74fab1b43d32a5b43dbb223ad85e5e9fcde9a6b1c71ed12e6e30");
    let outcome = SubmissionOutcome::Confirmed(result.clone());
    let r = complete_trustline(&mut store, &prepared, &outcome, 21, 99);
    assert_eq!(r, Ok(result));
    assert_eq!(store.trustlines.len(), 1);
    assert_eq!(store.trustlines[0].account_id, holder.id);
    assert_eq!(store.trustlines[0].asset_code, "USD");
    assert_eq!(store.trustlines[0].asset_issuer, issuer.stellar_address);
    // Trustlines have no counterparty recording step: no transaction row.
    assert_eq!(store.transactions.len(), 0);
}

#[test]
fn duplicate_trustline_is_not_stored_twice() {
    let cipher = make_cipher();
    let mut store = RecordStore::new();
    let holder = create_account(&mut store, &cipher, "active", "user").unwrap();
    let issuer = create_account(&mut store, &cipher, "active", "issuer").unwrap();
    let prepared = establish_trustline_for_non_native_asset(
        &store,
        &cipher,
        &id_text(&holder),
        "EUR",
        &issuer.stellar_address,
    )
    .unwrap();
    let first = result_with_hash("91c27b2a9f5ae3b19064d72b6b4c89e45e54fc36a4f2340adf0c6c78bdeacb4e");
    complete_trustline(&mut store, &prepared, &SubmissionOutcome::Confirmed(first), 31, 99)
        .unwrap();
    let second = result_with_hash("d4c3a2b1908776655443322110ffeeddccbbaa998877665544332211009988aa");
    complete_trustline(&mut store, &prepared, &SubmissionOutcome::Confirmed(second), 33, 99)
        .unwrap();
    assert_eq!(store.trustlines.len(), 1);
    assert_eq!(store.transactions.len(), 0);
}

#[test]
fn unapplied_trustline_stores_no_trustline_row() {
    let cipher = make_cipher();
    let mut store = RecordStore::new();
    let holder = create_account(&mut store, &cipher, "active", "user").unwrap();
    let issuer = create_account(&mut store, &cipher, "active", "issuer").unwrap();
    let prepared = establish_trustline_for_non_native_asset(
        &store,
        &cipher,
        &id_text(&holder),
        "EUR",
        &issuer.stellar_address,
    )
    .unwrap();
    let result = SubmissionResult {
        hash: "77e5c45c5a412348ccf68cb8115cdbf5d6c2dcf0e25d7dbd5e52b82c00ce7a42".to_string(),
        successful: false,
        created_at: "2024-06-15T12:30:00Z".to_string(),
        memo: None,
    };
    let r = complete_trustline(
        &mut store,
        &prepared,
        &SubmissionOutcome::Confirmed(result.clone()),
        43,
        99,
    );
    assert_eq!(r, Err(PaymentError::ChainSubmission(result.hash)));
    assert_eq!(store.trustlines.len(), 0);
    assert_eq!(store.transactions.len(), 0);
}

#[test]
fn rejected_trustline_writes_nothing() {
    let cipher = make_cipher();
    let mut store = RecordStore::new();
    let holder = create_account(&mut store, &cipher, "active", "user").unwrap();
    let issuer = create_account(&mut store, &cipher, "active", "issuer").unwrap();
    let prepared = establish_trustline_for_non_native_asset(
        &store,
        &cipher,
        &id_text(&holder),
        "EUR",
        &issuer.stellar_address,
    )
    .unwrap();
    let outcome = SubmissionOutcome::Rejected("op_low_reserve".to_string());
    let r = complete_trustline(&mut store, &prepared, &outcome, 41, 99);
    assert_eq!(r, Err(PaymentError::ChainSubmission("op_low_reserve".to_string())));
    assert_eq!(store.trustlines.len(), 0);
    assert_eq!(store.transactions.len(), 0);
}

#[test]
fn transaction_error_rows_attach_only_to_failed_transactions() {
    let cipher = make_cipher();
    let mut store = RecordStore::new();
    let sender = create_account(&mut store, &cipher, "active", "user").unwrap();
    let addr = sender.stellar_address.clone();
    let failed = SubmissionResult {
        hash: "b67a2a2c4d20b167f9ebcce73e3b7f87176224f61d1c2c2b4fc4d94f4b81f2aa".to_string(),
        successful: false,
        created_at: "2024-06-15T12:30:00Z".to_string(),
        memo: None,
    };
    save_chain_transaction(&mut store, &failed, &addr, "GEXTERNAL", "XLM", 5, 50).unwrap();
    let diag = custodial_gateway::models::TransactionError {
        id: 60,
        transaction_id: 50,
        error_code: "tx_failed".to_string(),
        error_message: "op_no_destination".to_string(),
        occurred_at: 1_718_454_600_000_000,
    };
    assert!(store.insert_transaction_error(diag));
    assert_eq!(store.transaction_errors.len(), 1);
    // A diagnostic for a transaction that is not stored, or not failed, is
    // refused.
    let stray = custodial_gateway::models::TransactionError {
        id: 61,
        transaction_id: 999,
        error_code: "tx_failed".to_string(),
        error_message: "nothing".to_string(),
        occurred_at: 0,
    };
    assert!(!store.insert_transaction_error(stray));
    assert_eq!(store.transaction_errors.len(), 1);
}

#[test]
fn chain_network_selection() {
    assert_eq!(get_chain_network("testnet"), Ok(ChainNetwork::Test));
    assert_eq!(get_chain_network("public"), Ok(ChainNetwork::Public));
    assert_eq!(get_chain_network("mainnet"), Err(ConfigError::InvalidChainEnvironment));
}

#[test]
fn submission_result_from_response_keeps_the_essentials() {
    let link = |s: &str| HrefWrapper { href: s.to_string() };
    let tlink = |s: &str| HrefTemplated { href: s.to_string(), templated: true };
    let response = TransactionResponse {
        _links: Links {
            self_link: link("https://horizon/tx/abc"),
            account: link("https://horizon/accounts/G"),
            ledger: link("https://horizon/ledgers/1"),
            operations: tlink("https://horizon/tx/abc/operations"),
            effects: tlink("https://horizon/tx/abc/effects"),
            precedes: link("https://horizon/tx?cursor=1"),
            succeeds: link("https://horizon/tx?cursor=2"),
            transaction: link("https://horizon/tx/abc"),
        },
        id: "abc".to_string(),
        paging_token: "120103542145025".to_string(),
        successful: true,
        hash: "abc".to_string(),
        ledger: 27963,
        created_at: "2024-06-15T12:30:00Z".to_string(),
        source_account: "GDJLBYYKMCXNVVNKFKNV6GKZW6PQTG2VHJNX7YX77MHXPKGKBEVW7PW2".to_string(),
        source_account_sequence: "120103542145025".to_string(),
        fee_account: "GDJLBYYKMCXNVVNKFKNV6GKZW6PQTG2VHJNX7YX77MHXPKGKBEVW7PW2".to_string(),
        fee_charged: "100".to_string(),
        max_fee: "100".to_string(),
        operation_count: 1,
        envelope_xdr: "AAAA".to_string(),
        result_xdr: "AAAA".to_string(),
        fee_meta_xdr: "AAAA".to_string(),
        memo_type: "none".to_string(),
        signatures: vec!["sig".to_string()],
        preconditions: Preconditions { timebounds: TimeBounds { min_time: "0".to_string() } },
    };
    let result = custodial_gateway::chain::submission_result_from(&response);
    assert_eq!(result.hash, "abc");
    assert!(result.successful);
    assert_eq!(result.created_at, "2024-06-15T12:30:00Z");
    assert_eq!(result.memo, None);
}
