//! Payment and trustline orchestration.
//!
//! A payment runs through resolving, submitting and recording. Resolving and
//! validation happen here ([`send_native_payment`], [`send_non_native_payment`],
//! [`establish_trustline_for_non_native_asset`]) and yield a prepared
//! submission; the caller performs the network call and hands the outcome to
//! [`complete_payment`] or [`complete_trustline`], which settle it. A
//! rejected or unapplied submission never yields success; an unknown outcome
//! is surfaced distinctly, never treated as failure; a confirmed payment
//! whose local record fails is surfaced as `RecordingLag`, with the on-chain
//! result kept. Payments are recorded as transaction rows; trustlines store
//! only the trustline row itself.

use vstd::prelude::*;

use vstd::utf8::encode_utf8;

use crate::chain::SubmissionOutcome;
use crate::chain::SubmissionResult;
use crate::cipher::KeyCipher;
use crate::errors::PaymentError;
use crate::keys::account_id_decodes;
use crate::keys::is_valid_account_id;
use crate::keys::seed_for_address;
use crate::keys::SigningKeypair;
use crate::models::Trustline;
use crate::recorder::save_chain_transaction;
use crate::recorder::tx_matches;
use crate::store::record_spec;
use crate::store::RecordStore;
use crate::vault::get_account_from_id;
use crate::vault::vault_account;
use crate::vault::vault_found;
use crate::vault::vault_plaintext;
use crate::vault::vault_resolves;

verus! {

/// An asset to be moved or trusted: the network's native asset, or a credit
/// asset named by its code and issuing account.
pub enum Asset {
    Native,
    Credit { code: String, issuer: String },
}

/// A credit asset's code has one to twelve bytes — the ledger crates measure
/// the code in bytes, not characters — and its issuer is a well-formed
/// network address.
pub open spec fn asset_wf(a: Asset) -> bool {
    a matches Asset::Credit { code, issuer } ==> 1 <= encode_utf8(code@).len() <= 12
        && account_id_decodes(issuer@)
}

/// The asset code under which a movement of this asset is recorded: the
/// native asset is recorded as XLM.
pub open spec fn asset_code_text(a: Asset) -> Seq<char> {
    match a {
        Asset::Native => "XLM"@,
        Asset::Credit { code, issuer } => code@,
    }
}

/// The issuer address of a credit asset; the native asset has none.
pub open spec fn asset_issuer_text(a: Asset) -> Seq<char> {
    match a {
        Asset::Native => Seq::empty(),
        Asset::Credit { code, issuer } => issuer@,
    }
}

impl Asset {
    /// Builds a credit asset, validating the code length — one to twelve
    /// bytes — and the issuer address.
    pub fn new_credit(code: &str, issuer: &str) -> (r: Result<Asset, PaymentError>)
        ensures
            r is Ok <==> (1 <= encode_utf8(code@).len() <= 12 && account_id_decodes(issuer@)),
            r is Err ==> r == Err::<Asset, PaymentError>(PaymentError::InvalidAsset),
            r matches Ok(a) ==> asset_wf(a) && a is Credit && asset_code_text(a) == code@
                && asset_issuer_text(a) == issuer@,
    {
        let code_bytes = code.as_bytes().len();
        if 1 <= code_bytes && code_bytes <= 12 && is_valid_account_id(issuer) {
            Ok(Asset::Credit { code: code.to_owned(), issuer: issuer.to_owned() })
        } else {
            Err(PaymentError::InvalidAsset)
        }
    }

    /// The asset code under which this asset is recorded.
    pub fn code_string(&self) -> (r: String)
        ensures
            r@ == asset_code_text(*self),
    {
        match self {
            Asset::Native => "XLM".to_owned(),
            Asset::Credit { code, issuer } => code.clone(),
        }
    }

    /// The issuer address of this asset; empty for the native asset.
    pub fn issuer_string(&self) -> (r: String)
        ensures
            r@ == asset_issuer_text(*self),
    {
        match self {
            Asset::Native => String::new(),
            Asset::Credit { code, issuer } => issuer.clone(),
        }
    }
}

/// A resolved, validated payment, ready for the network submission: the
/// sender's decrypted signing keypair, the destination, the asset and the
/// amount in the smallest currency unit.
pub struct PreparedPayment {
    pub sender_address: String,
    pub keypair: SigningKeypair,
    pub receiver_address: String,
    pub asset: Asset,
    pub amount: u64,
}

/// A resolved, validated trustline establishment, ready for the network
/// submission.
pub struct PreparedTrustline {
    pub account_id: u128,
    pub account_address: String,
    pub keypair: SigningKeypair,
    pub asset: Asset,
}

/// What a prepared payment promises about the store and cipher it was
/// resolved against.
pub open spec fn prepared_payment_ok(
    p: PreparedPayment,
    store: RecordStore,
    cipher: KeyCipher,
    sender_account_id: Seq<char>,
    receiver: Seq<char>,
    amount: u64,
) -> bool {
    let a = vault_account(store, sender_account_id).unwrap();
    &&& p.sender_address == a.stellar_address
    &&& Some(p.keypair.secret@) == vault_plaintext(store, cipher, sender_account_id)
    &&& p.keypair.public@ == a.stellar_address@
    &&& p.keypair.wf()
    &&& p.receiver_address@ == receiver
    &&& p.amount == amount
}

/// Resolves a native-asset payment: the sender's keypair is decrypted from
/// the store and the prepared submission carries the native asset.
///
/// Fails with `AccountNotFound` when the sender or its key is missing, with
/// `Crypto` when the stored ciphertext fails integrity verification, and
/// with `KeyFormat` when the decrypted bytes are not a valid secret key.
pub fn send_native_payment(
    store: &RecordStore,
    cipher: &KeyCipher,
    sender_account_id: &str,
    receiver_public_key: &str,
    amount: u64,
) -> (r: Result<PreparedPayment, PaymentError>)
    requires
        store.wf(),
        cipher.wf(),
    ensures
        r is Ok <==> vault_resolves(*store, *cipher, sender_account_id@),
        r matches Ok(p) ==> prepared_payment_ok(
            p,
            *store,
            *cipher,
            sender_account_id@,
            receiver_public_key@,
            amount,
        ) && p.asset is Native,
        r is Err ==> (r == Err::<PreparedPayment, PaymentError>(PaymentError::AccountNotFound) || r
            == Err::<PreparedPayment, PaymentError>(
            PaymentError::Crypto(crate::errors::CryptoError::IntegrityCheckFailed),
        ) || r == Err::<PreparedPayment, PaymentError>(PaymentError::KeyFormat)),
        !vault_found(*store, sender_account_id@) ==> r == Err::<PreparedPayment, PaymentError>(
            PaymentError::AccountNotFound,
        ),
        vault_found(*store, sender_account_id@) && vault_plaintext(
            *store,
            *cipher,
            sender_account_id@,
        ) is None ==> r == Err::<PreparedPayment, PaymentError>(
            PaymentError::Crypto(crate::errors::CryptoError::IntegrityCheckFailed),
        ),
        ({
            let sec = vault_plaintext(*store, *cipher, sender_account_id@);
            vault_found(*store, sender_account_id@) && sec is Some && !seed_for_address(
                sec.unwrap(),
                vault_account(*store, sender_account_id@).unwrap().stellar_address@,
            )
        }) ==> r == Err::<PreparedPayment, PaymentError>(PaymentError::KeyFormat),
{
    prepare_payment(store, cipher, sender_account_id, receiver_public_key, Asset::Native, amount)
}

/// Resolves a credit-asset payment: validates the asset first — a malformed
/// code or issuer fails with `InvalidAsset` — then resolves the sender as
/// [`send_native_payment`] does.
pub fn send_non_native_payment(
    store: &RecordStore,
    cipher: &KeyCipher,
    sender_account_id: &str,
    receiver_public_key: &str,
    asset_code: &str,
    asset_issuer: &str,
    amount: u64,
) -> (r: Result<PreparedPayment, PaymentError>)
    requires
        store.wf(),
        cipher.wf(),
    ensures
        r is Ok <==> (1 <= encode_utf8(asset_code@).len() <= 12 && account_id_decodes(
            asset_issuer@,
        ) && vault_resolves(*store, *cipher, sender_account_id@)),
        !(1 <= encode_utf8(asset_code@).len() <= 12 && account_id_decodes(asset_issuer@)) ==> r
            == Err::<PreparedPayment, PaymentError>(PaymentError::InvalidAsset),
        r matches Ok(p) ==> prepared_payment_ok(
            p,
            *store,
            *cipher,
            sender_account_id@,
            receiver_public_key@,
            amount,
        ) && p.asset is Credit && asset_code_text(p.asset) == asset_code@ && asset_issuer_text(
            p.asset,
        ) == asset_issuer@,
        (1 <= encode_utf8(asset_code@).len() <= 12 && account_id_decodes(asset_issuer@)) ==> {
            &&& !vault_found(*store, sender_account_id@) ==> r == Err::<
                PreparedPayment,
                PaymentError,
            >(PaymentError::AccountNotFound)
            &&& (vault_found(*store, sender_account_id@) && vault_plaintext(
                *store,
                *cipher,
                sender_account_id@,
            ) is None) ==> r == Err::<PreparedPayment, PaymentError>(
                PaymentError::Crypto(crate::errors::CryptoError::IntegrityCheckFailed),
            )
            &&& ({
                let sec = vault_plaintext(*store, *cipher, sender_account_id@);
                vault_found(*store, sender_account_id@) && sec is Some && !seed_for_address(
                    sec.unwrap(),
                    vault_account(*store, sender_account_id@).unwrap().stellar_address@,
                )
            }) ==> r == Err::<PreparedPayment, PaymentError>(PaymentError::KeyFormat)
        },
{
    let asset = match Asset::new_credit(asset_code, asset_issuer) {
        Ok(a) => a,
        Err(e) => {
            return Err(e);
        },
    };
    prepare_payment(store, cipher, sender_account_id, receiver_public_key, asset, amount)
}

/// Resolves the sender and assembles the prepared payment; shared by the
/// native and credit entry points.
fn prepare_payment(
    store: &RecordStore,
    cipher: &KeyCipher,
    sender_account_id: &str,
    receiver_public_key: &str,
    asset: Asset,
    amount: u64,
) -> (r: Result<PreparedPayment, PaymentError>)
    requires
        store.wf(),
        cipher.wf(),
    ensures
        r is Ok <==> vault_resolves(*store, *cipher, sender_account_id@),
        r matches Ok(p) ==> prepared_payment_ok(
            p,
            *store,
            *cipher,
            sender_account_id@,
            receiver_public_key@,
            amount,
        ) && p.asset == asset,
        !vault_found(*store, sender_account_id@) ==> r == Err::<PreparedPayment, PaymentError>(
            PaymentError::AccountNotFound,
        ),
        vault_found(*store, sender_account_id@) && vault_plaintext(
            *store,
            *cipher,
            sender_account_id@,
        ) is None ==> r == Err::<PreparedPayment, PaymentError>(
            PaymentError::Crypto(crate::errors::CryptoError::IntegrityCheckFailed),
        ),
        ({
            let sec = vault_plaintext(*store, *cipher, sender_account_id@);
            vault_found(*store, sender_account_id@) && sec is Some && !seed_for_address(
                sec.unwrap(),
                vault_account(*store, sender_account_id@).unwrap().stellar_address@,
            )
        }) ==> r == Err::<PreparedPayment, PaymentError>(PaymentError::KeyFormat),
        r is Err ==> (r == Err::<PreparedPayment, PaymentError>(PaymentError::AccountNotFound) || r
            == Err::<PreparedPayment, PaymentError>(
            PaymentError::Crypto(crate::errors::CryptoError::IntegrityCheckFailed),
        ) || r == Err::<PreparedPayment, PaymentError>(PaymentError::KeyFormat)),
{
    let (sender_account, keypair) = match get_account_from_id(store, cipher, sender_account_id) {
        Ok(pair) => pair,
        Err(crate::errors::VaultError::AccountNotFound) => {
            return Err(PaymentError::AccountNotFound);
        },
        Err(crate::errors::VaultError::Crypto(e)) => {
            return Err(PaymentError::Crypto(e));
        },
        Err(crate::errors::VaultError::KeyFormat) => {
            return Err(PaymentError::KeyFormat);
        },
    };
    Ok(
        PreparedPayment {
            sender_address: sender_account.stellar_address,
            keypair,
            receiver_address: receiver_public_key.to_owned(),
            asset,
            amount,
        },
    )
}

/// Settles a payment submission against the local record. Success is
/// returned only once both the submission and the recording succeeded.
///
/// A rejected submission writes no transaction row at all and fails with
/// `ChainSubmission`; an unknown outcome writes nothing and fails with
/// `AmbiguousSubmission`. A confirmed submission is recorded idempotently by
/// its hash, the row's status derived strictly from the network's success
/// flag; then a result whose success flag is off — a payment the network did
/// not apply — fails with `ChainSubmission` carrying its hash, the failed
/// row staying on record. When recording a confirmed submission fails, the
/// result is not lost: it is carried inside `RecordingLag`.
pub fn complete_payment(
    store: &mut RecordStore,
    prepared: &PreparedPayment,
    outcome: &SubmissionOutcome,
    record_id: u128,
) -> (r: Result<SubmissionResult, PaymentError>)
    requires
        old(store).wf(),
    ensures
        final(store).wf(),
        outcome matches SubmissionOutcome::Rejected(d) ==> r == Err::<
            SubmissionResult,
            PaymentError,
        >(PaymentError::ChainSubmission(*d)) && *final(store) == *old(store),
        outcome is Unknown ==> r == Err::<SubmissionResult, PaymentError>(
            PaymentError::AmbiguousSubmission,
        ) && *final(store) == *old(store),
        outcome matches SubmissionOutcome::Confirmed(res) ==> (!old(store).has_address(
            prepared.sender_address@,
        ) && !old(store).has_address(prepared.receiver_address@)) ==> (r == Err::<
            SubmissionResult,
            PaymentError,
        >(PaymentError::RecordingLag(*res)) && *final(store) == *old(store)),
        outcome matches SubmissionOutcome::Confirmed(res) ==> (old(store).has_address(
            prepared.sender_address@,
        ) || old(store).has_address(prepared.receiver_address@)) ==> {
            &&& if res.successful {
                r == Ok::<SubmissionResult, PaymentError>(*res)
            } else {
                r == Err::<SubmissionResult, PaymentError>(
                    PaymentError::ChainSubmission(res.hash),
                )
            }
            &&& exists|tx: crate::models::Transaction|
                {
                    &&& #[trigger] tx_matches(
                        tx,
                        *old(store),
                        *res,
                        prepared.sender_address@,
                        prepared.receiver_address@,
                        asset_code_text(prepared.asset),
                        prepared.amount,
                        record_id,
                    )
                    &&& final(store).transactions@ == record_spec(old(store).transactions@, tx)
                }
            &&& final(store).accounts@ == old(store).accounts@
            &&& final(store).keys@ == old(store).keys@
            &&& final(store).trustlines@ == old(store).trustlines@
            &&& final(store).transaction_errors@ == old(store).transaction_errors@
        },
        r is Ok ==> (outcome matches SubmissionOutcome::Confirmed(res) && res.successful),
{
    match outcome {
        SubmissionOutcome::Rejected(detail) => Err(PaymentError::ChainSubmission(detail.clone())),
        SubmissionOutcome::Unknown => Err(PaymentError::AmbiguousSubmission),
        SubmissionOutcome::Confirmed(result) => {
            let code = prepared.asset.code_string();
            match save_chain_transaction(
                store,
                result,
                prepared.sender_address.as_str(),
                prepared.receiver_address.as_str(),
                code.as_str(),
                prepared.amount,
                record_id,
            ) {
                Ok(()) => {
                    if result.successful {
                        Ok(result.clone())
                    } else {
                        // The network reported the payment as not applied:
                        // the failed submission is on record and the caller
                        // gets the rejection, not a success.
                        Err(PaymentError::ChainSubmission(result.hash.clone()))
                    }
                },
                Err(_) => Err(PaymentError::RecordingLag(result.clone())),
            }
        },
    }
}

/// Resolves a trustline establishment for a credit asset: the account and
/// its keypair first — as the vault does — then the asset.
pub fn establish_trustline_for_non_native_asset(
    store: &RecordStore,
    cipher: &KeyCipher,
    account_id: &str,
    asset_code: &str,
    asset_issuer: &str,
) -> (r: Result<PreparedTrustline, PaymentError>)
    requires
        store.wf(),
        cipher.wf(),
    ensures
        r is Ok <==> (vault_resolves(*store, *cipher, account_id@) && 1 <= encode_utf8(
            asset_code@,
        ).len() <= 12 && account_id_decodes(asset_issuer@)),
        !vault_found(*store, account_id@) ==> r == Err::<PreparedTrustline, PaymentError>(
            PaymentError::AccountNotFound,
        ),
        vault_found(*store, account_id@) && vault_plaintext(*store, *cipher, account_id@) is None
            ==> r == Err::<PreparedTrustline, PaymentError>(
            PaymentError::Crypto(crate::errors::CryptoError::IntegrityCheckFailed),
        ),
        ({
            let sec = vault_plaintext(*store, *cipher, account_id@);
            vault_found(*store, account_id@) && sec is Some && !seed_for_address(
                sec.unwrap(),
                vault_account(*store, account_id@).unwrap().stellar_address@,
            )
        }) ==> r == Err::<PreparedTrustline, PaymentError>(PaymentError::KeyFormat),
        (vault_resolves(*store, *cipher, account_id@) && !(1 <= encode_utf8(asset_code@).len()
            <= 12 && account_id_decodes(asset_issuer@))) ==> r == Err::<
            PreparedTrustline,
            PaymentError,
        >(PaymentError::InvalidAsset),
        r matches Ok(p) ==> {
            let a = vault_account(*store, account_id@).unwrap();
            &&& p.account_id == a.id
            &&& p.account_address == a.stellar_address
            &&& Some(p.keypair.secret@) == vault_plaintext(*store, *cipher, account_id@)
            &&& p.keypair.public@ == a.stellar_address@
            &&& p.keypair.wf()
            &&& p.asset is Credit
            &&& asset_code_text(p.asset) == asset_code@
            &&& asset_issuer_text(p.asset) == asset_issuer@
            &&& asset_wf(p.asset)
        },
{
    let (account, keypair) = match get_account_from_id(store, cipher, account_id) {
        Ok(pair) => pair,
        Err(crate::errors::VaultError::AccountNotFound) => {
            return Err(PaymentError::AccountNotFound);
        },
        Err(crate::errors::VaultError::Crypto(e)) => {
            return Err(PaymentError::Crypto(e));
        },
        Err(crate::errors::VaultError::KeyFormat) => {
            return Err(PaymentError::KeyFormat);
        },
    };
    let asset = match Asset::new_credit(asset_code, asset_issuer) {
        Ok(a) => a,
        Err(e) => {
            return Err(e);
        },
    };
    Ok(
        PreparedTrustline {
            account_id: account.id,
            account_address: account.stellar_address,
            keypair,
            asset,
        },
    )
}

/// The trustline row that settling a confirmed establishment stores.
pub open spec fn trustline_matches(
    t: Trustline,
    prepared: PreparedTrustline,
    trustline_id: u128,
    now: i64,
) -> bool {
    &&& t.id == trustline_id
    &&& t.account_id == prepared.account_id
    &&& t.asset_code@ == asset_code_text(prepared.asset)
    &&& t.asset_issuer@ == asset_issuer_text(prepared.asset)
    &&& t.trust_limit is None
    &&& t.created_at == Some(now)
    &&& t.status@ == "active"@
}

/// Settles a trustline submission. There is no counterparty recording step
/// for trustlines — no transaction row is written; the only durable effect
/// of a confirmed, applied establishment is the trustline row itself,
/// stored idempotently per account, asset code and issuer.
///
/// A rejected submission fails with `ChainSubmission`; an unknown outcome
/// fails with `AmbiguousSubmission`; a confirmed result whose success flag
/// is off — a change-trust the network did not apply — fails with
/// `ChainSubmission` carrying its hash. In every failing case the store is
/// untouched.
pub fn complete_trustline(
    store: &mut RecordStore,
    prepared: &PreparedTrustline,
    outcome: &SubmissionOutcome,
    trustline_id: u128,
    now: i64,
) -> (r: Result<SubmissionResult, PaymentError>)
    requires
        old(store).wf(),
    ensures
        final(store).wf(),
        outcome matches SubmissionOutcome::Rejected(d) ==> r == Err::<
            SubmissionResult,
            PaymentError,
        >(PaymentError::ChainSubmission(*d)) && *final(store) == *old(store),
        outcome is Unknown ==> r == Err::<SubmissionResult, PaymentError>(
            PaymentError::AmbiguousSubmission,
        ) && *final(store) == *old(store),
        outcome matches SubmissionOutcome::Confirmed(res) ==> !res.successful ==> (r == Err::<
            SubmissionResult,
            PaymentError,
        >(PaymentError::ChainSubmission(res.hash)) && *final(store) == *old(store)),
        outcome matches SubmissionOutcome::Confirmed(res) ==> res.successful ==> {
            &&& r == Ok::<SubmissionResult, PaymentError>(*res)
            &&& final(store).has_trustline(
                prepared.account_id,
                asset_code_text(prepared.asset),
                asset_issuer_text(prepared.asset),
            )
            &&& if old(store).has_trustline(
                prepared.account_id,
                asset_code_text(prepared.asset),
                asset_issuer_text(prepared.asset),
            ) {
                final(store).trustlines@ == old(store).trustlines@
            } else {
                exists|t: Trustline|
                    #[trigger] trustline_matches(t, *prepared, trustline_id, now)
                        && final(store).trustlines@ == old(store).trustlines@.push(t)
            }
            &&& final(store).accounts@ == old(store).accounts@
            &&& final(store).keys@ == old(store).keys@
            &&& final(store).transactions@ == old(store).transactions@
            &&& final(store).transaction_errors@ == old(store).transaction_errors@
        },
        r is Ok ==> (outcome matches SubmissionOutcome::Confirmed(res) && res.successful),
{
    match outcome {
        SubmissionOutcome::Rejected(detail) => Err(PaymentError::ChainSubmission(detail.clone())),
        SubmissionOutcome::Unknown => Err(PaymentError::AmbiguousSubmission),
        SubmissionOutcome::Confirmed(result) => {
            if !result.successful {
                // The network reported the change-trust as not applied:
                // nothing to store, and the caller gets the rejection.
                return Err(PaymentError::ChainSubmission(result.hash.clone()));
            }
            let row = Trustline {
                id: trustline_id,
                account_id: prepared.account_id,
                asset_code: prepared.asset.code_string(),
                asset_issuer: prepared.asset.issuer_string(),
                trust_limit: None,
                created_at: Some(now),
                status: "active".to_owned(),
            };
            let ghost grow = row;
            let ghost mid = *store;
            store.insert_trustline(row);
            proof {
                assert(trustline_matches(grow, *prepared, trustline_id, now));
                if !mid.has_trustline(
                    prepared.account_id,
                    asset_code_text(prepared.asset),
                    asset_issuer_text(prepared.asset),
                ) {
                    assert(store.trustlines@ == mid.trustlines@.push(grow));
                    assert(store.trustlines@[mid.trustlines@.len() as int] == grow);
                }
            }
            Ok(result.clone())
        },
    }
}

} // verus!
