//! The account lifecycle: create, activate, look up, update and soft-delete
//! custodial accounts.
//!
//! Creation generates a keypair locally, encrypts the secret seed and
//! persists the account and its key atomically. Activation is two-phase: the
//! guarded, key-resolving step here ([`activate_account`]), the network
//! funding submission outside this crate, and the settlement step
//! ([`complete_activation`]) that records the funding transaction and flips
//! the status to active — the flip last, strictly after the on-chain result
//! and the local record exist.

use vstd::prelude::*;

use crate::chain::SubmissionOutcome;
use crate::cipher::decrypt_spec;
use crate::cipher::lemma_decrypt_encrypt;
use crate::cipher::KeyCipher;
use crate::clock::now_utc_micros;
use crate::errors::LifecycleError;
use crate::ids::fresh_id;
use crate::ids::parse_uuid;
use crate::keys::derive_public;
use crate::keys::generate_keypair;
use crate::keys::seed_for_address;
use crate::keys::SigningKeypair;
use crate::models::parse_status_spec;
use crate::models::transition_allowed;
use crate::models::Account;
use crate::models::AccountStatus;
use crate::models::EncryptedKey;
use crate::models::Pagination;
use crate::recorder::save_chain_transaction;
use crate::recorder::tx_matches;
use crate::store::record_spec;
use crate::store::RecordStore;
use crate::vault::vault_account;
use crate::vault::vault_found;
use crate::vault::vault_plaintext;
use crate::vault::vault_resolves;

verus! {

/// A prepared account activation: the resolved signing keypair and the
/// observed prior status. The caller submits the funding transaction and
/// hands the outcome to [`complete_activation`].
pub struct PreparedActivation {
    pub account_id: u128,
    pub account_address: String,
    pub prior_status: AccountStatus,
    pub keypair: SigningKeypair,
}

/// Creates a new custodial account: generates a keypair locally, encrypts
/// the secret seed with the process cipher, and persists the account row and
/// its encrypted key atomically — both appear or neither does.
///
/// On success the returned account carries the freshly derived network
/// address, and the stored key decrypts under this cipher to a secret seed
/// whose derived address is exactly that address.
pub fn create_account(
    store: &mut RecordStore,
    cipher: &KeyCipher,
    status: &str,
    account_type: &str,
) -> (r: Result<Account, LifecycleError>)
    requires
        old(store).wf(),
        cipher.wf(),
        parse_status_spec(status@) is Some,
    ensures
        final(store).wf(),
        old(store).accounts@.len() == 0 && old(store).keys@.len() == 0 ==> r is Ok,
        r is Err ==> old(store).accounts@.len() > 0 || old(store).keys@.len() > 0,
        r is Err ==> r == Err::<Account, LifecycleError>(LifecycleError::StorageConflict)
            && *final(store) == *old(store),
        r matches Ok(a) ==> {
            &&& a.status == parse_status_spec(status@).unwrap()
            &&& a.account_type@ == account_type@
            &&& a.stellar_address@.len() == 56
            &&& a.created_at is Some
            &&& !old(store).has_account_id(a.id)
            &&& !old(store).has_key_for(a.id)
            &&& final(store).accounts@ == old(store).accounts@.push(a)
            &&& final(store).keys@ == old(store).keys@.push(final(store).keys@.last())
            &&& final(store).keys@.last().account_id == a.id
            &&& decrypt_spec(
                cipher.key@,
                cipher.iv@,
                final(store).keys@.last().encrypted_key@,
            ) matches Some(sec) && seed_for_address(sec, a.stellar_address@)
            &&& final(store).transactions@ == old(store).transactions@
            &&& final(store).trustlines@ == old(store).trustlines@
            &&& final(store).transaction_errors@ == old(store).transaction_errors@
        },
{
    let parsed = AccountStatus::parse(status);
    let initial_status = parsed.unwrap();
    let (secret, public) = generate_keypair();
    let encrypted = cipher.encrypt(secret.as_slice());
    proof {
        lemma_decrypt_encrypt(cipher.key@, cipher.iv@, secret@);
    }
    let account_id = fresh_id();
    let key_id = fresh_id();
    let now = now_utc_micros();
    let account = Account {
        id: account_id,
        stellar_address: public,
        account_type: account_type.to_owned(),
        created_at: Some(now),
        updated_at: Some(now),
        status: initial_status,
    };
    let key = EncryptedKey {
        id: key_id,
        account_id,
        encrypted_key: encrypted,
        created_at: Some(now),
    };
    let returned = account.clone();
    if store.insert_account_with_key(account, key) {
        Ok(returned)
    } else {
        Err(LifecycleError::StorageConflict)
    }
}

/// The guarded first phase of activation: fails with `AlreadyActive` before
/// anything else is attempted when the account is already active — in
/// particular, before any network funding call can be made — and otherwise
/// resolves the decrypted signing keypair for the funding submission,
/// refusing a seed that does not derive the account's own stored address.
pub fn activate_account(store: &RecordStore, cipher: &KeyCipher, account_id: &str) -> (r: Result<
    PreparedActivation,
    LifecycleError,
>)
    requires
        store.wf(),
        cipher.wf(),
    ensures
        r == Err::<PreparedActivation, LifecycleError>(LifecycleError::AlreadyActive) <==> (
        vault_found(*store, account_id@) && vault_account(*store, account_id@).unwrap().status
            == AccountStatus::Active),
        r is Ok <==> (vault_resolves(*store, *cipher, account_id@) && vault_account(
            *store,
            account_id@,
        ).unwrap().status != AccountStatus::Active),
        !vault_found(*store, account_id@) ==> r == Err::<PreparedActivation, LifecycleError>(
            LifecycleError::AccountNotFound,
        ),
        ({
            let a = vault_account(*store, account_id@);
            vault_found(*store, account_id@) && a.unwrap().status != AccountStatus::Active
                && vault_plaintext(*store, *cipher, account_id@) is None
        }) ==> r == Err::<PreparedActivation, LifecycleError>(
            LifecycleError::Crypto(crate::errors::CryptoError::IntegrityCheckFailed),
        ),
        ({
            let a = vault_account(*store, account_id@);
            let sec = vault_plaintext(*store, *cipher, account_id@);
            vault_found(*store, account_id@) && a.unwrap().status != AccountStatus::Active
                && sec is Some && !seed_for_address(sec.unwrap(), a.unwrap().stellar_address@)
        }) ==> r == Err::<PreparedActivation, LifecycleError>(LifecycleError::KeyFormat),
        r matches Ok(p) ==> {
            let a = vault_account(*store, account_id@).unwrap();
            &&& p.account_id == a.id
            &&& p.account_address == a.stellar_address
            &&& p.prior_status == a.status
            &&& p.prior_status != AccountStatus::Active
            &&& Some(p.keypair.secret@) == vault_plaintext(*store, *cipher, account_id@)
            &&& p.keypair.public@ == a.stellar_address@
            &&& p.keypair.wf()
        },
{
    let id = match parse_uuid(account_id) {
        Some(v) => v,
        None => {
            return Err(LifecycleError::AccountNotFound);
        },
    };
    let account = match store.find_account(id) {
        Some(a) => a,
        None => {
            return Err(LifecycleError::AccountNotFound);
        },
    };
    let key = match store.find_key_for(id) {
        Some(k) => k,
        None => {
            return Err(LifecycleError::AccountNotFound);
        },
    };
    if account.status == AccountStatus::Active {
        return Err(LifecycleError::AlreadyActive);
    }
    let secret = match cipher.decrypt(key.encrypted_key.as_slice()) {
        Ok(s) => s,
        Err(e) => {
            return Err(LifecycleError::Crypto(e));
        },
    };
    if secret.len() != 56 {
        return Err(LifecycleError::KeyFormat);
    }
    let public = match derive_public(secret.as_slice()) {
        Some(p) => p,
        None => {
            return Err(LifecycleError::KeyFormat);
        },
    };
    if !crate::text::str_eq(public.as_str(), account.stellar_address.as_str()) {
        return Err(LifecycleError::KeyFormat);
    }
    Ok(
        PreparedActivation {
            account_id: id,
            account_address: account.stellar_address.clone(),
            prior_status: account.status,
            keypair: SigningKeypair { secret, public },
        },
    )
}

/// The settlement phase of activation. A rejected funding submission leaves
/// the store untouched and the account pending; a confirmed one is first
/// recorded as a transaction, and only then — and only if the network
/// reports the funding as applied — is the status flipped to active by a
/// compare-and-swap on the observed prior status. A confirmed response whose
/// success flag is off is recorded and surfaced as `ChainSubmission`, the
/// status untouched. A confirmed funding whose local record or status flip
/// fails is surfaced as `RecordingLag`, carrying the on-chain result.
pub fn complete_activation(
    store: &mut RecordStore,
    prepared: &PreparedActivation,
    outcome: &SubmissionOutcome,
    funding_address: &str,
    amount: u64,
    record_id: u128,
    now: i64,
) -> (r: Result<bool, LifecycleError>)
    requires
        old(store).wf(),
    ensures
        final(store).wf(),
        outcome matches SubmissionOutcome::Rejected(d) ==> r == Err::<bool, LifecycleError>(
            LifecycleError::ChainSubmission(*d),
        ) && *final(store) == *old(store),
        outcome is Unknown ==> r == Err::<bool, LifecycleError>(
            LifecycleError::AmbiguousSubmission,
        ) && *final(store) == *old(store),
        outcome matches SubmissionOutcome::Confirmed(res) ==> (!old(store).has_address(
            funding_address@,
        ) && !old(store).has_address(prepared.account_address@)) ==> (r == Err::<
            bool,
            LifecycleError,
        >(LifecycleError::RecordingLag(*res)) && *final(store) == *old(store)),
        outcome matches SubmissionOutcome::Confirmed(res) ==> (old(store).has_address(
            funding_address@,
        ) || old(store).has_address(prepared.account_address@)) ==> {
            &&& exists|tx: crate::models::Transaction|
                {
                    &&& #[trigger] tx_matches(
                        tx,
                        *old(store),
                        *res,
                        funding_address@,
                        prepared.account_address@,
                        "XLM"@,
                        amount,
                        record_id,
                    )
                    &&& final(store).transactions@ == record_spec(old(store).transactions@, tx)
                }
            &&& if !res.successful {
                &&& r == Err::<bool, LifecycleError>(LifecycleError::ChainSubmission(res.hash))
                &&& final(store).accounts@ == old(store).accounts@
            } else if old(store).has_account_id(prepared.account_id) && old(
                store,
            ).account_with_id(prepared.account_id).status == prepared.prior_status {
                &&& r == Ok::<bool, LifecycleError>(true)
                &&& exists|k: int|
                    {
                        &&& 0 <= k < old(store).accounts@.len()
                        &&& (#[trigger] old(store).accounts@[k]).id == prepared.account_id
                        &&& final(store).accounts@ == old(store).accounts@.update(
                            k,
                            (Account {
                                status: AccountStatus::Active,
                                updated_at: Some(now),
                                ..old(store).accounts@[k]
                            }),
                        )
                    }
            } else {
                &&& r == Err::<bool, LifecycleError>(LifecycleError::RecordingLag(*res))
                &&& final(store).accounts@ == old(store).accounts@
            }
            &&& final(store).keys@ == old(store).keys@
            &&& final(store).trustlines@ == old(store).trustlines@
            &&& final(store).transaction_errors@ == old(store).transaction_errors@
        },
{
    match outcome {
        SubmissionOutcome::Rejected(detail) => Err(
            LifecycleError::ChainSubmission(detail.clone()),
        ),
        SubmissionOutcome::Unknown => Err(LifecycleError::AmbiguousSubmission),
        SubmissionOutcome::Confirmed(result) => {
            match save_chain_transaction(
                store,
                result,
                funding_address,
                prepared.account_address.as_str(),
                "XLM",
                amount,
                record_id,
            ) {
                Err(_) => Err(LifecycleError::RecordingLag(result.clone())),
                Ok(()) => {
                    if !result.successful {
                        // The network reported the funding as not applied:
                        // the failed submission is on record, and the status
                        // stays where it was.
                        return Err(LifecycleError::ChainSubmission(result.hash.clone()));
                    }
                    let ghost mid = *store;
                    let flipped = store.set_status_if(
                        prepared.account_id,
                        prepared.prior_status,
                        AccountStatus::Active,
                        now,
                    );
                    proof {
                        if mid.has_account_id(prepared.account_id) {
                            let k = mid.account_index_of(prepared.account_id);
                            assert(mid.accounts@ == old(store).accounts@);
                            assert(old(store).accounts@[k].id == prepared.account_id);
                            assert(old(store).has_account_id(prepared.account_id));
                        }
                        if old(store).has_account_id(prepared.account_id) {
                            let k = old(store).account_index_of(prepared.account_id);
                            assert(mid.accounts@[k].id == prepared.account_id);
                            assert(mid.has_account_id(prepared.account_id));
                            let k2 = mid.account_index_of(prepared.account_id);
                            if k != k2 {
                                if k < k2 {
                                    assert(mid.accounts@[k].id != mid.accounts@[k2].id);
                                } else {
                                    assert(mid.accounts@[k2].id != mid.accounts@[k].id);
                                }
                            }
                            assert(mid.account_with_id(prepared.account_id) == old(
                                store,
                            ).account_with_id(prepared.account_id));
                        }
                    }
                    if flipped {
                        proof {
                            let k = mid.account_index_of(prepared.account_id);
                            assert(0 <= k < old(store).accounts@.len());
                            assert((old(store).accounts@[k]).id == prepared.account_id);
                            assert(mid.account_with_id(prepared.account_id) == old(
                                store,
                            ).accounts@[k]);
                            assert(store.accounts@ == old(store).accounts@.update(
                                k,
                                (Account {
                                    status: AccountStatus::Active,
                                    updated_at: Some(now),
                                    ..old(store).accounts@[k]
                                }),
                            ));
                        }
                        Ok(true)
                    } else {
                        Err(LifecycleError::RecordingLag(result.clone()))
                    }
                },
            }
        },
    }
}

/// Retrieves an account by its textual identifier.
pub fn get_account(store: &RecordStore, account_id: &str) -> (r: Result<Account, LifecycleError>)
    requires
        store.wf(),
    ensures
        r is Ok <==> vault_account(*store, account_id@) is Some,
        r matches Ok(a) ==> Some(a) == vault_account(*store, account_id@),
        r is Err ==> r == Err::<Account, LifecycleError>(LifecycleError::AccountNotFound),
{
    let id = match parse_uuid(account_id) {
        Some(v) => v,
        None => {
            return Err(LifecycleError::AccountNotFound);
        },
    };
    match store.find_account(id) {
        Some(a) => Ok(a.clone()),
        None => Err(LifecycleError::AccountNotFound),
    }
}

/// Retrieves an account by its network address.
pub fn get_account_by_stellar_address(store: &RecordStore, stellar_address: &str) -> (r: Result<
    Account,
    LifecycleError,
>)
    requires
        store.wf(),
    ensures
        r is Ok <==> store.has_address(stellar_address@),
        r matches Ok(a) ==> a == store.account_with_address(stellar_address@),
        r is Err ==> r == Err::<Account, LifecycleError>(LifecycleError::AccountNotFound),
{
    match store.find_account_by_address(stellar_address) {
        Some(a) => Ok(a.clone()),
        None => Err(LifecycleError::AccountNotFound),
    }
}

/// Retrieves one page of accounts, ten per page, first page first.
pub fn get_many_accounts(store: &RecordStore, page: i64) -> (r: Result<
    Pagination<Account>,
    LifecycleError,
>)
    requires
        store.wf(),
        1 <= page <= 0x7fff_ffff,
        store.accounts@.len() <= 0x7fff_ffff,
    ensures
        r matches Ok(p) ==> {
            let len = store.accounts@.len() as int;
            let start = if (page - 1) * 10 <= len {
                (page - 1) * 10
            } else {
                len
            };
            let end = if start + 10 <= len {
                start + 10
            } else {
                len
            };
            &&& p.data@ == store.accounts@.subrange(start, end)
            &&& p.total_records == len
            &&& p.total_pages == (len + 9) / 10
            &&& p.page == page
            &&& p.per_page == 10
        },
        r is Ok,
{
    let len = store.accounts.len();
    let start_i64: i64 = (page - 1) * 10;
    let start: usize = if start_i64 <= len as i64 {
        start_i64 as usize
    } else {
        len
    };
    let end: usize = if start + 10 <= len {
        start + 10
    } else {
        len
    };
    let mut data: Vec<Account> = Vec::new();
    let mut i: usize = start;
    while i < end
        invariant
            start <= i <= end <= store.accounts@.len(),
            data@ =~= store.accounts@.subrange(start as int, i as int),
        decreases end - i,
    {
        data.push(store.accounts[i].clone());
        i = i + 1;
    }
    assert(data@ =~= store.accounts@.subrange(start as int, end as int));
    let total_records: i64 = len as i64;
    let total_pages: i64 = (total_records + 9) / 10;
    Ok(Pagination { data, total_pages, total_records, page, per_page: 10 })
}

/// Changes an account's status directly, enforcing the permitted status
/// transitions; no on-chain effect.
pub fn update_account(store: &mut RecordStore, account_id: &str, status: &str) -> (r: Result<
    bool,
    LifecycleError,
>)
    requires
        old(store).wf(),
        parse_status_spec(status@) is Some,
    ensures
        final(store).wf(),
        vault_account(*old(store), account_id@) is None ==> r == Err::<bool, LifecycleError>(
            LifecycleError::AccountNotFound,
        ) && *final(store) == *old(store),
        ({
            let a = vault_account(*old(store), account_id@);
            a is Some && !transition_allowed(a.unwrap().status, parse_status_spec(status@).unwrap())
        }) ==> r == Err::<bool, LifecycleError>(LifecycleError::InvalidTransition) && *final(store)
            == *old(store),
        ({
            let a = vault_account(*old(store), account_id@);
            a is Some && transition_allowed(a.unwrap().status, parse_status_spec(status@).unwrap())
        }) ==> {
            let a = vault_account(*old(store), account_id@).unwrap();
            &&& r == Ok::<bool, LifecycleError>(true)
            &&& final(store).accounts@ == old(store).accounts@.update(
                old(store).account_index_of(a.id),
                (Account {
                    status: parse_status_spec(status@).unwrap(),
                    updated_at: final(store).accounts@[old(store).account_index_of(a.id)].updated_at,
                    ..a
                }),
            )
            &&& final(store).accounts@[old(store).account_index_of(a.id)].updated_at is Some
            &&& final(store).keys@ == old(store).keys@
            &&& final(store).transactions@ == old(store).transactions@
            &&& final(store).trustlines@ == old(store).trustlines@
            &&& final(store).transaction_errors@ == old(store).transaction_errors@
        },
{
    let new_status = AccountStatus::parse(status).unwrap();
    let id = match parse_uuid(account_id) {
        Some(v) => v,
        None => {
            return Err(LifecycleError::AccountNotFound);
        },
    };
    let current = match store.find_account(id) {
        Some(a) => a.status,
        None => {
            return Err(LifecycleError::AccountNotFound);
        },
    };
    if !current.allows_transition_to(new_status) {
        return Err(LifecycleError::InvalidTransition);
    }
    let now = now_utc_micros();
    let flipped = store.set_status_if(id, current, new_status, now);
    assert(flipped);
    Ok(true)
}

/// Soft-deletes an account: sets its status to closed and erases nothing.
/// Deleting an already-closed account changes nothing and still succeeds.
pub fn soft_delete_account(store: &mut RecordStore, account_id: &str) -> (r: Result<
    bool,
    LifecycleError,
>)
    requires
        old(store).wf(),
    ensures
        final(store).wf(),
        vault_account(*old(store), account_id@) is None ==> r == Err::<bool, LifecycleError>(
            LifecycleError::AccountNotFound,
        ) && *final(store) == *old(store),
        ({
            let a = vault_account(*old(store), account_id@);
            a is Some && a.unwrap().status == AccountStatus::Closed
        }) ==> r == Ok::<bool, LifecycleError>(true) && *final(store) == *old(store),
        ({
            let a = vault_account(*old(store), account_id@);
            a is Some && a.unwrap().status != AccountStatus::Closed
        }) ==> {
            let a = vault_account(*old(store), account_id@).unwrap();
            &&& r == Ok::<bool, LifecycleError>(true)
            &&& final(store).accounts@ == old(store).accounts@.update(
                old(store).account_index_of(a.id),
                (Account {
                    status: AccountStatus::Closed,
                    updated_at: final(store).accounts@[old(store).account_index_of(a.id)].updated_at,
                    ..a
                }),
            )
            &&& final(store).accounts@[old(store).account_index_of(a.id)].updated_at is Some
            &&& final(store).keys@ == old(store).keys@
            &&& final(store).transactions@ == old(store).transactions@
            &&& final(store).trustlines@ == old(store).trustlines@
            &&& final(store).transaction_errors@ == old(store).transaction_errors@
        },
{
    let id = match parse_uuid(account_id) {
        Some(v) => v,
        None => {
            return Err(LifecycleError::AccountNotFound);
        },
    };
    let current = match store.find_account(id) {
        Some(a) => a.status,
        None => {
            return Err(LifecycleError::AccountNotFound);
        },
    };
    if current == AccountStatus::Closed {
        return Ok(true);
    }
    let now = now_utc_micros();
    let flipped = store.set_status_if(id, current, AccountStatus::Closed, now);
    assert(flipped);
    Ok(true)
}

} // verus!
