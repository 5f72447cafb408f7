//! The account vault: resolves a custodial account identifier to its account
//! row and decrypted signing keypair.
//!
//! This is the single point where stored ciphertext becomes a live secret in
//! process memory; the keypair is handed to exactly one signing operation and
//! never stored, cached or logged. The vault refuses a decrypted seed that
//! does not derive the account's own stored network address, so a resolved
//! keypair never signs for a different account than the one looked up.

use vstd::prelude::*;

use crate::cipher::decrypt_spec;
use crate::cipher::KeyCipher;
use crate::errors::CryptoError;
use crate::errors::VaultError;
use crate::ids::parse_uuid;
use crate::ids::uuid_value_of;
use crate::keys::derive_public;
use crate::keys::seed_for_address;
use crate::keys::SigningKeypair;
use crate::models::Account;
use crate::models::AccountWithKey;
use crate::store::RecordStore;

verus! {

/// The account a textual identifier resolves to, if the text is a
/// well-formed identifier naming a stored account.
pub open spec fn vault_account(store: RecordStore, account_id: Seq<char>) -> Option<Account> {
    match uuid_value_of(account_id) {
        Some(v) => if store.has_account_id(v as u128) {
            Some(store.account_with_id(v as u128))
        } else {
            None
        },
        None => None,
    }
}

/// Whether the identifier names a stored account that has a stored key.
pub open spec fn vault_found(store: RecordStore, account_id: Seq<char>) -> bool {
    vault_account(store, account_id) matches Some(a) && store.has_key_for(a.id)
}

/// The decryption of the stored key of the account the identifier names.
pub open spec fn vault_plaintext(
    store: RecordStore,
    cipher: KeyCipher,
    account_id: Seq<char>,
) -> Option<Seq<u8>>
    recommends
        vault_found(store, account_id),
{
    decrypt_spec(
        cipher.key@,
        cipher.iv@,
        store.key_for(vault_account(store, account_id).unwrap().id).encrypted_key@,
    )
}

/// Whether resolving this identifier yields a decrypted, well-formed signing
/// keypair: the account and its key exist, the ciphertext decrypts, and the
/// plaintext is a seed that derives the account's own stored network
/// address.
pub open spec fn vault_resolves(store: RecordStore, cipher: KeyCipher, account_id: Seq<char>) -> bool {
    &&& vault_found(store, account_id)
    &&& vault_plaintext(store, cipher, account_id) matches Some(sec)
    &&& seed_for_address(sec, vault_account(store, account_id).unwrap().stellar_address@)
}

/// Resolves an account identifier to the stored account joined with its key
/// row, and the decrypted signing keypair.
///
/// Fails with `AccountNotFound` when the identifier is malformed, names no
/// account, or the account has no stored key; with `Crypto` when the
/// ciphertext fails integrity verification; and with `KeyFormat` when the
/// decrypted bytes are not a valid secret key deriving the account's own
/// stored address.
pub fn get_account_from_id(store: &RecordStore, cipher: &KeyCipher, account_id: &str) -> (r:
    Result<(AccountWithKey, SigningKeypair), VaultError>)
    requires
        store.wf(),
        cipher.wf(),
    ensures
        r is Ok <==> vault_resolves(*store, *cipher, account_id@),
        !vault_found(*store, account_id@) ==> r == Err::<
            (AccountWithKey, SigningKeypair),
            VaultError,
        >(VaultError::AccountNotFound),
        vault_found(*store, account_id@) && vault_plaintext(*store, *cipher, account_id@) is None
            ==> r == Err::<(AccountWithKey, SigningKeypair), VaultError>(
            VaultError::Crypto(CryptoError::IntegrityCheckFailed),
        ),
        ({
            let sec = vault_plaintext(*store, *cipher, account_id@);
            vault_found(*store, account_id@) && sec is Some && !seed_for_address(
                sec.unwrap(),
                vault_account(*store, account_id@).unwrap().stellar_address@,
            )
        }) ==> r == Err::<(AccountWithKey, SigningKeypair), VaultError>(VaultError::KeyFormat),
        r matches Ok((account, keypair)) ==> {
            let a = vault_account(*store, account_id@).unwrap();
            let key = store.key_for(a.id);
            &&& account.id == a.id
            &&& account.stellar_address == a.stellar_address
            &&& account.account_type == a.account_type
            &&& account.created_at == a.created_at
            &&& account.updated_at == a.updated_at
            &&& account.status == a.status
            &&& account.encrypted_key@ == key.encrypted_key@
            &&& Some(keypair.secret@) == vault_plaintext(*store, *cipher, account_id@)
            &&& keypair.public@ == a.stellar_address@
            &&& keypair.wf()
        },
{
    let id = match parse_uuid(account_id) {
        Some(v) => v,
        None => {
            return Err(VaultError::AccountNotFound);
        },
    };
    let account = match store.find_account(id) {
        Some(a) => a,
        None => {
            return Err(VaultError::AccountNotFound);
        },
    };
    let key = match store.find_key_for(id) {
        Some(k) => k,
        None => {
            return Err(VaultError::AccountNotFound);
        },
    };
    let secret = match cipher.decrypt(key.encrypted_key.as_slice()) {
        Ok(s) => s,
        Err(e) => {
            return Err(VaultError::Crypto(e));
        },
    };
    if secret.len() != 56 {
        return Err(VaultError::KeyFormat);
    }
    let public = match derive_public(secret.as_slice()) {
        Some(p) => p,
        None => {
            return Err(VaultError::KeyFormat);
        },
    };
    if !crate::text::str_eq(public.as_str(), account.stellar_address.as_str()) {
        return Err(VaultError::KeyFormat);
    }
    let joined = AccountWithKey {
        id: account.id,
        stellar_address: account.stellar_address.clone(),
        account_type: account.account_type.clone(),
        created_at: account.created_at,
        updated_at: account.updated_at,
        status: account.status,
        encrypted_key: vstd::slice::slice_to_vec(key.encrypted_key.as_slice()),
    };
    let keypair = SigningKeypair { secret, public };
    Ok((joined, keypair))
}

} // verus!
