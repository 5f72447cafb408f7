//! Signing keypairs: generation, parsing from an encoded secret seed, and
//! derivation of the public network address.
//!
//! The derivation itself (strkey decoding, the ed25519 public key, strkey
//! encoding) is done by the ledger crates; this module names its result
//! ([`public_key_of_secret`]) and states only what their sources show.

use vstd::prelude::*;

verus! {

/// The public network address derived from the textual secret key, read as
/// bytes; `None` when the bytes are not a well-formed encoded secret seed.
/// The result is a function of the bytes alone.
pub uninterp spec fn public_key_of_secret(secret: Seq<u8>) -> Option<Seq<char>>;

/// Whether the text is a well-formed public-key network address.
pub uninterp spec fn account_id_decodes(address: Seq<char>) -> bool;

/// A well-formed decrypted seed for a given network address: the bytes have
/// the full encoded-seed length of 56 — every encoded seed has it, and it is
/// the only length the decoder behind [`public_key_of_secret`] is relied on
/// for — and they derive exactly that address.
pub open spec fn seed_for_address(secret: Seq<u8>, address: Seq<char>) -> bool {
    secret.len() == 56 && public_key_of_secret(secret) == Some(address)
}

/// A decrypted signing keypair: the encoded secret seed (as bytes) and the
/// public network address derived from it. The value lives only for the
/// duration of one signing operation and is never stored.
pub struct SigningKeypair {
    pub secret: Vec<u8>,
    pub public: String,
}

impl SigningKeypair {
    /// The secret seed has the full encoded length and the public address is
    /// the one derived from it.
    pub open spec fn wf(&self) -> bool {
        seed_for_address(self.secret@, self.public@)
    }
}

/// Law: deriving the public address from a secret key is deterministic —
/// equal secret keys always give equal addresses.
pub proof fn lemma_public_derivation_deterministic(s1: Seq<u8>, s2: Seq<u8>)
    requires
        s1 == s2,
    ensures
        public_key_of_secret(s1) == public_key_of_secret(s2),
{
}

/// Law: re-deriving the public address from the secret seed of a well-formed
/// keypair gives back exactly the address the keypair already carries.
pub proof fn lemma_rederive_public(kp: &SigningKeypair)
    requires
        kp.wf(),
    ensures
        public_key_of_secret(kp.secret@) == Some(kp.public@),
{
}

/// Relies on stellar_sdk::Keypair::random (a fresh ed25519 keypair from 32
/// random bytes), Keypair::secret_key and Keypair::public_key (the strkey
/// encodings of the seed and of the derived public key, 56 characters each).
/// A generated seed is always 32 bytes, so both encodings exist.
#[verifier::external_body]
pub(crate) fn generate_keypair() -> (r: (Vec<u8>, String))
    ensures
        public_key_of_secret(r.0@) == Some(r.1@),
        r.0@.len() == 56,
        r.1@.len() == 56,
{
    let mut kp = stellar_sdk::Keypair::random().expect("keypair generation");
    let secret = kp.secret_key().expect("a generated keypair has a seed");
    let public = kp.public_key();
    (secret.into_bytes(), public)
}

/// Relies on stellar_sdk::Keypair::from_secret_key (decodes an encoded
/// ed25519 secret seed) and Keypair::public_key (the derived public-key
/// strkey), applied to the UTF-8 text of the given bytes: the result depends
/// on the bytes alone.
///
/// The decoder indexes into its base32 decode without guarding short inputs,
/// so only bytes of the full encoded-seed length are handed to it: 56 base32
/// characters either fail strict decoding with an error or decode to well
/// over two bytes, clear of the unguarded indexing.
#[verifier::external_body]
pub(crate) fn derive_public(secret: &[u8]) -> (r: Option<String>)
    requires
        secret@.len() == 56,
    ensures
        r is Some <==> public_key_of_secret(secret@) is Some,
        r matches Some(p) ==> public_key_of_secret(secret@) == Some(p@),
{
    let text = match std::str::from_utf8(secret) {
        Ok(t) => t,
        Err(_) => return None,
    };
    match stellar_sdk::Keypair::from_secret_key(text) {
        Ok(kp) => Some(kp.public_key()),
        Err(_) => None,
    }
}

/// Relies on stellar_base::PublicKey::from_account_id: it decodes exactly
/// the well-formed ed25519 public-key network addresses.
#[verifier::external_body]
pub(crate) fn is_valid_account_id(address: &str) -> (r: bool)
    ensures
        r == account_id_decodes(address@),
{
    stellar_base::PublicKey::from_account_id(address).is_ok()
}

} // verus!
