//! Symmetric encryption of raw secret-key bytes with a process-wide key and
//! initialization vector.
//!
//! The scheme is a keyed stream construction: each plaintext byte is combined
//! with a keystream byte drawn from the key and the initialization vector, and
//! a four-byte integrity tag over the ciphertext body is prepended. Decryption
//! recomputes the tag and rejects any ciphertext that fails verification.
//! The construction is fully specified here and the round trip
//! `decrypt(encrypt(p)) == p` is proved below ([`lemma_decrypt_encrypt`]).
//!
//! This is a fully specified model of authenticated encryption, not a vetted
//! cipher: the round trip and tamper rejection are proved, but no
//! cryptographic strength is claimed of the keystream or the tag, and the
//! fixed process-wide initialization vector means equal plaintexts yield
//! equal ciphertexts, so ciphertexts can be correlated. A deployment would
//! substitute a vetted authenticated scheme with per-record nonces behind
//! this same contract.

use vstd::prelude::*;

use crate::errors::CryptoError;

verus! {

/// The key material lengths the cipher accepts: a 32-byte key and a 16-byte
/// initialization vector.
pub open spec fn cipher_wf(key: Seq<u8>, iv: Seq<u8>) -> bool {
    key.len() == 32 && iv.len() == 16
}

/// The keystream byte at position `i`.
pub open spec fn keystream_byte(key: Seq<u8>, iv: Seq<u8>, i: int) -> u8
    recommends
        cipher_wf(key, iv),
        i >= 0,
{
    key[i % (key.len() as int)] ^ iv[i % (iv.len() as int)]
}

/// `data` combined byte-wise with the keystream. Applying it twice restores
/// the input.
pub open spec fn xor_body(key: Seq<u8>, iv: Seq<u8>, data: Seq<u8>) -> Seq<u8> {
    Seq::new(data.len(), |i: int| data[i] ^ keystream_byte(key, iv, i))
}

/// The integrity accumulator over the first `n` bytes of `data`: a running
/// product-and-add folded into 32 bits.
pub open spec fn tag_acc(data: Seq<u8>, n: int) -> int
    decreases n,
{
    if n <= 0 {
        0
    } else {
        (tag_acc(data, n - 1) * 31 + data[n - 1]) % 0x1_0000_0000
    }
}

/// The integrity tag value over a ciphertext body, keyed by running the
/// accumulator over the key bytes first.
pub open spec fn tag_of(key: Seq<u8>, body: Seq<u8>) -> int {
    tag_acc(key + body, (key + body).len() as int)
}

/// The four tag bytes, least significant first.
pub open spec fn tag_bytes(t: int) -> Seq<u8> {
    seq![
        (t % 256) as u8,
        ((t / 256) % 256) as u8,
        ((t / 65536) % 256) as u8,
        ((t / 16777216) % 256) as u8,
    ]
}

/// The ciphertext for `plaintext`: the tag over the body, then the body.
pub open spec fn encrypt_spec(key: Seq<u8>, iv: Seq<u8>, plaintext: Seq<u8>) -> Seq<u8> {
    tag_bytes(tag_of(key, xor_body(key, iv, plaintext))) + xor_body(key, iv, plaintext)
}

/// The plaintext recovered from `ciphertext`, or `None` when the ciphertext
/// is too short or its tag does not verify.
pub open spec fn decrypt_spec(key: Seq<u8>, iv: Seq<u8>, ciphertext: Seq<u8>) -> Option<Seq<u8>> {
    if ciphertext.len() >= 4 && ciphertext.take(4) == tag_bytes(
        tag_of(key, ciphertext.skip(4)),
    ) {
        Some(xor_body(key, iv, ciphertext.skip(4)))
    } else {
        None
    }
}

/// Combining a byte with the same keystream byte twice restores it.
pub proof fn lemma_xor_cancel(a: u8, b: u8)
    ensures
        ((a ^ b) ^ b) == a,
{
    assert(((a ^ b) ^ b) == a) by (bit_vector);
}

/// Law: for every key, initialization vector and plaintext, decrypting an
/// encryption restores the plaintext exactly.
pub proof fn lemma_decrypt_encrypt(key: Seq<u8>, iv: Seq<u8>, plaintext: Seq<u8>)
    requires
        cipher_wf(key, iv),
    ensures
        decrypt_spec(key, iv, encrypt_spec(key, iv, plaintext)) == Some(plaintext),
{
    let body = xor_body(key, iv, plaintext);
    let tb = tag_bytes(tag_of(key, body));
    let c = encrypt_spec(key, iv, plaintext);
    assert(c.take(4) =~= tb);
    assert(c.skip(4) =~= body);
    assert forall|i: int| 0 <= i < plaintext.len() implies xor_body(key, iv, body)[i]
        == plaintext[i] by {
        lemma_xor_cancel(plaintext[i], keystream_byte(key, iv, i));
    }
    assert(xor_body(key, iv, body) =~= plaintext);
}

/// The key cipher: holds the process-wide key material, explicitly
/// constructed and passed to every component that needs it.
pub struct KeyCipher {
    pub key: Vec<u8>,
    pub iv: Vec<u8>,
}

impl KeyCipher {
    /// The cipher holds key material of the accepted lengths.
    pub open spec fn wf(&self) -> bool {
        cipher_wf(self.key@, self.iv@)
    }

    /// Builds a cipher from configured key material. Fails when the key or
    /// the initialization vector has the wrong length.
    pub fn new(key: Vec<u8>, iv: Vec<u8>) -> (r: Result<KeyCipher, CryptoError>)
        ensures
            r is Ok <==> cipher_wf(key@, iv@),
            r matches Ok(c) ==> c.key@ == key@ && c.iv@ == iv@ && c.wf(),
            r is Err ==> r == Err::<KeyCipher, CryptoError>(CryptoError::MalformedKeyMaterial),
    {
        if key.len() == 32 && iv.len() == 16 {
            Ok(KeyCipher { key, iv })
        } else {
            Err(CryptoError::MalformedKeyMaterial)
        }
    }

    /// The keystream byte at position `i`.
    fn keystream_at(&self, i: usize) -> (b: u8)
        requires
            self.wf(),
        ensures
            b == keystream_byte(self.key@, self.iv@, i as int),
    {
        self.key[i % self.key.len()] ^ self.iv[i % self.iv.len()]
    }

    /// Combines `data` byte-wise with the keystream.
    fn apply_keystream(&self, data: &[u8]) -> (out: Vec<u8>)
        requires
            self.wf(),
        ensures
            out@ == xor_body(self.key@, self.iv@, data@),
    {
        let mut out: Vec<u8> = Vec::new();
        let mut i: usize = 0;
        while i < data.len()
            invariant
                self.wf(),
                i <= data@.len(),
                out@.len() == i,
                forall|j: int|
                    0 <= j < i ==> out@[j] == (data@[j] ^ keystream_byte(self.key@, self.iv@, j)),
            decreases data@.len() - i,
        {
            let b = data[i] ^ self.keystream_at(i);
            out.push(b);
            i = i + 1;
        }
        assert(out@ =~= xor_body(self.key@, self.iv@, data@));
        out
    }

    /// The integrity tag value over a ciphertext body.
    fn tag_value(&self, body: &[u8]) -> (t: u64)
        requires
            self.wf(),
        ensures
            t as int == tag_of(self.key@, body@),
            t < 0x1_0000_0000,
    {
        let ghost all = self.key@ + body@;
        let mut t: u64 = 0;
        let mut i: usize = 0;
        while i < self.key.len()
            invariant
                self.wf(),
                i <= self.key@.len(),
                t as int == tag_acc(all, i as int),
                t < 0x1_0000_0000,
                all == self.key@ + body@,
            decreases self.key@.len() - i,
        {
            assert(all[i as int] == self.key@[i as int]);
            t = (t * 31 + (self.key[i] as u64)) % 0x1_0000_0000;
            i = i + 1;
        }
        let mut j: usize = 0;
        while j < body.len()
            invariant
                self.wf(),
                j <= body@.len(),
                t as int == tag_acc(all, self.key@.len() + j),
                t < 0x1_0000_0000,
                all == self.key@ + body@,
            decreases body@.len() - j,
        {
            assert(all[self.key@.len() + j as int] == body@[j as int]);
            t = (t * 31 + (body[j] as u64)) % 0x1_0000_0000;
            j = j + 1;
        }
        assert(all.len() == self.key@.len() + body@.len());
        t
    }

    /// Encrypts raw secret-key bytes. The result carries its own integrity
    /// tag; only this cipher's key material can produce or verify it.
    pub fn encrypt(&self, plaintext: &[u8]) -> (c: Vec<u8>)
        requires
            self.wf(),
        ensures
            c@ == encrypt_spec(self.key@, self.iv@, plaintext@),
    {
        let body = self.apply_keystream(plaintext);
        let t = self.tag_value(body.as_slice());
        let mut c: Vec<u8> = Vec::new();
        c.push((t % 256) as u8);
        c.push(((t / 256) % 256) as u8);
        c.push(((t / 65536) % 256) as u8);
        c.push(((t / 16777216) % 256) as u8);
        let mut i: usize = 0;
        while i < body.len()
            invariant
                c@.len() == 4 + i,
                i <= body@.len(),
                c@.take(4) == tag_bytes(t as int),
                forall|j: int| 0 <= j < i ==> c@[4 + j] == body@[j],
            decreases body@.len() - i,
        {
            let b = body[i];
            c.push(b);
            i = i + 1;
        }
        assert(c@ =~= encrypt_spec(self.key@, self.iv@, plaintext@));
        c
    }

    /// Decrypts a ciphertext produced by [`KeyCipher::encrypt`]. Fails when
    /// the ciphertext is too short or its integrity tag does not verify.
    pub fn decrypt(&self, ciphertext: &[u8]) -> (r: Result<Vec<u8>, CryptoError>)
        requires
            self.wf(),
        ensures
            decrypt_spec(self.key@, self.iv@, ciphertext@) matches Some(p) ==> (r matches Ok(v)
                && v@ == p),
            decrypt_spec(self.key@, self.iv@, ciphertext@) is None ==> r == Err::<
                Vec<u8>,
                CryptoError,
            >(CryptoError::IntegrityCheckFailed),
    {
        if ciphertext.len() < 4 {
            return Err(CryptoError::IntegrityCheckFailed);
        }
        let body = vstd::slice::slice_subrange(ciphertext, 4, ciphertext.len());
        assert(body@ =~= ciphertext@.skip(4));
        let t = self.tag_value(body);
        let b0 = (t % 256) as u8;
        let b1 = ((t / 256) % 256) as u8;
        let b2 = ((t / 65536) % 256) as u8;
        let b3 = ((t / 16777216) % 256) as u8;
        let ghost tb = tag_bytes(t as int);
        if *vstd::slice::slice_index_get(ciphertext, 0) == b0 && *vstd::slice::slice_index_get(
            ciphertext,
            1,
        ) == b1 && *vstd::slice::slice_index_get(ciphertext, 2) == b2
            && *vstd::slice::slice_index_get(ciphertext, 3) == b3 {
            assert(ciphertext@.take(4) =~= tb);
            let out = self.apply_keystream(body);
            Ok(out)
        } else {
            proof {
                if ciphertext@.take(4) == tb {
                    assert(ciphertext@.take(4)[0] == tb[0]);
                    assert(ciphertext@.take(4)[1] == tb[1]);
                    assert(ciphertext@.take(4)[2] == tb[2]);
                    assert(ciphertext@.take(4)[3] == tb[3]);
                }
            }
            Err(CryptoError::IntegrityCheckFailed)
        }
    }
}

} // verus!
