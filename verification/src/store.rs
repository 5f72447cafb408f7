//! The local record store: accounts, their encrypted keys, trustlines and the
//! append-only transaction history.
//!
//! The store upholds the uniqueness constraints of the data model: account
//! identifiers and network addresses are unique, each account has at most one
//! encrypted key, a trustline's asset code and issuer pair is unique per
//! account, and a transaction hash identifies at most one stored row.
//! Inserts mirror database unique constraints: an insert that would violate
//! one leaves the store unchanged and says so, rather than failing loudly
//! halfway through.

use vstd::prelude::*;

use vstd::pervasive::VecAdditionalExecFns;

use crate::models::Account;
use crate::models::AccountStatus;
use crate::models::EncryptedKey;
use crate::models::Transaction;
use crate::models::TransactionError;
use crate::models::Trustline;
use crate::models::TxStatus;

verus! {

/// Whether some stored transaction carries this hash.
pub open spec fn seq_has_tx_hash(txs: Seq<Transaction>, hash: Seq<char>) -> bool {
    exists|i: int| 0 <= i < txs.len() && txs[i].transaction_hash@ == hash
}

/// How many stored transactions carry this hash.
pub open spec fn count_tx_hash(txs: Seq<Transaction>, hash: Seq<char>) -> int
    decreases txs.len(),
{
    if txs.len() == 0 {
        0
    } else {
        count_tx_hash(txs.drop_last(), hash) + if txs.last().transaction_hash@ == hash {
            1int
        } else {
            0int
        }
    }
}

/// What recording a transaction does to the stored history: nothing when the
/// hash is already present, an append otherwise.
pub open spec fn record_spec(txs: Seq<Transaction>, tx: Transaction) -> Seq<Transaction> {
    if seq_has_tx_hash(txs, tx.transaction_hash@) {
        txs
    } else {
        txs.push(tx)
    }
}

/// Law: the transaction history is append-only — recording never removes or
/// rewrites a stored row.
pub proof fn lemma_record_append_only(txs: Seq<Transaction>, tx: Transaction)
    ensures
        txs.len() <= record_spec(txs, tx).len(),
        forall|i: int| 0 <= i < txs.len() ==> record_spec(txs, tx)[i] == txs[i],
{
}

/// A hash is absent exactly when its count is zero.
pub proof fn lemma_count_zero_iff_absent(txs: Seq<Transaction>, hash: Seq<char>)
    ensures
        (count_tx_hash(txs, hash) == 0) <==> !seq_has_tx_hash(txs, hash),
        count_tx_hash(txs, hash) >= 0,
    decreases txs.len(),
{
    if txs.len() == 0 {
    } else {
        lemma_count_zero_iff_absent(txs.drop_last(), hash);
        if seq_has_tx_hash(txs, hash) {
            let i = choose|i: int| 0 <= i < txs.len() && txs[i].transaction_hash@ == hash;
            if i < txs.len() - 1 {
                assert(txs.drop_last()[i] == txs[i]);
                assert(seq_has_tx_hash(txs.drop_last(), hash));
            }
        }
        if seq_has_tx_hash(txs.drop_last(), hash) {
            let i = choose|i: int|
                0 <= i < txs.drop_last().len() && txs.drop_last()[i].transaction_hash@ == hash;
            assert(txs[i] == txs.drop_last()[i]);
            assert(seq_has_tx_hash(txs, hash));
        }
    }
}

/// Law: where transaction hashes are pairwise distinct — as the store
/// invariant holds them — a hash identifies at most one stored row.
pub proof fn lemma_hash_count_at_most_one(txs: Seq<Transaction>, hash: Seq<char>)
    requires
        forall|i: int, j: int|
            0 <= i < j < txs.len() ==> (#[trigger] txs[i].transaction_hash@) != (
            #[trigger] txs[j].transaction_hash@),
    ensures
        count_tx_hash(txs, hash) <= 1,
    decreases txs.len(),
{
    if txs.len() > 0 {
        let rest = txs.drop_last();
        assert forall|i: int, j: int|
            0 <= i < j < rest.len() implies (#[trigger] rest[i].transaction_hash@) != (
        #[trigger] rest[j].transaction_hash@) by {
            assert(rest[i] == txs[i]);
            assert(rest[j] == txs[j]);
        }
        lemma_hash_count_at_most_one(rest, hash);
        lemma_count_zero_iff_absent(rest, hash);
        if txs.last().transaction_hash@ == hash {
            if seq_has_tx_hash(rest, hash) {
                let i = choose|i: int|
                    0 <= i < rest.len() && rest[i].transaction_hash@ == hash;
                assert(txs[i] == rest[i]);
                assert(txs[i].transaction_hash@ != txs[txs.len() - 1].transaction_hash@);
            }
        }
    }
}

/// Appending one transaction raises the count of its hash by one and leaves
/// every other count unchanged.
pub proof fn lemma_count_push(txs: Seq<Transaction>, tx: Transaction, hash: Seq<char>)
    ensures
        count_tx_hash(txs.push(tx), hash) == count_tx_hash(txs, hash) + if tx.transaction_hash@
            == hash {
            1int
        } else {
            0int
        },
{
    assert(txs.push(tx).drop_last() =~= txs);
    assert(txs.push(tx).last() == tx);
}

/// The local record store.
pub struct RecordStore {
    pub accounts: Vec<Account>,
    pub keys: Vec<EncryptedKey>,
    pub transactions: Vec<Transaction>,
    pub trustlines: Vec<Trustline>,
    pub transaction_errors: Vec<TransactionError>,
}

impl RecordStore {
    /// Account identifiers are unique.
    pub open spec fn account_ids_unique(&self) -> bool {
        forall|i: int, j: int|
            0 <= i < j < self.accounts@.len() ==> (#[trigger] self.accounts@[i].id) != (
            #[trigger] self.accounts@[j].id)
    }

    /// Network addresses are unique and never reassigned.
    pub open spec fn addresses_unique(&self) -> bool {
        forall|i: int, j: int|
            0 <= i < j < self.accounts@.len() ==> (#[trigger] self.accounts@[i].stellar_address@)
                != (#[trigger] self.accounts@[j].stellar_address@)
    }

    /// Each account owns at most one encrypted key.
    pub open spec fn keys_unique(&self) -> bool {
        forall|i: int, j: int|
            0 <= i < j < self.keys@.len() ==> (#[trigger] self.keys@[i].account_id) != (
            #[trigger] self.keys@[j].account_id)
    }

    /// A transaction hash identifies at most one stored row.
    pub open spec fn tx_hashes_unique(&self) -> bool {
        forall|i: int, j: int|
            0 <= i < j < self.transactions@.len() ==> (
            #[trigger] self.transactions@[i].transaction_hash@) != (
            #[trigger] self.transactions@[j].transaction_hash@)
    }

    /// The asset code and issuer pair of a trustline is unique per account.
    pub open spec fn trustlines_unique(&self) -> bool {
        forall|i: int, j: int|
            0 <= i < j < self.trustlines@.len() ==> !((#[trigger] self.trustlines@[i]).account_id
                == (#[trigger] self.trustlines@[j]).account_id && self.trustlines@[i].asset_code@
                == self.trustlines@[j].asset_code@ && self.trustlines@[i].asset_issuer@
                == self.trustlines@[j].asset_issuer@)
    }

    /// The store's uniqueness invariants, together.
    pub open spec fn wf(&self) -> bool {
        &&& self.account_ids_unique()
        &&& self.addresses_unique()
        &&& self.keys_unique()
        &&& self.tx_hashes_unique()
        &&& self.trustlines_unique()
    }

    /// Whether an account with this identifier is stored.
    pub open spec fn has_account_id(&self, id: u128) -> bool {
        exists|i: int| 0 <= i < self.accounts@.len() && self.accounts@[i].id == id
    }

    /// Whether an account with this network address is stored.
    pub open spec fn has_address(&self, address: Seq<char>) -> bool {
        exists|i: int|
            0 <= i < self.accounts@.len() && self.accounts@[i].stellar_address@ == address
    }

    /// The index of the account with this identifier.
    pub open spec fn account_index_of(&self, id: u128) -> int {
        choose|i: int| 0 <= i < self.accounts@.len() && self.accounts@[i].id == id
    }

    /// The stored account with this identifier.
    pub open spec fn account_with_id(&self, id: u128) -> Account
        recommends
            self.has_account_id(id),
    {
        self.accounts@[self.account_index_of(id)]
    }

    /// The stored account with this network address.
    pub open spec fn account_with_address(&self, address: Seq<char>) -> Account
        recommends
            self.has_address(address),
    {
        self.accounts@[choose|i: int|
            0 <= i < self.accounts@.len() && self.accounts@[i].stellar_address@ == address]
    }

    /// Whether an encrypted key for this account is stored.
    pub open spec fn has_key_for(&self, account_id: u128) -> bool {
        exists|i: int| 0 <= i < self.keys@.len() && self.keys@[i].account_id == account_id
    }

    /// The stored encrypted key of this account.
    pub open spec fn key_for(&self, account_id: u128) -> EncryptedKey
        recommends
            self.has_key_for(account_id),
    {
        self.keys@[choose|i: int|
            0 <= i < self.keys@.len() && self.keys@[i].account_id == account_id]
    }

    /// Whether this account already trusts this asset.
    pub open spec fn has_trustline(
        &self,
        account_id: u128,
        asset_code: Seq<char>,
        asset_issuer: Seq<char>,
    ) -> bool {
        exists|i: int|
            0 <= i < self.trustlines@.len() && self.trustlines@[i].account_id == account_id
                && self.trustlines@[i].asset_code@ == asset_code
                && self.trustlines@[i].asset_issuer@ == asset_issuer
    }

    /// Whether a failed transaction with this identifier is stored.
    pub open spec fn has_failed_tx_with_id(&self, id: u128) -> bool {
        exists|i: int|
            0 <= i < self.transactions@.len() && self.transactions@[i].id == id
                && self.transactions@[i].status == TxStatus::Failed
    }

    /// An empty store.
    pub fn new() -> (s: RecordStore)
        ensures
            s.wf(),
            s.accounts@.len() == 0,
            s.keys@.len() == 0,
            s.transactions@.len() == 0,
            s.trustlines@.len() == 0,
            s.transaction_errors@.len() == 0,
    {
        RecordStore {
            accounts: Vec::new(),
            keys: Vec::new(),
            transactions: Vec::new(),
            trustlines: Vec::new(),
            transaction_errors: Vec::new(),
        }
    }

    /// Looks up an account by identifier.
    pub fn find_account(&self, id: u128) -> (r: Option<&Account>)
        requires
            self.wf(),
        ensures
            r is Some <==> self.has_account_id(id),
            r matches Some(a) ==> *a == self.account_with_id(id) && a.id == id,
    {
        let mut i: usize = 0;
        while i < self.accounts.len()
            invariant
                self.wf(),
                i <= self.accounts@.len(),
                forall|j: int| 0 <= j < i ==> self.accounts@[j].id != id,
            decreases self.accounts@.len() - i,
        {
            if self.accounts[i].id == id {
                proof {
                    assert(self.has_account_id(id));
                    let k = self.account_index_of(id);
                    if k < i as int {
                        assert(self.accounts@[k].id != self.accounts@[i as int].id);
                    } else if k > i as int {
                        assert(self.accounts@[i as int].id != self.accounts@[k].id);
                    }
                }
                return Some(&self.accounts[i]);
            }
            i = i + 1;
        }
        None
    }

    /// Looks up an account by network address.
    pub fn find_account_by_address(&self, address: &str) -> (r: Option<&Account>)
        requires
            self.wf(),
        ensures
            r is Some <==> self.has_address(address@),
            r matches Some(a) ==> *a == self.account_with_address(address@)
                && a.stellar_address@ == address@,
    {
        let mut i: usize = 0;
        while i < self.accounts.len()
            invariant
                self.wf(),
                i <= self.accounts@.len(),
                forall|j: int| 0 <= j < i ==> self.accounts@[j].stellar_address@ != address@,
            decreases self.accounts@.len() - i,
        {
            if crate::text::str_eq(self.accounts[i].stellar_address.as_str(), address) {
                proof {
                    assert(self.has_address(address@));
                    let k = choose|k: int|
                        0 <= k < self.accounts@.len() && self.accounts@[k].stellar_address@
                            == address@;
                    if k < i as int {
                        assert(self.accounts@[k].stellar_address@
                            != self.accounts@[i as int].stellar_address@);
                    } else if k > i as int {
                        assert(self.accounts@[i as int].stellar_address@
                            != self.accounts@[k].stellar_address@);
                    }
                }
                return Some(&self.accounts[i]);
            }
            i = i + 1;
        }
        None
    }

    /// Looks up the encrypted key of an account.
    pub fn find_key_for(&self, account_id: u128) -> (r: Option<&EncryptedKey>)
        requires
            self.wf(),
        ensures
            r is Some <==> self.has_key_for(account_id),
            r matches Some(k) ==> *k == self.key_for(account_id) && k.account_id == account_id,
    {
        let mut i: usize = 0;
        while i < self.keys.len()
            invariant
                self.wf(),
                i <= self.keys@.len(),
                forall|j: int| 0 <= j < i ==> self.keys@[j].account_id != account_id,
            decreases self.keys@.len() - i,
        {
            if self.keys[i].account_id == account_id {
                proof {
                    assert(self.has_key_for(account_id));
                    let k = choose|k: int|
                        0 <= k < self.keys@.len() && self.keys@[k].account_id == account_id;
                    if k < i as int {
                        assert(self.keys@[k].account_id != self.keys@[i as int].account_id);
                    } else if k > i as int {
                        assert(self.keys@[i as int].account_id != self.keys@[k].account_id);
                    }
                }
                return Some(&self.keys[i]);
            }
            i = i + 1;
        }
        None
    }

    /// Inserts a new account together with its encrypted key, atomically:
    /// either both rows appear or neither does. Mirrors the database unique
    /// constraints: a duplicate identifier, address or key leaves the store
    /// unchanged.
    pub fn insert_account_with_key(&mut self, account: Account, key: EncryptedKey) -> (ok: bool)
        requires
            old(self).wf(),
            key.account_id == account.id,
        ensures
            final(self).wf(),
            ok <==> (!old(self).has_account_id(account.id) && !old(self).has_address(
                account.stellar_address@,
            ) && !old(self).has_key_for(account.id)),
            ok ==> final(self).accounts@ == old(self).accounts@.push(account) && final(self).keys@
                == old(self).keys@.push(key),
            !ok ==> *final(self) == *old(self),
            final(self).transactions@ == old(self).transactions@,
            final(self).trustlines@ == old(self).trustlines@,
            final(self).transaction_errors@ == old(self).transaction_errors@,
    {
        let id_taken = self.find_account(account.id).is_some();
        let address_taken = self.find_account_by_address(account.stellar_address.as_str()).is_some();
        let key_taken = self.find_key_for(account.id).is_some();
        if id_taken || address_taken || key_taken {
            return false;
        }
        proof {
            let accs = self.accounts@;
            let n = accs.len() as int;
            assert forall|i: int, j: int|
                0 <= i < j < accs.push(account).len() implies accs.push(account)[i].id != accs.push(
                account,
            )[j].id by {
                if j < n {
                    assert(accs.push(account)[i] == accs[i]);
                    assert(accs.push(account)[j] == accs[j]);
                } else {
                    assert(accs.push(account)[i] == accs[i]);
                    assert(accs.push(account)[j] == account);
                }
            }
            assert forall|i: int, j: int|
                0 <= i < j < accs.push(account).len() implies accs.push(
                account,
            )[i].stellar_address@ != accs.push(account)[j].stellar_address@ by {
                if j < n {
                    assert(accs.push(account)[i] == accs[i]);
                    assert(accs.push(account)[j] == accs[j]);
                } else {
                    assert(accs.push(account)[i] == accs[i]);
                    assert(accs.push(account)[j] == account);
                }
            }
            let ks = self.keys@;
            let m = ks.len() as int;
            assert forall|i: int, j: int|
                0 <= i < j < ks.push(key).len() implies ks.push(key)[i].account_id != ks.push(
                key,
            )[j].account_id by {
                if j < m {
                    assert(ks.push(key)[i] == ks[i]);
                    assert(ks.push(key)[j] == ks[j]);
                } else {
                    assert(ks.push(key)[i] == ks[i]);
                    assert(ks.push(key)[j] == key);
                }
            }
        }
        self.accounts.push(account);
        self.keys.push(key);
        true
    }

    /// Records a transaction row idempotently with respect to its hash: a
    /// row whose hash is already stored is not inserted again. Returns
    /// whether the row was fresh.
    pub fn insert_transaction(&mut self, tx: Transaction) -> (fresh: bool)
        requires
            old(self).wf(),
        ensures
            final(self).wf(),
            final(self).transactions@ == record_spec(old(self).transactions@, tx),
            fresh <==> !seq_has_tx_hash(old(self).transactions@, tx.transaction_hash@),
            final(self).accounts@ == old(self).accounts@,
            final(self).keys@ == old(self).keys@,
            final(self).trustlines@ == old(self).trustlines@,
            final(self).transaction_errors@ == old(self).transaction_errors@,
    {
        let mut i: usize = 0;
        while i < self.transactions.len()
            invariant
                *self == *old(self),
                self.wf(),
                i <= self.transactions@.len(),
                forall|j: int|
                    0 <= j < i ==> self.transactions@[j].transaction_hash@
                        != tx.transaction_hash@,
            decreases self.transactions@.len() - i,
        {
            if crate::text::str_eq(
                self.transactions[i].transaction_hash.as_str(),
                tx.transaction_hash.as_str(),
            ) {
                proof {
                    assert(seq_has_tx_hash(self.transactions@, tx.transaction_hash@));
                }
                return false;
            }
            i = i + 1;
        }
        proof {
            let txs = self.transactions@;
            let n = txs.len() as int;
            assert forall|i: int, j: int|
                0 <= i < j < txs.push(tx).len() implies txs.push(tx)[i].transaction_hash@
                != txs.push(tx)[j].transaction_hash@ by {
                if j < n {
                    assert(txs.push(tx)[i] == txs[i]);
                    assert(txs.push(tx)[j] == txs[j]);
                } else {
                    assert(txs.push(tx)[i] == txs[i]);
                    assert(txs.push(tx)[j] == tx);
                }
            }
        }
        self.transactions.push(tx);
        true
    }

    /// Conditionally flips an account's status: the update applies only when
    /// the stored status still equals `expected`, the compare-and-swap that
    /// serializes conflicting transitions. Returns whether a row was updated.
    pub fn set_status_if(
        &mut self,
        id: u128,
        expected: AccountStatus,
        new_status: AccountStatus,
        now: i64,
    ) -> (ok: bool)
        requires
            old(self).wf(),
        ensures
            final(self).wf(),
            ok <==> (old(self).has_account_id(id) && old(self).account_with_id(id).status
                == expected),
            ok ==> final(self).accounts@ == old(self).accounts@.update(
                old(self).account_index_of(id),
                (Account {
                    status: new_status,
                    updated_at: Some(now),
                    ..old(self).account_with_id(id)
                }),
            ),
            !ok ==> *final(self) == *old(self),
            final(self).keys@ == old(self).keys@,
            final(self).transactions@ == old(self).transactions@,
            final(self).trustlines@ == old(self).trustlines@,
            final(self).transaction_errors@ == old(self).transaction_errors@,
    {
        let mut i: usize = 0;
        while i < self.accounts.len()
            invariant
                *self == *old(self),
                self.wf(),
                i <= self.accounts@.len(),
                forall|j: int| 0 <= j < i ==> self.accounts@[j].id != id,
            decreases self.accounts@.len() - i,
        {
            if self.accounts[i].id == id {
                proof {
                    assert(self.has_account_id(id));
                    let k = self.account_index_of(id);
                    if k < i as int {
                        assert(self.accounts@[k].id != self.accounts@[i as int].id);
                    } else if k > i as int {
                        assert(self.accounts@[i as int].id != self.accounts@[k].id);
                    }
                }
                if self.accounts[i].status == expected {
                    let cur = &self.accounts[i];
                    let updated = Account {
                        id: cur.id,
                        stellar_address: cur.stellar_address.clone(),
                        account_type: cur.account_type.clone(),
                        created_at: cur.created_at,
                        updated_at: Some(now),
                        status: new_status,
                    };
                    proof {
                        let accs = self.accounts@;
                        let upd = accs.update(i as int, updated);
                        assert forall|p: int, q: int|
                            0 <= p < q < upd.len() implies upd[p].id != upd[q].id by {
                            assert(accs[p].id != accs[q].id);
                            assert(upd[p].id == accs[p].id);
                            assert(upd[q].id == accs[q].id);
                        }
                        assert forall|p: int, q: int|
                            0 <= p < q < upd.len() implies upd[p].stellar_address@
                            != upd[q].stellar_address@ by {
                            assert(accs[p].stellar_address@ != accs[q].stellar_address@);
                            assert(upd[p].stellar_address@ == accs[p].stellar_address@);
                            assert(upd[q].stellar_address@ == accs[q].stellar_address@);
                        }
                    }
                    self.accounts.set(i, updated);
                    return true;
                } else {
                    return false;
                }
            }
            i = i + 1;
        }
        false
    }

    /// Inserts a trustline unless the account already trusts the asset; the
    /// pair of asset code and issuer is unique per account. Returns whether
    /// the row was fresh.
    pub fn insert_trustline(&mut self, t: Trustline) -> (fresh: bool)
        requires
            old(self).wf(),
        ensures
            final(self).wf(),
            fresh <==> !old(self).has_trustline(t.account_id, t.asset_code@, t.asset_issuer@),
            fresh ==> final(self).trustlines@ == old(self).trustlines@.push(t),
            !fresh ==> *final(self) == *old(self),
            final(self).accounts@ == old(self).accounts@,
            final(self).keys@ == old(self).keys@,
            final(self).transactions@ == old(self).transactions@,
            final(self).transaction_errors@ == old(self).transaction_errors@,
    {
        let mut i: usize = 0;
        while i < self.trustlines.len()
            invariant
                *self == *old(self),
                self.wf(),
                i <= self.trustlines@.len(),
                forall|j: int|
                    0 <= j < i ==> !(self.trustlines@[j].account_id == t.account_id
                        && self.trustlines@[j].asset_code@ == t.asset_code@
                        && self.trustlines@[j].asset_issuer@ == t.asset_issuer@),
            decreases self.trustlines@.len() - i,
        {
            if self.trustlines[i].account_id == t.account_id && crate::text::str_eq(
                self.trustlines[i].asset_code.as_str(),
                t.asset_code.as_str(),
            ) && crate::text::str_eq(
                self.trustlines[i].asset_issuer.as_str(),
                t.asset_issuer.as_str(),
            ) {
                proof {
                    assert(self.has_trustline(t.account_id, t.asset_code@, t.asset_issuer@));
                }
                return false;
            }
            i = i + 1;
        }
        proof {
            let ts = self.trustlines@;
            let n = ts.len() as int;
            assert forall|p: int, q: int|
                0 <= p < q < ts.push(t).len() implies !(ts.push(t)[p].account_id == ts.push(
                t,
            )[q].account_id && ts.push(t)[p].asset_code@ == ts.push(t)[q].asset_code@ && ts.push(
                t,
            )[p].asset_issuer@ == ts.push(t)[q].asset_issuer@) by {
                if q < n {
                    assert(ts.push(t)[p] == ts[p]);
                    assert(ts.push(t)[q] == ts[q]);
                } else {
                    assert(ts.push(t)[p] == ts[p]);
                    assert(ts.push(t)[q] == t);
                }
            }
        }
        self.trustlines.push(t);
        true
    }

    /// Records a diagnostic error row for a stored, failed transaction.
    /// Returns whether such a transaction exists; otherwise nothing is
    /// stored.
    pub fn insert_transaction_error(&mut self, e: TransactionError) -> (ok: bool)
        requires
            old(self).wf(),
        ensures
            final(self).wf(),
            ok <==> old(self).has_failed_tx_with_id(e.transaction_id),
            ok ==> final(self).transaction_errors@ == old(self).transaction_errors@.push(e),
            !ok ==> *final(self) == *old(self),
            final(self).accounts@ == old(self).accounts@,
            final(self).keys@ == old(self).keys@,
            final(self).transactions@ == old(self).transactions@,
            final(self).trustlines@ == old(self).trustlines@,
    {
        let mut i: usize = 0;
        while i < self.transactions.len()
            invariant
                *self == *old(self),
                self.wf(),
                i <= self.transactions@.len(),
                forall|j: int|
                    0 <= j < i ==> !(self.transactions@[j].id == e.transaction_id
                        && self.transactions@[j].status == TxStatus::Failed),
            decreases self.transactions@.len() - i,
        {
            if self.transactions[i].id == e.transaction_id && self.transactions[i].status
                == TxStatus::Failed {
                proof {
                    assert(self.has_failed_tx_with_id(e.transaction_id));
                }
                self.transaction_errors.push(e);
                return true;
            }
            i = i + 1;
        }
        false
    }
}

} // verus!
