//! Durable recording of submission outcomes: translates network addresses to
//! local account identifiers and appends an immutable transaction row.
//!
//! Recording is idempotent with respect to the transaction hash: a duplicate
//! call with the same hash leaves exactly one stored row. A side whose
//! address is no known local account is recorded with the external marker
//! (`None`); when neither side is local the transaction is not ours to
//! record and recording fails with `UnknownCounterparty`.

use vstd::prelude::*;

use crate::chain::SubmissionResult;
use crate::clock::parse_rfc3339_micros;
use crate::clock::rfc3339_utc_micros;
use crate::errors::RecorderError;
use crate::models::Transaction;
use crate::models::TxStatus;
use crate::store::count_tx_hash;
use crate::store::lemma_count_push;
use crate::store::lemma_count_zero_iff_absent;
use crate::store::record_spec;
use crate::store::seq_has_tx_hash;
use crate::store::RecordStore;

verus! {

/// The view of an optional string.
pub open spec fn opt_text(o: Option<String>) -> Option<Seq<char>> {
    match o {
        Some(s) => Some(s@),
        None => None,
    }
}

/// The local account identifier recorded for a network address: the stored
/// account's identifier, or the external marker when the address is not
/// local.
pub open spec fn resolved_id(store: RecordStore, address: Seq<char>) -> Option<u128> {
    if store.has_address(address) {
        Some(store.account_with_address(address).id)
    } else {
        None
    }
}

/// The transaction row that recording a submission result builds: status
/// derived strictly from the network-reported success flag, the timestamp
/// from the network-reported creation time, and each side resolved against
/// the store.
pub open spec fn tx_matches(
    tx: Transaction,
    store: RecordStore,
    result: SubmissionResult,
    source_address: Seq<char>,
    destination_address: Seq<char>,
    asset_code: Seq<char>,
    amount: u64,
    record_id: u128,
) -> bool {
    &&& tx.id == record_id
    &&& tx.source_account_id == resolved_id(store, source_address)
    &&& tx.destination_account_id == resolved_id(store, destination_address)
    &&& tx.transaction_hash@ == result.hash@
    &&& tx.amount == amount
    &&& tx.asset_code@ == asset_code
    &&& opt_text(tx.memo) == opt_text(result.memo)
    &&& tx.created_at == (match rfc3339_utc_micros(result.created_at@) {
        Some(v) => Some(v as i64),
        None => None::<i64>,
    })
    &&& tx.status == (if result.successful {
        TxStatus::Success
    } else {
        TxStatus::Failed
    })
}

/// Law: recording a transaction hash a second time changes nothing, and a
/// hash recorded twice from fresh is stored exactly once.
pub proof fn lemma_record_idempotent(txs: Seq<Transaction>, t1: Transaction, t2: Transaction)
    requires
        t2.transaction_hash@ == t1.transaction_hash@,
    ensures
        record_spec(record_spec(txs, t1), t2) == record_spec(txs, t1),
        !seq_has_tx_hash(txs, t1.transaction_hash@) ==> count_tx_hash(
            record_spec(record_spec(txs, t1), t2),
            t1.transaction_hash@,
        ) == 1,
{
    let h = t1.transaction_hash@;
    let once = record_spec(txs, t1);
    if seq_has_tx_hash(txs, h) {
        assert(record_spec(once, t2) == once);
    } else {
        assert(once == txs.push(t1));
        assert(once[txs.len() as int] == t1);
        assert(seq_has_tx_hash(once, h));
        assert(record_spec(once, t2) == once);
        lemma_count_zero_iff_absent(txs, h);
        lemma_count_push(txs, t1, h);
    }
}

/// Persists the outcome of a submitted ledger transaction, keyed to the
/// local account identifiers; both sides may be external, but not at once.
/// The insert is idempotent with respect to the transaction hash.
pub fn save_chain_transaction(
    store: &mut RecordStore,
    result: &SubmissionResult,
    source_address: &str,
    destination_address: &str,
    asset_code: &str,
    amount: u64,
    record_id: u128,
) -> (r: Result<(), RecorderError>)
    requires
        old(store).wf(),
    ensures
        final(store).wf(),
        r is Ok <==> (old(store).has_address(source_address@) || old(store).has_address(
            destination_address@,
        )),
        r is Err ==> r == Err::<(), RecorderError>(RecorderError::UnknownCounterparty)
            && *final(store) == *old(store),
        r is Ok ==> exists|tx: Transaction|
            {
                &&& #[trigger] tx_matches(
                    tx,
                    *old(store),
                    *result,
                    source_address@,
                    destination_address@,
                    asset_code@,
                    amount,
                    record_id,
                )
                &&& final(store).transactions@ == record_spec(old(store).transactions@, tx)
            },
        final(store).accounts@ == old(store).accounts@,
        final(store).keys@ == old(store).keys@,
        final(store).trustlines@ == old(store).trustlines@,
        final(store).transaction_errors@ == old(store).transaction_errors@,
{
    let source_id: Option<u128> = match store.find_account_by_address(source_address) {
        Some(a) => Some(a.id),
        None => None,
    };
    let destination_id: Option<u128> = match store.find_account_by_address(destination_address) {
        Some(a) => Some(a.id),
        None => None,
    };
    if source_id.is_none() && destination_id.is_none() {
        return Err(RecorderError::UnknownCounterparty);
    }
    let created_at = parse_rfc3339_micros(result.created_at.as_str());
    let tx = Transaction {
        id: record_id,
        source_account_id: source_id,
        destination_account_id: destination_id,
        transaction_hash: result.hash.clone(),
        amount,
        asset_code: asset_code.to_owned(),
        memo: crate::text::clone_opt_string(&result.memo),
        created_at,
        status: if result.successful {
            TxStatus::Success
        } else {
            TxStatus::Failed
        },
    };
    let ghost gtx = tx;
    store.insert_transaction(tx);
    proof {
        assert(tx_matches(
            gtx,
            *old(store),
            *result,
            source_address@,
            destination_address@,
            asset_code@,
            amount,
            record_id,
        ));
    }
    Ok(())
}

} // verus!
