//! The laws of the ledger.
//!
//! Each proof function here states, over the model transition [`apply`], a
//! property that holds of every ledger history, and proves it from the
//! definitions in [`crate::model`] and the invariants of well-formed
//! states. The executable processor is tied to the same transition by the
//! contract of [`crate::ledger::TransactionProcessor::process`].

use vstd::prelude::*;

use crate::model::LedgerView;
use crate::model::ProcessingError;
use crate::model::apply;
use crate::model::apply_amendment;
use crate::model::apply_transfer;
use crate::model::deposit_contribution;
use crate::model::withdrawal_contribution;
use crate::records::Amendment;
use crate::records::AmendmentType;
use crate::records::Transaction;
use crate::records::Transfer;
use crate::sums::amount_sum;
use crate::sums::lemma_amount_sum_insert;
use crate::sums::transfer_contribution;
use crate::sums::lemma_amount_sum_nonneg;
use crate::sums::lemma_amount_sum_remove;
use crate::sums::lemma_id_set_len_bounded;
use crate::sums::lemma_sum_by_agree;
use crate::sums::lemma_sum_by_bounded;
use crate::sums::lemma_sum_by_insert;
use crate::sums::lemma_sum_by_nonneg;
use crate::sums::lemma_sum_by_zero;

verus! {

/// A client without an account owns no recorded transfer, so all its totals
/// vanish: it has deposited and withdrawn nothing, and none of its transfers
/// can be disputed or charged back.
pub proof fn lemma_absent_client_has_no_totals(s: LedgerView, client: u16)
    requires
        s.wf(),
        !s.accounts.contains_key(client),
    ensures
        s.deposited_total(client) == 0,
        s.withdrawn_total(client) == 0,
        s.disputed_total(client) == 0,
        s.charged_back_total(client) == 0,
{
    assert forall|tx: u32| s.transfers.dom().contains(tx) implies deposit_contribution(
        s.transfers,
        client,
        tx,
    ) == 0 && withdrawal_contribution(s.transfers, client, tx) == 0 by {
        assert(s.transfers.contains_key(tx));
    }
    lemma_sum_by_zero(
        s.transfers.dom(),
        |tx: u32| deposit_contribution(s.transfers, client, tx),
    );
    lemma_sum_by_zero(
        s.transfers.dom(),
        |tx: u32| withdrawal_contribution(s.transfers, client, tx),
    );
    assert forall|tx: u32|
        s.in_dispute.contains(tx) || s.charged_back.contains(tx) implies transfer_contribution(
        s.transfers,
        client,
        tx,
    ) == 0 by {
        assert(s.transfers.contains_key(tx));
    }
    lemma_sum_by_zero(s.in_dispute, |tx: u32| transfer_contribution(s.transfers, client, tx));
    lemma_sum_by_zero(s.charged_back, |tx: u32| transfer_contribution(s.transfers, client, tx));
}

/// Recording a transfer under a fresh transaction id leaves the sum of
/// amounts over any set of already-recorded transaction ids unchanged.
pub proof fn lemma_extending_transfers_keeps_sum(
    ids: Set<u32>,
    transfers: Map<u32, Transfer>,
    transfer: Transfer,
    client: u16,
)
    requires
        ids.finite(),
        forall|tx: u32| ids.contains(tx) ==> transfers.contains_key(tx),
        !transfers.contains_key(transfer.transaction_id.id),
    ensures
        amount_sum(ids, transfers.insert(transfer.transaction_id.id, transfer), client) == amount_sum(
            ids,
            transfers,
            client,
        ),
{
    let extended = transfers.insert(transfer.transaction_id.id, transfer);
    assert forall|tx: u32| ids.contains(tx) implies transfer_contribution(extended, client, tx)
        == transfer_contribution(transfers, client, tx) by {
        assert(transfers.contains_key(tx));
    }
    lemma_sum_by_agree(
        ids,
        |tx: u32| transfer_contribution(extended, client, tx),
        |tx: u32| transfer_contribution(transfers, client, tx),
    );
}

/// Applying a transfer record keeps the ledger well formed.
pub proof fn lemma_apply_transfer_preserves_wf(s: LedgerView, transfer: Transfer)
    requires
        s.wf(),
    ensures
        apply_transfer(s, transfer).0.wf(),
{
    if apply_transfer(s, transfer).1 is Ok {
        let owner = transfer.client_id.id;
        let tx = transfer.transaction_id.id;
        let s1 = apply_transfer(s, transfer).0;
        let extended = s.transfers.insert(tx, transfer);
        if !s.accounts.contains_key(owner) {
            lemma_absent_client_has_no_totals(s, owner);
        }
        assert forall|k: u16|
            amount_sum(s.in_dispute, extended, k) == amount_sum(s.in_dispute, s.transfers, k)
                && amount_sum(s.charged_back, extended, k) == amount_sum(
                s.charged_back,
                s.transfers,
                k,
            ) by {
            lemma_extending_transfers_keeps_sum(s.in_dispute, s.transfers, transfer, k);
            lemma_extending_transfers_keeps_sum(s.charged_back, s.transfers, transfer, k);
        }
        assert(extended.dom() =~= s.transfers.dom().insert(tx));
        assert forall|k: u16|
            s1.deposited_total(k) == s.deposited_total(k) + deposit_contribution(extended, k, tx)
                && s1.withdrawn_total(k) == s.withdrawn_total(k) + withdrawal_contribution(
                extended,
                k,
                tx,
            ) by {
            let deposit_new = |t: u32| deposit_contribution(extended, k, t);
            let deposit_old = |t: u32| deposit_contribution(s.transfers, k, t);
            let withdrawal_new = |t: u32| withdrawal_contribution(extended, k, t);
            let withdrawal_old = |t: u32| withdrawal_contribution(s.transfers, k, t);
            lemma_sum_by_insert(s.transfers.dom(), deposit_new, tx);
            lemma_sum_by_insert(s.transfers.dom(), withdrawal_new, tx);
            assert forall|t: u32| s.transfers.dom().contains(t) implies deposit_new(t)
                == deposit_old(t) && withdrawal_new(t) == withdrawal_old(t) by {
                assert(s.transfers.contains_key(t));
            }
            lemma_sum_by_agree(s.transfers.dom(), deposit_new, deposit_old);
            lemma_sum_by_agree(s.transfers.dom(), withdrawal_new, withdrawal_old);
        }
    }
}

/// Applying an amendment record keeps the ledger well formed.
pub proof fn lemma_apply_amendment_preserves_wf(s: LedgerView, amendment: Amendment)
    requires
        s.wf(),
    ensures
        apply_amendment(s, amendment).0.wf(),
{
    let tx = amendment.transaction_id.id;
    if apply_amendment(s, amendment).1 is Ok {
        match amendment.amendment_type {
            AmendmentType::Dispute => {
                assert forall|k: u16|
                    amount_sum(s.in_dispute.insert(tx), s.transfers, k) == amount_sum(
                        s.in_dispute,
                        s.transfers,
                        k,
                    ) + transfer_contribution(s.transfers, k, tx) by {
                    lemma_amount_sum_insert(s.in_dispute, s.transfers, k, tx);
                }
            },
            AmendmentType::Resolve => {
                assert forall|k: u16|
                    amount_sum(s.in_dispute, s.transfers, k) == amount_sum(
                        s.in_dispute.remove(tx),
                        s.transfers,
                        k,
                    ) + transfer_contribution(s.transfers, k, tx) by {
                    lemma_amount_sum_remove(s.in_dispute, s.transfers, k, tx);
                }
            },
            AmendmentType::Chargeback => {
                assert forall|k: u16|
                    amount_sum(s.in_dispute, s.transfers, k) == amount_sum(
                        s.in_dispute.remove(tx),
                        s.transfers,
                        k,
                    ) + transfer_contribution(s.transfers, k, tx) && amount_sum(
                        s.charged_back.insert(tx),
                        s.transfers,
                        k,
                    ) == amount_sum(s.charged_back, s.transfers, k) + transfer_contribution(
                        s.transfers,
                        k,
                        tx,
                    ) by {
                    lemma_amount_sum_remove(s.in_dispute, s.transfers, k, tx);
                    lemma_amount_sum_insert(s.charged_back, s.transfers, k, tx);
                }
            },
        }
    }
}

/// Applying any record keeps the ledger well formed: together with
/// [`lemma_held_never_negative`], the account invariants hold at all times,
/// whatever history of records has been applied.
pub proof fn lemma_apply_preserves_wf(s: LedgerView, transaction: Transaction)
    requires
        s.wf(),
    ensures
        apply(s, transaction).0.wf(),
{
    match transaction {
        Transaction::Transfer(transfer) => lemma_apply_transfer_preserves_wf(s, transfer),
        Transaction::Amendment(amendment) => lemma_apply_amendment_preserves_wf(s, amendment),
    }
}

/// Everything one client's transfers can ever move: transaction ids are
/// 32-bit and never reused, so at most `2^32` transfers are ever recorded,
/// each of at most `u64::MAX` fixed-point units.
pub open spec fn volume_cap() -> int {
    0x1_0000_0000 * (u64::MAX as int)
}

/// In a well-formed ledger every balance lies far inside the 128-bit
/// account representation: the held funds between zero and the total
/// transfer volume, the available funds within a few multiples of it. This
/// is why applying a record can never overflow an account.
pub proof fn lemma_account_bounds(s: LedgerView, client: u16)
    requires
        s.wf(),
        s.accounts.contains_key(client),
    ensures
        0 <= s.accounts[client].held <= volume_cap(),
        -3 * volume_cap() <= s.accounts[client].available <= volume_cap(),
{
    let dom = s.transfers.dom();
    let bound = u64::MAX as int;
    lemma_id_set_len_bounded(dom);
    assert(s.in_dispute.subset_of(dom) && s.charged_back.subset_of(dom));
    vstd::set_lib::lemma_len_subset(s.in_dispute, dom);
    vstd::set_lib::lemma_len_subset(s.charged_back, dom);

    let deposit_of = |t: u32| deposit_contribution(s.transfers, client, t);
    let withdrawal_of = |t: u32| withdrawal_contribution(s.transfers, client, t);
    let amount_of = |t: u32| transfer_contribution(s.transfers, client, t);
    lemma_sum_by_nonneg(dom, deposit_of);
    lemma_sum_by_bounded(dom, deposit_of, bound);
    lemma_sum_by_nonneg(dom, withdrawal_of);
    lemma_sum_by_bounded(dom, withdrawal_of, bound);
    lemma_sum_by_nonneg(s.in_dispute, amount_of);
    lemma_sum_by_bounded(s.in_dispute, amount_of, bound);
    lemma_sum_by_nonneg(s.charged_back, amount_of);
    lemma_sum_by_bounded(s.charged_back, amount_of, bound);

    assert(dom.len() * bound <= 0x1_0000_0000 * bound) by (nonlinear_arith)
        requires
            dom.len() <= 0x1_0000_0000,
            bound >= 0,
    ;
    assert(s.in_dispute.len() * bound <= 0x1_0000_0000 * bound) by (nonlinear_arith)
        requires
            s.in_dispute.len() <= 0x1_0000_0000,
            bound >= 0,
    ;
    assert(s.charged_back.len() * bound <= 0x1_0000_0000 * bound) by (nonlinear_arith)
        requires
            s.charged_back.len() <= 0x1_0000_0000,
            bound >= 0,
    ;
}

/// Exactly when a transfer succeeds: its transaction id is fresh, the
/// account it targets (a fresh one when the client is new) is not locked,
/// and — for a withdrawal — the available funds cover the amount.
pub proof fn lemma_transfer_success_condition(s: LedgerView, transfer: Transfer)
    ensures
        apply_transfer(s, transfer).1 is Ok <==> {
            let account = s.account_or_new(transfer.client_id.id);
            &&& !s.transfers.contains_key(transfer.transaction_id.id)
            &&& !account.locked
            &&& (transfer.transfer_type is Withdrawal ==> account.available
                >= transfer.amount.units)
        },
{
}

/// Exactly when an amendment succeeds: the referenced transfer exists and
/// belongs to the amendment's client, and the transaction id is in the
/// lifecycle state the amendment expects — never disputed nor charged back
/// for a dispute, currently disputed for a resolve or chargeback. The lock
/// flag of the account plays no part: amendments on a locked account's
/// pre-existing transfers may still succeed.
pub proof fn lemma_amendment_success_condition(s: LedgerView, amendment: Amendment)
    ensures
        apply_amendment(s, amendment).1 is Ok <==> {
            let tx = amendment.transaction_id.id;
            &&& s.transfers.contains_key(tx)
            &&& s.transfers[tx].client_id == amendment.client_id
            &&& match amendment.amendment_type {
                AmendmentType::Dispute => !s.in_dispute.contains(tx) && !s.charged_back.contains(
                    tx,
                ),
                AmendmentType::Resolve => s.in_dispute.contains(tx),
                AmendmentType::Chargeback => s.in_dispute.contains(tx),
            }
        },
{
}

/// In a well-formed ledger no account ever holds a negative amount, and the
/// total of every account is its available funds plus its held funds.
pub proof fn lemma_held_never_negative(s: LedgerView)
    requires
        s.wf(),
    ensures
        forall|client: u16|
            s.accounts.contains_key(client) ==> s.accounts[client].held >= 0
                && s.accounts[client].total() == s.accounts[client].available
                + s.accounts[client].held,
{
    assert forall|client: u16| s.accounts.contains_key(client) implies s.accounts[client].held >= 0
        && s.accounts[client].total() == s.accounts[client].available
        + s.accounts[client].held by {
        lemma_amount_sum_nonneg(s.in_dispute, s.transfers, client);
    }
}

/// A transaction id can be the target of a transfer at most once: once a
/// transfer has been applied, any further transfer with the same id is
/// rejected and changes nothing, whichever client presents it.
pub proof fn lemma_transaction_id_used_at_most_once(
    s: LedgerView,
    first: Transfer,
    second: Transfer,
)
    requires
        apply_transfer(s, first).1 is Ok,
        second.transaction_id == first.transaction_id,
    ensures
        apply_transfer(apply_transfer(s, first).0, second) == (
            apply_transfer(s, first).0,
            Err::<(), ProcessingError>(ProcessingError::TransactionIdAlreadyExists),
        ),
{
}

/// An amendment referencing an unknown transaction id always fails and
/// leaves the ledger — accounts included — unchanged.
pub proof fn lemma_amendment_on_unknown_transaction_fails(s: LedgerView, amendment: Amendment)
    requires
        !s.transfers.contains_key(amendment.transaction_id.id),
    ensures
        apply_amendment(s, amendment) == (
            s,
            Err::<(), ProcessingError>(ProcessingError::TryingToDisputeUnknownTransaction),
        ),
{
}

/// An amendment whose client does not match the referenced transfer's owning
/// client always fails with no state change.
pub proof fn lemma_amendment_with_wrong_client_fails(s: LedgerView, amendment: Amendment)
    requires
        s.transfers.contains_key(amendment.transaction_id.id),
        s.transfers[amendment.transaction_id.id].client_id != amendment.client_id,
    ensures
        apply_amendment(s, amendment) == (
            s,
            Err::<(), ProcessingError>(ProcessingError::WrongClientInDispute),
        ),
{
}

/// No partial application: whenever the ledger reports an error, its state
/// is exactly what it was before the record.
pub proof fn lemma_error_leaves_ledger_unchanged(s: LedgerView, transaction: Transaction)
    ensures
        apply(s, transaction).1 is Err ==> apply(s, transaction).0 == s,
{
}

/// A dispute followed by a resolve of the same transaction id, by the owning
/// client, succeeds and restores the whole ledger — available and held
/// funds included — to exactly its pre-dispute state.
pub proof fn lemma_dispute_then_resolve_restores(
    s: LedgerView,
    dispute: Amendment,
    resolve: Amendment,
)
    requires
        s.wf(),
        dispute.amendment_type == AmendmentType::Dispute,
        resolve.amendment_type == AmendmentType::Resolve,
        resolve.transaction_id == dispute.transaction_id,
        resolve.client_id == dispute.client_id,
        apply_amendment(s, dispute).1 is Ok,
    ensures
        apply_amendment(apply_amendment(s, dispute).0, resolve) == (
            s,
            Ok::<(), ProcessingError>(()),
        ),
{
    let tx = dispute.transaction_id.id;
    let client = dispute.client_id.id;
    let s1 = apply_amendment(s, dispute).0;
    let s2 = apply_amendment(s1, resolve).0;
    assert(s.accounts.contains_key(client));
    assert(s2.accounts =~= s.accounts);
    assert(s2.in_dispute =~= s.in_dispute);
    assert(s2 =~= s);
}

/// A dispute followed by a chargeback of the same transaction id, by the
/// owning client, succeeds, locks the account, takes the disputed amount
/// back out of the held funds (leaving them as before the dispute, with the
/// amount gone from the available funds), and records the id as charged
/// back.
pub proof fn lemma_dispute_then_chargeback_locks(
    s: LedgerView,
    dispute: Amendment,
    chargeback: Amendment,
)
    requires
        s.wf(),
        dispute.amendment_type == AmendmentType::Dispute,
        chargeback.amendment_type == AmendmentType::Chargeback,
        chargeback.transaction_id == dispute.transaction_id,
        chargeback.client_id == dispute.client_id,
        apply_amendment(s, dispute).1 is Ok,
    ensures
        ({
            let tx = dispute.transaction_id.id;
            let client = dispute.client_id.id;
            let amount = s.transfers[tx].amount.units as int;
            let s1 = apply_amendment(s, dispute).0;
            let s2 = apply_amendment(s1, chargeback).0;
            &&& apply_amendment(s1, chargeback).1 == Ok::<(), ProcessingError>(())
            &&& s2.accounts[client].locked
            &&& s2.accounts[client].held == s.accounts[client].held
            &&& s2.accounts[client].available == s.accounts[client].available - amount
            &&& s2.charged_back.contains(tx)
        }),
{
}

/// Once a transaction id has been charged back it stays charged back: no
/// record ever removes an id from the charged-back set.
pub proof fn lemma_charged_back_is_permanent(s: LedgerView, transaction: Transaction)
    ensures
        forall|tx: u32|
            s.charged_back.contains(tx) ==> apply(s, transaction).0.charged_back.contains(tx),
{
}

/// A charged-back transaction id can never re-enter dispute: in a
/// well-formed ledger, a dispute on it always fails and changes nothing.
pub proof fn lemma_charged_back_blocks_dispute(s: LedgerView, dispute: Amendment)
    requires
        s.wf(),
        dispute.amendment_type == AmendmentType::Dispute,
        s.charged_back.contains(dispute.transaction_id.id),
    ensures
        apply_amendment(s, dispute).1 is Err,
        apply_amendment(s, dispute).0 == s,
{
}

/// A locked account rejects every transfer, deposit or withdrawal alike,
/// with no state change; when the transaction id is fresh the error is
/// `TransferOnLockedAccount` (an id already taken is reported as such
/// first).
pub proof fn lemma_locked_account_rejects_transfers(s: LedgerView, transfer: Transfer)
    requires
        s.accounts.contains_key(transfer.client_id.id),
        s.accounts[transfer.client_id.id].locked,
    ensures
        apply_transfer(s, transfer).1 is Err,
        apply_transfer(s, transfer).0 == s,
        !s.transfers.contains_key(transfer.transaction_id.id) ==> apply_transfer(s, transfer).1
            == Err::<(), ProcessingError>(ProcessingError::TransferOnLockedAccount),
{
}

} // verus!
