//! The executable ledger state machine.
//!
//! [`TransactionProcessor`] owns the authoritative mapping from client id to
//! account, the transfer store, the dispute set and the charged-back set,
//! and applies one classified record at a time. Each application is proved
//! to behave exactly as the model transition [`apply`] says, and to keep the
//! ledger well formed — in particular, funds held are never negative.

use vstd::prelude::*;

use std::collections::HashMap;
use std::collections::HashSet;

use crate::laws::lemma_account_bounds;
use crate::laws::lemma_apply_amendment_preserves_wf;
use crate::laws::lemma_apply_transfer_preserves_wf;
use crate::model::AccountModel;
use crate::model::LedgerView;
use crate::model::ProcessingError;
use crate::model::apply;
use crate::model::apply_amendment;
use crate::model::apply_transfer;
use crate::records::Amendment;
use crate::records::AmendmentType;
use crate::records::Transaction;
use crate::records::Transfer;
use crate::records::TransferType;

verus! {

broadcast use vstd::std_specs::hash::group_hash_axioms;

/// One client's account: spendable funds, funds frozen pending dispute
/// resolution, and the lock flag a chargeback sets. Both decimal fields are
/// signed counts of one ten-thousandth of a currency unit.
#[derive(Debug, Clone, Copy, PartialEq, Eq, Structural)]
pub struct Account {
    pub available: i128,
    pub held: i128,
    pub locked: bool,
}

impl View for Account {
    type V = AccountModel;

    open spec fn view(&self) -> AccountModel {
        AccountModel {
            available: self.available as int,
            held: self.held as int,
            locked: self.locked,
        }
    }
}

impl Account {
    /// A freshly created account: zero funds, unlocked.
    pub fn new() -> (r: Account)
        ensures
            r@ == AccountModel::new(),
    {
        Account { available: 0, held: 0, locked: false }
    }

    /// The total funds of the account, available plus held.
    pub fn total(&self) -> (r: i128)
        requires
            i128::MIN <= self@.total() <= i128::MAX,
        ensures
            r == self@.total(),
    {
        self.available + self.held
    }
}

impl Default for Account {
    fn default() -> (r: Account)
        ensures
            r@ == AccountModel::new(),
    {
        Account::new()
    }
}

/// The ledger: every account created so far, every transfer applied so far,
/// and the dispute lifecycle state of each transaction id.
pub struct TransactionProcessor {
    /// Per-client accounts, by client id.
    pub accounts: HashMap<u16, Account>,
    transfers: HashMap<u32, Transfer>,
    in_dispute: HashSet<u32>,
    charged_back: HashSet<u32>,
}

impl View for TransactionProcessor {
    type V = LedgerView;

    closed spec fn view(&self) -> LedgerView {
        LedgerView {
            accounts: self.accounts@.map_values(|a: Account| a@),
            transfers: self.transfers@,
            in_dispute: self.in_dispute@,
            charged_back: self.charged_back@,
        }
    }
}

impl Default for TransactionProcessor {
    fn default() -> (r: TransactionProcessor)
        ensures
            r@ == LedgerView::new(),
            r.wf(),
    {
        let r = TransactionProcessor {
            accounts: HashMap::new(),
            transfers: HashMap::new(),
            in_dispute: HashSet::new(),
            charged_back: HashSet::new(),
        };
        proof {
            assert(r@.accounts =~= LedgerView::new().accounts);
            assert(r@ =~= LedgerView::new());
        }
        r
    }
}

impl TransactionProcessor {
    /// Well-formedness of the processor: its state, seen as a ledger model,
    /// is well formed.
    pub open spec fn wf(self) -> bool {
        self@.wf()
    }

    /// Apply one classified record to the ledger, or reject it with a
    /// processing error. The outcome and the state after the call are
    /// exactly those of the model transition [`apply`]; in particular, on
    /// every error the ledger's observable state is unchanged, and the
    /// ledger stays well formed. Well-formedness also bounds every balance
    /// far inside the account representation, so no record can overflow an
    /// account.
    pub fn process(&mut self, transaction: &Transaction) -> (r: Result<(), ProcessingError>)
        requires
            old(self).wf(),
        ensures
            final(self).wf(),
            final(self)@ == apply(old(self)@, *transaction).0,
            r == apply(old(self)@, *transaction).1,
    {
        match transaction {
            Transaction::Transfer(transfer) => self.process_transfer(transfer),
            Transaction::Amendment(amendment) => self.process_amendment(amendment),
        }
    }

    fn process_transfer(&mut self, transfer: &Transfer) -> (r: Result<(), ProcessingError>)
        requires
            old(self).wf(),
        ensures
            final(self).wf(),
            final(self)@ == apply_transfer(old(self)@, *transfer).0,
            r == apply_transfer(old(self)@, *transfer).1,
    {
        let ghost s0 = self@;
        if self.transfers.contains_key(&transfer.transaction_id.id) {
            return Err(ProcessingError::TransactionIdAlreadyExists);
        }
        let mut account = match self.accounts.get(&transfer.client_id.id) {
            Some(account) => *account,
            None => Account::new(),
        };
        proof {
            assert(account@ == s0.account_or_new(transfer.client_id.id));
            if s0.accounts.contains_key(transfer.client_id.id) {
                lemma_account_bounds(s0, transfer.client_id.id);
            }
        }
        if account.locked {
            return Err(ProcessingError::TransferOnLockedAccount);
        }
        match transfer.transfer_type {
            TransferType::Deposit => {
                account.available = account.available + transfer.amount.units as i128;
            },
            TransferType::Withdrawal => {
                if account.available >= transfer.amount.units as i128 {
                    account.available = account.available - transfer.amount.units as i128;
                } else {
                    return Err(ProcessingError::NotEnoughMoneyForWithdrawal);
                }
            },
        }
        self.accounts.insert(transfer.client_id.id, account);
        self.transfers.insert(transfer.transaction_id.id, *transfer);
        proof {
            let s1 = apply_transfer(s0, *transfer).0;
            assert(self@.accounts =~= s1.accounts);
            assert(self@ =~= s1);
            lemma_apply_transfer_preserves_wf(s0, *transfer);
        }
        Ok(())
    }

    fn process_amendment(&mut self, amendment: &Amendment) -> (r: Result<(), ProcessingError>)
        requires
            old(self).wf(),
        ensures
            final(self).wf(),
            final(self)@ == apply_amendment(old(self)@, *amendment).0,
            r == apply_amendment(old(self)@, *amendment).1,
    {
        let ghost s0 = self@;
        let tx = amendment.transaction_id.id;
        let transfer = match self.transfers.get(&tx) {
            Some(transfer) => *transfer,
            None => { return Err(ProcessingError::TryingToDisputeUnknownTransaction); },
        };
        if transfer.client_id != amendment.client_id {
            return Err(ProcessingError::WrongClientInDispute);
        }
        let client = amendment.client_id.id;
        let mut account = match self.accounts.get(&client) {
            Some(account) => *account,
            // The owning client of a recorded transfer always has an
            // account.
            None => vstd::pervasive::unreached(),
        };
        proof {
            assert(account@ == s0.accounts[client]);
            lemma_account_bounds(s0, client);
        }
        let amount = transfer.amount.units as i128;
        match amendment.amendment_type {
            AmendmentType::Dispute => {
                if self.in_dispute.contains(&tx) {
                    return Err(ProcessingError::TransferIsAlreadyInDispute);
                }
                if self.charged_back.contains(&tx) {
                    return Err(ProcessingError::DisputingAlreadyChargedBackTransfer);
                }
                account.available = account.available - amount;
                account.held = account.held + amount;
                self.in_dispute.insert(tx);
            },
            AmendmentType::Resolve => {
                if !self.in_dispute.contains(&tx) {
                    return Err(ProcessingError::ResolvedTransferWasNotInDispute);
                }
                account.available = account.available + amount;
                account.held = account.held - amount;
                self.in_dispute.remove(&tx);
            },
            AmendmentType::Chargeback => {
                if !self.in_dispute.contains(&tx) {
                    return Err(ProcessingError::ChargedBackTransferWasNotInDispute);
                }
                account.held = account.held - amount;
                account.locked = true;
                self.in_dispute.remove(&tx);
                self.charged_back.insert(tx);
            },
        }
        self.accounts.insert(client, account);
        proof {
            let s1 = apply_amendment(s0, *amendment).0;
            assert(self@.accounts =~= s1.accounts);
            assert(self@ =~= s1);
            lemma_apply_amendment_preserves_wf(s0, *amendment);
        }
        Ok(())
    }
}

} // verus!
