//! The mathematical model of the ledger.
//!
//! The ledger's whole state — per-client accounts, the transfer store, the
//! dispute set and the charged-back set — is modelled by [`LedgerView`], and
//! every record application by the transition function [`apply`]. The
//! executable processor is specified, record by record, against this model.

use vstd::prelude::*;

use crate::records::Amendment;
use crate::records::AmendmentType;
use crate::records::Transaction;
use crate::records::Transfer;
use crate::records::TransferType;
use crate::sums::amount_sum;
use crate::sums::sum_by;

verus! {

/// What a single transaction id contributes to the funds `client` has ever
/// deposited: its transfer's amount when that transfer is a deposit
/// belonging to `client`, and zero otherwise.
pub open spec fn deposit_contribution(transfers: Map<u32, Transfer>, client: u16, tx: u32) -> int {
    if transfers.contains_key(tx) && transfers[tx].client_id.id == client
        && transfers[tx].transfer_type is Deposit {
        transfers[tx].amount.units as int
    } else {
        0
    }
}

/// What a single transaction id contributes to the funds `client` has ever
/// withdrawn: its transfer's amount when that transfer is a withdrawal
/// belonging to `client`, and zero otherwise.
pub open spec fn withdrawal_contribution(
    transfers: Map<u32, Transfer>,
    client: u16,
    tx: u32,
) -> int {
    if transfers.contains_key(tx) && transfers[tx].client_id.id == client
        && transfers[tx].transfer_type is Withdrawal {
        transfers[tx].amount.units as int
    } else {
        0
    }
}

/// Why the ledger refused to apply a record. On every error the ledger's
/// state is left unchanged.
#[derive(Debug, Clone, Copy, PartialEq, Eq, Structural)]
pub enum ProcessingError {
    TransferOnLockedAccount,
    NotEnoughMoneyForWithdrawal,
    TryingToDisputeUnknownTransaction,
    WrongClientInDispute,
    TransferIsAlreadyInDispute,
    ResolvedTransferWasNotInDispute,
    ChargedBackTransferWasNotInDispute,
    DisputingAlreadyChargedBackTransfer,
    TransactionIdAlreadyExists,
}

/// The model of one client account: spendable funds, funds frozen pending
/// dispute resolution, and the lock flag a chargeback sets. The total of an
/// account is the derived value `available + held`, never stored.
#[verifier::ext_equal]
pub struct AccountModel {
    pub available: int,
    pub held: int,
    pub locked: bool,
}

impl AccountModel {
    /// A freshly created account: zero funds, unlocked.
    pub open spec fn new() -> AccountModel {
        AccountModel { available: 0, held: 0, locked: false }
    }

    /// The derived total of an account.
    pub open spec fn total(self) -> int {
        self.available + self.held
    }
}

/// The model of the whole ledger.
#[verifier::ext_equal]
pub struct LedgerView {
    /// Every account created so far, by client id.
    pub accounts: Map<u16, AccountModel>,
    /// Every transfer successfully applied so far, by transaction id.
    pub transfers: Map<u32, Transfer>,
    /// The transaction ids currently under an open dispute.
    pub in_dispute: Set<u32>,
    /// The transaction ids that have ever completed a chargeback.
    pub charged_back: Set<u32>,
}

impl LedgerView {
    /// The empty ledger: no accounts, no transfers, nothing disputed or
    /// charged back.
    pub open spec fn new() -> LedgerView {
        LedgerView {
            accounts: Map::empty(),
            transfers: Map::empty(),
            in_dispute: Set::empty(),
            charged_back: Set::empty(),
        }
    }

    /// The account of `client`, or a fresh one when none exists yet.
    pub open spec fn account_or_new(self, client: u16) -> AccountModel {
        if self.accounts.contains_key(client) {
            self.accounts[client]
        } else {
            AccountModel::new()
        }
    }

    /// Everything `client` has ever deposited.
    pub open spec fn deposited_total(self, client: u16) -> int {
        sum_by(self.transfers.dom(), |tx: u32| deposit_contribution(self.transfers, client, tx))
    }

    /// Everything `client` has ever withdrawn.
    pub open spec fn withdrawn_total(self, client: u16) -> int {
        sum_by(self.transfers.dom(), |tx: u32| withdrawal_contribution(self.transfers, client, tx))
    }

    /// The amounts of `client`'s transfers currently under dispute.
    pub open spec fn disputed_total(self, client: u16) -> int {
        amount_sum(self.in_dispute, self.transfers, client)
    }

    /// The amounts of `client`'s transfers ever charged back.
    pub open spec fn charged_back_total(self, client: u16) -> int {
        amount_sum(self.charged_back, self.transfers, client)
    }

    /// Well-formedness of a ledger state. It holds of the empty ledger and
    /// is preserved by every application of a record:
    /// - the dispute and charged-back sets are finite, as is every store;
    /// - a disputed transaction id refers to a recorded transfer and has not
    ///   been charged back;
    /// - a charged-back transaction id refers to a recorded transfer;
    /// - the transfer store maps each transaction id to a transfer carrying
    ///   that very id, whose owning client already has an account;
    /// - the funds held for a client are exactly the sum of that client's
    ///   disputed transfer amounts, and the funds available to it are
    ///   exactly what it deposited, less what it withdrew, less what is
    ///   disputed or was charged back.
    pub open spec fn wf(self) -> bool {
        &&& self.accounts.dom().finite()
        &&& self.transfers.dom().finite()
        &&& self.in_dispute.finite()
        &&& self.charged_back.finite()
        &&& forall|tx: u32|
            self.in_dispute.contains(tx) ==> self.transfers.contains_key(tx)
                && !self.charged_back.contains(tx)
        &&& forall|tx: u32|
            self.charged_back.contains(tx) ==> self.transfers.contains_key(tx)
        &&& forall|tx: u32|
            #[trigger] self.transfers.contains_key(tx) ==> self.transfers[tx].transaction_id.id
                == tx && self.accounts.contains_key(self.transfers[tx].client_id.id)
        &&& forall|client: u16|
            #[trigger] self.accounts.contains_key(client) ==> {
                &&& self.accounts[client].held == self.disputed_total(client)
                &&& self.accounts[client].available == self.deposited_total(client)
                    - self.withdrawn_total(client) - self.disputed_total(client)
                    - self.charged_back_total(client)
            }
    }
}

/// One step of the ledger on a transfer record: the state after it and the
/// outcome reported.
///
/// A transaction id already recorded is rejected outright, whichever client
/// presents it; a locked account accepts no transfer; a deposit adds its
/// amount to the available funds; a withdrawal subtracts its amount when the
/// available funds cover it and is rejected otherwise. On success the
/// updated account and the transfer are persisted; on every error the state
/// is unchanged.
pub open spec fn apply_transfer(s: LedgerView, transfer: Transfer) -> (
    LedgerView,
    Result<(), ProcessingError>,
) {
    if s.transfers.contains_key(transfer.transaction_id.id) {
        (s, Err(ProcessingError::TransactionIdAlreadyExists))
    } else {
        let account = s.account_or_new(transfer.client_id.id);
        if account.locked {
            (s, Err(ProcessingError::TransferOnLockedAccount))
        } else {
            match transfer.transfer_type {
                TransferType::Deposit => {
                    let updated = AccountModel {
                        available: account.available + transfer.amount.units,
                        ..account
                    };
                    (commit_transfer(s, transfer, updated), Ok(()))
                },
                TransferType::Withdrawal => {
                    if account.available >= transfer.amount.units {
                        let updated = AccountModel {
                            available: account.available - transfer.amount.units,
                            ..account
                        };
                        (commit_transfer(s, transfer, updated), Ok(()))
                    } else {
                        (s, Err(ProcessingError::NotEnoughMoneyForWithdrawal))
                    }
                },
            }
        }
    }
}

/// The state after a successful transfer: the owning client's account is
/// replaced by `updated` and the transfer is recorded under its transaction
/// id, which makes that id visible to later amendments and to the
/// duplicate-id check.
pub open spec fn commit_transfer(
    s: LedgerView,
    transfer: Transfer,
    updated: AccountModel,
) -> LedgerView {
    LedgerView {
        accounts: s.accounts.insert(transfer.client_id.id, updated),
        transfers: s.transfers.insert(transfer.transaction_id.id, transfer),
        ..s
    }
}

/// One step of the ledger on an amendment record: the state after it and the
/// outcome reported.
///
/// The referenced transfer must exist and belong to the amendment's client.
/// A dispute on an undisputed, never-charged-back id moves the transfer's
/// amount from available to held and opens the dispute; a resolve on a
/// disputed id moves it back and closes the dispute; a chargeback on a
/// disputed id removes the amount from held, locks the account, closes the
/// dispute, and bars the id from ever being disputed again. On every error
/// the state is unchanged.
pub open spec fn apply_amendment(s: LedgerView, amendment: Amendment) -> (
    LedgerView,
    Result<(), ProcessingError>,
) {
    let tx = amendment.transaction_id.id;
    if !s.transfers.contains_key(tx) {
        (s, Err(ProcessingError::TryingToDisputeUnknownTransaction))
    } else {
        let transfer = s.transfers[tx];
        if transfer.client_id != amendment.client_id {
            (s, Err(ProcessingError::WrongClientInDispute))
        } else {
            let client = amendment.client_id.id;
            let account = s.accounts[client];
            let amount = transfer.amount.units as int;
            match amendment.amendment_type {
                AmendmentType::Dispute => {
                    if s.in_dispute.contains(tx) {
                        (s, Err(ProcessingError::TransferIsAlreadyInDispute))
                    } else if s.charged_back.contains(tx) {
                        (s, Err(ProcessingError::DisputingAlreadyChargedBackTransfer))
                    } else {
                        let updated = AccountModel {
                            available: account.available - amount,
                            held: account.held + amount,
                            ..account
                        };
                        (
                            LedgerView {
                                accounts: s.accounts.insert(client, updated),
                                in_dispute: s.in_dispute.insert(tx),
                                ..s
                            },
                            Ok(()),
                        )
                    }
                },
                AmendmentType::Resolve => {
                    if !s.in_dispute.contains(tx) {
                        (s, Err(ProcessingError::ResolvedTransferWasNotInDispute))
                    } else {
                        let updated = AccountModel {
                            available: account.available + amount,
                            held: account.held - amount,
                            ..account
                        };
                        (
                            LedgerView {
                                accounts: s.accounts.insert(client, updated),
                                in_dispute: s.in_dispute.remove(tx),
                                ..s
                            },
                            Ok(()),
                        )
                    }
                },
                AmendmentType::Chargeback => {
                    if !s.in_dispute.contains(tx) {
                        (s, Err(ProcessingError::ChargedBackTransferWasNotInDispute))
                    } else {
                        let updated = AccountModel {
                            held: account.held - amount,
                            locked: true,
                            ..account
                        };
                        (
                            LedgerView {
                                accounts: s.accounts.insert(client, updated),
                                in_dispute: s.in_dispute.remove(tx),
                                charged_back: s.charged_back.insert(tx),
                                ..s
                            },
                            Ok(()),
                        )
                    }
                },
            }
        }
    }
}

/// One step of the ledger on any classified record.
pub open spec fn apply(s: LedgerView, transaction: Transaction) -> (
    LedgerView,
    Result<(), ProcessingError>,
) {
    match transaction {
        Transaction::Transfer(transfer) => apply_transfer(s, transfer),
        Transaction::Amendment(amendment) => apply_amendment(s, amendment),
    }
}

} // verus!
