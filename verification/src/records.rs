//! Record types and the record classifier.
//!
//! A raw input row carries a kind tag, a client id, a transaction id and an
//! optional signed amount. Classification turns such a row into a well-formed
//! [`Transaction`]: a [`Transfer`] (deposit or withdrawal, which must carry a
//! non-negative amount) or an [`Amendment`] (dispute, resolve or chargeback,
//! which carries no amount of its own).

use vstd::prelude::*;

verus! {

/// A globally unique transaction identifier.
#[derive(Debug, Clone, Copy, PartialEq, Eq, Structural, Hash)]
pub struct TransactionID {
    pub id: u32,
}

impl TransactionID {
    pub fn new(id: u32) -> (r: TransactionID)
        ensures
            r.id == id,
    {
        TransactionID { id }
    }
}

/// A client account identifier.
#[derive(Debug, Clone, Copy, PartialEq, Eq, Structural, Hash)]
pub struct ClientID {
    pub id: u16,
}

impl ClientID {
    pub fn new(id: u16) -> (r: ClientID)
        ensures
            r.id == id,
    {
        ClientID { id }
    }
}

/// A non-negative fixed-point decimal amount, held as a count of
/// one ten-thousandth of a currency unit.
#[derive(Debug, Clone, Copy, PartialEq, Eq, Structural, Hash)]
pub struct Amount {
    pub units: u64,
}

impl Amount {
    pub fn new(units: u64) -> (r: Amount)
        ensures
            r.units == units,
    {
        Amount { units }
    }
}

/// The two kinds of fund transfer.
#[derive(Debug, Clone, Copy, PartialEq, Eq, Structural)]
pub enum TransferType {
    Deposit,
    Withdrawal,
}

/// A funds-moving record: a deposit or withdrawal of a non-negative amount,
/// tied to a unique transaction id and an owning client.
#[derive(Debug, Clone, Copy, PartialEq, Eq, Structural)]
pub struct Transfer {
    pub transfer_type: TransferType,
    pub client_id: ClientID,
    pub transaction_id: TransactionID,
    pub amount: Amount,
}

/// The three kinds of dispute-lifecycle amendment.
#[derive(Debug, Clone, Copy, PartialEq, Eq, Structural)]
pub enum AmendmentType {
    Dispute,
    Resolve,
    Chargeback,
}

/// A dispute-lifecycle record referencing a previously recorded transfer by
/// its transaction id. The disputed amount is always resolved from the
/// referenced transfer, never carried by the amendment itself.
#[derive(Debug, Clone, Copy, PartialEq, Eq, Structural)]
pub struct Amendment {
    pub amendment_type: AmendmentType,
    pub client_id: ClientID,
    pub transaction_id: TransactionID,
}

/// A classified input record: either a transfer or an amendment.
#[derive(Debug, Clone, Copy, PartialEq, Eq, Structural)]
pub enum Transaction {
    Transfer(Transfer),
    Amendment(Amendment),
}

/// The transaction id of a classified record, whichever variant it is.
pub open spec fn spec_transaction_id(t: Transaction) -> TransactionID {
    match t {
        Transaction::Transfer(transfer) => transfer.transaction_id,
        Transaction::Amendment(amendment) => amendment.transaction_id,
    }
}

impl Transaction {
    pub fn transaction_id(&self) -> (r: TransactionID)
        ensures
            r == spec_transaction_id(*self),
    {
        match self {
            Transaction::Transfer(transfer) => transfer.transaction_id,
            Transaction::Amendment(amendment) => amendment.transaction_id,
        }
    }
}

/// The kind tag of a raw input row.
#[derive(Debug, Clone, Copy, PartialEq, Eq, Structural)]
pub enum TransactionType {
    Transfer(TransferType),
    Amendment(AmendmentType),
}

/// A structurally decoded input row, before classification: a kind tag, a
/// client id, a transaction id, and an optional signed amount in counts of
/// one ten-thousandth of a currency unit.
#[derive(Debug, Clone, Copy, PartialEq, Eq, Structural)]
pub struct RawTransaction {
    pub transaction_type: TransactionType,
    pub client_id: ClientID,
    pub transaction_id: TransactionID,
    pub amount: Option<i64>,
}

/// An input row rejected at classification time.
#[derive(Debug, Clone, Copy, PartialEq, Eq, Structural)]
pub enum InputFormatError {
    /// A transfer row without an amount.
    MissingAmount,
    /// A transfer row with a negative amount.
    NegativeAmount,
}

/// What classification returns for a raw row.
///
/// An amendment row succeeds unconditionally; any amount on it is ignored.
/// A transfer row needs an amount: a missing one is rejected with
/// `MissingAmount`, a negative one with `NegativeAmount`, and otherwise the
/// row becomes a transfer carrying that amount.
pub open spec fn classify_spec(raw: RawTransaction) -> Result<Transaction, InputFormatError> {
    match raw.transaction_type {
        TransactionType::Amendment(amendment_type) => Ok(
            Transaction::Amendment(
                Amendment {
                    amendment_type,
                    client_id: raw.client_id,
                    transaction_id: raw.transaction_id,
                },
            ),
        ),
        TransactionType::Transfer(transfer_type) => match raw.amount {
            Some(amount) => if amount < 0 {
                Err(InputFormatError::NegativeAmount)
            } else {
                Ok(
                    Transaction::Transfer(
                        Transfer {
                            transfer_type,
                            client_id: raw.client_id,
                            transaction_id: raw.transaction_id,
                            amount: Amount { units: amount as u64 },
                        },
                    ),
                )
            },
            None => Err(InputFormatError::MissingAmount),
        },
    }
}

impl Transaction {
    /// Classify a raw input row, or reject it with an input-format error.
    pub fn classify(raw: RawTransaction) -> (r: Result<Transaction, InputFormatError>)
        ensures
            r == classify_spec(raw),
    {
        match raw.transaction_type {
            TransactionType::Amendment(amendment_type) => Ok(
                Transaction::Amendment(
                    Amendment {
                        amendment_type,
                        client_id: raw.client_id,
                        transaction_id: raw.transaction_id,
                    },
                ),
            ),
            TransactionType::Transfer(transfer_type) => match raw.amount {
                Some(amount) => if amount < 0 {
                    Err(InputFormatError::NegativeAmount)
                } else {
                    Ok(
                        Transaction::Transfer(
                            Transfer {
                                transfer_type,
                                client_id: raw.client_id,
                                transaction_id: raw.transaction_id,
                                amount: Amount { units: amount as u64 },
                            },
                        ),
                    )
                },
                None => Err(InputFormatError::MissingAmount),
            },
        }
    }
}

} // verus!
