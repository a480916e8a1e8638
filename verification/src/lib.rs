//! A small transaction-processing ledger.
//!
//! Input records are classified into fund transfers (deposits and
//! withdrawals) and dispute amendments (dispute, resolve, chargeback), and a
//! ledger state machine applies them one at a time to per-client accounts.
//! All monetary values are fixed-point decimals held as integer counts of
//! one ten-thousandth of a currency unit.

pub mod laws;
pub mod ledger;
pub mod model;
pub mod records;
pub mod sums;

pub use ledger::Account;
pub use ledger::TransactionProcessor;
pub use model::AccountModel;
pub use model::LedgerView;
pub use model::ProcessingError;
pub use records::Amount;
pub use records::Amendment;
pub use records::AmendmentType;
pub use records::ClientID;
pub use records::InputFormatError;
pub use records::RawTransaction;
pub use records::Transaction;
pub use records::TransactionID;
pub use records::TransactionType;
pub use records::Transfer;
pub use records::TransferType;
