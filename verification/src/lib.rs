//! Verified core of a small ledger service that records money movement
//! between user-owned accounts.
//!
//! The heart of the crate is the transaction processor
//! ([`transactions::create_transaction`]): it validates a requested money
//! movement (deposit, withdrawal or transfer), mutates one or two account
//! balances, and records an auditable status trail, all as one atomic unit
//! of work on an in-memory [`ledger::Ledger`]. Every public operation
//! carries a contract that pins down exactly which requests succeed, which
//! error each rejected request produces, and how the ledger state changes.

pub mod account;
pub mod account_service;
pub mod accounts;
pub mod casefold;
pub mod config;
pub mod dburl;
pub mod error;
pub mod fmt;
pub mod jwt;
pub mod laws;
pub mod ledger;
pub mod numeric;
pub mod pagination;
pub mod rate_limit;
pub mod transaction;
pub mod transaction_service;
pub mod transactions;
pub mod user;

pub use account::Account;
pub use account::AccountStatus;
pub use account::CreateAccountRequest;
pub use casefold::lower_of;
pub use casefold::upper_of;
pub use error::AppError;
pub use error::ErrorKind;
pub use fmt::i64_to_string;
pub use fmt::u64_to_string;
pub use ledger::Ledger;
pub use transaction::CreateTransactionRequest;
pub use transaction::EventAction;
pub use transaction::EventPayload;
pub use transaction::Transaction;
pub use transaction::TransactionEvent;
pub use transaction::TransactionStatus;
pub use transaction::TransactionType;
