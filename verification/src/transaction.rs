//! Transaction records and their audit trail.
//!
//! A transaction moves a positive amount in one currency: a `deposit`
//! credits its destination account, a `withdrawal` debits its source
//! account, and a `transfer` does both. Once a transaction reaches a
//! terminal status it is immutable; every status transition is recorded
//! as an append-only [`TransactionEvent`].

use vstd::prelude::*;

use crate::casefold::lower_of;
use crate::casefold::to_lowercase;

verus! {

/// Status of a transaction. `Pending` is the only non-terminal status.
#[derive(Clone, Copy, Debug, PartialEq, Eq, Structural)]
pub enum TransactionStatus {
    Pending,
    Completed,
    Failed,
    Cancelled,
}

/// The status denoted by an already-lowercased status string;
/// unrecognized strings fall back to `Pending`.
pub open spec fn parse_transaction_status(s: Seq<char>) -> TransactionStatus {
    if s == "completed"@ {
        TransactionStatus::Completed
    } else if s == "failed"@ {
        TransactionStatus::Failed
    } else if s == "cancelled"@ {
        TransactionStatus::Cancelled
    } else {
        TransactionStatus::Pending
    }
}

impl TransactionStatus {
    /// The persisted string form of this status.
    pub open spec fn spec_str(self) -> Seq<char> {
        match self {
            TransactionStatus::Pending => "pending"@,
            TransactionStatus::Completed => "completed"@,
            TransactionStatus::Failed => "failed"@,
            TransactionStatus::Cancelled => "cancelled"@,
        }
    }

    /// The persisted string form: "pending", "completed", "failed" or
    /// "cancelled".
    pub fn as_str(&self) -> (r: &'static str)
        ensures
            r@ == self.spec_str(),
    {
        match self {
            TransactionStatus::Pending => "pending",
            TransactionStatus::Completed => "completed",
            TransactionStatus::Failed => "failed",
            TransactionStatus::Cancelled => "cancelled",
        }
    }
}

impl From<&str> for TransactionStatus {
    /// Parses a status string case-insensitively; anything unrecognized
    /// is read as `Pending`.
    fn from(s: &str) -> (r: Self) {
        let folded = to_lowercase(s);
        if folded == String::from_str("completed") {
            TransactionStatus::Completed
        } else if folded == String::from_str("failed") {
            TransactionStatus::Failed
        } else if folded == String::from_str("cancelled") {
            TransactionStatus::Cancelled
        } else {
            TransactionStatus::Pending
        }
    }
}

impl vstd::std_specs::convert::FromSpecImpl<&str> for TransactionStatus {
    open spec fn obeys_from_spec() -> bool {
        true
    }

    open spec fn from_spec(s: &str) -> TransactionStatus {
        parse_transaction_status(lower_of(s@))
    }
}

/// Kind of money movement.
#[derive(Clone, Copy, Debug, PartialEq, Eq, Structural)]
pub enum TransactionType {
    Deposit,
    Withdrawal,
    Transfer,
}

/// The type denoted by an already-lowercased type string; unrecognized
/// strings deliberately fall back to `Transfer`.
pub open spec fn parse_transaction_type(s: Seq<char>) -> TransactionType {
    if s == "deposit"@ {
        TransactionType::Deposit
    } else if s == "withdrawal"@ {
        TransactionType::Withdrawal
    } else {
        TransactionType::Transfer
    }
}

impl TransactionType {
    /// The persisted string form of this type.
    pub open spec fn spec_str(self) -> Seq<char> {
        match self {
            TransactionType::Deposit => "deposit"@,
            TransactionType::Withdrawal => "withdrawal"@,
            TransactionType::Transfer => "transfer"@,
        }
    }

    /// The persisted string form: "deposit", "withdrawal" or "transfer".
    pub fn as_str(&self) -> (r: &'static str)
        ensures
            r@ == self.spec_str(),
    {
        match self {
            TransactionType::Deposit => "deposit",
            TransactionType::Withdrawal => "withdrawal",
            TransactionType::Transfer => "transfer",
        }
    }
}

impl From<&str> for TransactionType {
    /// Parses a type string case-insensitively; anything unrecognized is
    /// read as `Transfer`.
    fn from(s: &str) -> (r: Self) {
        let folded = to_lowercase(s);
        if folded == String::from_str("deposit") {
            TransactionType::Deposit
        } else if folded == String::from_str("withdrawal") {
            TransactionType::Withdrawal
        } else {
            TransactionType::Transfer
        }
    }
}

impl vstd::std_specs::convert::FromSpecImpl<&str> for TransactionType {
    open spec fn obeys_from_spec() -> bool {
        true
    }

    open spec fn from_spec(s: &str) -> TransactionType {
        parse_transaction_type(lower_of(s@))
    }
}

/// A committed transaction row.
#[derive(Debug, PartialEq)]
pub struct Transaction {
    pub id: u64,
    pub source_account_id: Option<u64>,
    pub destination_account_id: Option<u64>,
    pub amount: i64,
    pub currency: String,
    pub status: TransactionStatus,
    pub transaction_type: TransactionType,
    pub description: Option<String>,
    pub created_at: i64,
    pub updated_at: i64,
}

impl Clone for Transaction {
    /// The copy equals the original.
    fn clone(&self) -> (r: Self)
        ensures
            r == *self,
    {
        Transaction {
            id: self.id,
            source_account_id: self.source_account_id,
            destination_account_id: self.destination_account_id,
            amount: self.amount,
            currency: self.currency.clone(),
            status: self.status,
            transaction_type: self.transaction_type,
            description: clone_opt_string(&self.description),
            created_at: self.created_at,
            updated_at: self.updated_at,
        }
    }
}

/// A request to move money. The account fields a type needs must be
/// present: destination for deposits, source for withdrawals, both for
/// transfers.
#[derive(Debug)]
pub struct CreateTransactionRequest {
    pub source_account_id: Option<u64>,
    pub destination_account_id: Option<u64>,
    pub amount: i64,
    pub currency: String,
    pub transaction_type: String,
    pub description: Option<String>,
}

/// What a recorded status transition was about.
#[derive(Clone, Copy, Debug, PartialEq, Eq, Structural)]
pub enum EventAction {
    Created,
    Processed,
}

impl EventAction {
    /// The persisted string form of this action.
    pub open spec fn spec_str(self) -> Seq<char> {
        match self {
            EventAction::Created => "created"@,
            EventAction::Processed => "processed"@,
        }
    }

    /// The persisted string form: "created" or "processed".
    pub fn as_str(&self) -> (r: &'static str)
        ensures
            r@ == self.spec_str(),
    {
        match self {
            EventAction::Created => "created",
            EventAction::Processed => "processed",
        }
    }
}

/// Structured payload of an audit event: who acted, and what the action
/// was.
#[derive(Clone, Copy, Debug, PartialEq, Eq, Structural)]
pub struct EventPayload {
    pub user_id: u64,
    pub action: EventAction,
}

/// One immutable entry of a transaction's audit trail: a single status
/// transition. The initial entry has no previous status.
#[derive(Clone, Copy, Debug, PartialEq, Eq)]
pub struct TransactionEvent {
    pub id: u64,
    pub transaction_id: u64,
    pub previous_status: Option<TransactionStatus>,
    pub new_status: TransactionStatus,
    pub event_data: EventPayload,
    pub created_at: i64,
}

/// Copies an optional string; the copy equals the original.
pub(crate) fn clone_opt_string(o: &Option<String>) -> (r: Option<String>)
    ensures
        r == *o,
{
    match o {
        Some(s) => Some(s.clone()),
        None => None,
    }
}

} // verus!
