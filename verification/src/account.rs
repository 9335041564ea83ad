//! Account records.
//!
//! An account belongs to one user, carries a balance in integer minor
//! units of a single currency, and is never hard-deleted: its status
//! moves to `Closed` instead. A user holds at most one account per
//! currency; the [`crate::ledger::Ledger`] invariant enforces that.

use vstd::prelude::*;

use crate::casefold::lower_of;
use crate::casefold::to_lowercase;

verus! {

/// Lifecycle status of an account.
#[derive(Clone, Copy, Debug, PartialEq, Eq, Structural)]
pub enum AccountStatus {
    Active,
    Suspended,
    Closed,
}

/// The status denoted by an already-lowercased status string;
/// unrecognized strings fall back to `Active`.
pub open spec fn parse_account_status(s: Seq<char>) -> AccountStatus {
    if s == "suspended"@ {
        AccountStatus::Suspended
    } else if s == "closed"@ {
        AccountStatus::Closed
    } else {
        AccountStatus::Active
    }
}

impl AccountStatus {
    /// The persisted string form of this status.
    pub open spec fn spec_str(self) -> Seq<char> {
        match self {
            AccountStatus::Active => "active"@,
            AccountStatus::Suspended => "suspended"@,
            AccountStatus::Closed => "closed"@,
        }
    }

    /// The persisted string form: "active", "suspended" or "closed".
    pub fn as_str(&self) -> (r: &'static str)
        ensures
            r@ == self.spec_str(),
    {
        match self {
            AccountStatus::Active => "active",
            AccountStatus::Suspended => "suspended",
            AccountStatus::Closed => "closed",
        }
    }
}

impl From<&str> for AccountStatus {
    /// Parses a status string case-insensitively; anything unrecognized
    /// is read as `Active`.
    fn from(s: &str) -> (r: Self) {
        let folded = to_lowercase(s);
        if folded == String::from_str("suspended") {
            AccountStatus::Suspended
        } else if folded == String::from_str("closed") {
            AccountStatus::Closed
        } else {
            AccountStatus::Active
        }
    }
}

impl vstd::std_specs::convert::FromSpecImpl<&str> for AccountStatus {
    open spec fn obeys_from_spec() -> bool {
        true
    }

    open spec fn from_spec(s: &str) -> AccountStatus {
        parse_account_status(lower_of(s@))
    }
}

/// An account row: identifier, owner, balance in minor units, currency
/// code, status, and creation/update times (seconds).
#[derive(Debug)]
pub struct Account {
    pub id: u64,
    pub user_id: u64,
    pub balance: i64,
    pub currency: String,
    pub status: AccountStatus,
    pub created_at: i64,
    pub updated_at: i64,
}

impl Clone for Account {
    /// The copy equals the original.
    fn clone(&self) -> (r: Self)
        ensures
            r == *self,
    {
        Account {
            id: self.id,
            user_id: self.user_id,
            balance: self.balance,
            currency: self.currency.clone(),
            status: self.status,
            created_at: self.created_at,
            updated_at: self.updated_at,
        }
    }
}

/// A request to open an account in the given currency.
#[derive(Debug)]
pub struct CreateAccountRequest {
    pub currency: String,
}

} // verus!
