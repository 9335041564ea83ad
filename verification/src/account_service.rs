//! Account service: the store operations with the caller-facing
//! conventions applied — currency codes are normalized to upper case on
//! creation, and reads of another user's account are forbidden.

use vstd::prelude::*;

use crate::account::Account;
use crate::account::CreateAccountRequest;
use crate::accounts;
use crate::accounts::accounts_of_user;
use crate::accounts::user_has_currency;
use crate::casefold::to_uppercase;
use crate::casefold::upper_of;
use crate::error::AppError;
use crate::error::ErrorKind;
use crate::ledger::Ledger;

verus! {

/// Opens an account in the request's currency, normalized to upper
/// case. Rejected exactly when the user already holds an account in the
/// normalized currency.
pub fn create_account(
    ledger: &mut Ledger,
    user_id: u64,
    data: &CreateAccountRequest,
    now: i64,
) -> (r: Result<Account, AppError>)
    requires
        old(ledger).wf(),
    ensures
        final(ledger).wf(),
        final(ledger).spec_transactions() == old(ledger).spec_transactions(),
        final(ledger).spec_events() == old(ledger).spec_events(),
        match r {
            Ok(a) => {
                &&& !user_has_currency(
                    old(ledger).spec_accounts(),
                    user_id,
                    upper_of(data.currency@),
                )
                &&& final(ledger).spec_accounts() == old(ledger).spec_accounts().push(a)
                &&& a.id == old(ledger).spec_accounts().len() as u64
                &&& a.user_id == user_id
                &&& a.balance == 0
                &&& a.currency@ == upper_of(data.currency@)
                &&& a.status is Active
                &&& a.created_at == now
                &&& a.updated_at == now
            },
            Err(e) => {
                &&& user_has_currency(
                    old(ledger).spec_accounts(),
                    user_id,
                    upper_of(data.currency@),
                )
                &&& e.kind() == ErrorKind::BadRequest
                &&& *final(ledger) == *old(ledger)
            },
        },
{
    let normalized = CreateAccountRequest { currency: to_uppercase(data.currency.as_str()) };
    accounts::create_account(ledger, user_id, &normalized, now)
}

/// Lists the caller's accounts, ordered by creation time; cannot fail.
pub fn get_user_accounts(ledger: &Ledger, user_id: u64) -> (r: Result<Vec<Account>, AppError>)
    ensures
        match r {
            Ok(v) => v@ == accounts_of_user(ledger.spec_accounts(), user_id),
            Err(_) => false,
        },
{
    accounts::get_user_accounts(ledger, user_id)
}

/// Looks an account up and checks it belongs to the caller: a missing
/// account is not found, someone else's account is forbidden.
pub fn get_account(ledger: &Ledger, account_id: u64, user_id: u64) -> (r: Result<
    Account,
    AppError,
>)
    ensures
        match r {
            Ok(a) => {
                &&& account_id < ledger.spec_accounts().len()
                &&& a == ledger.spec_accounts()[account_id as int]
                &&& a.user_id == user_id
            },
            Err(e) => {
                if account_id < ledger.spec_accounts().len() {
                    ledger.spec_accounts()[account_id as int].user_id != user_id && e.kind()
                        == ErrorKind::Forbidden
                } else {
                    e.kind() == ErrorKind::NotFound
                }
            },
        },
{
    let account = match accounts::get_account(ledger, account_id) {
        Ok(a) => a,
        Err(e) => {
            return Err(e);
        },
    };
    if account.user_id != user_id {
        return Err(
            AppError::Forbidden(
                String::from_str("You do not have permission to access this account"),
            ),
        );
    }
    Ok(account)
}

} // verus!
