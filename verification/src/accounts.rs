//! Account store: opening accounts, lookups, and atomic balance deltas.

use vstd::prelude::*;

use crate::account::Account;
use crate::account::AccountStatus;
use crate::account::CreateAccountRequest;
use crate::error::AppError;
use crate::error::ErrorKind;
use crate::fmt::u64_to_string;
use crate::ledger::Ledger;

verus! {

/// Whether `user_id` already holds an account in `currency`.
pub open spec fn user_has_currency(
    accounts: Seq<Account>,
    user_id: u64,
    currency: Seq<char>,
) -> bool {
    exists|i: int|
        0 <= i < accounts.len() && (#[trigger] accounts[i]).user_id == user_id
            && accounts[i].currency@ == currency
}

/// The stored account `id` with `delta` added to its balance and its
/// update time refreshed; everything else is untouched.
pub open spec fn adjust_balance(
    accounts: Seq<Account>,
    id: u64,
    delta: int,
    now: i64,
) -> Seq<Account> {
    accounts.update(
        id as int,
        Account {
            balance: (accounts[id as int].balance + delta) as i64,
            updated_at: now,
            ..accounts[id as int]
        },
    )
}

/// Opens an account for `user_id` in the request's currency, with zero
/// balance and `Active` status. Rejected when the user already holds an
/// account in that currency; nothing else can fail.
pub fn create_account(
    ledger: &mut Ledger,
    user_id: u64,
    data: &CreateAccountRequest,
    now: i64,
) -> (r: Result<Account, AppError>)
    requires
        old(ledger).wf(),
    ensures
        final(ledger).wf(),
        final(ledger).spec_transactions() == old(ledger).spec_transactions(),
        final(ledger).spec_events() == old(ledger).spec_events(),
        match r {
            Ok(a) => {
                &&& !user_has_currency(old(ledger).spec_accounts(), user_id, data.currency@)
                &&& final(ledger).spec_accounts() == old(ledger).spec_accounts().push(a)
                &&& a.id == old(ledger).spec_accounts().len() as u64
                &&& a.user_id == user_id
                &&& a.balance == 0
                &&& a.currency == data.currency
                &&& a.status is Active
                &&& a.created_at == now
                &&& a.updated_at == now
            },
            Err(e) => {
                &&& user_has_currency(old(ledger).spec_accounts(), user_id, data.currency@)
                &&& e.kind() == ErrorKind::BadRequest
                &&& *final(ledger) == *old(ledger)
            },
        },
{
    let ghost accounts0 = ledger.spec_accounts();
    let n = ledger.accounts_len();
    let mut i: usize = 0;
    let mut taken = false;
    while i < n
        invariant
            old(ledger) == ledger,
            n == accounts0.len(),
            accounts0 == ledger.spec_accounts(),
            i <= n,
            taken <==> user_has_currency(accounts0.take(i as int), user_id, data.currency@),
        decreases n - i,
    {
        let a = ledger.account_at(i);
        if a.user_id == user_id && a.currency == data.currency {
            taken = true;
        }
        proof {
            assert(accounts0.take(i + 1).drop_last() =~= accounts0.take(i as int));
            assert(accounts0.take(i + 1)[i as int] == accounts0[i as int]);
            if taken && !user_has_currency(accounts0.take(i as int), user_id, data.currency@) {
                assert(accounts0.take(i + 1)[i as int].user_id == user_id
                    && accounts0.take(i + 1)[i as int].currency@ == data.currency@);
            }
            if user_has_currency(accounts0.take(i + 1), user_id, data.currency@) && !taken {
                let w = choose|w: int|
                    0 <= w < i + 1 && (#[trigger] accounts0.take(i + 1)[w]).user_id == user_id
                        && accounts0.take(i + 1)[w].currency@ == data.currency@;
                assert(accounts0.take(i as int)[w] == accounts0.take(i + 1)[w] || w == i);
            }
        }
        i = i + 1;
    }
    proof {
        assert(accounts0.take(n as int) =~= accounts0);
    }
    if taken {
        let msg = String::from_str("User already has an account in ").concat(
            data.currency.as_str(),
        ).concat(" currency");
        return Err(AppError::BadRequest(msg));
    }
    let account = Account {
        id: ledger.accounts_len() as u64,
        user_id,
        balance: 0,
        currency: data.currency.clone(),
        status: AccountStatus::Active,
        created_at: now,
        updated_at: now,
    };
    ledger.push_account(account.clone());
    proof {
        let news = ledger.spec_accounts();
        assert forall|p: int, q: int|
            #![trigger news[p], news[q]]
            0 <= p < q < news.len() implies !(news[p].user_id == news[q].user_id
            && news[p].currency@ == news[q].currency@) by {
            if q < accounts0.len() {
                assert(news[p] == accounts0[p] && news[q] == accounts0[q]);
            } else {
                assert(news[q].user_id == user_id && news[q].currency@ == data.currency@);
                assert(news[p] == accounts0[p]);
            }
        }
    }
    Ok(account)
}

/// Looks an account up by identifier; fails with `NotFound` when it does
/// not exist.
pub fn get_account(ledger: &Ledger, account_id: u64) -> (r: Result<Account, AppError>)
    ensures
        match r {
            Ok(a) => account_id < ledger.spec_accounts().len()
                && a == ledger.spec_accounts()[account_id as int],
            Err(e) => account_id >= ledger.spec_accounts().len()
                && e.kind() == ErrorKind::NotFound,
        },
{
    if account_id < ledger.accounts_len() as u64 {
        Ok(ledger.account_at(account_id as usize).clone())
    } else {
        let msg = String::from_str("Account not found: ").concat(
            u64_to_string(account_id).as_str(),
        );
        Err(AppError::NotFound(msg))
    }
}

/// The accounts a user holds, in creation order.
pub open spec fn accounts_of_user(accounts: Seq<Account>, user_id: u64) -> Seq<Account>
    decreases accounts.len(),
{
    if accounts.len() == 0 {
        Seq::empty()
    } else {
        let rest = accounts_of_user(accounts.drop_last(), user_id);
        if accounts.last().user_id == user_id {
            rest.push(accounts.last())
        } else {
            rest
        }
    }
}

/// Lists the accounts of `user_id`, ordered by creation time; cannot
/// fail.
pub fn get_user_accounts(ledger: &Ledger, user_id: u64) -> (r: Result<Vec<Account>, AppError>)
    ensures
        match r {
            Ok(v) => v@ == accounts_of_user(ledger.spec_accounts(), user_id),
            Err(_) => false,
        },
{
    let ghost accounts0 = ledger.spec_accounts();
    let n = ledger.accounts_len();
    let mut v: Vec<Account> = Vec::new();
    let mut i: usize = 0;
    while i < n
        invariant
            n == accounts0.len(),
            accounts0 == ledger.spec_accounts(),
            i <= n,
            v@ == accounts_of_user(accounts0.take(i as int), user_id),
        decreases n - i,
    {
        proof {
            assert(accounts0.take(i + 1).drop_last() =~= accounts0.take(i as int));
            assert(accounts0.take(i + 1).last() == accounts0[i as int]);
        }
        let a = ledger.account_at(i);
        if a.user_id == user_id {
            v.push(a.clone());
        }
        i = i + 1;
    }
    proof {
        assert(accounts0.take(n as int) =~= accounts0);
    }
    Ok(v)
}

/// Atomically adds `amount` (which may be negative) to the stored
/// balance of `account_id` and returns the updated row. Fails with
/// `NotFound` when the account does not exist, and with a storage error
/// when the new balance would not be representable.
pub fn update_balance(ledger: &mut Ledger, account_id: u64, amount: i64, now: i64) -> (r: Result<
    Account,
    AppError,
>)
    requires
        old(ledger).wf(),
    ensures
        final(ledger).wf(),
        final(ledger).spec_transactions() == old(ledger).spec_transactions(),
        final(ledger).spec_events() == old(ledger).spec_events(),
        match r {
            Ok(a) => {
                &&& account_id < old(ledger).spec_accounts().len()
                &&& i64::MIN <= old(ledger).spec_accounts()[account_id as int].balance + amount
                    <= i64::MAX
                &&& final(ledger).spec_accounts() == adjust_balance(
                    old(ledger).spec_accounts(),
                    account_id,
                    amount as int,
                    now,
                )
                &&& a == final(ledger).spec_accounts()[account_id as int]
            },
            Err(e) => {
                &&& *final(ledger) == *old(ledger)
                &&& if account_id < old(ledger).spec_accounts().len() {
                    !(i64::MIN <= old(ledger).spec_accounts()[account_id as int].balance + amount
                        <= i64::MAX) && e.kind() == ErrorKind::Database
                } else {
                    e.kind() == ErrorKind::NotFound
                }
            },
        },
{
    if account_id >= ledger.accounts_len() as u64 {
        let msg = String::from_str("Account not found: ").concat(
            u64_to_string(account_id).as_str(),
        );
        return Err(AppError::NotFound(msg));
    }
    let i = account_id as usize;
    let updated = match ledger.account_at(i).balance.checked_add(amount) {
        Some(nb) => nb,
        None => {
            return Err(AppError::Database(String::from_str("balance update overflowed")));
        },
    };
    let ghost accounts0 = ledger.spec_accounts();
    ledger.set_balance(i, updated, now);
    proof {
        let news = ledger.spec_accounts();
        assert(news =~= adjust_balance(accounts0, account_id, amount as int, now));
        assert forall|p: int, q: int|
            #![trigger news[p], news[q]]
            0 <= p < q < news.len() implies !(news[p].user_id == news[q].user_id
            && news[p].currency@ == news[q].currency@) by {
            assert(accounts0[p].user_id == news[p].user_id && accounts0[p].currency@
                == news[p].currency@);
            assert(accounts0[q].user_id == news[q].user_id && accounts0[q].currency@
                == news[q].currency@);
        }
        assert forall|t: int|
            0 <= t < ledger.spec_transactions().len() implies crate::ledger::tx_wf(
            news,
            #[trigger] ledger.spec_transactions()[t],
        ) by {
            assert(crate::ledger::tx_wf(accounts0, ledger.spec_transactions()[t]));
        }
    }
    Ok(ledger.account_at(i).clone())
}

} // verus!
