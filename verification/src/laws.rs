//! The laws of the ledger, stated and proved once and for all: how
//! balances respond to sequences of deltas, what a committed
//! transaction's audit trail looks like, which requests are rejected
//! untouched, and why repeated withdrawals can never overdraw an
//! account.

use vstd::prelude::*;

use crate::account::Account;
use crate::error::ErrorKind;
use crate::ledger::event_shape_wf;
use crate::ledger::Ledger;
use crate::transaction::TransactionEvent;
use crate::transaction::TransactionStatus;
use crate::transaction::TransactionType;
use crate::transactions::apply_tx_accounts;
use crate::transactions::validate_tx;

verus! {

/// The sum of a sequence of balance deltas.
pub open spec fn sum_deltas(ds: Seq<i64>) -> int
    decreases ds.len(),
{
    if ds.len() == 0 {
        0
    } else {
        sum_deltas(ds.drop_last()) + ds.last()
    }
}

/// The balance after applying a sequence of deltas in order.
pub open spec fn apply_deltas(balance: int, ds: Seq<i64>) -> int
    decreases ds.len(),
{
    if ds.len() == 0 {
        balance
    } else {
        apply_deltas(balance, ds.drop_last()) + ds.last()
    }
}

/// After applying any sequence of deltas, the balance equals the
/// initial balance plus the sum of the deltas. Each successful call of
/// [`crate::accounts::update_balance`] applies exactly one such delta.
pub proof fn lemma_balance_after_deltas(balance: int, ds: Seq<i64>)
    ensures
        apply_deltas(balance, ds) == balance + sum_deltas(ds),
    decreases ds.len(),
{
    if ds.len() > 0 {
        lemma_balance_after_deltas(balance, ds.drop_last());
    }
}

/// Removing one delta removes exactly its contribution from the sum.
proof fn lemma_sum_remove(ds: Seq<i64>, k: int)
    requires
        0 <= k < ds.len(),
    ensures
        sum_deltas(ds) == sum_deltas(ds.remove(k)) + ds[k],
    decreases ds.len(),
{
    if k == ds.len() - 1 {
        assert(ds.remove(k) =~= ds.drop_last());
    } else {
        lemma_sum_remove(ds.drop_last(), k);
        assert(ds.remove(k).drop_last() =~= ds.drop_last().remove(k));
        assert(ds.remove(k).last() == ds.last());
    }
}

/// Deltas commute: two sequences with the same deltas in any order have
/// the same sum, so the final balance does not depend on the order of
/// application.
pub proof fn lemma_sum_deltas_permutation(ds1: Seq<i64>, ds2: Seq<i64>)
    requires
        ds1.to_multiset() == ds2.to_multiset(),
    ensures
        sum_deltas(ds1) == sum_deltas(ds2),
    decreases ds1.len(),
{
    broadcast use vstd::seq_lib::group_to_multiset_ensures;

    assert(ds1.to_multiset().len() == ds1.len());
    assert(ds2.to_multiset().len() == ds2.len());
    if ds1.len() == 0 {
        assert(ds2.len() == 0);
    } else {
        let x = ds1.last();
        assert(ds1.contains(x));
        assert(ds2.to_multiset().count(x) > 0);
        assert(ds2.contains(x));
        let k = choose|k: int| 0 <= k < ds2.len() && ds2[k] == x;
        lemma_sum_remove(ds2, k);
        assert(ds1.drop_last() =~= ds1.remove(ds1.len() - 1));
        assert(ds1.drop_last().to_multiset() =~= ds2.remove(k).to_multiset());
        lemma_sum_deltas_permutation(ds1.drop_last(), ds2.remove(k));
    }
}

/// The audit entries of transaction `tid`, oldest first.
pub open spec fn events_for(events: Seq<TransactionEvent>, tid: u64) -> Seq<TransactionEvent>
    decreases events.len(),
{
    if events.len() == 0 {
        Seq::empty()
    } else {
        let rest = events_for(events.drop_last(), tid);
        if events.last().transaction_id == tid {
            rest.push(events.last())
        } else {
            rest
        }
    }
}

/// In a well-shaped trail, the entries of transaction `tid` are exactly
/// the pair at positions `2 * tid` and `2 * tid + 1`, as far as the
/// trail extends.
proof fn lemma_events_for_pairs(events: Seq<TransactionEvent>, tid: u64)
    requires
        events.len() <= u64::MAX,
        forall|e: int| 0 <= e < events.len() ==> event_shape_wf(#[trigger] events[e], e),
    ensures
        events_for(events, tid) =~= if events.len() <= 2 * (tid as int) {
            Seq::<TransactionEvent>::empty()
        } else if events.len() == 2 * (tid as int) + 1 {
            seq![events[2 * (tid as int)]]
        } else {
            seq![events[2 * (tid as int)], events[2 * (tid as int) + 1]]
        },
    decreases events.len(),
{
    if events.len() > 0 {
        let prefix = events.drop_last();
        assert(forall|e: int| 0 <= e < prefix.len() ==> prefix[e] == events[e]);
        lemma_events_for_pairs(prefix, tid);
        let last_idx = events.len() - 1;
        assert(event_shape_wf(events[last_idx], last_idx));
        assert(events.last().transaction_id == tid <==> last_idx / 2 == tid as int);
    }
}

/// Every committed transaction has exactly one creation entry and one
/// completion entry in its audit trail, in that order: the creation
/// entry records the move into `Pending` from no previous status, and
/// the completion entry the move from `Pending` to `Completed`.
pub proof fn lemma_audit_trail(l: Ledger, tid: u64)
    requires
        l.wf(),
        tid < l.spec_transactions().len(),
    ensures
        ({
            let trail = events_for(l.spec_events(), tid);
            &&& trail.len() == 2
            &&& trail[0] == l.spec_events()[2 * (tid as int)]
            &&& trail[1] == l.spec_events()[2 * (tid as int) + 1]
            &&& trail[0].previous_status is None
            &&& trail[0].new_status is Pending
            &&& trail[0].event_data.action is Created
            &&& trail[1].previous_status == Some(TransactionStatus::Pending)
            &&& trail[1].new_status is Completed
            &&& trail[1].event_data.action is Processed
        }),
{
    l.lemma_len_bounds();
    lemma_events_for_pairs(l.spec_events(), tid);
    assert(event_shape_wf(l.spec_events()[2 * (tid as int)], 2 * (tid as int)));
    assert(event_shape_wf(l.spec_events()[2 * (tid as int) + 1], 2 * (tid as int) + 1));
}

/// A withdrawal of more than the source balance is validated to a bad
/// request — so, by the processor's contract, it mutates nothing.
pub proof fn lemma_overdraft_rejected(
    accounts: Seq<Account>,
    user_id: u64,
    src: u64,
    dst: Option<u64>,
    amount: i64,
    currency: Seq<char>,
)
    requires
        src < accounts.len(),
        accounts[src as int].user_id == user_id,
        accounts[src as int].currency@ == currency,
        amount > accounts[src as int].balance,
    ensures
        validate_tx(
            accounts,
            user_id,
            Some(src),
            dst,
            amount,
            currency,
            TransactionType::Withdrawal,
        ) == Some(ErrorKind::BadRequest),
{
}

/// A movement whose currency differs from a checked account's currency
/// is validated to a bad request — so it mutates nothing. For a
/// transfer it is enough that either end disagrees.
pub proof fn lemma_currency_mismatch_rejected(
    accounts: Seq<Account>,
    user_id: u64,
    src: Option<u64>,
    dst: Option<u64>,
    amount: i64,
    currency: Seq<char>,
    ty: TransactionType,
)
    requires
        match ty {
            TransactionType::Deposit => dst matches Some(d) && d < accounts.len() && accounts[
                d as int
            ].user_id == user_id && accounts[d as int].currency@ != currency,
            TransactionType::Withdrawal => src matches Some(s) && s < accounts.len() && accounts[
                s as int
            ].user_id == user_id && accounts[s as int].currency@ != currency,
            TransactionType::Transfer => src matches Some(s) && dst matches Some(d) && s
                < accounts.len() && accounts[s as int].user_id == user_id && d < accounts.len() && (
            accounts[s as int].currency@ != currency || accounts[d as int].currency@ != currency),
        },
    ensures
        validate_tx(accounts, user_id, src, dst, amount, currency, ty) == Some(
            ErrorKind::BadRequest,
        ),
{
}

/// A movement whose checked account belongs to someone else is
/// validated to forbidden — so it mutates nothing. The checked account
/// is the deposit destination or the withdrawal/transfer source.
pub proof fn lemma_foreign_account_rejected(
    accounts: Seq<Account>,
    user_id: u64,
    src: Option<u64>,
    dst: Option<u64>,
    amount: i64,
    currency: Seq<char>,
    ty: TransactionType,
)
    requires
        match ty {
            TransactionType::Deposit => dst matches Some(d) && d < accounts.len() && accounts[
                d as int
            ].user_id != user_id,
            TransactionType::Withdrawal => src matches Some(s) && s < accounts.len() && accounts[
                s as int
            ].user_id != user_id,
            TransactionType::Transfer => src matches Some(s) && dst is Some && s < accounts.len()
                && accounts[s as int].user_id != user_id,
        },
    ensures
        validate_tx(accounts, user_id, src, dst, amount, currency, ty) == Some(
            ErrorKind::Forbidden,
        ),
{
}

/// One withdrawal attempt of `amount` from `src`: applied when valid,
/// otherwise the accounts are left alone.
pub open spec fn withdrawal_round(
    accounts: Seq<Account>,
    user_id: u64,
    src: u64,
    amount: i64,
    currency: Seq<char>,
    now: i64,
) -> Seq<Account> {
    if validate_tx(
        accounts,
        user_id,
        Some(src),
        None,
        amount,
        currency,
        TransactionType::Withdrawal,
    ) is None {
        apply_tx_accounts(accounts, Some(src), None, amount, TransactionType::Withdrawal, now)
    } else {
        accounts
    }
}

/// The accounts after `n` withdrawal attempts of `amount` from `src`.
pub open spec fn run_withdrawals(
    accounts: Seq<Account>,
    user_id: u64,
    src: u64,
    amount: i64,
    currency: Seq<char>,
    now: i64,
    n: nat,
) -> Seq<Account>
    decreases n,
{
    if n == 0 {
        accounts
    } else {
        withdrawal_round(
            run_withdrawals(accounts, user_id, src, amount, currency, now, (n - 1) as nat),
            user_id,
            src,
            amount,
            currency,
            now,
        )
    }
}

/// How many of `n` withdrawal attempts of `amount` from `src` succeed.
pub open spec fn successful_withdrawals(
    accounts: Seq<Account>,
    user_id: u64,
    src: u64,
    amount: i64,
    currency: Seq<char>,
    now: i64,
    n: nat,
) -> nat
    decreases n,
{
    if n == 0 {
        0
    } else {
        let prev = run_withdrawals(accounts, user_id, src, amount, currency, now, (n - 1) as nat);
        successful_withdrawals(accounts, user_id, src, amount, currency, now, (n - 1) as nat) + (
        if validate_tx(
            prev,
            user_id,
            Some(src),
            None,
            amount,
            currency,
            TransactionType::Withdrawal,
        ) is None {
            1nat
        } else {
            0nat
        })
    }
}

/// No overdraft under contention: when `n` withdrawals of the same
/// positive `amount` are applied to one account with balance `b`, one
/// after another as atomic units of work, exactly `min(n, b / amount)`
/// of them succeed and the balance never drops below zero.
pub proof fn lemma_no_overdraft_under_contention(
    accounts: Seq<Account>,
    user_id: u64,
    src: u64,
    amount: i64,
    currency: Seq<char>,
    now: i64,
    n: nat,
)
    requires
        src < accounts.len(),
        accounts[src as int].user_id == user_id,
        accounts[src as int].currency@ == currency,
        accounts[src as int].balance >= 0,
        amount > 0,
    ensures
        ({
            let b = accounts[src as int].balance as int;
            let wins = vstd::math::min(n as int, b / (amount as int));
            let run = run_withdrawals(accounts, user_id, src, amount, currency, now, n);
            &&& successful_withdrawals(accounts, user_id, src, amount, currency, now, n) == wins
            &&& run.len() == accounts.len()
            &&& run[src as int].user_id == user_id
            &&& run[src as int].currency@ == currency
            &&& run[src as int].balance == b - wins * (amount as int)
            &&& run[src as int].balance >= 0
        }),
    decreases n,
{
    let b = accounts[src as int].balance as int;
    let a = amount as int;
    let q = b / a;
    let rem = b % a;
    assert(b == q * a + rem && 0 <= rem < a && q >= 0) by (nonlinear_arith)
        requires
            b >= 0,
            a > 0,
            q == b / a,
            rem == b % a,
    ;
    if n == 0 {
    } else {
        lemma_no_overdraft_under_contention(
            accounts,
            user_id,
            src,
            amount,
            currency,
            now,
            (n - 1) as nat,
        );
        let wins0 = vstd::math::min((n - 1) as int, q);
        let prev = run_withdrawals(accounts, user_id, src, amount, currency, now, (n - 1) as nat);
        assert(prev[src as int].balance == b - wins0 * a);
        if wins0 < q {
            // The balance still covers one more withdrawal.
            assert(b - wins0 * a >= a) by (nonlinear_arith)
                requires
                    b == q * a + rem,
                    0 <= rem,
                    wins0 < q,
                    a > 0,
                    wins0 >= 0,
            ;
            assert(validate_tx(
                prev,
                user_id,
                Some(src),
                None,
                amount,
                currency,
                TransactionType::Withdrawal,
            ) is None);
            assert((wins0 + 1) * a == wins0 * a + a) by (nonlinear_arith);
        } else {
            // The remaining balance is below the amount: the attempt is
            // rejected and nothing changes.
            assert(wins0 == q && b - q * a == rem) by (nonlinear_arith)
                requires
                    b == q * a + rem,
                    wins0 >= q,
                    wins0 == vstd::math::min((n - 1) as int, q),
            ;
            assert(prev[src as int].balance < amount);
            assert(!(validate_tx(
                prev,
                user_id,
                Some(src),
                None,
                amount,
                currency,
                TransactionType::Withdrawal,
            ) is None));
        }
    }
}

} // verus!
