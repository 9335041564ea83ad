//! Transaction store and processor.
//!
//! [`create_transaction`] is the heart of the crate: it validates a
//! requested money movement, applies the balance deltas, and records the
//! audit trail, all as one atomic unit of work — a rejected or failed
//! request leaves the ledger exactly as it was.

use vstd::prelude::*;

use crate::account::Account;
use crate::accounts::adjust_balance;
use crate::accounts::get_account;
use crate::error::AppError;
use crate::error::ErrorKind;
use crate::fmt::i64_to_string;
use crate::fmt::u64_to_string;
use crate::casefold::lower_of;
use crate::ledger::completion_event;
use crate::ledger::creation_event;
use crate::ledger::Ledger;
use crate::transaction::clone_opt_string;
use crate::transaction::parse_transaction_type;
use crate::transaction::CreateTransactionRequest;
use crate::transaction::EventAction;
use crate::transaction::EventPayload;
use crate::transaction::Transaction;
use crate::transaction::TransactionEvent;
use crate::transaction::TransactionStatus;
use crate::transaction::TransactionType;

verus! {

/// The validation verdict for a requested movement, in the exact order
/// the checks are made: required account fields first, then existence,
/// then ownership, then currency agreement, then funds, and finally the
/// defensive re-assertion that the amount is positive. `None` means the
/// request is valid.
pub open spec fn validate_tx(
    accounts: Seq<Account>,
    user_id: u64,
    src: Option<u64>,
    dst: Option<u64>,
    amount: i64,
    currency: Seq<char>,
    ty: TransactionType,
) -> Option<ErrorKind> {
    match ty {
        TransactionType::Deposit => match dst {
            None => Some(ErrorKind::BadRequest),
            Some(d) => if d >= accounts.len() {
                Some(ErrorKind::NotFound)
            } else if accounts[d as int].user_id != user_id {
                Some(ErrorKind::Forbidden)
            } else if accounts[d as int].currency@ != currency {
                Some(ErrorKind::BadRequest)
            } else if amount <= 0 {
                Some(ErrorKind::BadRequest)
            } else {
                None
            },
        },
        TransactionType::Withdrawal => match src {
            None => Some(ErrorKind::BadRequest),
            Some(s) => if s >= accounts.len() {
                Some(ErrorKind::NotFound)
            } else if accounts[s as int].user_id != user_id {
                Some(ErrorKind::Forbidden)
            } else if accounts[s as int].currency@ != currency {
                Some(ErrorKind::BadRequest)
            } else if accounts[s as int].balance < amount {
                Some(ErrorKind::BadRequest)
            } else if amount <= 0 {
                Some(ErrorKind::BadRequest)
            } else {
                None
            },
        },
        TransactionType::Transfer => match (src, dst) {
            (Some(s), Some(d)) => if s >= accounts.len() {
                Some(ErrorKind::NotFound)
            } else if accounts[s as int].user_id != user_id {
                Some(ErrorKind::Forbidden)
            } else if d >= accounts.len() {
                Some(ErrorKind::NotFound)
            } else if accounts[s as int].currency@ != currency {
                Some(ErrorKind::BadRequest)
            } else if accounts[d as int].currency@ != currency {
                Some(ErrorKind::BadRequest)
            } else if accounts[s as int].balance < amount {
                Some(ErrorKind::BadRequest)
            } else if amount <= 0 {
                Some(ErrorKind::BadRequest)
            } else {
                None
            },
            _ => Some(ErrorKind::BadRequest),
        },
    }
}

/// Whether the mutation phase of a valid request can be carried out:
/// every account the row references must exist (a dangling reference
/// would be caught while writing the row), and a credited balance must
/// stay representable. When this fails the whole unit of work rolls
/// back and a storage error is returned.
pub open spec fn mutation_ok(
    accounts: Seq<Account>,
    src: Option<u64>,
    dst: Option<u64>,
    amount: i64,
    ty: TransactionType,
) -> bool {
    match ty {
        TransactionType::Deposit => {
            &&& (src matches Some(s) ==> s < accounts.len())
            &&& (dst matches Some(d) ==> d < accounts.len()
                ==> accounts[d as int].balance + amount <= i64::MAX)
        },
        TransactionType::Withdrawal => (dst matches Some(d) ==> d < accounts.len()),
        TransactionType::Transfer => match (src, dst) {
            (Some(s), Some(d)) => s != d && d < accounts.len()
                ==> accounts[d as int].balance + amount <= i64::MAX,
            _ => true,
        },
    }
}

/// The account list after the balance deltas of a valid movement:
/// a deposit credits its destination, a withdrawal debits its source,
/// and a transfer debits the source and then credits the destination.
pub open spec fn apply_tx_accounts(
    accounts: Seq<Account>,
    src: Option<u64>,
    dst: Option<u64>,
    amount: i64,
    ty: TransactionType,
    now: i64,
) -> Seq<Account> {
    match (ty, src, dst) {
        (TransactionType::Deposit, _, Some(d)) => adjust_balance(accounts, d, amount as int, now),
        (TransactionType::Withdrawal, Some(s), _) => adjust_balance(
            accounts,
            s,
            -(amount as int),
            now,
        ),
        (TransactionType::Transfer, Some(s), Some(d)) => adjust_balance(
            adjust_balance(accounts, s, -(amount as int), now),
            d,
            amount as int,
            now,
        ),
        _ => accounts,
    }
}

/// Records the pending row and its creation event, applies the balance
/// deltas, completes the row and records the completion event. Only
/// reached once the request is valid and the mutation cannot fail.
fn commit_transaction(
    ledger: &mut Ledger,
    user_id: u64,
    data: &CreateTransactionRequest,
    ty: TransactionType,
    now: i64,
) -> (t: Transaction)
    requires
        old(ledger).wf(),
        validate_tx(
            old(ledger).spec_accounts(),
            user_id,
            data.source_account_id,
            data.destination_account_id,
            data.amount,
            data.currency@,
            ty,
        ) is None,
        mutation_ok(
            old(ledger).spec_accounts(),
            data.source_account_id,
            data.destination_account_id,
            data.amount,
            ty,
        ),
    ensures
        final(ledger).wf(),
        final(ledger).spec_accounts() == apply_tx_accounts(
            old(ledger).spec_accounts(),
            data.source_account_id,
            data.destination_account_id,
            data.amount,
            ty,
            now,
        ),
        final(ledger).spec_transactions() == old(ledger).spec_transactions().push(t),
        final(ledger).spec_events() == old(ledger).spec_events().push(
            creation_event(
                old(ledger).spec_events().len() as u64,
                old(ledger).spec_transactions().len() as u64,
                user_id,
                now,
            ),
        ).push(
            completion_event(
                (old(ledger).spec_events().len() + 1) as u64,
                old(ledger).spec_transactions().len() as u64,
                user_id,
                now,
            ),
        ),
        t.id == old(ledger).spec_transactions().len() as u64,
        t.source_account_id == data.source_account_id,
        t.destination_account_id == data.destination_account_id,
        t.amount == data.amount,
        t.currency == data.currency,
        t.status is Completed,
        t.transaction_type == ty,
        t.description == data.description,
        t.created_at == now,
        t.updated_at == now,
{
    let ghost accounts0 = ledger.spec_accounts();
    let ghost transactions0 = ledger.spec_transactions();
    let ghost events0 = ledger.spec_events();
    // Pins the account count to the machine's size type, so that the
    // account indices below are known to fit it.
    let n_accounts: usize = ledger.accounts_len();
    proof {
        assert(n_accounts == accounts0.len());
    }

    // Insert the transaction row in pending status.
    let tid = ledger.transactions_len();
    let row = Transaction {
        id: tid as u64,
        source_account_id: data.source_account_id,
        destination_account_id: data.destination_account_id,
        amount: data.amount,
        currency: data.currency.clone(),
        status: TransactionStatus::Pending,
        transaction_type: ty,
        description: clone_opt_string(&data.description),
        created_at: now,
        updated_at: now,
    };
    ledger.push_transaction(row);

    // Record the creation event.
    let e0 = ledger.events_len();
    ledger.push_event(
        TransactionEvent {
            id: e0 as u64,
            transaction_id: tid as u64,
            previous_status: None,
            new_status: TransactionStatus::Pending,
            event_data: EventPayload { user_id, action: EventAction::Created },
            created_at: now,
        },
    );

    // Apply the balance deltas.
    match (ty, data.source_account_id, data.destination_account_id) {
        (TransactionType::Deposit, _, Some(d)) => {
            let i = d as usize;
            let balance = ledger.account_at(i).balance;
            ledger.set_balance(i, balance + data.amount, now);
        },
        (TransactionType::Withdrawal, Some(s), _) => {
            let i = s as usize;
            let balance = ledger.account_at(i).balance;
            ledger.set_balance(i, balance - data.amount, now);
        },
        (TransactionType::Transfer, Some(s), Some(d)) => {
            let i = s as usize;
            let balance = ledger.account_at(i).balance;
            ledger.set_balance(i, balance - data.amount, now);
            let j = d as usize;
            let dest_balance = ledger.account_at(j).balance;
            ledger.set_balance(j, dest_balance + data.amount, now);
        },
        _ => {
            proof {
                assert(false);
            }
        },
    }

    // Complete the transaction and record the completion event.
    ledger.complete_transaction(tid, now);
    let e1 = ledger.events_len();
    ledger.push_event(
        TransactionEvent {
            id: e1 as u64,
            transaction_id: tid as u64,
            previous_status: Some(TransactionStatus::Pending),
            new_status: TransactionStatus::Completed,
            event_data: EventPayload { user_id, action: EventAction::Processed },
            created_at: now,
        },
    );

    // Re-read the committed row.
    let result = ledger.transaction_at(tid).clone();
    proof {
        assert(ledger.spec_transactions() =~= transactions0.push(result));
        assert(ledger.spec_accounts() =~= apply_tx_accounts(
            accounts0,
            data.source_account_id,
            data.destination_account_id,
            data.amount,
            ty,
            now,
        ));
        let news = ledger.spec_accounts();
        assert forall|p: int, q: int|
            #![trigger news[p], news[q]]
            0 <= p < q < news.len() implies !(news[p].user_id == news[q].user_id
            && news[p].currency@ == news[q].currency@) by {
            assert(accounts0[p].user_id == news[p].user_id && accounts0[p].currency@
                == news[p].currency@);
            assert(accounts0[q].user_id == news[q].user_id && accounts0[q].currency@
                == news[q].currency@);
        }
        assert forall|k: int|
            0 <= k < ledger.spec_transactions().len() implies crate::ledger::tx_wf(
            news,
            #[trigger] ledger.spec_transactions()[k],
        ) by {
            if k < transactions0.len() {
                assert(crate::ledger::tx_wf(accounts0, transactions0[k]));
                assert(ledger.spec_transactions()[k] == transactions0[k]);
            }
        }
        assert forall|k: int|
            0 <= k < ledger.spec_events().len() implies crate::ledger::event_shape_wf(
            #[trigger] ledger.spec_events()[k],
            k,
        ) by {
            if k < events0.len() {
                assert(crate::ledger::event_shape_wf(events0[k], k));
                assert(ledger.spec_events()[k] == events0[k]);
            }
        }
    }
    result
}

/// Processes a requested money movement for `user_id` as one atomic
/// unit of work.
///
/// The request's type string is resolved case-insensitively, with
/// unrecognized strings deliberately read as transfers. Validation runs
/// before any mutation and the first failing check wins: missing
/// required account fields are a bad request; a referenced account that
/// does not exist is not found; a source or deposit destination owned by
/// someone else is forbidden; a currency disagreeing with the request's
/// is a bad request naming both currencies; insufficient funds and a
/// non-positive amount are bad requests. A valid request then writes
/// the pending row, its creation event, the balance deltas, the
/// completion, and the completion event; if the row would reference an
/// account that does not exist, or a balance would stop being
/// representable, the whole unit rolls back with a storage error. On
/// every error path the ledger is left exactly as it was.
pub fn create_transaction(
    ledger: &mut Ledger,
    user_id: u64,
    data: &CreateTransactionRequest,
    now: i64,
) -> (r: Result<Transaction, AppError>)
    requires
        old(ledger).wf(),
    ensures
        final(ledger).wf(),
        ({
            let accounts0 = old(ledger).spec_accounts();
            let ty = parse_transaction_type(lower_of(data.transaction_type@));
            let verdict = validate_tx(
                accounts0,
                user_id,
                data.source_account_id,
                data.destination_account_id,
                data.amount,
                data.currency@,
                ty,
            );
            let feasible = mutation_ok(
                accounts0,
                data.source_account_id,
                data.destination_account_id,
                data.amount,
                ty,
            );
            match r {
                Ok(t) => {
                    &&& verdict is None
                    &&& feasible
                    &&& final(ledger).spec_accounts() == apply_tx_accounts(
                        accounts0,
                        data.source_account_id,
                        data.destination_account_id,
                        data.amount,
                        ty,
                        now,
                    )
                    &&& final(ledger).spec_transactions() == old(
                        ledger,
                    ).spec_transactions().push(t)
                    &&& final(ledger).spec_events() == old(ledger).spec_events().push(
                        creation_event(
                            old(ledger).spec_events().len() as u64,
                            old(ledger).spec_transactions().len() as u64,
                            user_id,
                            now,
                        ),
                    ).push(
                        completion_event(
                            (old(ledger).spec_events().len() + 1) as u64,
                            old(ledger).spec_transactions().len() as u64,
                            user_id,
                            now,
                        ),
                    )
                    &&& t.id == old(ledger).spec_transactions().len() as u64
                    &&& t.source_account_id == data.source_account_id
                    &&& t.destination_account_id == data.destination_account_id
                    &&& t.amount == data.amount
                    &&& t.currency == data.currency
                    &&& t.status is Completed
                    &&& t.transaction_type == ty
                    &&& t.description == data.description
                    &&& t.created_at == now
                    &&& t.updated_at == now
                },
                Err(e) => {
                    &&& *final(ledger) == *old(ledger)
                    &&& match verdict {
                        Some(kind) => e.kind() == kind,
                        None => !feasible && e.kind() == ErrorKind::Database,
                    }
                },
            }
        }),
        // Value is conserved: a completed transfer leaves the sum of the
        // source and destination balances unchanged.
        match r {
            Ok(t) => match (data.source_account_id, data.destination_account_id) {
                (Some(s), Some(d)) => t.transaction_type is Transfer ==> ({
                    let before = old(ledger).spec_accounts();
                    let after = final(ledger).spec_accounts();
                    after[s as int].balance + after[d as int].balance == before[s as int].balance
                        + before[d as int].balance
                }),
                _ => true,
            },
            Err(_) => true,
        },
{
    let ty = TransactionType::from(data.transaction_type.as_str());

    // Validation phase: the first failing check wins, and nothing has
    // been written yet.
    match ty {
        TransactionType::Deposit => {
            let d = match data.destination_account_id {
                Some(d) => d,
                None => {
                    return Err(
                        AppError::BadRequest(
                            String::from_str("Destination account is required for deposits"),
                        ),
                    );
                },
            };
            let dest_account = match get_account(ledger, d) {
                Ok(a) => a,
                Err(e) => {
                    return Err(e);
                },
            };
            if dest_account.user_id != user_id {
                return Err(
                    AppError::Forbidden(
                        String::from_str("You do not have permission to deposit to this account"),
                    ),
                );
            }
            if !(dest_account.currency == data.currency) {
                let msg = String::from_str("Currency mismatch: transaction is in ").concat(
                    data.currency.as_str(),
                ).concat(", but account is in ").concat(dest_account.currency.as_str());
                return Err(AppError::BadRequest(msg));
            }
            if data.amount <= 0 {
                return Err(
                    AppError::BadRequest(String::from_str("Amount must be greater than zero")),
                );
            }
            // Mutation feasibility: a stray source reference must
            // resolve, and the credited balance must stay representable.
            match data.source_account_id {
                Some(s) => {
                    if s >= ledger.accounts_len() as u64 {
                        return Err(
                            AppError::Database(
                                String::from_str("transaction references an unknown account"),
                            ),
                        );
                    }
                },
                None => {},
            }
            if dest_account.balance.checked_add(data.amount).is_none() {
                return Err(
                    AppError::Database(String::from_str("balance update overflowed")),
                );
            }
        },
        TransactionType::Withdrawal => {
            let s = match data.source_account_id {
                Some(s) => s,
                None => {
                    return Err(
                        AppError::BadRequest(
                            String::from_str("Source account is required for withdrawals"),
                        ),
                    );
                },
            };
            let source_account = match get_account(ledger, s) {
                Ok(a) => a,
                Err(e) => {
                    return Err(e);
                },
            };
            if source_account.user_id != user_id {
                return Err(
                    AppError::Forbidden(
                        String::from_str(
                            "You do not have permission to withdraw from this account",
                        ),
                    ),
                );
            }
            if !(source_account.currency == data.currency) {
                let msg = String::from_str("Currency mismatch: transaction is in ").concat(
                    data.currency.as_str(),
                ).concat(", but account is in ").concat(source_account.currency.as_str());
                return Err(AppError::BadRequest(msg));
            }
            if source_account.balance < data.amount {
                let msg = String::from_str("Insufficient funds: balance is ").concat(
                    i64_to_string(source_account.balance).as_str(),
                ).concat(", but withdrawal amount is ").concat(i64_to_string(data.amount).as_str());
                return Err(AppError::BadRequest(msg));
            }
            if data.amount <= 0 {
                return Err(
                    AppError::BadRequest(String::from_str("Amount must be greater than zero")),
                );
            }
            match data.destination_account_id {
                Some(d) => {
                    if d >= ledger.accounts_len() as u64 {
                        return Err(
                            AppError::Database(
                                String::from_str("transaction references an unknown account"),
                            ),
                        );
                    }
                },
                None => {},
            }
        },
        TransactionType::Transfer => {
            let (s, d) = match (data.source_account_id, data.destination_account_id) {
                (Some(s), Some(d)) => (s, d),
                _ => {
                    return Err(
                        AppError::BadRequest(
                            String::from_str(
                                "Both source and destination accounts are required for transfers",
                            ),
                        ),
                    );
                },
            };
            let source_account = match get_account(ledger, s) {
                Ok(a) => a,
                Err(e) => {
                    return Err(e);
                },
            };
            if source_account.user_id != user_id {
                return Err(
                    AppError::Forbidden(
                        String::from_str(
                            "You do not have permission to transfer from this account",
                        ),
                    ),
                );
            }
            let dest_account = match get_account(ledger, d) {
                Ok(a) => a,
                Err(e) => {
                    return Err(e);
                },
            };
            if !(source_account.currency == data.currency) {
                let msg = String::from_str("Currency mismatch: transaction is in ").concat(
                    data.currency.as_str(),
                ).concat(", but source account is in ").concat(source_account.currency.as_str());
                return Err(AppError::BadRequest(msg));
            }
            if !(dest_account.currency == data.currency) {
                let msg = String::from_str("Currency mismatch: transaction is in ").concat(
                    data.currency.as_str(),
                ).concat(", but destination account is in ").concat(
                    dest_account.currency.as_str(),
                );
                return Err(AppError::BadRequest(msg));
            }
            if source_account.balance < data.amount {
                let msg = String::from_str("Insufficient funds: balance is ").concat(
                    i64_to_string(source_account.balance).as_str(),
                ).concat(", but transfer amount is ").concat(i64_to_string(data.amount).as_str());
                return Err(AppError::BadRequest(msg));
            }
            if data.amount <= 0 {
                return Err(
                    AppError::BadRequest(String::from_str("Amount must be greater than zero")),
                );
            }
            if s != d && dest_account.balance.checked_add(data.amount).is_none() {
                return Err(
                    AppError::Database(String::from_str("balance update overflowed")),
                );
            }
        },
    }

    // Mutation phase: record, apply, complete, as one unit of work.
    let t = commit_transaction(ledger, user_id, data, ty, now);
    Ok(t)
}

/// Looks a transaction up by identifier; fails with `NotFound` when it
/// does not exist.
pub fn get_transaction_by_id(ledger: &Ledger, transaction_id: u64) -> (r: Result<
    Transaction,
    AppError,
>)
    ensures
        match r {
            Ok(t) => transaction_id < ledger.spec_transactions().len()
                && t == ledger.spec_transactions()[transaction_id as int],
            Err(e) => transaction_id >= ledger.spec_transactions().len()
                && e.kind() == ErrorKind::NotFound,
        },
{
    if transaction_id < ledger.transactions_len() as u64 {
        Ok(ledger.transaction_at(transaction_id as usize).clone())
    } else {
        let msg = String::from_str("Transaction not found: ").concat(
            u64_to_string(transaction_id).as_str(),
        );
        Err(AppError::NotFound(msg))
    }
}

/// A transaction is for a user when at least one account it references
/// belongs to that user.
pub open spec fn tx_for_user(accounts: Seq<Account>, user_id: u64, t: Transaction) -> bool {
    ||| (t.source_account_id matches Some(s) && s < accounts.len() && accounts[s as int].user_id
        == user_id)
    ||| (t.destination_account_id matches Some(d) && d < accounts.len() && accounts[
        d as int
    ].user_id == user_id)
}

/// The transactions that are for a user, newest first.
pub open spec fn user_transactions_desc(
    accounts: Seq<Account>,
    user_id: u64,
    txs: Seq<Transaction>,
) -> Seq<Transaction>
    decreases txs.len(),
{
    if txs.len() == 0 {
        Seq::empty()
    } else {
        let rest = user_transactions_desc(accounts, user_id, txs.drop_last());
        if tx_for_user(accounts, user_id, txs.last()) {
            seq![txs.last()] + rest
        } else {
            rest
        }
    }
}

/// Whether at least one account referenced by `t` belongs to `user_id`.
pub(crate) fn tx_is_for_user(ledger: &Ledger, t: &Transaction, user_id: u64) -> (b: bool)
    ensures
        b == tx_for_user(ledger.spec_accounts(), user_id, *t),
{
    let src_ok = match t.source_account_id {
        Some(s) => s < ledger.accounts_len() as u64 && ledger.account_at(s as usize).user_id
            == user_id,
        None => false,
    };
    let dst_ok = match t.destination_account_id {
        Some(d) => d < ledger.accounts_len() as u64 && ledger.account_at(d as usize).user_id
            == user_id,
        None => false,
    };
    src_ok || dst_ok
}

/// Lists the transactions that are for `user_id`, newest first, as the
/// 1-indexed page `page` of size `page_size`, together with the total
/// count of matching transactions; cannot fail.
pub fn get_user_transactions(
    ledger: &Ledger,
    user_id: u64,
    page: usize,
    page_size: usize,
) -> (r: Result<(Vec<Transaction>, usize), AppError>)
    requires
        page >= 1,
        (page - 1) * page_size <= usize::MAX,
    ensures
        match r {
            Ok(pair) => {
                let m = user_transactions_desc(
                    ledger.spec_accounts(),
                    user_id,
                    ledger.spec_transactions(),
                );
                let offset = (page - 1) * page_size;
                &&& pair.1 == m.len()
                &&& pair.0@ == m.subrange(
                    vstd::math::min(offset as int, m.len() as int),
                    vstd::math::min(offset + page_size, m.len() as int),
                )
            },
            Err(_) => false,
        },
{
    let ghost accounts0 = ledger.spec_accounts();
    let ghost txs0 = ledger.spec_transactions();
    let n = ledger.transactions_len();
    let mut matched: Vec<Transaction> = Vec::new();
    let mut i: usize = n;
    proof {
        assert(txs0.take(n as int) =~= txs0);
    }
    while i > 0
        invariant
            n == txs0.len(),
            accounts0 == ledger.spec_accounts(),
            txs0 == ledger.spec_transactions(),
            i <= n,
            user_transactions_desc(accounts0, user_id, txs0) =~= matched@
                + user_transactions_desc(accounts0, user_id, txs0.take(i as int)),
        decreases i,
    {
        i = i - 1;
        proof {
            assert(txs0.take(i + 1).drop_last() =~= txs0.take(i as int));
            assert(txs0.take(i + 1).last() == txs0[i as int]);
        }
        let t = ledger.transaction_at(i);
        if tx_is_for_user(ledger, t, user_id) {
            matched.push(t.clone());
            proof {
                assert(matched@.drop_last() + (seq![txs0[i as int]] + user_transactions_desc(
                    accounts0,
                    user_id,
                    txs0.take(i as int),
                )) =~= matched@ + user_transactions_desc(accounts0, user_id, txs0.take(i as int)));
            }
        }
    }
    proof {
        assert(txs0.take(0) =~= Seq::<Transaction>::empty());
        assert(user_transactions_desc(accounts0, user_id, txs0) =~= matched@);
    }

    let ghost m = matched@;
    let total = matched.len();
    let offset = (page - 1) * page_size;
    let lo = if offset > total {
        total
    } else {
        offset
    };
    let hi = if offset > total {
        total
    } else if total - offset > page_size {
        offset + page_size
    } else {
        total
    };
    let mut items: Vec<Transaction> = Vec::new();
    let mut j = lo;
    while j < hi
        invariant
            lo <= j <= hi <= total,
            total == m.len(),
            m == matched@,
            items@ == m.subrange(lo as int, j as int),
        decreases hi - j,
    {
        proof {
            assert(m.subrange(lo as int, j + 1).drop_last() =~= m.subrange(lo as int, j as int));
            assert(m.subrange(lo as int, j + 1).last() == m[j as int]);
        }
        items.push(matched[j].clone());
        j = j + 1;
    }
    proof {
        assert(items@ =~= m.subrange(
            vstd::math::min(offset as int, m.len() as int),
            vstd::math::min(offset + page_size, m.len() as int),
        ));
    }
    Ok((items, total))
}

/// True exactly when the transaction exists and references at least one
/// account of `user_id`; cannot fail.
pub fn can_user_access_transaction(ledger: &Ledger, user_id: u64, transaction_id: u64) -> (r:
    Result<bool, AppError>)
    ensures
        match r {
            Ok(b) => b == (transaction_id < ledger.spec_transactions().len() && tx_for_user(
                ledger.spec_accounts(),
                user_id,
                ledger.spec_transactions()[transaction_id as int],
            )),
            Err(_) => false,
        },
{
    if transaction_id < ledger.transactions_len() as u64 {
        let t = ledger.transaction_at(transaction_id as usize);
        Ok(tx_is_for_user(ledger, t, user_id))
    } else {
        Ok(false)
    }
}

} // verus!
