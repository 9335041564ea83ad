//! Transaction service: the processor with the caller-facing
//! conventions applied — the currency is normalized to upper case and
//! the type string to lower case before processing — plus access-checked
//! reads and paginated history.

use vstd::prelude::*;

use crate::casefold::lower_of;
use crate::casefold::to_lowercase;
use crate::casefold::to_uppercase;
use crate::casefold::upper_of;
use crate::error::AppError;
use crate::error::ErrorKind;
use crate::ledger::completion_event;
use crate::ledger::creation_event;
use crate::ledger::Ledger;
use crate::transaction::clone_opt_string;
use crate::transaction::parse_transaction_type;
use crate::transaction::CreateTransactionRequest;
use crate::transaction::Transaction;
use crate::transactions;
use crate::transactions::apply_tx_accounts;
use crate::transactions::mutation_ok;
use crate::transactions::tx_for_user;
use crate::transactions::user_transactions_desc;
use crate::transactions::validate_tx;

verus! {

/// Processes a movement after normalizing the request: the currency
/// code is uppercased and the type string lowercased. The outcome is
/// exactly that of [`transactions::create_transaction`] on the
/// normalized request.
pub fn create_transaction(
    ledger: &mut Ledger,
    user_id: u64,
    data: &CreateTransactionRequest,
    now: i64,
) -> (r: Result<Transaction, AppError>)
    requires
        old(ledger).wf(),
    ensures
        final(ledger).wf(),
        ({
            let accounts0 = old(ledger).spec_accounts();
            let currency = upper_of(data.currency@);
            let ty = parse_transaction_type(lower_of(lower_of(data.transaction_type@)));
            let verdict = validate_tx(
                accounts0,
                user_id,
                data.source_account_id,
                data.destination_account_id,
                data.amount,
                currency,
                ty,
            );
            let feasible = mutation_ok(
                accounts0,
                data.source_account_id,
                data.destination_account_id,
                data.amount,
                ty,
            );
            match r {
                Ok(t) => {
                    &&& verdict is None
                    &&& feasible
                    &&& final(ledger).spec_accounts() == apply_tx_accounts(
                        accounts0,
                        data.source_account_id,
                        data.destination_account_id,
                        data.amount,
                        ty,
                        now,
                    )
                    &&& final(ledger).spec_transactions() == old(
                        ledger,
                    ).spec_transactions().push(t)
                    &&& final(ledger).spec_events() == old(ledger).spec_events().push(
                        creation_event(
                            old(ledger).spec_events().len() as u64,
                            old(ledger).spec_transactions().len() as u64,
                            user_id,
                            now,
                        ),
                    ).push(
                        completion_event(
                            (old(ledger).spec_events().len() + 1) as u64,
                            old(ledger).spec_transactions().len() as u64,
                            user_id,
                            now,
                        ),
                    )
                    &&& t.id == old(ledger).spec_transactions().len() as u64
                    &&& t.source_account_id == data.source_account_id
                    &&& t.destination_account_id == data.destination_account_id
                    &&& t.amount == data.amount
                    &&& t.currency@ == currency
                    &&& t.status is Completed
                    &&& t.transaction_type == ty
                    &&& t.description == data.description
                    &&& t.created_at == now
                    &&& t.updated_at == now
                },
                Err(e) => {
                    &&& *final(ledger) == *old(ledger)
                    &&& match verdict {
                        Some(kind) => e.kind() == kind,
                        None => !feasible && e.kind() == ErrorKind::Database,
                    }
                },
            }
        }),
{
    let normalized = CreateTransactionRequest {
        source_account_id: data.source_account_id,
        destination_account_id: data.destination_account_id,
        amount: data.amount,
        currency: to_uppercase(data.currency.as_str()),
        transaction_type: to_lowercase(data.transaction_type.as_str()),
        description: clone_opt_string(&data.description),
    };
    transactions::create_transaction(ledger, user_id, &normalized, now)
}

/// Returns a transaction to a caller entitled to see it. A caller is
/// entitled exactly when the transaction exists and references one of
/// the caller's accounts; everything else — including a transaction that
/// does not exist — is forbidden.
pub fn get_transaction(ledger: &Ledger, transaction_id: u64, user_id: u64) -> (r: Result<
    Transaction,
    AppError,
>)
    ensures
        match r {
            Ok(t) => {
                &&& transaction_id < ledger.spec_transactions().len()
                &&& tx_for_user(
                    ledger.spec_accounts(),
                    user_id,
                    ledger.spec_transactions()[transaction_id as int],
                )
                &&& t == ledger.spec_transactions()[transaction_id as int]
            },
            Err(e) => {
                &&& !(transaction_id < ledger.spec_transactions().len() && tx_for_user(
                    ledger.spec_accounts(),
                    user_id,
                    ledger.spec_transactions()[transaction_id as int],
                ))
                &&& e.kind() == ErrorKind::Forbidden
            },
        },
{
    let has_access = match transactions::can_user_access_transaction(
        ledger,
        user_id,
        transaction_id,
    ) {
        Ok(b) => b,
        Err(e) => {
            return Err(e);
        },
    };
    if !has_access {
        return Err(
            AppError::Forbidden(
                String::from_str("You do not have permission to access this transaction"),
            ),
        );
    }
    transactions::get_transaction_by_id(ledger, transaction_id)
}

/// The caller's transaction history, newest first, as the 1-indexed
/// page `page` of size `page_size`, with the total count; cannot fail.
pub fn list_user_transactions(
    ledger: &Ledger,
    user_id: u64,
    page: usize,
    page_size: usize,
) -> (r: Result<(Vec<Transaction>, usize), AppError>)
    requires
        page >= 1,
        (page - 1) * page_size <= usize::MAX,
    ensures
        match r {
            Ok(pair) => {
                let m = user_transactions_desc(
                    ledger.spec_accounts(),
                    user_id,
                    ledger.spec_transactions(),
                );
                let offset = (page - 1) * page_size;
                &&& pair.1 == m.len()
                &&& pair.0@ == m.subrange(
                    vstd::math::min(offset as int, m.len() as int),
                    vstd::math::min(offset + page_size, m.len() as int),
                )
            },
            Err(_) => false,
        },
{
    transactions::get_user_transactions(ledger, user_id, page, page_size)
}

} // verus!
