use ledger_core::account::CreateAccountRequest;
use ledger_core::accounts;
use ledger_core::error::AppError;
use ledger_core::ledger::Ledger;
use ledger_core::transaction::CreateTransactionRequest;
use ledger_core::transaction::EventAction;
use ledger_core::transaction::TransactionStatus;
use ledger_core::transaction::TransactionType;
use ledger_core::transaction_service;
use ledger_core::transactions;

fn account_with_balance(l: &mut Ledger, user_id: u64, currency: &str, balance: i64) -> u64 {
    let req = CreateAccountRequest { currency: currency.to_string() };
    let a = accounts::create_account(l, user_id, &req, 100).unwrap();
    if balance != 0 {
        accounts::update_balance(l, a.id, balance, 101).unwrap();
    }
    a.id
}

fn request(
    ty: &str,
    source: Option<u64>,
    destination: Option<u64>,
    amount: i64,
    currency: &str,
) -> CreateTransactionRequest {
    CreateTransactionRequest {
        source_account_id: source,
        destination_account_id: destination,
        amount,
        currency: currency.to_string(),
        transaction_type: ty.to_string(),
        description: None,
    }
}

fn balance_of(l: &Ledger, id: u64) -> i64 {
    accounts::get_account(l, id).unwrap().balance
}

#[test]
fn deposit_credits_destination_and_completes() {
    // Account with balance 100 USD; a deposit of 50 USD makes it 150
    // and the transaction is completed.
    let mut l = Ledger::new();
    let a = account_with_balance(&mut l, 1, "USD", 100);
    let t = transactions::create_transaction(&mut l, 1, &request("deposit", None, Some(a), 50, "USD"), 200)
        .unwrap();
    assert_eq!(t.status, TransactionStatus::Completed);
    assert_eq!(t.transaction_type, TransactionType::Deposit);
    assert_eq!(t.amount, 50);
    assert_eq!(t.created_at, 200);
    assert_eq!(balance_of(&l, a), 150);
}

#[test]
fn overdrawn_transfer_is_rejected_untouched() {
    // A 100 USD, B 0 USD; a transfer of 150 is rejected as a bad
    // request and neither balance moves.
    let mut l = Ledger::new();
    let a = account_with_balance(&mut l, 1, "USD", 100);
    let b = account_with_balance(&mut l, 2, "USD", 0);
    let r = transactions::create_transaction(&mut l, 1, &request("transfer", Some(a), Some(b), 150, "USD"), 200);
    match r {
        Err(e @ AppError::BadRequest(_)) => {
            assert_eq!(e.message(), "Insufficient funds: balance is 100, but transfer amount is 150");
        },
        _ => panic!("expected a bad request"),
    }
    assert_eq!(balance_of(&l, a), 100);
    assert_eq!(balance_of(&l, b), 0);
    assert!(l.event_trail().is_empty());
}

#[test]
fn currency_mismatch_is_rejected_untouched() {
    // Transfer of 30 EUR from a USD account: rejected, balances kept.
    let mut l = Ledger::new();
    let a = account_with_balance(&mut l, 1, "USD", 100);
    let b = account_with_balance(&mut l, 2, "USD", 0);
    let r = transactions::create_transaction(&mut l, 1, &request("transfer", Some(a), Some(b), 30, "EUR"), 200);
    match r {
        Err(e @ AppError::BadRequest(_)) => {
            assert_eq!(e.message(), "Currency mismatch: transaction is in EUR, but source account is in USD");
        },
        _ => panic!("expected a bad request"),
    }
    assert_eq!(balance_of(&l, a), 100);
    assert_eq!(balance_of(&l, b), 0);
}

#[test]
fn foreign_account_is_forbidden_untouched() {
    // Depositing to an account owned by someone else is forbidden and
    // mutates nothing.
    let mut l = Ledger::new();
    let a = account_with_balance(&mut l, 1, "USD", 100);
    let r = transactions::create_transaction(&mut l, 2, &request("deposit", None, Some(a), 50, "USD"), 200);
    match r {
        Err(e @ AppError::Forbidden(_)) => assert_eq!(e.status_code(), 403),
        _ => panic!("expected forbidden"),
    }
    assert_eq!(balance_of(&l, a), 100);
    assert!(l.event_trail().is_empty());
}

#[test]
fn withdrawing_from_foreign_account_is_forbidden() {
    let mut l = Ledger::new();
    let a = account_with_balance(&mut l, 1, "USD", 100);
    let r = transactions::create_transaction(&mut l, 2, &request("withdrawal", Some(a), None, 10, "USD"), 200);
    assert!(matches!(r, Err(AppError::Forbidden(_))));
    assert_eq!(balance_of(&l, a), 100);
}

#[test]
fn transfer_conserves_value() {
    let mut l = Ledger::new();
    let a = account_with_balance(&mut l, 1, "USD", 100);
    let b = account_with_balance(&mut l, 2, "USD", 40);
    let t = transactions::create_transaction(&mut l, 1, &request("transfer", Some(a), Some(b), 35, "USD"), 200)
        .unwrap();
    assert_eq!(t.status, TransactionStatus::Completed);
    assert_eq!(balance_of(&l, a), 65);
    assert_eq!(balance_of(&l, b), 75);
    assert_eq!(balance_of(&l, a) + balance_of(&l, b), 140);
}

#[test]
fn self_transfer_leaves_the_balance_alone() {
    // A transfer whose source and destination are the same account is
    // a debit followed by a credit: it completes and changes nothing.
    let mut l = Ledger::new();
    let a = account_with_balance(&mut l, 1, "USD", 100);
    let t = transactions::create_transaction(&mut l, 1, &request("transfer", Some(a), Some(a), 60, "USD"), 200)
        .unwrap();
    assert_eq!(t.status, TransactionStatus::Completed);
    assert_eq!(balance_of(&l, a), 100);
}

#[test]
fn withdrawal_debits_source() {
    let mut l = Ledger::new();
    let a = account_with_balance(&mut l, 1, "USD", 100);
    let t = transactions::create_transaction(&mut l, 1, &request("withdrawal", Some(a), None, 30, "USD"), 200)
        .unwrap();
    assert_eq!(t.status, TransactionStatus::Completed);
    assert_eq!(t.transaction_type, TransactionType::Withdrawal);
    assert_eq!(balance_of(&l, a), 70);
}

#[test]
fn missing_required_accounts_are_bad_requests() {
    let mut l = Ledger::new();
    let a = account_with_balance(&mut l, 1, "USD", 100);
    let no_dest = transactions::create_transaction(&mut l, 1, &request("deposit", Some(a), None, 10, "USD"), 200);
    assert!(matches!(no_dest, Err(AppError::BadRequest(_))));
    let no_src = transactions::create_transaction(&mut l, 1, &request("withdrawal", None, Some(a), 10, "USD"), 200);
    assert!(matches!(no_src, Err(AppError::BadRequest(_))));
    let half = transactions::create_transaction(&mut l, 1, &request("transfer", Some(a), None, 10, "USD"), 200);
    assert!(matches!(half, Err(AppError::BadRequest(_))));
    // An unrecognized type string is deliberately read as a transfer,
    // so it too demands both accounts.
    let unknown = transactions::create_transaction(&mut l, 1, &request("unknown", None, None, 10, "USD"), 200);
    match unknown {
        Err(e @ AppError::BadRequest(_)) => {
            assert_eq!(e.message(), "Both source and destination accounts are required for transfers");
        },
        _ => panic!("expected a bad request"),
    }
}

#[test]
fn missing_referenced_account_is_not_found() {
    let mut l = Ledger::new();
    let r = transactions::create_transaction(&mut l, 1, &request("deposit", None, Some(9), 10, "USD"), 200);
    assert!(matches!(r, Err(AppError::NotFound(_))));
}

#[test]
fn non_positive_amount_is_rejected() {
    let mut l = Ledger::new();
    let a = account_with_balance(&mut l, 1, "USD", 100);
    let zero = transactions::create_transaction(&mut l, 1, &request("deposit", None, Some(a), 0, "USD"), 200);
    match zero {
        Err(e @ AppError::BadRequest(_)) => {
            assert_eq!(e.message(), "Amount must be greater than zero");
        },
        _ => panic!("expected a bad request"),
    }
    let negative = transactions::create_transaction(&mut l, 1, &request("deposit", None, Some(a), -5, "USD"), 200);
    assert!(matches!(negative, Err(AppError::BadRequest(_))));
    assert_eq!(balance_of(&l, a), 100);
}

#[test]
fn stray_reference_rolls_back_as_storage_error() {
    // A deposit may carry an unchecked source reference; if it does
    // not resolve, the row cannot be written and the unit rolls back.
    let mut l = Ledger::new();
    let a = account_with_balance(&mut l, 1, "USD", 100);
    let r = transactions::create_transaction(&mut l, 1, &request("deposit", Some(77), Some(a), 10, "USD"), 200);
    match r {
        Err(e @ AppError::Database(_)) => assert_eq!(e.status_code(), 500),
        _ => panic!("expected a storage error"),
    }
    assert_eq!(balance_of(&l, a), 100);
    assert!(l.event_trail().is_empty());
}

#[test]
fn overflowing_deposit_rolls_back_as_storage_error() {
    let mut l = Ledger::new();
    let a = account_with_balance(&mut l, 1, "USD", i64::MAX - 5);
    let r = transactions::create_transaction(&mut l, 1, &request("deposit", None, Some(a), 10, "USD"), 200);
    assert!(matches!(r, Err(AppError::Database(_))));
    assert_eq!(balance_of(&l, a), i64::MAX - 5);
}

#[test]
fn committed_transaction_has_creation_then_completion_events() {
    let mut l = Ledger::new();
    let a = account_with_balance(&mut l, 1, "USD", 100);
    let t = transactions::create_transaction(&mut l, 1, &request("deposit", None, Some(a), 50, "USD"), 200)
        .unwrap();
    let trail = l.event_trail();
    assert_eq!(trail.len(), 2);
    let creation = &trail[(2 * t.id) as usize];
    assert_eq!(creation.transaction_id, t.id);
    assert_eq!(creation.previous_status, None);
    assert_eq!(creation.new_status, TransactionStatus::Pending);
    assert_eq!(creation.event_data.action, EventAction::Created);
    assert_eq!(creation.event_data.user_id, 1);
    let completion = &trail[(2 * t.id + 1) as usize];
    assert_eq!(completion.transaction_id, t.id);
    assert_eq!(completion.previous_status, Some(TransactionStatus::Pending));
    assert_eq!(completion.new_status, TransactionStatus::Completed);
    assert_eq!(completion.event_data.action, EventAction::Processed);
}

#[test]
fn repeated_withdrawals_never_overdraw() {
    // Balance 100, seven withdrawals of 30: exactly three succeed and
    // the account ends at 10, never below zero.
    let mut l = Ledger::new();
    let a = account_with_balance(&mut l, 1, "USD", 100);
    let mut successes = 0;
    for _ in 0..7 {
        let r = transactions::create_transaction(&mut l, 1, &request("withdrawal", Some(a), None, 30, "USD"), 200);
        match r {
            Ok(_) => successes += 1,
            Err(AppError::BadRequest(_)) => {},
            Err(_) => panic!("unexpected error kind"),
        }
        assert!(balance_of(&l, a) >= 0);
    }
    assert_eq!(successes, 100 / 30);
    assert_eq!(balance_of(&l, a), 10);
}

#[test]
fn history_is_paginated_newest_first() {
    // 25 transactions for one user, page size 10: page 3 holds 5 and
    // the total is 25.
    let mut l = Ledger::new();
    let a = account_with_balance(&mut l, 1, "USD", 0);
    for k in 0..25 {
        transactions::create_transaction(&mut l, 1, &request("deposit", None, Some(a), 1, "USD"), 300 + k)
            .unwrap();
    }
    let (page3, total) = transactions::get_user_transactions(&l, 1, 3, 10).unwrap();
    assert_eq!(total, 25);
    assert_eq!(page3.len(), 5);
    // Newest first: the third page holds the five oldest.
    let ids: Vec<u64> = page3.iter().map(|t| t.id).collect();
    assert_eq!(ids, vec![4, 3, 2, 1, 0]);
    let (page1, _) = transactions::get_user_transactions(&l, 1, 1, 10).unwrap();
    assert_eq!(page1.first().unwrap().id, 24);
    let (beyond, total_again) = transactions::get_user_transactions(&l, 1, 4, 10).unwrap();
    assert!(beyond.is_empty());
    assert_eq!(total_again, 25);
}

#[test]
fn history_only_lists_involved_users() {
    let mut l = Ledger::new();
    let a = account_with_balance(&mut l, 1, "USD", 100);
    let b = account_with_balance(&mut l, 2, "USD", 0);
    transactions::create_transaction(&mut l, 1, &request("transfer", Some(a), Some(b), 5, "USD"), 200).unwrap();
    transactions::create_transaction(&mut l, 1, &request("withdrawal", Some(a), None, 5, "USD"), 201).unwrap();
    // Both ends of the transfer see it; only the owner sees the
    // withdrawal; a stranger sees nothing.
    let (for_b, total_b) = transactions::get_user_transactions(&l, 2, 1, 10).unwrap();
    assert_eq!(total_b, 1);
    assert_eq!(for_b[0].transaction_type, TransactionType::Transfer);
    let (_, total_a) = transactions::get_user_transactions(&l, 1, 1, 10).unwrap();
    assert_eq!(total_a, 2);
    let (for_nobody, total_nobody) = transactions::get_user_transactions(&l, 3, 1, 10).unwrap();
    assert!(for_nobody.is_empty());
    assert_eq!(total_nobody, 0);
}

#[test]
fn access_control_distinguishes_owner_from_stranger() {
    let mut l = Ledger::new();
    let a = account_with_balance(&mut l, 1, "USD", 100);
    let t = transactions::create_transaction(&mut l, 1, &request("deposit", None, Some(a), 50, "USD"), 200)
        .unwrap();
    assert!(transactions::can_user_access_transaction(&l, 1, t.id).unwrap());
    assert!(!transactions::can_user_access_transaction(&l, 2, t.id).unwrap());
    assert!(!transactions::can_user_access_transaction(&l, 1, 99).unwrap());

    let seen = transaction_service::get_transaction(&l, t.id, 1).unwrap();
    assert_eq!(seen.id, t.id);
    match transaction_service::get_transaction(&l, t.id, 2) {
        Err(e @ AppError::Forbidden(_)) => assert_eq!(e.status_code(), 403),
        _ => panic!("expected forbidden"),
    }
    // A transaction that does not exist is also forbidden at this
    // layer: access fails before existence is revealed.
    assert!(matches!(
        transaction_service::get_transaction(&l, 99, 1),
        Err(AppError::Forbidden(_))
    ));
    match transactions::get_transaction_by_id(&l, 99) {
        Err(AppError::NotFound(_)) => {},
        _ => panic!("expected not found"),
    }
}

#[test]
fn service_normalizes_currency_and_type() {
    let mut l = Ledger::new();
    let a = account_with_balance(&mut l, 1, "USD", 100);
    // Lower-case currency and upper-case type are normalized before
    // processing.
    let t = transaction_service::create_transaction(&mut l, 1, &request("DEPOSIT", None, Some(a), 50, "usd"), 200)
        .unwrap();
    assert_eq!(t.transaction_type, TransactionType::Deposit);
    assert_eq!(t.currency, "USD");
    assert_eq!(balance_of(&l, a), 150);
    // The processor alone also folds the type string.
    let t2 = transactions::create_transaction(&mut l, 1, &request("Withdrawal", Some(a), None, 20, "USD"), 201)
        .unwrap();
    assert_eq!(t2.transaction_type, TransactionType::Withdrawal);
    assert_eq!(balance_of(&l, a), 130);
}

#[test]
fn committed_row_keeps_request_fields() {
    let mut l = Ledger::new();
    let a = account_with_balance(&mut l, 1, "USD", 100);
    let mut req = request("deposit", None, Some(a), 50, "USD");
    req.description = Some("rent".to_string());
    let t = transactions::create_transaction(&mut l, 1, &req, 200).unwrap();
    assert_eq!(t.id, 0);
    assert_eq!(t.source_account_id, None);
    assert_eq!(t.destination_account_id, Some(a));
    assert_eq!(t.description, Some("rent".to_string()));
    assert_eq!(t.currency, "USD");
    assert_eq!(t.created_at, 200);
    assert_eq!(t.updated_at, 200);
    let read_back = transactions::get_transaction_by_id(&l, t.id).unwrap();
    assert_eq!(read_back, t);
}

#[test]
fn list_via_service_matches_store() {
    let mut l = Ledger::new();
    let a = account_with_balance(&mut l, 1, "USD", 0);
    for k in 0..3 {
        transactions::create_transaction(&mut l, 1, &request("deposit", None, Some(a), 1, "USD"), 400 + k)
            .unwrap();
    }
    let (items, total) = transaction_service::list_user_transactions(&l, 1, 1, 2).unwrap();
    assert_eq!(total, 3);
    assert_eq!(items.len(), 2);
    assert_eq!(items[0].id, 2);
    assert_eq!(items[1].id, 1);
}
