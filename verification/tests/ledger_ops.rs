use ledger_core::account::CreateAccountRequest;
use ledger_core::account::AccountStatus;
use ledger_core::accounts;
use ledger_core::account_service;
use ledger_core::error::AppError;
use ledger_core::ledger::Ledger;
use ledger_core::rate_limit::RateLimiter;

fn usd() -> CreateAccountRequest {
    CreateAccountRequest { currency: "USD".to_string() }
}

#[test]
fn open_account_starts_active_with_zero_balance() {
    let mut l = Ledger::new();
    let a = accounts::create_account(&mut l, 1, &usd(), 1000).unwrap();
    assert_eq!(a.id, 0);
    assert_eq!(a.user_id, 1);
    assert_eq!(a.balance, 0);
    assert_eq!(a.currency, "USD");
    assert_eq!(a.status, AccountStatus::Active);
    assert_eq!(a.created_at, 1000);
    assert_eq!(a.updated_at, 1000);
}

#[test]
fn one_account_per_user_and_currency() {
    let mut l = Ledger::new();
    accounts::create_account(&mut l, 1, &usd(), 1000).unwrap();
    let second = accounts::create_account(&mut l, 1, &usd(), 1001);
    match second {
        Err(AppError::BadRequest(msg)) => {
            assert_eq!(msg, "User already has an account in USD currency");
        },
        _ => panic!("expected a conflict"),
    }
    // A different currency, or a different user, is fine.
    let eur = CreateAccountRequest { currency: "EUR".to_string() };
    accounts::create_account(&mut l, 1, &eur, 1002).unwrap();
    accounts::create_account(&mut l, 2, &usd(), 1003).unwrap();
}

#[test]
fn lookup_missing_account_is_not_found() {
    let l = Ledger::new();
    match accounts::get_account(&l, 7) {
        Err(e @ AppError::NotFound(_)) => {
            assert_eq!(e.status_code(), 404);
            assert_eq!(e.message(), "Account not found: 7");
        },
        _ => panic!("expected not found"),
    }
}

#[test]
fn listing_accounts_keeps_creation_order() {
    let mut l = Ledger::new();
    accounts::create_account(&mut l, 1, &usd(), 1).unwrap();
    accounts::create_account(&mut l, 2, &usd(), 2).unwrap();
    let eur = CreateAccountRequest { currency: "EUR".to_string() };
    accounts::create_account(&mut l, 1, &eur, 3).unwrap();
    let mine = accounts::get_user_accounts(&l, 1).unwrap();
    assert_eq!(mine.len(), 2);
    assert_eq!(mine[0].currency, "USD");
    assert_eq!(mine[1].currency, "EUR");
    assert!(accounts::get_user_accounts(&l, 9).unwrap().is_empty());
}

#[test]
fn balance_deltas_accumulate() {
    // The balance after several deltas is the initial balance plus
    // their sum, in any order of application.
    let mut l = Ledger::new();
    let a = accounts::create_account(&mut l, 1, &usd(), 1).unwrap();
    accounts::update_balance(&mut l, a.id, 100, 2).unwrap();
    accounts::update_balance(&mut l, a.id, -30, 3).unwrap();
    let row = accounts::update_balance(&mut l, a.id, 7, 4).unwrap();
    assert_eq!(row.balance, 77);
    assert_eq!(row.updated_at, 4);

    let mut m = Ledger::new();
    let b = accounts::create_account(&mut m, 1, &usd(), 1).unwrap();
    accounts::update_balance(&mut m, b.id, 7, 2).unwrap();
    accounts::update_balance(&mut m, b.id, 100, 3).unwrap();
    let other = accounts::update_balance(&mut m, b.id, -30, 4).unwrap();
    assert_eq!(other.balance, 77);
}

#[test]
fn balance_delta_on_missing_account_is_not_found() {
    let mut l = Ledger::new();
    match accounts::update_balance(&mut l, 3, 10, 1) {
        Err(AppError::NotFound(_)) => {},
        _ => panic!("expected not found"),
    }
}

#[test]
fn balance_delta_overflow_is_a_storage_error() {
    let mut l = Ledger::new();
    let a = accounts::create_account(&mut l, 1, &usd(), 1).unwrap();
    accounts::update_balance(&mut l, a.id, i64::MAX, 2).unwrap();
    match accounts::update_balance(&mut l, a.id, 1, 3) {
        Err(e @ AppError::Database(_)) => assert_eq!(e.status_code(), 500),
        _ => panic!("expected a storage error"),
    }
    // The failed delta left the balance alone.
    assert_eq!(accounts::get_account(&l, a.id).unwrap().balance, i64::MAX);
}

#[test]
fn service_uppercases_currency_on_creation() {
    let mut l = Ledger::new();
    let lower = CreateAccountRequest { currency: "usd".to_string() };
    let a = account_service::create_account(&mut l, 1, &lower, 1).unwrap();
    assert_eq!(a.currency, "USD");
    // The normalized code now conflicts with an upper-case request.
    match account_service::create_account(&mut l, 1, &usd(), 2) {
        Err(AppError::BadRequest(_)) => {},
        _ => panic!("expected a conflict"),
    }
}

#[test]
fn reading_someone_elses_account_is_forbidden() {
    let mut l = Ledger::new();
    let a = accounts::create_account(&mut l, 1, &usd(), 1).unwrap();
    match account_service::get_account(&l, a.id, 2) {
        Err(e @ AppError::Forbidden(_)) => assert_eq!(e.status_code(), 403),
        _ => panic!("expected forbidden"),
    }
    let mine = account_service::get_account(&l, a.id, 1).unwrap();
    assert_eq!(mine.id, a.id);
    match account_service::get_account(&l, 9, 1) {
        Err(AppError::NotFound(_)) => {},
        _ => panic!("expected not found"),
    }
}

#[test]
fn error_kinds_map_to_distinct_status_codes() {
    assert_eq!(AppError::Auth("a".to_string()).status_code(), 401);
    assert_eq!(AppError::Forbidden("f".to_string()).status_code(), 403);
    assert_eq!(AppError::NotFound("n".to_string()).status_code(), 404);
    assert_eq!(AppError::BadRequest("b".to_string()).status_code(), 400);
    assert_eq!(AppError::Validation("v".to_string()).status_code(), 400);
    assert_eq!(AppError::Database("d".to_string()).status_code(), 500);
    assert_eq!(AppError::Internal("i".to_string()).status_code(), 500);
    assert_eq!(AppError::RateLimitExceeded.status_code(), 429);
    assert_eq!(AppError::RateLimitExceeded.message(), "Rate limit exceeded");
    assert_eq!(AppError::BadRequest("why".to_string()).message(), "why");
}

#[test]
fn rate_limiter_window_rule() {
    let rl = RateLimiter::new(2);
    // First request from a client.
    assert_eq!(rl.decide(None), (true, 1, true));
    // Within the window, under the limit.
    assert_eq!(rl.decide(Some((1, 10))), (true, 2, false));
    // Within the window, at the limit.
    assert_eq!(rl.decide(Some((2, 30))), (false, 2, false));
    // An expired window starts over.
    assert_eq!(rl.decide(Some((2, 61))), (true, 1, true));
    let dflt = RateLimiter::default();
    assert_eq!(dflt.requests_per_minute, 60);
}

#[test]
fn pagination_defaults() {
    assert_eq!(ledger_core::pagination::default_page(), 1);
    assert_eq!(ledger_core::pagination::default_page_size(), 10);
}

#[test]
fn token_expiry_adds_lifetime() {
    assert_eq!(ledger_core::jwt::token_expiry(1000, 3600), Some(4600));
    assert_eq!(ledger_core::jwt::token_expiry(i64::MAX, 1), None);
}
