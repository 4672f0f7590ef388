use std::cell::Cell;
use std::cell::RefCell;

use clickhouse_mcp::errors::classify_error;
use clickhouse_mcp::errors::contains_str;
use clickhouse_mcp::errors::is_retryable_error;
use clickhouse_mcp::errors::ClickHouseError;
use clickhouse_mcp::errors::RawError;
use clickhouse_mcp::retry::backoff_delay_ms;
use clickhouse_mcp::retry::default_retry_policy;
use clickhouse_mcp::retry::make_policy;
use clickhouse_mcp::retry::with_retry;
use clickhouse_mcp::retry::RetryPolicy;

fn network_error() -> RawError {
    RawError::Network { message: "connection reset".to_string() }
}

#[test]
fn retry_exhausts_budget_on_persistent_retryable_failure() {
    let calls = Cell::new(0u32);
    let policy = RetryPolicy { max_retries: 3, base_delay_ms: 1 };
    let r: Result<u8, ClickHouseError> = with_retry(&policy, |_k: u32, _d: u64| {
        calls.set(calls.get() + 1);
        Err(network_error())
    });
    assert_eq!(calls.get(), 4);
    assert!(matches!(r, Err(ClickHouseError::NetworkError { .. })));
}

#[test]
fn retry_stops_after_one_attempt_on_nonretryable_failure() {
    let calls = Cell::new(0u32);
    let policy = RetryPolicy { max_retries: 5, base_delay_ms: 1 };
    let r: Result<u8, ClickHouseError> = with_retry(&policy, |_k: u32, _d: u64| {
        calls.set(calls.get() + 1);
        Err(RawError::InvalidParams { message: "bad query".to_string() })
    });
    assert_eq!(calls.get(), 1);
    assert!(matches!(r, Err(ClickHouseError::QueryFailed { .. })));
}

#[test]
fn retry_short_circuits_on_success() {
    let calls = Cell::new(0u32);
    let policy = RetryPolicy { max_retries: 5, base_delay_ms: 1 };
    let r: Result<u8, ClickHouseError> = with_retry(&policy, |k: u32, _d: u64| {
        calls.set(calls.get() + 1);
        if k < 2 {
            Err(network_error())
        } else {
            Ok(7u8)
        }
    });
    assert_eq!(calls.get(), 3);
    assert_eq!(r.unwrap(), 7);
}

#[test]
fn retry_hands_the_exact_backoff_delays_to_the_operation() {
    let delays = RefCell::new(Vec::<u64>::new());
    let policy = RetryPolicy { max_retries: 3, base_delay_ms: 100 };
    let _: Result<u8, ClickHouseError> = with_retry(&policy, |_k: u32, d: u64| {
        delays.borrow_mut().push(d);
        Err(network_error())
    });
    assert_eq!(*delays.borrow(), vec![0, 100, 200, 400]);
}

#[test]
fn backoff_delay_doubles_exactly() {
    let policy = RetryPolicy { max_retries: 8, base_delay_ms: 100 };
    assert_eq!(backoff_delay_ms(&policy, 1), 100);
    assert_eq!(backoff_delay_ms(&policy, 2), 200);
    assert_eq!(backoff_delay_ms(&policy, 3), 400);
    assert_eq!(backoff_delay_ms(&policy, 8), 12800);
    let odd = RetryPolicy { max_retries: 5, base_delay_ms: 7 };
    assert_eq!(backoff_delay_ms(&odd, 5), 112);
}

#[test]
fn retryability_follows_the_failure_channel() {
    assert!(is_retryable_error(&RawError::Network { message: String::new() }));
    assert!(is_retryable_error(&RawError::Other { message: "timeout".to_string() }));
    assert!(!is_retryable_error(&RawError::BadResponse { message: String::new() }));
    assert!(!is_retryable_error(&RawError::InvalidParams { message: String::new() }));
}

#[test]
fn classification_follows_channel_and_message() {
    let r = classify_error(RawError::Network { message: "down".to_string() });
    assert_eq!(r, ClickHouseError::NetworkError { message: "down".to_string() });

    let r = classify_error(RawError::InvalidParams { message: "bad".to_string() });
    assert_eq!(r, ClickHouseError::QueryFailed { message: "bad".to_string() });

    let r = classify_error(RawError::Other { message: "weird".to_string() });
    assert_eq!(r, ClickHouseError::InternalError { message: "weird".to_string() });

    let r = classify_error(RawError::BadResponse {
        message: "Authentication failed: wrong password".to_string(),
    });
    assert!(matches!(r, ClickHouseError::AuthenticationFailed { .. }));

    let r = classify_error(RawError::BadResponse {
        message: "Database foo doesn't exist".to_string(),
    });
    assert_eq!(r, ClickHouseError::DatabaseNotFound { database: "unknown".to_string() });

    let r = classify_error(RawError::BadResponse {
        message: "table bar doesn't exist".to_string(),
    });
    assert_eq!(
        r,
        ClickHouseError::TableNotFound {
            database: "unknown".to_string(),
            table: "unknown".to_string(),
        }
    );

    let r = classify_error(RawError::BadResponse {
        message: "Access denied for user".to_string(),
    });
    assert_eq!(r, ClickHouseError::PermissionDenied { operation: "query".to_string() });

    let r = classify_error(RawError::BadResponse { message: "code 999".to_string() });
    assert_eq!(r, ClickHouseError::QueryFailed { message: "code 999".to_string() });
}

#[test]
fn substring_search_finds_exact_occurrences() {
    assert!(contains_str("hello world", "o w"));
    assert!(contains_str("hello", ""));
    assert!(contains_str("", ""));
    assert!(!contains_str("", "a"));
    assert!(!contains_str("hello", "world"));
    assert!(contains_str("aaab", "aab"));
    assert!(!contains_str("doesn't exis", "doesn't exist"));
}

#[test]
fn the_default_policy_is_three_retries_at_100ms() {
    let p = default_retry_policy();
    assert_eq!(p.max_retries, 3);
    assert_eq!(p.base_delay_ms, 100);
}

#[test]
fn policy_construction_accepts_exactly_the_computable_configurations() {
    assert_eq!(
        make_policy(5, 200),
        Some(RetryPolicy { max_retries: 5, base_delay_ms: 200 })
    );
    assert_eq!(make_policy(0, u64::MAX), Some(RetryPolicy { max_retries: 0, base_delay_ms: u64::MAX }));
    assert_eq!(make_policy(32, 1), Some(RetryPolicy { max_retries: 32, base_delay_ms: 1 }));
    assert!(make_policy(33, 1).is_none());
    assert!(make_policy(40, 100).is_none());
    assert!(make_policy(2, u64::MAX).is_none());
    assert_eq!(
        make_policy(2, u64::MAX / 2),
        Some(RetryPolicy { max_retries: 2, base_delay_ms: u64::MAX / 2 })
    );
}
