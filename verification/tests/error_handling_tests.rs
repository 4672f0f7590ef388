use std::cell::Cell;

use clickhouse_mcp::errors::ClickHouseError;
use clickhouse_mcp::errors::RawError;
use clickhouse_mcp::ident::validate_identifier;
use clickhouse_mcp::info::ColumnInfo;
use clickhouse_mcp::info::TableInfo;
use clickhouse_mcp::render::describe_error;
use clickhouse_mcp::retry::RetryPolicy;
use clickhouse_mcp::service::get_table_schema_with;
use clickhouse_mcp::service::list_tables_with;

fn policy() -> RetryPolicy {
    RetryPolicy { max_retries: 3, base_delay_ms: 10 }
}

fn sample_column() -> ColumnInfo {
    ColumnInfo {
        name: "id".to_string(),
        column_type: "UInt64".to_string(),
        default_type: String::new(),
        default_expression: String::new(),
        comment: String::new(),
        is_in_partition_key: 0,
        is_in_sorting_key: 1,
        is_in_primary_key: 1,
        is_in_sampling_key: 0,
    }
}

#[test]
fn test_invalid_identifier_validation() {
    let probe_calls = Cell::new(0u32);
    let fetch_calls = Cell::new(0u32);
    let result = list_tables_with(
        "",
        &policy(),
        |_k: u32, _d: u64| {
            probe_calls.set(probe_calls.get() + 1);
            Ok(1u8)
        },
        |_k: u32, _d: u64| {
            fetch_calls.set(fetch_calls.get() + 1);
            Ok(Vec::<TableInfo>::new())
        },
    );
    match result {
        Err(ClickHouseError::InvalidIdentifier { identifier, reason }) => {
            assert_eq!(identifier, "");
            assert!(reason.contains("cannot be empty"));
        }
        other => panic!("Expected InvalidIdentifier error, got: {:?}", other),
    }
    assert_eq!(probe_calls.get() + fetch_calls.get(), 0);
}

#[test]
fn test_long_identifier_validation() {
    let long_name: String = "a".repeat(65);
    let probe_calls = Cell::new(0u32);
    let result = list_tables_with(
        long_name.as_str(),
        &policy(),
        |_k: u32, _d: u64| {
            probe_calls.set(probe_calls.get() + 1);
            Ok(1u8)
        },
        |_k: u32, _d: u64| Ok(Vec::<TableInfo>::new()),
    );
    match result {
        Err(ClickHouseError::InvalidIdentifier { identifier, reason }) => {
            assert_eq!(identifier.len(), 65);
            assert!(reason.contains("longer than 64 characters"));
        }
        other => panic!("Expected InvalidIdentifier error, got: {:?}", other),
    }
    assert_eq!(probe_calls.get(), 0);
}

#[test]
fn test_invalid_characters_validation() {
    let probe_calls = Cell::new(0u32);
    let result = list_tables_with(
        "table@name!",
        &policy(),
        |_k: u32, _d: u64| {
            probe_calls.set(probe_calls.get() + 1);
            Ok(1u8)
        },
        |_k: u32, _d: u64| Ok(Vec::<TableInfo>::new()),
    );
    match result {
        Err(ClickHouseError::InvalidIdentifier { identifier, reason }) => {
            assert_eq!(identifier, "table@name!");
            assert!(reason.contains("can only contain"));
        }
        other => panic!("Expected InvalidIdentifier error, got: {:?}", other),
    }
    assert_eq!(probe_calls.get(), 0);
}

#[test]
fn test_identifier_starting_with_digit() {
    let probe_calls = Cell::new(0u32);
    let result = list_tables_with(
        "1table",
        &policy(),
        |_k: u32, _d: u64| {
            probe_calls.set(probe_calls.get() + 1);
            Ok(1u8)
        },
        |_k: u32, _d: u64| Ok(Vec::<TableInfo>::new()),
    );
    match result {
        Err(ClickHouseError::InvalidIdentifier { identifier, reason }) => {
            assert_eq!(identifier, "1table");
            assert!(reason.contains("cannot start with a digit"));
        }
        other => panic!("Expected InvalidIdentifier error, got: {:?}", other),
    }
    assert_eq!(probe_calls.get(), 0);
}

#[test]
fn test_valid_identifiers() {
    for name in ["table1", "my_table", "valid-name", "_underscore"] {
        assert!(
            validate_identifier(name).is_ok(),
            "Identifier '{}' should be valid",
            name
        );
    }
}

#[test]
fn test_error_display_formatting() {
    let timeout = ClickHouseError::QueryTimeout { timeout: 30 };
    let msg = describe_error(&timeout);
    assert!(msg.contains("30") && msg.contains("timeout"));

    let not_found = ClickHouseError::TableNotFound {
        database: "test_db".to_string(),
        table: "test_table".to_string(),
    };
    let msg = describe_error(&not_found);
    assert!(msg.contains("test_db") && msg.contains("test_table"));

    let denied = ClickHouseError::PermissionDenied { operation: "SELECT".to_string() };
    let msg = describe_error(&denied);
    assert!(msg.contains("SELECT"));

    let invalid = ClickHouseError::InvalidIdentifier {
        identifier: "123invalid".to_string(),
        reason: "starts with digit".to_string(),
    };
    let msg = describe_error(&invalid);
    assert!(msg.contains("123invalid") && msg.contains("starts with digit"));
}

#[test]
fn test_schema_validation_for_both_database_and_table() {
    let ok_probe = |_k: u32, _d: u64| Ok(1u8);
    let ok_fetch = |_k: u32, _d: u64| Ok(vec![sample_column()]);

    let r = get_table_schema_with("", "valid_table", &policy(), ok_probe, ok_probe, ok_fetch);
    assert!(matches!(r, Err(ClickHouseError::InvalidIdentifier { .. })));

    let r = get_table_schema_with("valid_db", "", &policy(), ok_probe, ok_probe, ok_fetch);
    assert!(matches!(r, Err(ClickHouseError::InvalidIdentifier { .. })));

    let r = get_table_schema_with("bad db", "valid_table", &policy(), ok_probe, ok_probe, ok_fetch);
    assert!(matches!(r, Err(ClickHouseError::InvalidIdentifier { .. })));

    let r = get_table_schema_with("valid_db", "bad table", &policy(), ok_probe, ok_probe, ok_fetch);
    assert!(matches!(r, Err(ClickHouseError::InvalidIdentifier { .. })));

    let r = get_table_schema_with("9db", "valid_table", &policy(), ok_probe, ok_probe, ok_fetch);
    assert!(matches!(r, Err(ClickHouseError::InvalidIdentifier { .. })));

    let r = get_table_schema_with(
        "valid_db",
        "valid_table",
        &policy(),
        ok_probe,
        ok_probe,
        ok_fetch,
    );
    assert!(r.is_ok());
}

#[test]
fn test_connection_error_handling() {
    let result = list_tables_with(
        "default",
        &RetryPolicy { max_retries: 1, base_delay_ms: 10 },
        |_k: u32, _d: u64| -> Result<u8, RawError> {
            Err(RawError::Network { message: "connection refused".to_string() })
        },
        |_k: u32, _d: u64| Ok(Vec::<TableInfo>::new()),
    );
    assert!(
        matches!(result, Err(ClickHouseError::NetworkError { .. })),
        "Expected NetworkError, got: {:?}",
        result
    );
}

#[test]
fn test_nonexistent_database_error() {
    let result = list_tables_with(
        "nonexistent_database_12345",
        &policy(),
        |_k: u32, _d: u64| Ok(0u8),
        |_k: u32, _d: u64| Ok(Vec::<TableInfo>::new()),
    );
    match result {
        Err(ClickHouseError::DatabaseNotFound { database }) => {
            assert_eq!(database, "nonexistent_database_12345");
        }
        other => panic!("Expected DatabaseNotFound, got: {:?}", other),
    }
}
