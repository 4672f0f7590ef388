use std::cell::Cell;

use clickhouse_mcp::errors::ClickHouseError;
use clickhouse_mcp::errors::RawError;
use clickhouse_mcp::info::ColumnInfo;
use clickhouse_mcp::info::DatabaseInfo;
use clickhouse_mcp::info::TableInfo;
use clickhouse_mcp::render::describe_error;
use clickhouse_mcp::render::render_databases;
use clickhouse_mcp::render::render_schema;
use clickhouse_mcp::render::render_tables;
use clickhouse_mcp::retry::RetryPolicy;
use clickhouse_mcp::service::columns_query;
use clickhouse_mcp::service::database_probe_query;
use clickhouse_mcp::service::databases_query;
use clickhouse_mcp::service::get_table_schema_with;
use clickhouse_mcp::service::ping_query;
use clickhouse_mcp::service::table_probe_query;
use clickhouse_mcp::service::tables_query;
use clickhouse_mcp::service::health_check_with;
use clickhouse_mcp::service::list_databases_with;
use clickhouse_mcp::service::list_tables_with;

fn policy() -> RetryPolicy {
    RetryPolicy { max_retries: 3, base_delay_ms: 1 }
}

fn column(name: &str, column_type: &str) -> ColumnInfo {
    ColumnInfo {
        name: name.to_string(),
        column_type: column_type.to_string(),
        default_type: String::new(),
        default_expression: String::new(),
        comment: String::new(),
        is_in_partition_key: 0,
        is_in_sorting_key: 0,
        is_in_primary_key: 0,
        is_in_sampling_key: 0,
    }
}

#[test]
fn listing_databases_passes_the_rows_through() {
    let r = list_databases_with(&policy(), |_k: u32, _d: u64| {
        Ok(vec![
            DatabaseInfo { name: "default".to_string() },
            DatabaseInfo { name: "system".to_string() },
        ])
    });
    let dbs = r.unwrap();
    assert_eq!(dbs.len(), 2);
    assert_eq!(dbs[0].name, "default");
    assert_eq!(dbs[1].name, "system");
}

#[test]
fn health_check_succeeds_exactly_when_the_probe_does() {
    let r = health_check_with(&policy(), |_k: u32, _d: u64| Ok(1u8));
    assert!(r.is_ok());
    let r = health_check_with(&policy(), |_k: u32, _d: u64| -> Result<u8, RawError> {
        Err(RawError::BadResponse { message: "Access denied".to_string() })
    });
    assert!(matches!(r, Err(ClickHouseError::PermissionDenied { .. })));
}

#[test]
fn absent_database_stops_before_the_table_probe() {
    let table_probe_calls = Cell::new(0u32);
    let fetch_calls = Cell::new(0u32);
    let r = get_table_schema_with(
        "db1",
        "t1",
        &policy(),
        |_k: u32, _d: u64| Ok(0u8),
        |_k: u32, _d: u64| {
            table_probe_calls.set(table_probe_calls.get() + 1);
            Ok(1u8)
        },
        |_k: u32, _d: u64| {
            fetch_calls.set(fetch_calls.get() + 1);
            Ok(vec![column("id", "UInt64")])
        },
    );
    assert_eq!(
        r.unwrap_err(),
        ClickHouseError::DatabaseNotFound { database: "db1".to_string() }
    );
    assert_eq!(table_probe_calls.get(), 0);
    assert_eq!(fetch_calls.get(), 0);
}

#[test]
fn absent_table_stops_before_the_column_listing() {
    let fetch_calls = Cell::new(0u32);
    let r = get_table_schema_with(
        "db1",
        "t1",
        &policy(),
        |_k: u32, _d: u64| Ok(1u8),
        |_k: u32, _d: u64| Ok(0u8),
        |_k: u32, _d: u64| {
            fetch_calls.set(fetch_calls.get() + 1);
            Ok(vec![column("id", "UInt64")])
        },
    );
    assert_eq!(
        r.unwrap_err(),
        ClickHouseError::TableNotFound { database: "db1".to_string(), table: "t1".to_string() }
    );
    assert_eq!(fetch_calls.get(), 0);
}

#[test]
fn empty_column_set_is_a_missing_table() {
    let r = get_table_schema_with(
        "db1",
        "t1",
        &policy(),
        |_k: u32, _d: u64| Ok(1u8),
        |_k: u32, _d: u64| Ok(1u8),
        |_k: u32, _d: u64| Ok(Vec::<ColumnInfo>::new()),
    );
    assert_eq!(
        r.unwrap_err(),
        ClickHouseError::TableNotFound { database: "db1".to_string(), table: "t1".to_string() }
    );
}

#[test]
fn racing_drop_of_the_database_is_remapped() {
    let r = list_tables_with(
        "db1",
        &policy(),
        |_k: u32, _d: u64| Ok(1u8),
        |_k: u32, _d: u64| -> Result<Vec<TableInfo>, RawError> {
            Err(RawError::InvalidParams { message: "db1 doesn't exist".to_string() })
        },
    );
    assert_eq!(
        r.unwrap_err(),
        ClickHouseError::DatabaseNotFound { database: "db1".to_string() }
    );
}

#[test]
fn racing_drop_of_the_table_is_remapped() {
    let r = get_table_schema_with(
        "db1",
        "t1",
        &policy(),
        |_k: u32, _d: u64| Ok(1u8),
        |_k: u32, _d: u64| Ok(1u8),
        |_k: u32, _d: u64| -> Result<Vec<ColumnInfo>, RawError> {
            Err(RawError::InvalidParams { message: "t1 doesn't exist".to_string() })
        },
    );
    assert_eq!(
        r.unwrap_err(),
        ClickHouseError::TableNotFound { database: "db1".to_string(), table: "t1".to_string() }
    );
}

#[test]
fn an_unrelated_listing_failure_is_not_remapped() {
    let r = list_tables_with(
        "db1",
        &policy(),
        |_k: u32, _d: u64| Ok(1u8),
        |_k: u32, _d: u64| -> Result<Vec<TableInfo>, RawError> {
            Err(RawError::InvalidParams { message: "syntax error".to_string() })
        },
    );
    assert_eq!(
        r.unwrap_err(),
        ClickHouseError::QueryFailed { message: "syntax error".to_string() }
    );
}

#[test]
fn listing_tables_passes_the_rows_through() {
    let r = list_tables_with(
        "db1",
        &policy(),
        |_k: u32, _d: u64| Ok(1u8),
        |_k: u32, _d: u64| {
            Ok(vec![TableInfo {
                name: "t1".to_string(),
                database: "db1".to_string(),
                engine: "MergeTree".to_string(),
            }])
        },
    );
    let tables = r.unwrap();
    assert_eq!(tables.len(), 1);
    assert_eq!(tables[0].name, "t1");
}

#[test]
fn database_listing_text_is_exact() {
    let dbs = vec![
        DatabaseInfo { name: "default".to_string() },
        DatabaseInfo { name: "system".to_string() },
    ];
    assert_eq!(
        render_databases(&dbs),
        "Available databases:\n- default\n- system\n"
    );
    assert_eq!(render_databases(&Vec::new()), "Available databases:\n");
}

#[test]
fn table_listing_text_is_exact() {
    let tables = vec![TableInfo {
        name: "events".to_string(),
        database: "db1".to_string(),
        engine: "MergeTree".to_string(),
    }];
    assert_eq!(
        render_tables("db1", &tables),
        "Tables in database 'db1':\n- events (Engine: MergeTree)\n"
    );
}

#[test]
fn schema_text_carries_comments_and_key_roles() {
    let mut id = column("id", "UInt64");
    id.comment = "row id".to_string();
    id.is_in_primary_key = 1;
    id.is_in_sorting_key = 1;
    let mut day = column("day", "Date");
    day.is_in_partition_key = 1;
    let value = column("value", "String");
    let r = render_schema("db1", "events", &vec![id, day, value]);
    assert_eq!(
        r,
        "Schema for table 'db1.events':\n\nColumns:\n\
         - id: UInt64 -- row id [PRIMARY KEY, SORTING KEY]\n\
         - day: Date [PARTITION KEY]\n\
         - value: String\n"
    );
}

#[test]
fn error_messages_are_exact() {
    assert_eq!(
        describe_error(&ClickHouseError::ConnectionFailed { message: "refused".to_string() }),
        "Connection failed: refused"
    );
    assert_eq!(
        describe_error(&ClickHouseError::QueryTimeout { timeout: 0 }),
        "Query timeout after 0s"
    );
    assert_eq!(
        describe_error(&ClickHouseError::QueryTimeout { timeout: 30 }),
        "Query timeout after 30s"
    );
    assert_eq!(
        describe_error(&ClickHouseError::TableNotFound {
            database: "db".to_string(),
            table: "t".to_string(),
        }),
        "Table 't' not found in database 'db'"
    );
    assert_eq!(
        describe_error(&ClickHouseError::InvalidIdentifier {
            identifier: "9x".to_string(),
            reason: "Identifier cannot start with a digit".to_string(),
        }),
        "Invalid identifier '9x': Identifier cannot start with a digit"
    );
    assert_eq!(
        describe_error(&ClickHouseError::ServiceUnavailable { message: "busy".to_string() }),
        "Service unavailable: busy"
    );
    assert_eq!(
        describe_error(&ClickHouseError::AuthenticationFailed { message: "no".to_string() }),
        "Authentication failed: no"
    );
}

#[test]
fn the_query_templates_are_pinned() {
    assert_eq!(ping_query(), "SELECT 1");
    assert_eq!(databases_query(), "SELECT name FROM system.databases ORDER BY name");
    assert_eq!(
        database_probe_query(),
        "SELECT count(*) > 0 FROM system.databases WHERE name = ?"
    );
    assert_eq!(
        table_probe_query(),
        "SELECT count(*) > 0 FROM system.tables WHERE database = ? AND name = ?"
    );
    assert_eq!(
        tables_query(),
        "SELECT name, database, engine FROM system.tables WHERE database = ? ORDER BY name"
    );
    assert_eq!(
        columns_query(),
        "SELECT name, type, default_kind as default_type, default_expression, comment, \
         is_in_partition_key, is_in_sorting_key, is_in_primary_key, is_in_sampling_key \
         FROM system.columns WHERE database = ? AND table = ? ORDER BY position"
    );
}
