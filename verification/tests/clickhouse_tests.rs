use clickhouse_mcp::codec::decode_column_info;
use clickhouse_mcp::codec::decode_database_info;
use clickhouse_mcp::codec::decode_table_info;
use clickhouse_mcp::codec::encode_column_info;
use clickhouse_mcp::codec::encode_database_info;
use clickhouse_mcp::codec::encode_table_info;
use clickhouse_mcp::info::ColumnInfo;
use clickhouse_mcp::info::DatabaseInfo;
use clickhouse_mcp::info::TableInfo;

#[test]
fn test_database_info_serialization() {
    let db = DatabaseInfo { name: "test_db".to_string() };
    let encoded = encode_database_info(&db);
    let decoded = decode_database_info(encoded.as_str()).expect("decoding must succeed");
    assert_eq!(decoded.name, "test_db");
}

#[test]
fn test_table_info_serialization() {
    let table = TableInfo {
        name: "test_table".to_string(),
        database: "test_db".to_string(),
        engine: "MergeTree".to_string(),
    };
    let encoded = encode_table_info(&table);
    let decoded = decode_table_info(encoded.as_str()).expect("decoding must succeed");
    assert_eq!(decoded.name, "test_table");
    assert_eq!(decoded.database, "test_db");
    assert_eq!(decoded.engine, "MergeTree");
}

#[test]
fn test_column_info_serialization() {
    let column = ColumnInfo {
        name: "id".to_string(),
        column_type: "UInt64".to_string(),
        default_type: String::new(),
        default_expression: String::new(),
        comment: "Primary key".to_string(),
        is_in_partition_key: 0,
        is_in_sorting_key: 1,
        is_in_primary_key: 1,
        is_in_sampling_key: 0,
    };
    let encoded = encode_column_info(&column);
    let decoded = decode_column_info(encoded.as_str()).expect("decoding must succeed");
    assert_eq!(decoded.name, "id");
    assert_eq!(decoded.column_type, "UInt64");
    assert_eq!(decoded.comment, "Primary key");
    assert_eq!(decoded.is_in_sorting_key, 1);
    assert_eq!(decoded.is_in_sampling_key, 0);
}

#[test]
fn test_json_rpc_request_structure() {
    let line = "{\"jsonrpc\":\"2.0\",\"method\":\"tools/call\",\"params\":{\"name\":\"list_databases\",\"arguments\":{}},\"id\":1}";
    let v: serde_json::Value = serde_json::from_str(line).expect("the line must parse");
    assert_eq!(v["jsonrpc"], "2.0");
    assert_eq!(v["method"], "tools/call");
    assert_eq!(v["params"]["name"], "list_databases");
}

#[test]
fn test_json_rpc_tool_call_params() {
    let line = "{\"jsonrpc\":\"2.0\",\"method\":\"tools/call\",\"params\":{\"name\":\"list_tables\",\"arguments\":{\"database\":\"system\"}},\"id\":2}";
    let v: serde_json::Value = serde_json::from_str(line).expect("the line must parse");
    assert_eq!(v["params"]["name"], "list_tables");
    assert_eq!(v["params"]["arguments"]["database"], "system");
}

#[test]
fn test_json_rpc_get_schema_params() {
    let line = "{\"jsonrpc\":\"2.0\",\"method\":\"tools/call\",\"params\":{\"name\":\"get_table_schema\",\"arguments\":{\"database\":\"system\",\"table\":\"tables\"}},\"id\":3}";
    let v: serde_json::Value = serde_json::from_str(line).expect("the line must parse");
    assert_eq!(v["params"]["name"], "get_table_schema");
    assert_eq!(v["params"]["arguments"]["database"], "system");
    assert_eq!(v["params"]["arguments"]["table"], "tables");
}
