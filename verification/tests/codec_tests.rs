use clickhouse_mcp::codec::decode_column_info;
use clickhouse_mcp::codec::decode_database_info;
use clickhouse_mcp::codec::decode_table_info;
use clickhouse_mcp::codec::encode_column_info;
use clickhouse_mcp::codec::encode_database_info;
use clickhouse_mcp::codec::encode_table_info;
use clickhouse_mcp::ident::validate_identifier;
use clickhouse_mcp::info::ColumnInfo;
use clickhouse_mcp::info::DatabaseInfo;
use clickhouse_mcp::info::TableInfo;

#[test]
fn database_roundtrip_with_awkward_characters() {
    for name in ["", "plain", "with\nnewline", "with\\backslash", "\\n", "mixed\\\n\\n", "ünïcode"]
    {
        let v = DatabaseInfo { name: name.to_string() };
        let decoded = decode_database_info(encode_database_info(&v).as_str()).unwrap();
        assert_eq!(decoded, v);
    }
}

#[test]
fn table_roundtrip_with_empty_fields() {
    let v = TableInfo { name: String::new(), database: String::new(), engine: String::new() };
    let decoded = decode_table_info(encode_table_info(&v).as_str()).unwrap();
    assert_eq!(decoded, v);
}

#[test]
fn column_roundtrip_over_flag_values() {
    for flags in [(0u8, 0u8, 0u8, 0u8), (1, 1, 1, 1), (0, 1, 0, 1), (255, 7, 10, 100)] {
        let v = ColumnInfo {
            name: "n".to_string(),
            column_type: String::new(),
            default_type: "DEFAULT".to_string(),
            default_expression: "now()".to_string(),
            comment: "line1\nline2".to_string(),
            is_in_partition_key: flags.0,
            is_in_sorting_key: flags.1,
            is_in_primary_key: flags.2,
            is_in_sampling_key: flags.3,
        };
        let decoded = decode_column_info(encode_column_info(&v).as_str()).unwrap();
        assert_eq!(decoded, v);
    }
}

#[test]
fn malformed_records_are_rejected() {
    assert!(decode_database_info("").is_none());
    assert!(decode_database_info("no terminator").is_none());
    assert!(decode_database_info("bad escape \\x\n").is_none());
    assert!(decode_database_info("trailing\nmore").is_none());
    assert!(decode_table_info("only\ntwo\n").is_none());
    assert!(decode_column_info("a\nb\nc\nd\ne\n00100a001000").is_none());
    assert!(decode_column_info("a\nb\nc\nd\ne\n999000000000").is_none());
}

#[test]
fn identifier_boundaries_are_exact() {
    let just_right: String = "a".repeat(64);
    assert!(validate_identifier(just_right.as_str()).is_ok());
    let too_long: String = "a".repeat(65);
    assert!(validate_identifier(too_long.as_str()).is_err());
    assert!(validate_identifier("é").is_err());
    assert!(validate_identifier("_").is_ok());
    assert!(validate_identifier("-lead").is_ok());
    assert!(validate_identifier("0").is_err());
}
