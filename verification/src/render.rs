//! Rendering of human-readable text: the message of each domain error,
//! and the text bodies that the three tool invocations return.
//!
//! Every renderer carries an exact contract: the text it builds is pinned,
//! character by character, by a spec function over the value's model.

use vstd::prelude::*;
use vstd::string::StringExecFns;

use crate::codec::append_digit;
use crate::codec::digit_char;
use crate::errors::ClickHouseError;
use crate::errors::ErrorModel;
use crate::info::ColumnInfo;
use crate::info::ColumnModel;
use crate::info::DatabaseInfo;
use crate::info::DatabaseModel;
use crate::info::TableInfo;
use crate::info::TableModel;

verus! {

/// The decimal digits of `n`, most significant first, no leading zeros
/// (a single zero for 0).
pub open spec fn dec_digits(n: nat) -> Seq<char>
    decreases n,
{
    if n < 10 {
        seq![digit_char(n as int)]
    } else {
        dec_digits(n / 10) + seq![digit_char((n % 10) as int)]
    }
}

/// Writes `n` in decimal.
pub fn u64_to_dec(n: u64) -> (r: String)
    ensures
        r@ == dec_digits(n as nat),
    decreases n,
{
    if n < 10 {
        let mut out = String::new();
        append_digit(&mut out, n as u8);
        proof {
            assert(Seq::<char>::empty() + seq![digit_char(n as int)] =~= dec_digits(n as nat));
        }
        out
    } else {
        let mut out = u64_to_dec(n / 10);
        append_digit(&mut out, (n % 10) as u8);
        out
    }
}

/// The message of each error kind: the kind's phrase with its context
/// fields interpolated.
pub open spec fn spec_describe(e: ErrorModel) -> Seq<char> {
    match e {
        ErrorModel::ConnectionFailed { message } => "Connection failed: "@ + message,
        ErrorModel::DatabaseNotFound { database } => "Database '"@ + database + "' not found"@,
        ErrorModel::TableNotFound { database, table } => "Table '"@ + table
            + "' not found in database '"@ + database + "'"@,
        ErrorModel::PermissionDenied { operation } => "Permission denied for operation: "@
            + operation,
        ErrorModel::QueryTimeout { timeout } => "Query timeout after "@ + dec_digits(timeout as nat)
            + "s"@,
        ErrorModel::InvalidIdentifier { identifier, reason } => "Invalid identifier '"@ + identifier
            + "': "@ + reason,
        ErrorModel::NetworkError { message } => "Network error: "@ + message,
        ErrorModel::AuthenticationFailed { message } => "Authentication failed: "@ + message,
        ErrorModel::QueryFailed { message } => "Query failed: "@ + message,
        ErrorModel::ServiceUnavailable { message } => "Service unavailable: "@ + message,
        ErrorModel::InternalError { message } => "Internal error: "@ + message,
    }
}

/// Renders the message of a domain error.
pub fn describe_error(e: &ClickHouseError) -> (r: String)
    ensures
        r@ == spec_describe(e@),
{
    match e {
        ClickHouseError::ConnectionFailed { message } => {
            let mut out = String::from_str("Connection failed: ");
            out.append(message.as_str());
            out
        },
        ClickHouseError::DatabaseNotFound { database } => {
            let mut out = String::from_str("Database '");
            out.append(database.as_str());
            out.append("' not found");
            out
        },
        ClickHouseError::TableNotFound { database, table } => {
            let mut out = String::from_str("Table '");
            out.append(table.as_str());
            out.append("' not found in database '");
            out.append(database.as_str());
            out.append("'");
            out
        },
        ClickHouseError::PermissionDenied { operation } => {
            let mut out = String::from_str("Permission denied for operation: ");
            out.append(operation.as_str());
            out
        },
        ClickHouseError::QueryTimeout { timeout } => {
            let mut out = String::from_str("Query timeout after ");
            let digits = u64_to_dec(*timeout);
            out.append(digits.as_str());
            out.append("s");
            out
        },
        ClickHouseError::InvalidIdentifier { identifier, reason } => {
            let mut out = String::from_str("Invalid identifier '");
            out.append(identifier.as_str());
            out.append("': ");
            out.append(reason.as_str());
            out
        },
        ClickHouseError::NetworkError { message } => {
            let mut out = String::from_str("Network error: ");
            out.append(message.as_str());
            out
        },
        ClickHouseError::AuthenticationFailed { message } => {
            let mut out = String::from_str("Authentication failed: ");
            out.append(message.as_str());
            out
        },
        ClickHouseError::QueryFailed { message } => {
            let mut out = String::from_str("Query failed: ");
            out.append(message.as_str());
            out
        },
        ClickHouseError::ServiceUnavailable { message } => {
            let mut out = String::from_str("Service unavailable: ");
            out.append(message.as_str());
            out
        },
        ClickHouseError::InternalError { message } => {
            let mut out = String::from_str("Internal error: ");
            out.append(message.as_str());
            out
        },
    }
}

/// One line of the database listing.
pub open spec fn database_line(d: DatabaseModel) -> Seq<char> {
    "- "@ + d.name + "\n"@
}

/// The lines of the database listing, in order.
pub open spec fn databases_lines(ds: Seq<DatabaseModel>) -> Seq<char>
    decreases ds.len(),
{
    if ds.len() == 0 {
        Seq::empty()
    } else {
        database_line(ds[0]) + databases_lines(ds.drop_first())
    }
}

/// The text body of a database listing.
pub open spec fn databases_reply(ds: Seq<DatabaseModel>) -> Seq<char> {
    "Available databases:\n"@ + databases_lines(ds)
}

/// Listing one more database appends its line.
proof fn lemma_databases_lines_snoc(ds: Seq<DatabaseModel>, d: DatabaseModel)
    ensures
        databases_lines(ds.push(d)) == databases_lines(ds) + database_line(d),
    decreases ds.len(),
{
    if ds.len() == 0 {
        assert(ds.push(d)[0] == d);
        assert(ds.push(d).drop_first() =~= Seq::<DatabaseModel>::empty());
        assert(databases_lines(Seq::<DatabaseModel>::empty()) == Seq::<char>::empty());
        assert(databases_lines(ds.push(d)) =~= database_line(d));
        assert(databases_lines(ds) + database_line(d) =~= database_line(d));
    } else {
        assert(ds.push(d).drop_first() =~= ds.drop_first().push(d));
        assert(ds.push(d)[0] == ds[0]);
        lemma_databases_lines_snoc(ds.drop_first(), d);
        assert(database_line(ds[0]) + (databases_lines(ds.drop_first()) + database_line(d)) =~= (
        database_line(ds[0]) + databases_lines(ds.drop_first())) + database_line(d));
    }
}

/// Renders the text body of a database listing.
pub fn render_databases(ds: &Vec<DatabaseInfo>) -> (r: String)
    ensures
        r@ == databases_reply(ds@.map_values(|d: DatabaseInfo| d@)),
{
    let ghost models = ds@.map_values(|d: DatabaseInfo| d@);
    let mut out = String::from_str("Available databases:\n");
    proof {
        assert(models.take(0) =~= Seq::<DatabaseModel>::empty());
        assert(out@ =~= "Available databases:\n"@ + databases_lines(models.take(0)));
    }
    let mut i: usize = 0;
    while i < ds.len()
        invariant
            models == ds@.map_values(|d: DatabaseInfo| d@),
            0 <= i <= ds.len(),
            models.len() == ds.len(),
            out@ == "Available databases:\n"@ + databases_lines(models.take(i as int)),
        decreases ds.len() - i,
    {
        proof {
            assert(models.take(i as int).push(models[i as int]) =~= models.take(i as int + 1));
            lemma_databases_lines_snoc(models.take(i as int), models[i as int]);
        }
        out.append("- ");
        out.append(ds[i].name.as_str());
        out.append("\n");
        proof {
            assert(out@ =~= "Available databases:\n"@ + databases_lines(
                models.take(i as int + 1),
            ));
        }
        i = i + 1;
    }
    proof {
        assert(models.take(models.len() as int) =~= models);
    }
    out
}

/// One line of the table listing.
pub open spec fn table_line(t: TableModel) -> Seq<char> {
    "- "@ + t.name + " (Engine: "@ + t.engine + ")\n"@
}

/// The lines of the table listing, in order.
pub open spec fn tables_lines(ts: Seq<TableModel>) -> Seq<char>
    decreases ts.len(),
{
    if ts.len() == 0 {
        Seq::empty()
    } else {
        table_line(ts[0]) + tables_lines(ts.drop_first())
    }
}

/// The text body of a table listing.
pub open spec fn tables_reply(database: Seq<char>, ts: Seq<TableModel>) -> Seq<char> {
    "Tables in database '"@ + database + "':\n"@ + tables_lines(ts)
}

/// Listing one more table appends its line.
proof fn lemma_tables_lines_snoc(ts: Seq<TableModel>, t: TableModel)
    ensures
        tables_lines(ts.push(t)) == tables_lines(ts) + table_line(t),
    decreases ts.len(),
{
    if ts.len() == 0 {
        assert(ts.push(t)[0] == t);
        assert(ts.push(t).drop_first() =~= Seq::<TableModel>::empty());
        assert(tables_lines(Seq::<TableModel>::empty()) == Seq::<char>::empty());
        assert(tables_lines(ts.push(t)) =~= table_line(t));
        assert(tables_lines(ts) + table_line(t) =~= table_line(t));
    } else {
        assert(ts.push(t).drop_first() =~= ts.drop_first().push(t));
        assert(ts.push(t)[0] == ts[0]);
        lemma_tables_lines_snoc(ts.drop_first(), t);
        assert(table_line(ts[0]) + (tables_lines(ts.drop_first()) + table_line(t)) =~= (table_line(
            ts[0],
        ) + tables_lines(ts.drop_first())) + table_line(t));
    }
}

/// Renders the text body of a table listing.
pub fn render_tables(database: &str, ts: &Vec<TableInfo>) -> (r: String)
    ensures
        r@ == tables_reply(database@, ts@.map_values(|t: TableInfo| t@)),
{
    let ghost models = ts@.map_values(|t: TableInfo| t@);
    let mut out = String::from_str("Tables in database '");
    out.append(database);
    out.append("':\n");
    let ghost header = out@;
    proof {
        assert(models.take(0) =~= Seq::<TableModel>::empty());
        assert(header =~= "Tables in database '"@ + database@ + "':\n"@);
        assert(out@ =~= header + tables_lines(models.take(0)));
    }
    let mut i: usize = 0;
    while i < ts.len()
        invariant
            models == ts@.map_values(|t: TableInfo| t@),
            0 <= i <= ts.len(),
            models.len() == ts.len(),
            header == "Tables in database '"@ + database@ + "':\n"@,
            out@ == header + tables_lines(models.take(i as int)),
        decreases ts.len() - i,
    {
        proof {
            assert(models.take(i as int).push(models[i as int]) =~= models.take(i as int + 1));
            lemma_tables_lines_snoc(models.take(i as int), models[i as int]);
        }
        out.append("- ");
        out.append(ts[i].name.as_str());
        out.append(" (Engine: ");
        out.append(ts[i].engine.as_str());
        out.append(")\n");
        proof {
            assert(out@ =~= header + tables_lines(models.take(i as int + 1)));
        }
        i = i + 1;
    }
    proof {
        assert(models.take(models.len() as int) =~= models);
    }
    out
}

/// The key labels of one column, in the order they are reported:
/// primary, sorting, partition, sampling; a flag takes part exactly when
/// it is 1.
pub open spec fn key_parts(c: ColumnModel) -> Seq<Seq<char>> {
    (if c.is_in_primary_key == 1 {
        seq!["PRIMARY KEY"@]
    } else {
        Seq::empty()
    }) + (if c.is_in_sorting_key == 1 {
        seq!["SORTING KEY"@]
    } else {
        Seq::empty()
    }) + (if c.is_in_partition_key == 1 {
        seq!["PARTITION KEY"@]
    } else {
        Seq::empty()
    }) + (if c.is_in_sampling_key == 1 {
        seq!["SAMPLING KEY"@]
    } else {
        Seq::empty()
    })
}

/// The labels joined by a comma and a space.
pub open spec fn join_parts(parts: Seq<Seq<char>>) -> Seq<char>
    decreases parts.len(),
{
    if parts.len() == 0 {
        Seq::empty()
    } else if parts.len() == 1 {
        parts[0]
    } else {
        join_parts(parts.drop_last()) + ", "@ + parts.last()
    }
}

/// The bracketed key annotation of one column, empty when the column
/// takes part in no key.
pub open spec fn keys_text(c: ColumnModel) -> Seq<char> {
    if key_parts(c).len() == 0 {
        Seq::empty()
    } else {
        " ["@ + join_parts(key_parts(c)) + "]"@
    }
}

/// One line of the schema listing.
pub open spec fn column_line(c: ColumnModel) -> Seq<char> {
    "- "@ + c.name + ": "@ + c.column_type + (if c.comment.len() > 0 {
        " -- "@ + c.comment
    } else {
        Seq::empty()
    }) + keys_text(c) + "\n"@
}

/// The lines of the schema listing, in order.
pub open spec fn columns_lines(cs: Seq<ColumnModel>) -> Seq<char>
    decreases cs.len(),
{
    if cs.len() == 0 {
        Seq::empty()
    } else {
        column_line(cs[0]) + columns_lines(cs.drop_first())
    }
}

/// The text body of a schema listing.
pub open spec fn schema_reply(database: Seq<char>, table: Seq<char>, cs: Seq<ColumnModel>) -> Seq<
    char,
> {
    "Schema for table '"@ + database + "."@ + table + "':\n\nColumns:\n"@ + columns_lines(cs)
}

/// Listing one more column appends its line.
proof fn lemma_columns_lines_snoc(cs: Seq<ColumnModel>, c: ColumnModel)
    ensures
        columns_lines(cs.push(c)) == columns_lines(cs) + column_line(c),
    decreases cs.len(),
{
    if cs.len() == 0 {
        assert(cs.push(c)[0] == c);
        assert(cs.push(c).drop_first() =~= Seq::<ColumnModel>::empty());
        assert(columns_lines(Seq::<ColumnModel>::empty()) == Seq::<char>::empty());
        assert(columns_lines(cs.push(c)) =~= column_line(c));
        assert(columns_lines(cs) + column_line(c) =~= column_line(c));
    } else {
        assert(cs.push(c).drop_first() =~= cs.drop_first().push(c));
        assert(cs.push(c)[0] == cs[0]);
        lemma_columns_lines_snoc(cs.drop_first(), c);
        assert(column_line(cs[0]) + (columns_lines(cs.drop_first()) + column_line(c)) =~= (
        column_line(cs[0]) + columns_lines(cs.drop_first())) + column_line(c));
    }
}

/// Appends the bracketed key annotation of one column.
fn append_keys(out: &mut String, c: &ColumnInfo)
    ensures
        final(out)@ == old(out)@ + keys_text(c@),
{
    let mut body = String::new();
    let mut any = false;
    let ghost mut parts: Seq<Seq<char>> = Seq::empty();
    if c.is_in_primary_key == 1 {
        if any {
            body.append(", ");
        }
        body.append("PRIMARY KEY");
        proof {
            assert(parts.push("PRIMARY KEY"@).drop_last() =~= parts);
            parts = parts.push("PRIMARY KEY"@);
            assert(body@ =~= join_parts(parts));
        }
        any = true;
    }
    if c.is_in_sorting_key == 1 {
        if any {
            body.append(", ");
        }
        body.append("SORTING KEY");
        proof {
            assert(parts.push("SORTING KEY"@).drop_last() =~= parts);
            parts = parts.push("SORTING KEY"@);
            assert(body@ =~= join_parts(parts));
        }
        any = true;
    }
    if c.is_in_partition_key == 1 {
        if any {
            body.append(", ");
        }
        body.append("PARTITION KEY");
        proof {
            assert(parts.push("PARTITION KEY"@).drop_last() =~= parts);
            parts = parts.push("PARTITION KEY"@);
            assert(body@ =~= join_parts(parts));
        }
        any = true;
    }
    if c.is_in_sampling_key == 1 {
        if any {
            body.append(", ");
        }
        body.append("SAMPLING KEY");
        proof {
            assert(parts.push("SAMPLING KEY"@).drop_last() =~= parts);
            parts = parts.push("SAMPLING KEY"@);
            assert(body@ =~= join_parts(parts));
        }
        any = true;
    }
    proof {
        assert(parts =~~= key_parts(c@));
        assert(body@ == join_parts(key_parts(c@)));
    }
    if any {
        out.append(" [");
        out.append(body.as_str());
        out.append("]");
        proof {
            assert(final(out)@ =~= old(out)@ + keys_text(c@));
        }
    } else {
        proof {
            assert(old(out)@ + keys_text(c@) =~= old(out)@);
        }
    }
}

/// Renders the text body of a schema listing.
pub fn render_schema(database: &str, table: &str, cs: &Vec<ColumnInfo>) -> (r: String)
    ensures
        r@ == schema_reply(database@, table@, cs@.map_values(|c: ColumnInfo| c@)),
{
    let ghost models = cs@.map_values(|c: ColumnInfo| c@);
    let mut out = String::from_str("Schema for table '");
    out.append(database);
    out.append(".");
    out.append(table);
    out.append("':\n\nColumns:\n");
    let ghost header = out@;
    proof {
        assert(models.take(0) =~= Seq::<ColumnModel>::empty());
        assert(header =~= "Schema for table '"@ + database@ + "."@ + table@ + "':\n\nColumns:\n"@);
        assert(out@ =~= header + columns_lines(models.take(0)));
    }
    let mut i: usize = 0;
    while i < cs.len()
        invariant
            models == cs@.map_values(|c: ColumnInfo| c@),
            0 <= i <= cs.len(),
            models.len() == cs.len(),
            header == "Schema for table '"@ + database@ + "."@ + table@ + "':\n\nColumns:\n"@,
            out@ == header + columns_lines(models.take(i as int)),
        decreases cs.len() - i,
    {
        proof {
            assert(models.take(i as int).push(models[i as int]) =~= models.take(i as int + 1));
            lemma_columns_lines_snoc(models.take(i as int), models[i as int]);
        }
        out.append("- ");
        out.append(cs[i].name.as_str());
        out.append(": ");
        out.append(cs[i].column_type.as_str());
        if !cs[i].comment.as_str().is_empty() {
            out.append(" -- ");
            out.append(cs[i].comment.as_str());
        }
        append_keys(&mut out, &cs[i]);
        out.append("\n");
        proof {
            assert(out@ =~= header + columns_lines(models.take(i as int + 1)));
        }
        i = i + 1;
    }
    proof {
        assert(models.take(models.len() as int) =~= models);
    }
    out
}

} // verus!
